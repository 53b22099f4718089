//! Errors of the core logic.
use vstd::prelude::*;

verus! {

/// What can go wrong in the core logic.
#[derive(Clone, Copy, PartialEq, Eq, Debug, Structural)]
pub enum CoreError {
    /// A received datagram does not have the expected form.
    ParseError,
    /// A value does not fit into its text form.
    ConversionError,
    /// The scheduler's queue of callbacks is full.
    SchedulerQueueOverflow,
}

} // verus!
