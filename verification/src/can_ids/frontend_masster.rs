//! Identifiers of the virtual master front end.
use vstd::prelude::*;

verus! {

/// climb rates from the virtual master device
pub const AVG_CLIMB_RATES: u16 = 0x282;

} // verus!
