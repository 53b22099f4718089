//! Functions of an input pin of the simpler kind: not connected, active when closed, active
//! when opened.
use crate::model::PinState;
use crate::text::same_text;
use vstd::prelude::*;
use vstd::string::StringSliceAdditionalSpecFns;

verus! {

pub const PIN_NONE: &'static str = "Not connected";
pub const PIN_CLOSE: &'static str = "When closed";
pub const PIN_OPEN: &'static str = "When opened";

#[derive(Clone, Copy, PartialEq, Eq, Debug, Structural)]
pub enum PinFunction {
    NotConnected,
    OnClose,
    OnOpen,
}

impl From<u8> for PinFunction {
    fn from(value: u8) -> (r: Self) {
        match value {
            1 => PinFunction::OnClose,
            2 => PinFunction::OnOpen,
            _ => PinFunction::NotConnected,
        }
    }
}

impl vstd::std_specs::convert::FromSpecImpl<u8> for PinFunction {
    open spec fn obeys_from_spec() -> bool {
        true
    }

    open spec fn from_spec(v: u8) -> Self {
        if v == 1 {
            PinFunction::OnClose
        } else if v == 2 {
            PinFunction::OnOpen
        } else {
            PinFunction::NotConnected
        }
    }
}

impl<'a> From<&'a str> for PinFunction {
    fn from(value: &'a str) -> (r: Self) {
        if same_text(value, PIN_CLOSE) {
            PinFunction::OnClose
        } else if same_text(value, PIN_OPEN) {
            PinFunction::OnOpen
        } else {
            PinFunction::NotConnected
        }
    }
}

impl<'a> vstd::std_specs::convert::FromSpecImpl<&'a str> for PinFunction {
    open spec fn obeys_from_spec() -> bool {
        true
    }

    open spec fn from_spec(v: &'a str) -> Self {
        if v.spec_bytes() == PIN_CLOSE.spec_bytes() {
            PinFunction::OnClose
        } else if v.spec_bytes() == PIN_OPEN.spec_bytes() {
            PinFunction::OnOpen
        } else {
            PinFunction::NotConnected
        }
    }
}

impl PinFunction {
    /// The text that the menu shows for the function.
    pub fn as_str(&self) -> (r: &'static str)
        ensures
            r == (match self {
                PinFunction::NotConnected => PIN_NONE,
                PinFunction::OnClose => PIN_CLOSE,
                PinFunction::OnOpen => PIN_OPEN,
            }),
    {
        match self {
            PinFunction::NotConnected => PIN_NONE,
            PinFunction::OnClose => PIN_CLOSE,
            PinFunction::OnOpen => PIN_OPEN,
        }
    }

    /// Whether a pin with this function is active at the given level.
    pub open spec fn spec_is_active(self, state: PinState) -> bool {
        match self {
            PinFunction::NotConnected => false,
            PinFunction::OnClose => state == PinState::Low,
            PinFunction::OnOpen => state == PinState::High,
        }
    }
}

} // verus!
