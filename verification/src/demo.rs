//! The demo mode presets values that the sensor normally measures, by keys and rotary
//! encoders: to get familiar with the displays, or to check the speed command and the polar.
use crate::model::{ControlResult, EditMode, Editable, FlyMode, KeyEvent, VarioMode};
use vstd::prelude::*;

verus! {

/// The value that the encoders change in the demo mode.
#[derive(Clone, Copy, PartialEq, Eq, Debug, Structural)]
pub enum DemoKind {
    Vario,
    Speed,
    WindDirection,
    WindSpeed,
    Last,
}

impl DemoKind {
    /// The number of the kind: the demo values count from 1, `Last` is 5.
    pub open spec fn code(self) -> u8 {
        match self {
            DemoKind::Vario => 1,
            DemoKind::Speed => 2,
            DemoKind::WindDirection => 3,
            DemoKind::WindSpeed => 4,
            DemoKind::Last => 5,
        }
    }

    fn to_u8(self) -> (r: u8)
        ensures
            r == self.code(),
    {
        match self {
            DemoKind::Vario => 1,
            DemoKind::Speed => 2,
            DemoKind::WindDirection => 3,
            DemoKind::WindSpeed => 4,
            DemoKind::Last => 5,
        }
    }

    /// The kind with the number `val`, wrapped into 1..=4: from `Last` on it starts at 1 again,
    /// below 1 it continues at 4.
    pub open spec fn fitted(val: u8) -> DemoKind {
        let v = if val >= 5 { 1 } else { val };
        let v = if v == 0 { 4 } else { v };
        if v == 1 {
            DemoKind::Vario
        } else if v == 2 {
            DemoKind::Speed
        } else if v == 3 {
            DemoKind::WindDirection
        } else {
            DemoKind::WindSpeed
        }
    }

    /// The next demo value, after the last the first.
    pub fn inc(&mut self)
        ensures
            *final(self) == Self::fitted((old(self).code() + 1) as u8),
    {
        let val = self.to_u8() + 1;
        self.fit_to_range(val)
    }

    /// The previous demo value, before the first the last.
    pub fn dec(&mut self)
        ensures
            *final(self) == Self::fitted((old(self).code() - 1) as u8),
    {
        let val = self.to_u8() - 1;
        self.fit_to_range(val)
    }

    fn fit_to_range(&mut self, val: u8)
        ensures
            *final(self) == Self::fitted(val),
    {
        let mut val = val;
        if val >= 5 {
            val = 1
        }
        if val == 0 {
            val = 4
        }
        *self = if val == 1 {
            DemoKind::Vario
        } else if val == 2 {
            DemoKind::Speed
        } else if val == 3 {
            DemoKind::WindDirection
        } else {
            DemoKind::WindSpeed
        };
    }

    /// The value that the editor shows for the kind.
    pub open spec fn editable(self) -> Editable {
        match self {
            DemoKind::Vario => Editable::ClimbRate,
            DemoKind::Speed => Editable::Speed,
            DemoKind::WindSpeed => Editable::WindSpeed,
            DemoKind::WindDirection => Editable::WindDirection,
            DemoKind::Last => Editable::ClimbRate,
        }
    }
}

/// Control component of the demo mode.
pub struct DemoController {
    demo_kind: DemoKind,
}

impl DemoController {
    pub fn new() -> (r: Self)
        ensures
            r.spec_demo_kind() == DemoKind::Vario,
    {
        DemoController { demo_kind: DemoKind::Vario }
    }

    pub closed spec fn spec_demo_kind(self) -> DemoKind {
        self.demo_kind
    }

    /// The value that the encoders change now.
    pub fn demo_kind(&self) -> (r: DemoKind)
        ensures
            r == self.spec_demo_kind(),
    {
        self.demo_kind
    }

    /// Interprets a key event: key 1 and key 2 step forwards and backwards through the demo
    /// values, key 3 switches between vario (circling) and speed to fly (straight flight).
    /// Other events than no event and key 3 open the editor for the current demo value.
    ///
    /// The change of the value itself by the encoders is left to the caller.
    pub fn key_action(&mut self, vario_mode: &mut VarioMode, fly_mode: &mut FlyMode, key_event: &KeyEvent) -> (r: ControlResult)
        ensures
            final(self).spec_demo_kind() == (match *key_event {
                KeyEvent::Btn1 => DemoKind::fitted((old(self).spec_demo_kind().code() + 1) as u8),
                KeyEvent::Btn2 => DemoKind::fitted((old(self).spec_demo_kind().code() - 1) as u8),
                _ => old(self).spec_demo_kind(),
            }),
            *key_event == KeyEvent::Btn3 ==> *final(vario_mode) == old(vario_mode).toggled_spec(),
            *key_event == KeyEvent::Btn3 ==> *final(fly_mode) == (if *old(vario_mode) == VarioMode::Vario {
                FlyMode::StraightFlight
            } else {
                FlyMode::Circling
            }),
            *key_event != KeyEvent::Btn3 ==> *final(vario_mode) == *old(vario_mode) && *final(fly_mode) == *old(fly_mode),
            r == (if *key_event == KeyEvent::NoEvent || *key_event == KeyEvent::Btn3 {
                ControlResult::Nothing
            } else {
                ControlResult::Edit(EditMode::Section, final(self).spec_demo_kind().editable())
            }),
    {
        match key_event {
            KeyEvent::Btn1 => self.demo_kind.inc(),
            KeyEvent::Btn2 => self.demo_kind.dec(),
            KeyEvent::Btn3 => match *vario_mode {
                VarioMode::Vario => {
                    *vario_mode = VarioMode::SpeedToFly;
                    *fly_mode = FlyMode::StraightFlight;
                },
                VarioMode::SpeedToFly => {
                    *vario_mode = VarioMode::Vario;
                    *fly_mode = FlyMode::Circling;
                },
            },
            _ => (),
        }
        if !((*key_event == KeyEvent::NoEvent) || (*key_event == KeyEvent::Btn3)) {
            let edit_var = match self.demo_kind {
                DemoKind::Vario => Editable::ClimbRate,
                DemoKind::Speed => Editable::Speed,
                DemoKind::WindSpeed => Editable::WindSpeed,
                DemoKind::WindDirection => Editable::WindDirection,
                _ => Editable::ClimbRate,
            };
            ControlResult::Edit(EditMode::Section, edit_var)
        } else {
            ControlResult::Nothing
        }
    }
}

/// Stepping forwards and then backwards through the demo values (or backwards and then
/// forwards) comes back to the value started from.
pub proof fn lemma_demo_step_back(k: DemoKind)
    requires
        k != DemoKind::Last,
    ensures
        DemoKind::fitted((DemoKind::fitted((k.code() + 1) as u8).code() - 1) as u8) == k,
        DemoKind::fitted((DemoKind::fitted((k.code() - 1) as u8).code() + 1) as u8) == k,
{
}

} // verus!
