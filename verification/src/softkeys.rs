//! The four soft keys and the two rotary encoders select which value the editor shows.
use crate::model::{Editable, KeyEvent};
use vstd::prelude::*;

verus! {

/// What the soft keys hold.
pub struct SoftkeysView {
    pub primary: Seq<Editable>,
    pub key1_3s: Editable,
    pub key2_3s: Editable,
    pub fallback: Editable,
    pub fallback_activated: bool,
    pub current: Editable,
    pub curr_idx: u8,
}

/// Assignment of editable values to the keys, and the value selected last.
#[derive(Debug, Clone, Copy)]
pub struct Softkeys {
    primary: [Editable; 4],
    key1_3s: Editable,
    key2_3s: Editable,
    fallback: Editable,
    fallback_activated: bool,
    current: Editable,
    curr_idx: u8,
}

impl View for Softkeys {
    type V = SoftkeysView;

    closed spec fn view(&self) -> SoftkeysView {
        SoftkeysView {
            primary: self.primary@,
            key1_3s: self.key1_3s,
            key2_3s: self.key2_3s,
            fallback: self.fallback,
            fallback_activated: self.fallback_activated,
            current: self.current,
            curr_idx: self.curr_idx,
        }
    }
}

/// The key index and the editable that a key event selects, given the keys' state.
///
/// Keys 1 and 2 step backwards and forwards through the four primary keys (starting at key 1
/// or key 2 when the volume is shown), key 3 and the escape key select their own primary key,
/// the long presses select their own editable, the first encoder switches from volume to the
/// display setting and the second from the display setting to volume. Other events keep the
/// current editable.
pub open spec fn key_selection(s: SoftkeysView, event: KeyEvent) -> (u8, Editable) {
    match event {
        KeyEvent::Btn1 => {
            let idx: u8 = if s.current == Editable::Volume { 0 } else { ((s.curr_idx + 3) % 256 % 4) as u8 };
            (idx, s.primary[idx as int])
        },
        KeyEvent::Btn2 => {
            let idx: u8 = if s.current == Editable::Volume { 1 } else { ((s.curr_idx + 1) % 256 % 4) as u8 };
            (idx, s.primary[idx as int])
        },
        KeyEvent::Btn3 => (2, s.primary[2]),
        KeyEvent::BtnEsc => (3, s.primary[3]),
        KeyEvent::Btn1S3 => (s.curr_idx, s.key1_3s),
        KeyEvent::Btn2S3 => (s.curr_idx, s.key2_3s),
        KeyEvent::Rotary1Left | KeyEvent::Rotary1Right => (
            s.curr_idx,
            if s.current == Editable::Volume { Editable::Display } else { s.current },
        ),
        KeyEvent::Rotary2Left | KeyEvent::Rotary2Right => (
            s.curr_idx,
            if s.current == Editable::Display { Editable::Volume } else { s.current },
        ),
        _ => (s.curr_idx, s.current),
    }
}

impl Softkeys {
    /// Keys without assignment, showing the volume, which is also the fallback.
    pub fn new() -> (r: Self)
        ensures
            r@ == (SoftkeysView {
                primary: seq![Editable::Nothing, Editable::Nothing, Editable::Nothing, Editable::Nothing],
                key1_3s: Editable::Nothing,
                key2_3s: Editable::Nothing,
                fallback: Editable::Volume,
                fallback_activated: true,
                current: Editable::Volume,
                curr_idx: 0,
            }),
    {
        let r = Softkeys {
            primary: [Editable::Nothing, Editable::Nothing, Editable::Nothing, Editable::Nothing],
            key1_3s: Editable::Nothing,
            key2_3s: Editable::Nothing,
            fallback: Editable::Volume,
            fallback_activated: true,
            current: Editable::Volume,
            curr_idx: 0,
        };
        assert(r@.primary =~= seq![Editable::Nothing, Editable::Nothing, Editable::Nothing, Editable::Nothing]);
        r
    }

    /// The editable selected last.
    pub fn current(&self) -> (r: Editable)
        ensures
            r == self@.current,
    {
        self.current
    }

    /// Assigns the four primary keys.
    pub fn set_editables(&mut self, key1: Editable, key2: Editable, key3: Editable, key4: Editable)
        ensures
            final(self)@ == (SoftkeysView { primary: seq![key1, key2, key3, key4], ..old(self)@ }),
    {
        self.primary = [key1, key2, key3, key4];
        assert(self@.primary =~= seq![key1, key2, key3, key4]);
    }

    /// Sets the editable that `to_fallback` returns to.
    pub fn set_fallback(&mut self, fallback: Editable)
        ensures
            final(self)@ == (SoftkeysView { fallback, ..old(self)@ }),
    {
        self.fallback = fallback
    }

    /// Assigns the long presses of keys 1 and 2.
    pub fn set_3s_keys(&mut self, key1_3s: Editable, key2_3s: Editable)
        ensures
            final(self)@ == (SoftkeysView { key1_3s, key2_3s, ..old(self)@ }),
    {
        self.key1_3s = key1_3s;
        self.key2_3s = key2_3s;
    }

    /// Returns to the fallback editable.
    pub fn to_fallback(&mut self)
        ensures
            final(self)@ == (SoftkeysView {
                current: old(self)@.fallback,
                fallback_activated: true,
                ..old(self)@
            }),
    {
        self.current = self.fallback;
        self.fallback_activated = true;
    }

    /// Interprets a key event.
    ///
    /// The result is true if the editor has to show the edit window or refresh its timer: when
    /// the selection changed or the fallback was active before.
    pub fn key_action(&mut self, event: &KeyEvent) -> (r: bool)
        ensures
            ({
                let (idx, editable) = key_selection(old(self)@, *event);
                &&& final(self)@ == (SoftkeysView {
                    current: editable,
                    curr_idx: idx,
                    fallback_activated: false,
                    ..old(self)@
                })
                &&& r == (editable != old(self)@.current || old(self)@.fallback_activated)
            }),
    {
        let editable = match event {
            KeyEvent::Btn1 => {
                if self.current == Editable::Volume {
                    self.curr_idx = 0;
                } else {
                    self.curr_idx = (self.curr_idx.wrapping_add(3)) % 4;
                }
                self.primary[self.curr_idx as usize]
            },
            KeyEvent::Btn2 => {
                if self.current == Editable::Volume {
                    self.curr_idx = 1;
                } else {
                    self.curr_idx = (self.curr_idx.wrapping_add(1)) % 4;
                }
                self.primary[self.curr_idx as usize]
            },
            KeyEvent::Btn3 => {
                self.curr_idx = 2;
                self.primary[self.curr_idx as usize]
            },
            KeyEvent::BtnEsc => {
                self.curr_idx = 3;
                self.primary[self.curr_idx as usize]
            },
            KeyEvent::Btn1S3 => self.key1_3s,
            KeyEvent::Btn2S3 => self.key2_3s,
            KeyEvent::Rotary1Left | KeyEvent::Rotary1Right => {
                if self.current == Editable::Volume {
                    Editable::Display
                } else {
                    self.current
                }
            },
            KeyEvent::Rotary2Left | KeyEvent::Rotary2Right => {
                if self.current == Editable::Display {
                    Editable::Volume
                } else {
                    self.current
                }
            },
            _ => self.current,
        };

        let r = (editable != self.current) || self.fallback_activated;
        self.current = editable;
        self.fallback_activated = false;
        r
    }
}

/// Key 2 steps forwards and key 1 backwards through the primary keys: key 2 and then key 1
/// come back to the key selected before and its editable, when neither that selection nor the
/// one in between shows the volume; four presses of key 2 come back to the same key.
pub proof fn lemma_keys_step_back(s: SoftkeysView)
    requires
        s.primary.len() == 4,
        s.curr_idx < 4,
        s.current != Editable::Volume,
        s.primary[((s.curr_idx + 1) % 4) as int] != Editable::Volume,
    ensures
        ({
            let (i1, e1) = key_selection(s, KeyEvent::Btn2);
            let s1 = SoftkeysView { current: e1, curr_idx: i1, fallback_activated: false, ..s };
            key_selection(s1, KeyEvent::Btn1) == (s.curr_idx, s.primary[s.curr_idx as int])
        }),
        (forall|k: int| 0 <= k < 4 ==> s.primary[k] != Editable::Volume) ==> ({
            let step = |v: SoftkeysView| {
                let (i, e) = key_selection(v, KeyEvent::Btn2);
                SoftkeysView { current: e, curr_idx: i, fallback_activated: false, ..v }
            };
            step(step(step(step(s)))).curr_idx == s.curr_idx
        }),
{
}

} // verus!
