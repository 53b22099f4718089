//! Scrolling through the lines of the device information display.
use crate::model::KeyEvent;
use vstd::prelude::*;

verus! {

/// The first shown line of the device information, out of `content_len` lines.
#[derive(Clone, Copy, Debug)]
pub struct DeviceInfoControl {
    pub index: u32,
    pub content_len: usize,
}

impl DeviceInfoControl {
    /// Shows the first line of `content_len` lines.
    pub fn new(content_len: usize) -> (r: Self)
        ensures
            r.index == 0,
            r.content_len == content_len,
    {
        DeviceInfoControl { index: 0, content_len }
    }

    /// The second encoder scrolls: to the left up to the first line, to the right until the
    /// last of the `lines` lines that the display shows is the last line.
    pub fn key_action(&mut self, key_event: &KeyEvent, lines: usize)
        requires
            lines <= old(self).content_len,
        ensures
            final(self).content_len == old(self).content_len,
            final(self).index == match *key_event {
                KeyEvent::Rotary2Left => if old(self).index > 0 {
                    (old(self).index - 1) as u32
                } else {
                    old(self).index
                },
                KeyEvent::Rotary2Right => if old(self).index < ((old(self).content_len - lines) as u32) {
                    (old(self).index + 1) as u32
                } else {
                    old(self).index
                },
                _ => old(self).index,
            },
    {
        match key_event {
            KeyEvent::Rotary2Left => {
                if self.index > 0 {
                    self.index -= 1;
                }
            },
            KeyEvent::Rotary2Right => {
                if self.index < (self.content_len - lines) as u32 {
                    self.index += 1;
                }
            },
            _ => {},
        }
    }
}

} // verus!
