//! The millisecond clock of the controller: it follows the absolute time millisecond by
//! millisecond and tells what each millisecond is for.
use vstd::prelude::*;

verus! {

/// What a millisecond of the controller is used for.
#[derive(Clone, Copy, PartialEq, Eq, Debug, Structural)]
pub enum MsAction {
    /// Every 100 ms, at a count ending in 00: the scheduler's timers tick.
    SchedulerTick,
    /// The millisecond after: the 100 ms routine runs.
    Tick100ms,
    /// All other milliseconds: the next queued callback, if any, runs.
    NextCallback,
}

/// The action of the millisecond with count `ms`.
pub open spec fn ms_action(ms: u16) -> MsAction {
    if ms % 100 == 0 {
        MsAction::SchedulerTick
    } else if ms % 100 == 1 {
        MsAction::Tick100ms
    } else {
        MsAction::NextCallback
    }
}

/// The controller's count of milliseconds, wrapping at 16 bits.
pub struct MsClock {
    pub ms: u16,
}

impl MsClock {
    pub fn new() -> (r: Self)
        ensures
            r.ms == 0,
    {
        MsClock { ms: 0 }
    }

    /// Sets the count to the absolute time without running the milliseconds in between.
    pub fn set_ms(&mut self, time_ms: u16)
        ensures
            final(self).ms == time_ms,
    {
        self.ms = time_ms;
    }

    /// One step towards the absolute time `time_ms`: none when the count has caught up,
    /// otherwise the count moves on by one millisecond and the action of the new count.
    pub fn step(&mut self, time_ms: u16) -> (r: Option<MsAction>)
        ensures
            old(self).ms == time_ms ==> r is None && final(self).ms == old(self).ms,
            old(self).ms != time_ms ==> final(self).ms == old(self).ms.wrapping_add(1) && r == Some(
                ms_action(final(self).ms),
            ),
    {
        if self.ms == time_ms {
            return None;
        }
        self.ms = self.ms.wrapping_add(1);
        let rest = self.ms % 100;
        if rest == 0 {
            Some(MsAction::SchedulerTick)
        } else if rest == 1 {
            Some(MsAction::Tick100ms)
        } else {
            Some(MsAction::NextCallback)
        }
    }
}

/// The 100 ms routine follows each scheduler tick in the next millisecond, and the counts of
/// the scheduler ticks lie 100 ms apart, except where the count wraps: from 65500 on the next
/// scheduler tick comes at 0, 36 ms later.
pub proof fn lemma_tick_rhythm(ms: u16)
    ensures
        ms_action(ms) == MsAction::SchedulerTick && ms < 65535 ==> ms_action((ms + 1) as u16)
            == MsAction::Tick100ms,
        ms_action(ms) == MsAction::SchedulerTick && ms + 100 <= 65535 ==> ms_action((ms + 100) as u16)
            == MsAction::SchedulerTick,
        ms_action(ms) == MsAction::SchedulerTick && ms + 100 <= 65535 ==> forall|k: int|
            1 <= k < 100 ==> #[trigger] ms_action((ms + k) as u16) != MsAction::SchedulerTick,
        ms_action(65500) == MsAction::SchedulerTick && ms_action(0) == MsAction::SchedulerTick,
{
}

} // verus!
