//! A simple scheduler for tasks in the controller context.
//!
//! Each timer counts 100 ms ticks; when it runs out, its callback is queued. The controller
//! takes the queued callbacks one by one and runs them.
use crate::error::CoreError;
use crate::model::Timer;
use heapless::Deque;
use vstd::prelude::*;

verus! {

/// Names a callback of the controller; the controller maps each name to its function.
pub type Callback = u8;

/// Number of timers, and capacity of the callback queue.
pub const TIMER_COUNT: usize = 5;

#[verifier::external_type_specification]
#[verifier::external_body]
#[verifier::reject_recursive_types(T)]
pub struct ExDeque<T, const N: usize>(Deque<T, N>);

/// The callbacks in a queue, front first.
pub uninterp spec fn queued_callbacks(q: Deque<u8, 5>) -> Seq<u8>;

/// `Deque::new`: an empty queue.
#[verifier::external_body]
fn callback_queue_new() -> (r: Deque<u8, 5>)
    ensures
        queued_callbacks(r) == Seq::<u8>::empty(),
{
    Deque::new()
}

/// `Deque::push_back`: appends at the back unless the queue already holds its capacity of five,
/// in which case the item comes back as the error and the queue is unchanged.
#[verifier::external_body]
fn callback_queue_push(q: &mut Deque<u8, 5>, item: u8) -> (r: Result<(), u8>)
    ensures
        queued_callbacks(*old(q)).len() < 5 ==> r is Ok,
        queued_callbacks(*old(q)).len() < 5 ==> queued_callbacks(*final(q)) == queued_callbacks(*old(q)).push(item),
        queued_callbacks(*old(q)).len() >= 5 ==> (r matches Err(x) && x == item),
        queued_callbacks(*old(q)).len() >= 5 ==> queued_callbacks(*final(q)) == queued_callbacks(*old(q)),
{
    q.push_back(item)
}

/// `Deque::pop_front`: takes the front item, none when the queue is empty.
#[verifier::external_body]
fn callback_queue_pop(q: &mut Deque<u8, 5>) -> (r: Option<u8>)
    ensures
        queued_callbacks(*old(q)).len() == 0 ==> r is None && queued_callbacks(*final(q)) == queued_callbacks(*old(q)),
        queued_callbacks(*old(q)).len() > 0 ==> r == Some(queued_callbacks(*old(q))[0]) && queued_callbacks(*final(q)) == queued_callbacks(*old(q)).drop_first(),
{
    q.pop_front()
}

/// A time span in ticks of 100 ms.
#[derive(Clone, Copy, Debug)]
pub struct Duration(pub u16);

/// Converts a number of milliseconds or seconds into ticks.
pub trait IntToDuration: Sized {
    /// Whether the value is small enough to be taken as seconds.
    spec fn fits_secs(self) -> bool;

    fn millis(self) -> Duration;

    fn secs(self) -> Duration
        requires
            self.fits_secs(),
    ;
}

impl IntToDuration for u16 {
    open spec fn fits_secs(self) -> bool {
        self < 6553
    }

    /// Whole ticks of 100 ms, rounded down.
    fn millis(self) -> (r: Duration)
        ensures
            r.0 == self / 100,
    {
        Duration(self / 100)
    }

    /// Ten ticks a second; the number of seconds must stay below 6553.
    fn secs(self) -> (r: Duration)
        ensures
            r.0 == self * 10,
    {
        Duration(self * 10)
    }
}

/// What a timer holds.
pub struct TimView {
    pub cnt: u16,
    pub reload: u16,
    pub cb: Callback,
}

/// One timer: counts down and reloads, or stops after one shot.
pub struct Tim {
    cnt: u16,
    reload: u16,
    cb: Callback,
}

impl View for Tim {
    type V = TimView;

    closed spec fn view(&self) -> TimView {
        TimView { cnt: self.cnt, reload: self.reload, cb: self.cb }
    }
}

/// A timer after one tick, and whether it fired: a running timer counts down, and when it
/// reaches zero it fires and restarts with its reload value (zero for a single shot).
pub open spec fn tim_tick(t: TimView) -> (TimView, bool) {
    if t.cnt == 0 {
        (t, false)
    } else if t.cnt == 1 {
        (TimView { cnt: t.reload, ..t }, true)
    } else {
        (TimView { cnt: (t.cnt - 1) as u16, ..t }, false)
    }
}

impl Tim {
    /// A stopped timer with a fixed callback.
    pub fn new(callback: Callback) -> (r: Tim)
        ensures
            r@ == (TimView { cnt: 0, reload: 0, cb: callback }),
    {
        Tim { cnt: 0, reload: 0, cb: callback }
    }

    fn every(&mut self, d: Duration)
        ensures
            final(self)@ == (TimView { cnt: d.0, reload: d.0, cb: old(self)@.cb }),
    {
        self.cnt = d.0;
        self.reload = d.0;
    }

    fn after(&mut self, d: Duration)
        ensures
            final(self)@ == (TimView { cnt: d.0, reload: 0, cb: old(self)@.cb }),
    {
        self.cnt = d.0;
        self.reload = 0;
    }

    fn stop(&mut self)
        ensures
            final(self)@ == (TimView { cnt: 0, reload: 0, cb: old(self)@.cb }),
    {
        self.cnt = 0;
        self.reload = 0;
    }

    fn tick_100ms(&mut self) -> (r: bool)
        ensures
            (final(self)@, r) == tim_tick(old(self)@),
    {
        if self.cnt == 0 {
            false
        } else {
            self.cnt -= 1;
            if self.cnt == 0 {
                self.cnt = self.reload;
                true
            } else {
                false
            }
        }
    }

    fn callback(&self) -> (r: Callback)
        ensures
            r == self@.cb,
    {
        self.cb
    }
}

/// What the scheduler holds: its timers and the queued callbacks.
pub struct SchedulerView {
    pub timers: Seq<TimView>,
    pub queue: Seq<Callback>,
}

/// Ticks the timers from position `i` on, queueing the callbacks of those that fire; stops at
/// the first callback that finds the queue full. Returns the timers, the queue, and whether all
/// callbacks found room.
pub open spec fn tick_from(timers: Seq<TimView>, queue: Seq<Callback>, i: int) -> (Seq<TimView>, Seq<Callback>, bool)
    decreases timers.len() - i,
{
    if i < 0 || i >= timers.len() {
        (timers, queue, true)
    } else {
        let (t, fire) = tim_tick(timers[i]);
        let ts = timers.update(i, t);
        if fire {
            if queue.len() < 5 {
                tick_from(ts, queue.push(t.cb), i + 1)
            } else {
                (ts, queue, false)
            }
        } else {
            tick_from(ts, queue, i + 1)
        }
    }
}

/// Coordinates the time controlled activities of the controller.
///
/// The timers and their callbacks are fixed when the scheduler is made.
pub struct Scheduler {
    timers: [Tim; 5],
    active_cbs: Deque<u8, 5>,
}

impl View for Scheduler {
    type V = SchedulerView;

    closed spec fn view(&self) -> SchedulerView {
        SchedulerView {
            timers: Seq::new(5, |i: int| self.timers@[i]@),
            queue: queued_callbacks(self.active_cbs),
        }
    }
}

impl Scheduler {
    /// A scheduler with the given timers and no queued callbacks.
    pub fn new(timers: [Tim; 5]) -> (r: Self)
        ensures
            r@.timers == Seq::new(5, |i: int| timers@[i]@),
            r@.queue == Seq::<Callback>::empty(),
    {
        Scheduler { timers, active_cbs: callback_queue_new() }
    }

    /// Called every 100 ms; no tick may be left out.
    ///
    /// Each timer is ticked in turn and the callbacks of those that fire are queued. When the
    /// queue is full, the overflow is reported and the remaining timers are not ticked.
    pub fn tick_100ms(&mut self) -> (r: Result<(), CoreError>)
        ensures
            ({
                let (timers, queue, ok) = tick_from(old(self)@.timers, old(self)@.queue, 0);
                &&& final(self)@.timers == timers
                &&& final(self)@.queue == queue
                &&& r == if ok {
                    Ok::<(), CoreError>(())
                } else {
                    Err(CoreError::SchedulerQueueOverflow)
                }
            }),
    {
        let ghost start = self@;
        let mut i: usize = 0;
        while i < 5
            invariant
                start == old(self)@,
                0 <= i <= 5,
                tick_from(self@.timers, self@.queue, i as int) == tick_from(
                    start.timers,
                    start.queue,
                    0,
                ),
                self@.timers.len() == 5,
            decreases 5 - i,
        {
            let ghost before = self@;
            assert(before.timers[i as int] == self.timers@[i as int]@);
            let fired = self.timers[i].tick_100ms();
            assert(self@.timers =~= before.timers.update(i as int, self.timers@[i as int]@));
            if fired {
                let cb = self.timers[i].callback();
                match callback_queue_push(&mut self.active_cbs, cb) {
                    Ok(()) => {},
                    Err(_) => {
                        assert(before.queue.len() >= 5);
                        return Err(CoreError::SchedulerQueueOverflow);
                    },
                }
            }
            i += 1;
        }
        Ok(())
    }

    /// Takes the next queued callback, if there is one.
    ///
    /// It should be called much more often than the ticks, so that all callbacks run in time.
    pub fn next_callback(&mut self) -> (r: Option<Callback>)
        ensures
            final(self)@.timers == old(self)@.timers,
            old(self)@.queue.len() == 0 ==> r is None && final(self)@.queue == old(self)@.queue,
            old(self)@.queue.len() > 0 ==> r == Some(old(self)@.queue[0]) && final(self)@.queue == old(self)@.queue.drop_first(),
    {
        callback_queue_pop(&mut self.active_cbs)
    }

    /// Starts (or restarts) a single shot timer.
    pub fn after(&mut self, timer: Timer, d: Duration)
        ensures
            final(self)@.queue == old(self)@.queue,
            final(self)@.timers == old(self)@.timers.update(
                timer.position(),
                TimView { cnt: d.0, reload: 0, cb: old(self)@.timers[timer.position()].cb },
            ),
    {
        let ghost before = self@;
        self.timers[timer.index()].after(d);
        assert(self@.timers =~= before.timers.update(
            timer.position(),
            TimView { cnt: d.0, reload: 0, cb: before.timers[timer.position()].cb },
        ));
    }

    /// Starts a timer that repeats with a fixed period.
    pub fn every(&mut self, timer: Timer, d: Duration)
        ensures
            final(self)@.queue == old(self)@.queue,
            final(self)@.timers == old(self)@.timers.update(
                timer.position(),
                TimView { cnt: d.0, reload: d.0, cb: old(self)@.timers[timer.position()].cb },
            ),
    {
        let ghost before = self@;
        self.timers[timer.index()].every(d);
        assert(self@.timers =~= before.timers.update(
            timer.position(),
            TimView { cnt: d.0, reload: d.0, cb: before.timers[timer.position()].cb },
        ));
    }

    /// Stops a timer; with `exec_cb` its callback is queued once more.
    pub fn stop(&mut self, timer: Timer, exec_cb: bool) -> (r: Result<(), CoreError>)
        ensures
            ({
                let cb = old(self)@.timers[timer.position()].cb;
                &&& final(self)@.timers == old(self)@.timers.update(
                    timer.position(),
                    TimView { cnt: 0, reload: 0, cb },
                )
                &&& if exec_cb && old(self)@.queue.len() < 5 {
                    r is Ok && final(self)@.queue == old(self)@.queue.push(cb)
                } else if exec_cb {
                    r == Err::<(), CoreError>(CoreError::SchedulerQueueOverflow) && final(self)@.queue == old(self)@.queue
                } else {
                    r is Ok && final(self)@.queue == old(self)@.queue
                }
            }),
    {
        let ghost before = self@;
        let idx = timer.index();
        self.timers[idx].stop();
        assert(self@.timers =~= before.timers.update(
            timer.position(),
            TimView { cnt: 0, reload: 0, cb: before.timers[timer.position()].cb },
        ));
        if exec_cb {
            let cb = self.timers[idx].callback();
            match callback_queue_push(&mut self.active_cbs, cb) {
                Ok(()) => {},
                Err(_) => return Err(CoreError::SchedulerQueueOverflow),
            }
        }
        Ok(())
    }

    /// Queues a callback directly.
    ///
    /// Meant to be used from a timer's callback: a callback that was taken from the queue
    /// leaves room for one more.
    pub fn chain(&mut self, callback: Callback) -> (r: Result<(), CoreError>)
        ensures
            final(self)@.timers == old(self)@.timers,
            old(self)@.queue.len() < 5 ==> r is Ok && final(self)@.queue == old(self)@.queue.push(callback),
            old(self)@.queue.len() >= 5 ==> r == Err::<(), CoreError>(CoreError::SchedulerQueueOverflow) && final(self)@.queue == old(self)@.queue,
    {
        match callback_queue_push(&mut self.active_cbs, callback) {
            Ok(()) => Ok(()),
            Err(_) => Err(CoreError::SchedulerQueueOverflow),
        }
    }
}

/// Ticking never overflows the queue when it holds no more callbacks than there are free
/// places for the timers still to tick: each timer queues at most one callback per tick.
pub proof fn lemma_tick_fits(timers: Seq<TimView>, queue: Seq<Callback>, i: int)
    requires
        0 <= i <= timers.len(),
        queue.len() + (timers.len() - i) <= 5,
    ensures
        tick_from(timers, queue, i).2,
        tick_from(timers, queue, i).0.len() == timers.len(),
    decreases timers.len() - i,
{
    if i < timers.len() {
        let (t, fire) = tim_tick(timers[i]);
        let ts = timers.update(i, t);
        if fire {
            lemma_tick_fits(ts, queue.push(t.cb), i + 1);
        } else {
            lemma_tick_fits(ts, queue, i + 1);
        }
    }
}

/// The callbacks of the timers from index `i` on that fire at the next tick, in index order.
pub open spec fn fired_from(timers: Seq<TimView>, i: int) -> Seq<Callback>
    decreases timers.len() - i,
{
    if i < 0 || i >= timers.len() {
        Seq::empty()
    } else {
        let (t, fire) = tim_tick(timers[i]);
        (if fire { seq![t.cb] } else { Seq::<Callback>::empty() }) + fired_from(timers, i + 1)
    }
}

/// The timers with those from index `i` on ticked once.
pub open spec fn ticked_from(timers: Seq<TimView>, i: int) -> Seq<TimView> {
    Seq::new(timers.len(), |k: int| if k >= i { tim_tick(timers[k]).0 } else { timers[k] })
}

proof fn lemma_fired_from_tail(a: Seq<TimView>, b: Seq<TimView>, i: int)
    requires
        0 <= i,
        a.len() == b.len(),
        forall|k: int| i <= k < a.len() ==> a[k] == b[k],
    ensures
        fired_from(a, i) == fired_from(b, i),
    decreases a.len() - i,
{
    if i < a.len() {
        lemma_fired_from_tail(a, b, i + 1);
    }
}

/// A tick goes through the timers in index order: each running timer counts down, one that
/// reaches zero queues its callback and reloads (or stops after a single shot). It succeeds
/// exactly when the callbacks of all firing timers fit into the queue's free places, and then
/// the queue holds them after the earlier ones, in index order; otherwise the callbacks that
/// fit are queued and the first one that does not is lost.
pub proof fn lemma_tick_in_index_order(timers: Seq<TimView>, queue: Seq<Callback>, i: int)
    requires
        0 <= i <= timers.len(),
        queue.len() <= 5,
    ensures
        tick_from(timers, queue, i).2 <==> queue.len() + fired_from(timers, i).len() <= 5,
        tick_from(timers, queue, i).2 ==> tick_from(timers, queue, i).0 == ticked_from(timers, i),
        tick_from(timers, queue, i).2 ==> tick_from(timers, queue, i).1 == queue + fired_from(timers, i),
        !tick_from(timers, queue, i).2 ==> tick_from(timers, queue, i).1 == queue + fired_from(timers, i).take(
            5 - queue.len(),
        ),
    decreases timers.len() - i,
{
    if i == timers.len() {
        assert(ticked_from(timers, i) =~= timers);
        assert(queue + Seq::<Callback>::empty() =~= queue);
    } else {
        let (t, fire) = tim_tick(timers[i]);
        let ts = timers.update(i, t);
        lemma_fired_from_tail(ts, timers, i + 1);
        assert(ticked_from(ts, i + 1) =~= ticked_from(timers, i));
        if fire {
            assert(fired_from(timers, i) =~= seq![t.cb] + fired_from(timers, i + 1));
            if queue.len() < 5 {
                lemma_tick_in_index_order(ts, queue.push(t.cb), i + 1);
                assert(queue.push(t.cb) + fired_from(timers, i + 1) =~= queue + fired_from(timers, i));
                if queue.len() + fired_from(timers, i).len() > 5 {
                    assert(queue.push(t.cb) + fired_from(timers, i + 1).take(5 - queue.len() - 1) =~= queue
                        + fired_from(timers, i).take(5 - queue.len()));
                }
            } else {
                assert(fired_from(timers, i).take(0) =~= Seq::<Callback>::empty());
                assert(queue + Seq::<Callback>::empty() =~= queue);
            }
        } else {
            assert(fired_from(timers, i) =~= fired_from(timers, i + 1));
            lemma_tick_in_index_order(ts, queue, i + 1);
        }
    }
}

/// A tick of the scheduler with an empty callback queue always succeeds.
pub proof fn lemma_tick_with_empty_queue(s: SchedulerView)
    requires
        s.timers.len() == 5,
        s.queue.len() == 0,
    ensures
        tick_from(s.timers, s.queue, 0).2,
{
    lemma_tick_fits(s.timers, s.queue, 0);
}

/// A timer after `k` ticks, and how often it fired in them.
pub open spec fn tim_run(t: TimView, k: nat) -> (TimView, nat)
    decreases k,
{
    if k == 0 {
        (t, 0)
    } else {
        let (u, n) = tim_run(t, (k - 1) as nat);
        let (w, fired) = tim_tick(u);
        (w, if fired { n + 1 } else { n })
    }
}

/// Running `a` ticks and then `b` ticks is running `a + b` ticks.
proof fn lemma_run_split(t: TimView, a: nat, b: nat)
    ensures
        tim_run(t, a + b) == (
            tim_run(tim_run(t, a).0, b).0,
            tim_run(t, a).1 + tim_run(tim_run(t, a).0, b).1,
        ),
    decreases b,
{
    if b > 0 {
        lemma_run_split(t, a, (b - 1) as nat);
        assert((a + b - 1) as nat == a + (b - 1) as nat);
    }
}

/// A running timer counts down without firing before it reaches zero.
proof fn lemma_countdown(t: TimView, k: nat)
    requires
        k < t.cnt,
    ensures
        tim_run(t, k) == (TimView { cnt: (t.cnt - k) as u16, ..t }, 0nat),
    decreases k,
{
    if k > 0 {
        lemma_countdown(t, (k - 1) as nat);
    }
}

/// A single shot timer started for `d` ticks fires once, at the `d`-th tick, and stays stopped
/// afterwards.
pub proof fn lemma_single_shot(d: u16, cb: Callback, k: nat)
    requires
        d > 0,
    ensures
        k < d ==> tim_run(TimView { cnt: d, reload: 0, cb }, k).1 == 0,
        k >= d ==> tim_run(TimView { cnt: d, reload: 0, cb }, k) == (TimView { cnt: 0, reload: 0, cb }, 1nat),
    decreases k,
{
    let t = TimView { cnt: d, reload: 0, cb };
    if k < d {
        lemma_countdown(t, k);
    } else if k == d {
        lemma_countdown(t, (k - 1) as nat);
    } else {
        lemma_single_shot(d, cb, (k - 1) as nat);
    }
}

/// A periodic timer with a period of `d` ticks fires once in each period: after `m` periods it
/// has fired `m` times and is back where it started.
pub proof fn lemma_periodic(d: u16, cb: Callback, m: nat)
    requires
        d > 0,
    ensures
        tim_run(TimView { cnt: d, reload: d, cb }, m * (d as nat)) == (TimView { cnt: d, reload: d, cb }, m),
    decreases m,
{
    let t = TimView { cnt: d, reload: d, cb };
    if m == 0 {
        assert(m * (d as nat) == 0) by (nonlinear_arith)
            requires
                m == 0,
        ;
    } else {
        lemma_periodic(d, cb, (m - 1) as nat);
        let a = ((m - 1) as nat) * (d as nat);
        assert(a + (d as nat) == m * (d as nat)) by (nonlinear_arith)
            requires
                a == (m - 1) * d,
                m > 0,
        ;
        lemma_run_split(t, a, d as nat);
        lemma_countdown(t, (d - 1) as nat);
    }
}

} // verus!
