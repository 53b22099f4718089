//! The CAN dispatcher guides the device through the startup on the bus and filters datagrams.
//!
//! The startup checks whether the desired virtual device address is free and takes it, or the
//! next free one. All participants are known by their heartbeats, and devices are added or
//! dropped as their heartbeats come and go.
//!
//! A filter hands the application only the datagrams it wants: legacy datagrams by identifier
//! range, generic datagrams (except heartbeats) with their generic id, and specific datagrams
//! of the first device of each wanted object id, with their specific id and object id. Frames
//! that the application sends get the identifier of this device's address.
use crate::can_frame::{
    spec_generic_id, spec_is_heartbeat, spec_specific_id, spec_vda, zero_bytes, CanFrame, CanFrameView, Frame,
    GenericFrame, SpecificFrame,
};
use crate::le_bytes::le_u16_at;
use heapless::spsc::{Consumer, Producer};
use heapless::FnvIndexSet;
use vstd::prelude::*;

verus! {

#[verifier::external_type_specification]
#[verifier::external_body]
#[verifier::reject_recursive_types(T)]
pub struct ExProducer<'a, T, const N: usize>(Producer<'a, T, N>);

#[verifier::external_type_specification]
#[verifier::external_body]
#[verifier::reject_recursive_types(T)]
pub struct ExConsumer<'a, T, const N: usize>(Consumer<'a, T, N>);

#[verifier::external_type_specification]
#[verifier::external_body]
#[verifier::reject_recursive_types(T)]
pub struct ExHeaplessVec<T, const N: usize>(heapless::Vec<T, N>);

/// `Producer::enqueue` of a CAN frame for the driver. Whether it finds room depends on how
/// much the driver has taken out; a frame that did not fit comes back as the error.
#[verifier::external_body]
fn enqueue_can_frame<const N: usize>(p: &mut Producer<'static, CanFrame, N>, frame: CanFrame) -> (r: Result<(), CanFrame>)
    ensures
        r matches Err(back) ==> back == frame,
{
    p.enqueue(frame)
}

/// `Producer::enqueue` of a frame for the application. Whether it finds room depends on how
/// much the application has taken out; a frame that did not fit comes back as the error.
#[verifier::external_body]
fn enqueue_frame<const N: usize>(p: &mut Producer<'static, Frame, N>, frame: Frame) -> (r: Result<(), Frame>)
    ensures
        r matches Err(back) ==> back == frame,
{
    p.enqueue(frame)
}

/// `Consumer::dequeue` of a frame that the application wants to send. What comes out depends
/// on what the application put in; nothing is stated of it.
#[verifier::external_body]
fn dequeue_frame<const N: usize>(c: &mut Consumer<'static, Frame, N>) -> (r: Option<Frame>)
{
    c.dequeue()
}

/// The identifier ranges in the legacy filter, in the order they were added.
pub uninterp spec fn legacy_ranges(v: heapless::Vec<(u16, u16), 64>) -> Seq<(u16, u16)>;

/// `heapless::Vec::new`: no ranges.
#[verifier::external_body]
fn legacy_new() -> (r: heapless::Vec<(u16, u16), 64>)
    ensures
        legacy_ranges(r) == Seq::<(u16, u16)>::empty(),
{
    heapless::Vec::new()
}

/// `heapless::Vec::push` into a vector of 64 places, while fewer than 64 ranges are held: the
/// range is appended.
#[verifier::external_body]
fn legacy_push(v: &mut heapless::Vec<(u16, u16), 64>, range: (u16, u16)) -> (r: Result<(), (u16, u16)>)
    requires
        legacy_ranges(*old(v)).len() < 64,
    ensures
        r is Ok,
        legacy_ranges(*final(v)) == legacy_ranges(*old(v)).push(range),
{
    v.push(range)
}

/// `heapless::Vec::len`: the number of ranges.
#[verifier::external_body]
fn legacy_len(v: &heapless::Vec<(u16, u16), 64>) -> (r: usize)
    ensures
        r == legacy_ranges(*v).len(),
{
    v.len()
}

/// Indexing a `heapless::Vec` through its slice: the range at position `i`.
#[verifier::external_body]
fn legacy_at(v: &heapless::Vec<(u16, u16), 64>, i: usize) -> (r: (u16, u16))
    requires
        i < legacy_ranges(*v).len(),
    ensures
        r == legacy_ranges(*v)[i as int],
{
    v[i]
}

/// The object ids that the application wants to receive.
#[verifier::external_body]
pub struct ObjectIdFilter {
    ids: FnvIndexSet<u16, 64>,
}

/// The ids in an object id filter.
pub uninterp spec fn filter_ids(f: ObjectIdFilter) -> Set<u16>;

/// `FnvIndexSet::new`: no ids.
#[verifier::external_body]
fn filter_new() -> (r: ObjectIdFilter)
    ensures
        filter_ids(r) == Set::<u16>::empty(),
{
    ObjectIdFilter { ids: FnvIndexSet::new() }
}

/// `FnvIndexSet::insert` into a set of 64 places of an id not yet held, while fewer than 64
/// are held: it is added, with `Ok(true)`.
#[verifier::external_body]
fn filter_insert(set: &mut ObjectIdFilter, id: u16) -> (r: Result<bool, u16>)
    requires
        !filter_ids(*old(set)).contains(id),
        filter_ids(*old(set)).len() < 64,
    ensures
        r matches Ok(true),
        filter_ids(*final(set)) == filter_ids(*old(set)).insert(id),
{
    set.ids.insert(id)
}

/// `FnvIndexSet::len`: the number of ids held.
#[verifier::external_body]
fn filter_len(f: &ObjectIdFilter) -> (r: usize)
    ensures
        r == filter_ids(*f).len(),
{
    f.ids.len()
}

/// `FnvIndexSet::contains`.
#[verifier::external_body]
fn filter_contains(f: &ObjectIdFilter, id: u16) -> (r: bool)
    ensures
        r == filter_ids(*f).contains(id),
{
    f.ids.contains(&id)
}

/// The object ids met so far while the devices are walked through once a second.
#[verifier::external_body]
pub struct SeenIds {
    ids: FnvIndexSet<u16, 128>,
}

/// The ids in a set of ids met.
pub uninterp spec fn seen_ids(s: SeenIds) -> Set<u16>;

/// `FnvIndexSet::new`: no ids.
#[verifier::external_body]
fn seen_new() -> (r: SeenIds)
    ensures
        seen_ids(r) == Set::<u16>::empty(),
{
    SeenIds { ids: FnvIndexSet::new() }
}

/// `FnvIndexSet::insert` of an id not yet held, while fewer than 128 are held: it is added.
#[verifier::external_body]
fn seen_insert(s: &mut SeenIds, id: u16) -> (r: Result<bool, u16>)
    requires
        !seen_ids(*old(s)).contains(id),
        seen_ids(*old(s)).finite(),
        seen_ids(*old(s)).len() < 128,
    ensures
        r is Ok,
        seen_ids(*final(s)) == seen_ids(*old(s)).insert(id),
{
    s.ids.insert(id)
}

/// `FnvIndexSet::contains`.
#[verifier::external_body]
fn seen_contains(s: &SeenIds, id: u16) -> (r: bool)
    ensures
        r == seen_ids(*s).contains(id),
{
    s.ids.contains(&id)
}

/// Source of random numbers for the startup, implemented by the device.
pub trait CanRng {
    /// A random number, meant to lie between `min` and `max`.
    fn random(&mut self, min: u32, max: u32) -> u32;
}

/// What the dispatcher knows of one bus participant.
pub struct CanDeviceView {
    pub time_to_death: u8,
    pub is_first: bool,
    pub object_id: u16,
}

/// A bus participant, alive while its heartbeats keep coming.
#[derive(Clone, Copy)]
pub struct CanDevice {
    time_to_death: u8,
    is_first: bool,
    object_id: u16,
}

impl View for CanDevice {
    type V = CanDeviceView;

    closed spec fn view(&self) -> CanDeviceView {
        CanDeviceView {
            time_to_death: self.time_to_death,
            is_first: self.is_first,
            object_id: self.object_id,
        }
    }
}

/// Whether a device's heartbeat came within the last seconds.
pub open spec fn device_alive(d: CanDeviceView) -> bool {
    d.time_to_death != 0
}

/// A device one second later: it ages, and forgets its object id when it dies.
pub open spec fn device_sec_tick(d: CanDeviceView) -> CanDeviceView {
    if d.time_to_death > 0 {
        let t = (d.time_to_death - 1) as u8;
        CanDeviceView { time_to_death: t, object_id: if t == 0 { 0 } else { d.object_id }, ..d }
    } else {
        d
    }
}

/// A device after a frame from it: a heartbeat (whose first two data bytes hold the object
/// id) brings it to life for three seconds; other frames change nothing.
pub open spec fn device_heartbeat(d: CanDeviceView, frame: CanFrameView) -> CanDeviceView {
    if spec_is_heartbeat(frame.id) {
        CanDeviceView { object_id: le_u16_at(frame.data, 0) as u16, time_to_death: 3, ..d }
    } else {
        d
    }
}

impl CanDevice {
    /// A device never heard of.
    pub fn new() -> (r: Self)
        ensures
            r@ == (CanDeviceView { time_to_death: 0, is_first: false, object_id: 0 }),
    {
        CanDevice { time_to_death: 0, is_first: false, object_id: 0 }
    }

    pub fn is_death(&mut self) -> (r: bool)
        ensures
            r == !device_alive(old(self)@),
            final(self)@ == old(self)@,
    {
        self.time_to_death == 0
    }

    pub fn is_alive(&mut self) -> (r: bool)
        ensures
            r == device_alive(old(self)@),
            final(self)@ == old(self)@,
    {
        self.time_to_death != 0
    }

    /// Ages the device by one second.
    pub fn sec_tick(&mut self)
        ensures
            final(self)@ == device_sec_tick(old(self)@),
    {
        if self.time_to_death > 0 {
            self.time_to_death -= 1;
            if self.time_to_death == 0 {
                self.object_id = 0;
            }
        }
    }

    /// Takes the object id from a heartbeat and resets the time to death.
    pub fn set_object_id(&mut self, frame: CanFrame)
        ensures
            final(self)@ == device_heartbeat(old(self)@, frame@),
    {
        if frame.is_heartbeat() {
            self.object_id = frame.read_u16(0);
            self.time_to_death = 3;
        }
    }

    pub fn object_id(&self) -> (r: u16)
        ensures
            r == self@.object_id,
    {
        self.object_id
    }

    pub fn set_is_first(&mut self, is_first: bool)
        ensures
            final(self)@ == (CanDeviceView { is_first, ..old(self)@ }),
    {
        self.is_first = is_first;
    }

    pub fn is_first(&self) -> (r: bool)
        ensures
            r == self@.is_first,
    {
        self.is_first
    }
}

/// Whether a device at position `i` is the first living device with its object id.
pub open spec fn first_of_its_id(devs: Seq<CanDeviceView>, i: int) -> bool {
    !exists|j: int| 0 <= j < i && #[trigger] device_alive(devs[j]) && devs[j].object_id == devs[i].object_id
}

/// The devices after a second: each ages, and each living one learns whether it is the first
/// living device with its object id.
pub open spec fn devices_after_second(devs: Seq<CanDeviceView>) -> Seq<CanDeviceView> {
    let t = Seq::new(devs.len(), |i: int| device_sec_tick(devs[i]));
    Seq::new(
        t.len(),
        |i: int|
            if device_alive(t[i]) {
                CanDeviceView { is_first: first_of_its_id(t, i), ..t[i] }
            } else {
                t[i]
            },
    )
}

/// The first address from `from` on whose device is not alive; 64 if there is none.
pub open spec fn first_free(devs: Seq<CanDeviceView>, from: int) -> int
    decreases 64 - from,
{
    if from >= 64 {
        64
    } else if !device_alive(devs[from]) {
        from
    } else {
        first_free(devs, from + 1)
    }
}

/// Sixteen arbitration stages in which nothing was heard.
pub open spec fn no_adgs() -> Seq<bool> {
    Seq::new(16, |i: int| false)
}

/// The heartbeat identifier of a device address.
pub open spec fn heartbeat_id_of(vda: u16) -> u16 {
    (vda * 16 + 0x400) as u16
}

/// The first identifier of the specific datagrams of a device address.
pub open spec fn base_id_of(vda: u16) -> u16 {
    (vda * 16) as u16
}

/// What the dispatcher holds, apart from its queues and its random source.
pub struct DispatchView {
    pub normal: bool,
    pub sec_tick: u8,
    pub startup_stage: u8,
    pub next_startup_instant: Option<u64>,
    pub received_adgs: Seq<bool>,
    pub vda: u16,
    pub devices: Seq<CanDeviceView>,
    pub legacy_filter: Seq<(u16, u16)>,
    pub object_id_filter: Set<u16>,
}

/// The dispatcher after the once-a-second part of `tick`: when a new second began, the
/// devices age and the first living device of each object id is marked.
pub open spec fn after_second(v: DispatchView, ticks: u64) -> DispatchView {
    let sec = (ticks / 1_000_000) as u8;
    if sec != v.sec_tick {
        DispatchView { sec_tick: sec, devices: devices_after_second(v.devices), ..v }
    } else {
        v
    }
}

/// One step of the startup, with `rnd` the random number drawn, if one is drawn. Returns the
/// new state and the instant of the next step.
///
/// Without a planned instant the arbitration starts at stage 15 after a random wait. At the
/// planned instant, when nothing was heard in this stage or the one below, the next lower stage
/// follows; below stage 2 the startup ends and the device takes the first free address from
/// `vda_default` on. When something was heard, the stage is repeated. Each of these sends a
/// remote transmission request for the stage (or for the heartbeat of the address taken), and
/// forgets what was heard. Called before the planned instant, the plan is dropped.
pub open spec fn startup_step(v: DispatchView, ticks: u64, rnd: u32, vda_default: u16) -> (DispatchView, Option<u64>) {
    match v.next_startup_instant {
        None => {
            let next = Some((ticks + rnd) as u64);
            (DispatchView { startup_stage: 15, received_adgs: no_adgs(), next_startup_instant: next, ..v }, next)
        },
        Some(current) => if current <= ticks {
            if !(v.received_adgs[v.startup_stage - 1] || v.received_adgs[v.startup_stage - 2]) {
                let stage = (v.startup_stage - 1) as u8;
                if stage <= 1 {
                    (
                        DispatchView {
                            startup_stage: stage,
                            normal: true,
                            vda: first_free(v.devices, vda_default as int) as u16,
                            received_adgs: no_adgs(),
                            next_startup_instant: None,
                            ..v
                        },
                        None,
                    )
                } else {
                    let next = Some((current + rnd) as u64);
                    (
                        DispatchView {
                            startup_stage: stage,
                            received_adgs: no_adgs(),
                            next_startup_instant: next,
                            ..v
                        },
                        next,
                    )
                }
            } else {
                let next = Some((current + rnd) as u64);
                (DispatchView { received_adgs: no_adgs(), next_startup_instant: next, ..v }, next)
            }
        } else {
            (DispatchView { next_startup_instant: None, ..v }, None)
        },
    }
}

/// Whether the startup step at `ticks` ends the startup: the planned instant has come, nothing
/// was heard on the current stage or the one below, and the next stage is below 2.
pub open spec fn startup_ends(v: DispatchView, ticks: u64) -> bool {
    &&& !v.normal
    &&& v.next_startup_instant matches Some(current) && current <= ticks
    &&& !(v.received_adgs[v.startup_stage - 1] || v.received_adgs[v.startup_stage - 2])
    &&& v.startup_stage - 1 <= 1
}

/// Whether a device address from `from` on is free.
pub open spec fn has_free_address(devs: Seq<CanDeviceView>, from: int) -> bool {
    exists|i: int| from <= i < 64 && !device_alive(#[trigger] devs[i])
}

/// The dispatcher after a frame from the bus, before the filter: a heartbeat updates its
/// sender, and a heartbeat on this device's own address starts the startup anew.
pub open spec fn after_heartbeat(v: DispatchView, frame: CanFrameView) -> DispatchView {
    if spec_is_heartbeat(frame.id) {
        let a = spec_vda(frame.id) as int;
        let w = DispatchView { devices: v.devices.update(a, device_heartbeat(v.devices[a], frame)), ..v };
        if spec_vda(frame.id) == v.vda {
            DispatchView { normal: false, startup_stage: 15, received_adgs: no_adgs(), ..w }
        } else {
            w
        }
    } else {
        v
    }
}

/// Whether an identifier lies in one of the legacy ranges.
pub open spec fn in_legacy_range(ranges: Seq<(u16, u16)>, id: u16) -> bool {
    exists|i: int| 0 <= i < ranges.len() && ranges[i].0 <= id && id <= #[trigger] ranges[i].1
}

/// What the filter hands the application of a frame in normal operation: a frame in a legacy
/// range as it is; otherwise a generic frame with its generic id, except heartbeats; otherwise a
/// specific frame with its specific id and object id when the application wants that object id
/// and the sender is the first living device with it.
pub open spec fn filtered(v: DispatchView, can_frame: CanFrame) -> Option<Frame> {
    let id = can_frame@.id;
    if !v.normal {
        None
    } else if in_legacy_range(v.legacy_filter, id) {
        Some(Frame::Legacy(can_frame))
    } else if spec_generic_id(id) is Some {
        let g = spec_generic_id(id)->0;
        if g > 0 {
            Some(Frame::Generic(GenericFrame { generic_id: g, can_frame }))
        } else {
            None
        }
    } else {
        let d = v.devices[spec_vda(id) as int];
        if v.object_id_filter.contains(d.object_id) && d.is_first {
            Some(Frame::Specific(SpecificFrame { specific_id: (id % 16) as u16, object_id: d.object_id, can_frame }))
        } else {
            None
        }
    }
}

/// The frame that goes on the bus for a frame of the application: legacy frames as they are,
/// generic ones on the heartbeat identifier plus the generic id, specific ones on the base
/// identifier plus the specific id (both wrapping at 16 bits).
pub open spec fn translated(vda: u16, frame: Frame) -> CanFrameView {
    match frame {
        Frame::Legacy(c) => c@,
        Frame::Generic(g) => CanFrameView { id: heartbeat_id_of(vda).wrapping_add(g.generic_id), ..g.can_frame@ },
        Frame::Specific(s) => CanFrameView { id: base_id_of(vda).wrapping_add(s.specific_id), ..s.can_frame@ },
    }
}

/// A remote transmission request without data on identifier `id`.
pub open spec fn rtr_frame(id: u16) -> CanFrameView {
    CanFrameView { id, rtr: true, len: 0, data: zero_bytes() }
}

/// The request that the startup step at `ticks` sends to the driver, if any: at the start the
/// request on stage 15; at the planned instant the request on the next lower stage, on the
/// heartbeat identifier of the address taken when the startup ends, or on the same stage again
/// when something was heard; before the planned instant none.
pub open spec fn startup_request(v: DispatchView, ticks: u64, vda_default: u16) -> Option<CanFrameView> {
    match v.next_startup_instant {
        None => Some(rtr_frame(15)),
        Some(current) => if current <= ticks {
            if !(v.received_adgs[v.startup_stage - 1] || v.received_adgs[v.startup_stage - 2]) {
                let stage = (v.startup_stage - 1) as u8;
                if stage <= 1 {
                    Some(rtr_frame(heartbeat_id_of(first_free(v.devices, vda_default as int) as u16)))
                } else {
                    Some(rtr_frame(stage as u16))
                }
            } else {
                Some(rtr_frame(v.startup_stage as u16))
            }
        } else {
            None
        },
    }
}

/// The frames offered to the application for a frame from the bus: in normal operation the
/// frame that the filter gives, if any, after the heartbeat has been followed.
pub open spec fn offer_to_app(v: DispatchView, frame: CanFrame) -> Seq<Frame> {
    let w = after_heartbeat(v, frame@);
    if w.normal {
        match filtered(w, frame) {
            Some(f) => seq![f],
            None => Seq::empty(),
        }
    } else {
        Seq::empty()
    }
}

/// The frames that go on the bus for frames of the application.
pub open spec fn translated_all(vda: u16, frames: Seq<Frame>) -> Seq<CanFrameView> {
    frames.map_values(|f: Frame| translated(vda, f))
}

/// The request as a sequence of none or one frame.
pub open spec fn opt_frame(r: Option<CanFrameView>) -> Seq<CanFrameView> {
    match r {
        Some(f) => seq![f],
        None => Seq::empty(),
    }
}

/// What the dispatcher has offered and taken, in order: the frames offered to the application's
/// queue, the frames offered to the driver's queue, the frames taken out of the application's
/// transmit queue, and how often that queue answered that it held none.
pub struct DispatchLogs {
    pub to_app: Seq<Frame>,
    pub to_bus: Seq<CanFrameView>,
    pub from_app: Seq<Frame>,
    pub empty_polls: nat,
}

/// From `before` to `after`, frames were taken from the application's transmit queue until it
/// answered that it held none, or until `max` frames were taken; the frames taken before stay
/// first in the log.
pub open spec fn drained(before: DispatchLogs, after: DispatchLogs, max: nat) -> bool {
    &&& before.from_app.len() <= after.from_app.len()
    &&& after.from_app.take(before.from_app.len() as int) == before.from_app
    &&& {
        let taken = after.from_app.len() - before.from_app.len();
        ||| taken == max && after.empty_polls == before.empty_polls
        ||| taken < max && after.empty_polls == before.empty_polls + 1
    }
}

/// The CAN bus dispatcher of a device with the wished virtual address `VDA`, a transmit queue
/// of `MAX_TX` and a receive queue of `MAX_RX` places.
pub struct CanDispatch<
    const VDA: u16,
    const FILTER_ELEMENTS: usize,
    const MAX_TX: usize,
    const MAX_RX: usize,
    RNG: CanRng,
> {
    normal: bool,
    sec_tick: u8,
    // for the startup phase
    startup_stage: u8,
    next_startup_instant: Option<u64>,
    received_adgs: [bool; 16],
    // during normal operation
    vda: u16,
    can_devices: [CanDevice; 64],
    rng: RNG,
    legacy_filter: heapless::Vec<(u16, u16), 64>,
    object_id_filter: ObjectIdFilter,
    // queues
    p_tx_irq_frames: Producer<'static, CanFrame, MAX_TX>,
    p_rx_frames: Producer<'static, Frame, MAX_RX>,
    c_tx_frames: Consumer<'static, Frame, MAX_TX>,
    // what was offered and taken
    to_app: Ghost<Seq<Frame>>,
    to_bus: Ghost<Seq<CanFrameView>>,
    from_app: Ghost<Seq<Frame>>,
    empty_polls: Ghost<nat>,
}

impl<
    const VDA: u16,
    const FILTER_ELEMENTS: usize,
    const MAX_TX: usize,
    const MAX_RX: usize,
    RNG: CanRng,
> View for CanDispatch<
    VDA,
    FILTER_ELEMENTS,
    MAX_TX,
    MAX_RX,
    RNG,
> {
    type V = DispatchView;

    closed spec fn view(&self) -> DispatchView {
        DispatchView {
            normal: self.normal,
            sec_tick: self.sec_tick,
            startup_stage: self.startup_stage,
            next_startup_instant: self.next_startup_instant,
            received_adgs: self.received_adgs@,
            vda: self.vda,
            devices: Seq::new(64, |i: int| self.can_devices@[i]@),
            legacy_filter: legacy_ranges(self.legacy_filter),
            object_id_filter: filter_ids(self.object_id_filter),
        }
    }
}

proof fn lemma_shift4(v: u16)
    requires
        v < 64,
    ensures
        v << 4 == v * 16,
        (v << 4) + 0x400 == v * 16 + 0x400,
{
    assert(v < 64 ==> v << 4 == v * 16) by (bit_vector);
}

impl<
    const VDA: u16,
    const FILTER_ELEMENTS: usize,
    const MAX_TX: usize,
    const MAX_RX: usize,
    RNG: CanRng,
> CanDispatch<
    VDA,
    FILTER_ELEMENTS,
    MAX_TX,
    MAX_RX,
    RNG,
> {
    /// What the dispatcher has offered to the queues and taken from the application.
    pub closed spec fn logs(&self) -> DispatchLogs {
        DispatchLogs { to_app: self.to_app@, to_bus: self.to_bus@, from_app: self.from_app@, empty_polls: self.empty_polls@ }
    }

    /// The state in which the dispatcher can work on: positions stay in range.
    pub open spec fn well_formed(v: DispatchView) -> bool {
        &&& VDA < 64
        &&& 2 <= FILTER_ELEMENTS <= 64
        &&& v.vda < 64
        &&& v.received_adgs.len() == 16
        &&& v.devices.len() == 64
        &&& !v.normal ==> 2 <= v.startup_stage <= 15
    }

    /// A dispatcher in the startup phase, knowing no devices and no filters.
    ///
    /// `rng` provides the random waits of the startup, `p_tx_irq_frames` takes the frames for
    /// the driver, `p_rx_frames` the frames for the application, and `c_tx_frames` delivers the
    /// frames that the application sends. Each filter holds up to `FILTER_ELEMENTS` entries, a
    /// power of two from 2 to 64 (the object id filter is an index set, which asks for a power
    /// of two above 1).
    pub fn new(
        rng: RNG,
        p_tx_irq_frames: Producer<'static, CanFrame, MAX_TX>,
        p_rx_frames: Producer<'static, Frame, MAX_RX>,
        c_tx_frames: Consumer<'static, Frame, MAX_TX>,
    ) -> (r: Self)
        requires
            VDA < 64,
            FILTER_ELEMENTS == 2 || FILTER_ELEMENTS == 4 || FILTER_ELEMENTS == 8 || FILTER_ELEMENTS == 16
                || FILTER_ELEMENTS == 32 || FILTER_ELEMENTS == 64,
        ensures
            r@ == (DispatchView {
                normal: false,
                sec_tick: 0,
                startup_stage: 15,
                next_startup_instant: None,
                received_adgs: no_adgs(),
                vda: 0,
                devices: Seq::new(64, |i: int| CanDeviceView { time_to_death: 0, is_first: false, object_id: 0 }),
                legacy_filter: Seq::empty(),
                object_id_filter: Set::empty(),
            }),
            Self::well_formed(r@),
            r.logs() == (DispatchLogs { to_app: Seq::empty(), to_bus: Seq::empty(), from_app: Seq::empty(), empty_polls: 0 }),
    {
        let r = CanDispatch {
            normal: false,
            sec_tick: 0,
            startup_stage: 15,
            next_startup_instant: None,
            received_adgs: [false;16],
            vda: 0,
            can_devices: [CanDevice::new();64],
            rng,
            legacy_filter: legacy_new(),
            object_id_filter: filter_new(),
            p_tx_irq_frames,
            p_rx_frames,
            c_tx_frames,
            to_app: Ghost(Seq::empty()),
            to_bus: Ghost(Seq::empty()),
            from_app: Ghost(Seq::empty()),
            empty_polls: Ghost(0),
        };
        assert(r@.received_adgs =~= no_adgs());
        assert(r@.devices =~= Seq::new(64, |i: int| CanDeviceView { time_to_death: 0, is_first: false, object_id: 0 }));
        r
    }

    /// Adds an identifier range of old devices that do not follow the specification; a range
    /// beyond `FILTER_ELEMENTS` does not fit and comes back.
    pub fn set_legacy_filter(&mut self, min: u16, max: u16) -> (r: Result<(), (u16, u16)>)
        requires
            Self::well_formed(old(self)@),
        ensures
            old(self)@.legacy_filter.len() < FILTER_ELEMENTS ==> r is Ok && final(self)@ == (DispatchView {
                legacy_filter: old(self)@.legacy_filter.push((min, max)),
                ..old(self)@
            }),
            old(self)@.legacy_filter.len() >= FILTER_ELEMENTS ==> r == Err::<(), (u16, u16)>((min, max)) && final(self)@ == old(self)@,
            final(self).logs() == old(self).logs(),
    {
        if legacy_len(&self.legacy_filter) >= FILTER_ELEMENTS {
            return Err((min, max));
        }
        legacy_push(&mut self.legacy_filter, (min, max))
    }

    /// Adds an object id whose specific frames the application wants: `Ok(true)` for a new id,
    /// `Ok(false)` for one already there; an id beyond `FILTER_ELEMENTS` does not fit and comes
    /// back.
    pub fn set_object_id_filter(&mut self, object_id: u16) -> (r: Result<bool, u16>)
        requires
            Self::well_formed(old(self)@),
        ensures
            old(self)@.object_id_filter.contains(object_id) ==> r == Ok::<bool, u16>(false) && final(self)@ == old(self)@,
            !old(self)@.object_id_filter.contains(object_id) && old(self)@.object_id_filter.len() < FILTER_ELEMENTS ==> r == Ok::<bool, u16>(true) && final(self)@ == (DispatchView {
                object_id_filter: old(self)@.object_id_filter.insert(object_id),
                ..old(self)@
            }),
            !old(self)@.object_id_filter.contains(object_id) && old(self)@.object_id_filter.len() >= FILTER_ELEMENTS ==> r == Err::<bool, u16>(object_id) && final(self)@ == old(self)@,
            final(self).logs() == old(self).logs(),
    {
        if filter_contains(&self.object_id_filter, object_id) {
            Ok(false)
        } else if filter_len(&self.object_id_filter) >= FILTER_ELEMENTS {
            Err(object_id)
        } else {
            filter_insert(&mut self.object_id_filter, object_id)
        }
    }

    /// Called every 100 ms with the time in µs, and in the startup also at the instant it
    /// asked for: ages the devices once a second and runs the startup or, in normal operation,
    /// passes the application's frames to the driver. Returns the instant at which it wants to
    /// be called next, if it needs an extra call.
    pub fn tick(&mut self, ticks: u64) -> (r: Option<u64>)
        requires
            Self::well_formed(old(self)@),
            !after_second(old(self)@, ticks).normal ==> ticks <= u64::MAX - u32::MAX,
            startup_ends(after_second(old(self)@, ticks), ticks) ==> has_free_address(
                after_second(old(self)@, ticks).devices,
                VDA as int,
            ),
        ensures
            ({
                let w = after_second(old(self)@, ticks);
                if w.normal {
                    final(self)@ == w && r is None
                } else {
                    exists|rnd: u32| (final(self)@, r) == #[trigger] startup_step(w, ticks, rnd, VDA)
                }
            }),
            Self::well_formed(final(self)@),
            ({
                let w = after_second(old(self)@, ticks);
                let before = old(self).logs();
                let after = final(self).logs();
                &&& after.to_app == before.to_app
                &&& drained(before, after, MAX_TX as nat)
                &&& if w.normal {
                    after.to_bus == before.to_bus + translated_all(
                        w.vda,
                        after.from_app.skip(before.from_app.len() as int),
                    )
                } else {
                    after.to_bus == before.to_bus + opt_frame(startup_request(w, ticks, VDA))
                }
            }),
    {
        let ghost start = self@;
        let sec_tick = (ticks / 1_000_000) as u8;
        if sec_tick != self.sec_tick {
            self.sec_tick = sec_tick;
            self.devices_second();
        }
        let ghost w = self@;
        assert(w == after_second(start, ticks));
        if !self.normal {
            self.startup_tick(ticks)
        } else {
            self.norm_tick(ticks)
        }
    }

    /// Ages every device by a second and marks the first living device of each object id.
    fn devices_second(&mut self)
        requires
            Self::well_formed(old(self)@),
        ensures
            final(self)@ == (DispatchView { devices: devices_after_second(old(self)@.devices), ..old(self)@ }),
            final(self).logs() == old(self).logs(),
    {
        let ghost old_devs = self@.devices;
        let ghost t = Seq::new(64, |i: int| device_sec_tick(old_devs[i]));
        let mut seen = seen_new();
        let mut i: usize = 0;
        while i < 64
            invariant
                0 <= i <= 64,
                old_devs == old(self)@.devices,
                old_devs.len() == 64,
                t == Seq::new(64, |k: int| device_sec_tick(old_devs[k])),
                self@ == (DispatchView { devices: self@.devices, ..old(self)@ }),
                forall|k: int| 0 <= k < i ==> #[trigger] self@.devices[k] == devices_after_second(old_devs)[k],
                forall|k: int| i <= k < 64 ==> #[trigger] self@.devices[k] == old_devs[k],
                seen_ids(seen).finite(),
                seen_ids(seen).len() <= i,
                self.logs() == old(self).logs(),
                forall|x: u16| seen_ids(seen).contains(x) <==> (exists|j: int| 0 <= j < i && #[trigger] device_alive(t[j]) && t[j].object_id == x),
            decreases 64 - i,
        {
            let ghost before = self@;
            assert(before.devices[i as int] == old_devs[i as int]);
            assert(t[i as int] == device_sec_tick(old_devs[i as int]));
            self.can_devices[i].sec_tick();
            assert(self.can_devices@[i as int]@ == t[i as int]);
            if self.can_devices[i].is_alive() {
                let oid = self.can_devices[i].object_id();
                if seen_contains(&seen, oid) {
                    self.can_devices[i].set_is_first(false);
                } else {
                    let _ = seen_insert(&mut seen, oid);
                    self.can_devices[i].set_is_first(true);
                }
            }
            proof {
                let d = devices_after_second(old_devs);
                assert(d[i as int] == if device_alive(t[i as int]) {
                    CanDeviceView { is_first: first_of_its_id(t, i as int), ..t[i as int] }
                } else {
                    t[i as int]
                });
                assert(self@.devices[i as int] == devices_after_second(old_devs)[i as int]);
                assert forall|k: int| 0 <= k < i + 1 implies #[trigger] self@.devices[k] == devices_after_second(old_devs)[k] by {
                    if k < i {
                        assert(self@.devices[k] == before.devices[k]);
                    }
                }
                assert forall|k: int| i + 1 <= k < 64 implies #[trigger] self@.devices[k] == old_devs[k] by {
                    assert(self@.devices[k] == before.devices[k]);
                }
                assert forall|x: u16| seen_ids(seen).contains(x) <==> (exists|j: int| 0 <= j < i + 1 && #[trigger] device_alive(t[j]) && t[j].object_id == x) by {
                    if seen_ids(seen).contains(x) && !(exists|j: int| 0 <= j < i && #[trigger] device_alive(t[j]) && t[j].object_id == x) {
                        assert(device_alive(t[i as int]) && t[i as int].object_id == x);
                    }
                }
            }
            i += 1;
        }
        assert(self@.devices =~= devices_after_second(old_devs));
    }

    fn startup_tick(&mut self, ticks: u64) -> (r: Option<u64>)
        requires
            Self::well_formed(old(self)@),
            !old(self)@.normal,
            ticks <= u64::MAX - u32::MAX,
            startup_ends(old(self)@, ticks) ==> has_free_address(old(self)@.devices, VDA as int),
        ensures
            exists|rnd: u32| (final(self)@, r) == #[trigger] startup_step(old(self)@, ticks, rnd, VDA),
            Self::well_formed(final(self)@),
            final(self).logs().to_app == old(self).logs().to_app,
            final(self).logs().to_bus == old(self).logs().to_bus + opt_frame(startup_request(old(self)@, ticks, VDA)),
            drained(old(self).logs(), final(self).logs(), MAX_TX as nat),
    {
        self.drain_tx_frames();
        let ghost v = self@;
        let mut rnd: u32 = 0;
        let mut next = None;
        match self.next_startup_instant {
            None => {
                rnd = self.rng.random(500_000, 600_000);
                next = Some(ticks + rnd as u64);
                self.startup_stage = 15;
                let can_frame = CanFrame::remote_trans_rq(self.startup_stage as u16, 0);
                self.hand_to_bus(can_frame);
                self.received_adgs = [false;16];
                assert(self@.received_adgs =~= no_adgs());
            },
            Some(current) => {
                if current <= ticks {
                    let can_frame = if !(self.received_adgs[(self.startup_stage - 1) as usize]
                        || self.received_adgs[(self.startup_stage - 2) as usize]) {
                        let stage = self.startup_stage - 1;
                        if stage <= 1 {
                            // the startup is over: take the first free address from the wished one on
                            let vda = self.first_free_vda();
                            self.normal = true;
                            self.startup_stage = stage;
                            self.vda = vda;
                            // remote transmission request on the heartbeat identifier
                            CanFrame::remote_trans_rq(self.heartbeat_id(), 0)
                        } else {
                            // remote transmission request on the next arbitration stage
                            self.startup_stage = stage;
                            rnd = self.rng.random(34_000, 67_000);
                            next = Some(current + rnd as u64);
                            CanFrame::remote_trans_rq(self.startup_stage as u16, 0)
                        }
                    } else {
                        // remote transmission request on the same arbitration stage
                        rnd = self.rng.random(34_000, 67_000);
                        next = Some(current + rnd as u64);
                        CanFrame::remote_trans_rq(self.startup_stage as u16, 0)
                    };
                    self.hand_to_bus(can_frame);
                    self.received_adgs = [false;16];
                    assert(self@.received_adgs =~= no_adgs());
                }
            },
        };
        self.next_startup_instant = next;
        assert((self@, next) == startup_step(v, ticks, rnd, VDA));
        next
    }

    /// Offers `frame` to the application's queue and records the offer.
    fn hand_to_app(&mut self, frame: Frame)
        ensures
            final(self)@ == old(self)@,
            final(self).logs() == (DispatchLogs { to_app: old(self).logs().to_app.push(frame), ..old(self).logs() }),
    {
        let _ = enqueue_frame(&mut self.p_rx_frames, frame);
        self.to_app = Ghost(self.to_app@.push(frame));
    }

    /// Offers `can_frame` to the driver's queue and records the offer.
    fn hand_to_bus(&mut self, can_frame: CanFrame)
        ensures
            final(self)@ == old(self)@,
            final(self).logs() == (DispatchLogs { to_bus: old(self).logs().to_bus.push(can_frame@), ..old(self).logs() }),
    {
        let _ = enqueue_can_frame(&mut self.p_tx_irq_frames, can_frame);
        self.to_bus = Ghost(self.to_bus@.push(can_frame@));
    }

    /// Takes the next frame that the application queued, if there is one, and records it.
    fn take_from_app(&mut self) -> (r: Option<Frame>)
        ensures
            final(self)@ == old(self)@,
            final(self).logs() == (DispatchLogs {
                from_app: match r {
                    Some(frame) => old(self).logs().from_app.push(frame),
                    None => old(self).logs().from_app,
                },
                empty_polls: match r {
                    Some(_) => old(self).logs().empty_polls,
                    None => old(self).logs().empty_polls + 1,
                },
                ..old(self).logs()
            }),
    {
        let r = dequeue_frame(&mut self.c_tx_frames);
        match r {
            Some(frame) => {
                self.from_app = Ghost(self.from_app@.push(frame));
            },
            None => {
                self.empty_polls = Ghost(self.empty_polls@ + 1);
            },
        }
        r
    }

    /// The first address from `VDA` on whose device is not alive.
    fn first_free_vda(&self) -> (r: u16)
        requires
            Self::well_formed(self@),
            exists|i: int| VDA <= i < 64 && !device_alive(#[trigger] self@.devices[i]),
        ensures
            r == first_free(self@.devices, VDA as int),
            r < 64,
    {
        let mut vda = VDA;
        while self.can_devices[vda as usize].time_to_death != 0
            invariant
                VDA <= vda < 64,
                first_free(self@.devices, vda as int) == first_free(self@.devices, VDA as int),
                exists|i: int| vda <= i < 64 && !device_alive(#[trigger] self@.devices[i]),
            decreases 64 - vda,
        {
            proof {
                let i = choose|i: int| vda <= i < 64 && !device_alive(#[trigger] self@.devices[i]);
                assert(i != vda);
            }
            vda += 1;
        }
        vda
    }

    /// Takes out, without sending them, the frames that the application queued: no
    /// information frames go out during the startup. Frames are taken until the queue holds
    /// none, at most `MAX_TX`, more than the queue can hold.
    fn drain_tx_frames(&mut self)
        ensures
            final(self)@ == old(self)@,
            final(self).logs().to_app == old(self).logs().to_app,
            final(self).logs().to_bus == old(self).logs().to_bus,
            drained(old(self).logs(), final(self).logs(), MAX_TX as nat),
    {
        let ghost start = self.logs();
        assert(self.from_app@.take(start.from_app.len() as int) =~= start.from_app);
        let mut n: usize = 0;
        let mut empty = false;
        while n < MAX_TX && !empty
            invariant
                self@ == old(self)@,
                start == old(self).logs(),
                self.logs().to_app == start.to_app,
                self.logs().to_bus == start.to_bus,
                n <= MAX_TX,
                self.logs().from_app.len() == start.from_app.len() + n,
                self.logs().from_app.take(start.from_app.len() as int) == start.from_app,
                self.logs().empty_polls == start.empty_polls + (if empty { 1int } else { 0int }),
                empty ==> n < MAX_TX,
            decreases MAX_TX - n + (if empty { 0int } else { 1int }),
        {
            let ghost before = self.from_app@;
            match self.take_from_app() {
                Some(_) => {
                    assert(self.from_app@.take(start.from_app.len() as int) =~= before.take(
                        start.from_app.len() as int,
                    ));
                    n += 1;
                },
                None => {
                    empty = true;
                },
            }
        }
    }

    /// Takes a frame from the bus, hands it to the application if the filter lets it through,
    /// and follows the heartbeats.
    ///
    /// During the startup the frame only tells that the arbitration stage of its identifier
    /// (when below 16) is taken. In normal operation the frame that `filtered` gives, if any,
    /// is offered to the application's queue; the `to_app` log records each offer, whether or
    /// not the queue had room for it.
    pub fn rx_data(&mut self, can_frame: CanFrame)
        requires
            Self::well_formed(old(self)@),
        ensures
            ({
                let w = after_heartbeat(old(self)@, can_frame@);
                if w.normal {
                    final(self)@ == w
                } else if can_frame@.id < 16 {
                    final(self)@ == (DispatchView {
                        received_adgs: w.received_adgs.update(can_frame@.id as int, true),
                        ..w
                    })
                } else {
                    final(self)@ == w
                }
            }),
            Self::well_formed(final(self)@),
            final(self).logs() == (DispatchLogs {
                to_app: old(self).logs().to_app + offer_to_app(old(self)@, can_frame),
                ..old(self).logs()
            }),
    {
        let ghost v = self@;
        if can_frame.is_heartbeat() {
            let a = can_frame.vda() as usize;
            self.can_devices[a].set_object_id(can_frame);
            if can_frame.vda() == self.vda {
                self.startup_stage = 15;
                self.normal = false;
                self.received_adgs = [false;16];
            }
        }
        assert(self@ == after_heartbeat(v, can_frame@)) by {
            assert(self@.devices =~= after_heartbeat(v, can_frame@).devices);
            assert(self@.received_adgs =~= after_heartbeat(v, can_frame@).received_adgs);
        }
        if !self.normal {
            // remember the arbitration stages that other devices use
            if can_frame.id() < 16 {
                self.received_adgs[can_frame.id() as usize] = true;
            }
            assert(old(self).logs().to_app + offer_to_app(v, can_frame) =~= old(self).logs().to_app);
        } else {
            match self.filter(&can_frame) {
                Some(frame) => {
                    self.hand_to_app(frame);
                    assert(self.to_app@ =~= old(self).logs().to_app + offer_to_app(v, can_frame));
                },
                None => {
                    assert(old(self).logs().to_app + offer_to_app(v, can_frame) =~= old(self).logs().to_app);
                },
            }
        }
    }

    /// What the filter hands the application of a frame from the bus; see `filtered`.
    pub fn filter(&self, can_frame: &CanFrame) -> (r: Option<Frame>)
        requires
            Self::well_formed(self@),
        ensures
            r == filtered(self@, *can_frame),
    {
        if !self.normal {
            return None;
        }
        // first: is it a legacy frame?
        let id = can_frame.id();
        let n = legacy_len(&self.legacy_filter);
        let mut i: usize = 0;
        while i < n
            invariant
                self.normal,
                n == self@.legacy_filter.len(),
                i <= n,
                id == can_frame@.id,
                forall|k: int| 0 <= k < i ==> !(self@.legacy_filter[k].0 <= id && id <= #[trigger] self@.legacy_filter[k].1),
            decreases n - i,
        {
            let (min, max) = legacy_at(&self.legacy_filter, i);
            if id >= min && id <= max {
                assert(self@.legacy_filter[i as int].0 <= id && id <= self@.legacy_filter[i as int].1);
                return Some(Frame::Legacy(*can_frame));
            }
            i += 1;
        }
        // then: is it a generic frame?
        if let Some(generic_id) = can_frame.generic_id() {
            // the heartbeats stay out
            if generic_id > 0 {
                return Some(Frame::Generic(GenericFrame { generic_id, can_frame: *can_frame }));
            }
            return None;
        }
        // last: does the application want the object id of the sender?
        let a = can_frame.vda() as usize;
        let object_id = self.can_devices[a].object_id();
        let is_first = self.can_devices[a].is_first();
        if filter_contains(&self.object_id_filter, object_id) && is_first {
            if let Some(specific_id) = can_frame.specific_id() {
                return Some(Frame::Specific(SpecificFrame { specific_id, object_id, can_frame: *can_frame }));
            }
        }
        None
    }

    /// Passes the frames that the application queued to the driver, with the identifiers of
    /// this device's address (see `translated`): frames are taken until the queue holds none,
    /// at most `MAX_TX`, more than the queue can hold. The `from_app` log records the frames
    /// taken from the queue, and the `to_bus` log each of them as it was offered to the driver.
    /// Never asks for an extra call.
    pub fn norm_tick(&mut self, _ticks: u64) -> (r: Option<u64>)
        requires
            Self::well_formed(old(self)@),
        ensures
            final(self)@ == old(self)@,
            r is None,
            final(self).logs().to_app == old(self).logs().to_app,
            drained(old(self).logs(), final(self).logs(), MAX_TX as nat),
            final(self).logs().to_bus == old(self).logs().to_bus + translated_all(
                old(self)@.vda,
                final(self).logs().from_app.skip(old(self).logs().from_app.len() as int),
            ),
    {
        let ghost start = self.logs();
        let mut n: usize = 0;
        assert(self.from_app@.skip(start.from_app.len() as int) =~= Seq::<Frame>::empty());
        assert(self.from_app@.take(start.from_app.len() as int) =~= start.from_app);
        assert(translated_all(self@.vda, Seq::<Frame>::empty()) =~= Seq::<CanFrameView>::empty());
        assert(start.to_bus + Seq::<CanFrameView>::empty() =~= start.to_bus);
        let mut empty = false;
        while n < MAX_TX && !empty
            invariant
                self@ == old(self)@,
                Self::well_formed(self@),
                start == old(self).logs(),
                self.logs().to_app == start.to_app,
                n <= MAX_TX,
                self.logs().from_app.len() == start.from_app.len() + n,
                self.logs().from_app.take(start.from_app.len() as int) == start.from_app,
                self.logs().empty_polls == start.empty_polls + (if empty { 1int } else { 0int }),
                empty ==> n < MAX_TX,
                self.logs().to_bus == start.to_bus + translated_all(
                    self@.vda,
                    self.logs().from_app.skip(start.from_app.len() as int),
                ),
            decreases MAX_TX - n + (if empty { 0int } else { 1int }),
        {
            let ghost taken = self.from_app@;
            match self.take_from_app() {
                Some(frame) => {
                    let can_frame = self.translate(frame);
                    self.hand_to_bus(can_frame);
                    proof {
                        let k = start.from_app.len() as int;
                        assert(self.from_app@.take(k) =~= taken.take(k));
                        assert(self.from_app@.skip(k) =~= taken.skip(k).push(frame));
                        assert(translated_all(self@.vda, taken.skip(k).push(frame)) =~= translated_all(
                            self@.vda,
                            taken.skip(k),
                        ).push(translated(self@.vda, frame)));
                        assert(self.to_bus@ =~= start.to_bus + translated_all(self@.vda, self.from_app@.skip(k)));
                    }
                    n += 1;
                },
                None => {
                    empty = true;
                },
            }
        }
        None
    }

    /// The frame that goes on the bus for a frame of the application; see `translated`.
    pub fn translate(&self, frame: Frame) -> (r: CanFrame)
        requires
            Self::well_formed(self@),
        ensures
            r@ == translated(self@.vda, frame),
    {
        match frame {
            Frame::Legacy(can_frame) => can_frame,
            Frame::Generic(generic_frame) => {
                let mut can_frame = generic_frame.can_frame;
                can_frame.set_id(self.heartbeat_id().wrapping_add(generic_frame.generic_id));
                can_frame
            },
            Frame::Specific(specific_frame) => {
                let mut can_frame = specific_frame.can_frame;
                can_frame.set_id(self.base_id().wrapping_add(specific_frame.specific_id));
                can_frame
            },
        }
    }

    fn heartbeat_id(&self) -> (r: u16)
        requires
            Self::well_formed(self@),
        ensures
            r == heartbeat_id_of(self@.vda),
    {
        proof {
            lemma_shift4(self.vda);
        }
        (self.vda << 4) + 0x400
    }

    fn base_id(&self) -> (r: u16)
        requires
            Self::well_formed(self@),
        ensures
            r == base_id_of(self@.vda),
    {
        proof {
            lemma_shift4(self.vda);
        }
        self.vda << 4
    }
}

/// What one device sends, another device in normal operation receives as it was meant.
///
/// A generic frame (generic id 1 to 15) sent by the device at address `vda` reaches the
/// application of a receiver as a generic frame with the same generic id. A specific frame
/// (specific id below 16) reaches it as a specific frame with the same specific id and the
/// sender's object id, when the receiver wants that object id and the sender is the first
/// living device with it; otherwise it does not reach it. This holds where no legacy range of
/// the receiver covers the identifier.
pub proof fn lemma_sent_frame_is_received(vda: u16, frame: Frame, rx: DispatchView, can_frame: CanFrame)
    requires
        vda < 64,
        rx.normal,
        rx.devices.len() == 64,
        can_frame@ == translated(vda, frame),
        !in_legacy_range(rx.legacy_filter, can_frame@.id),
    ensures
        (match frame {
            Frame::Generic(g) => 0 < g.generic_id < 16 ==> filtered(rx, can_frame) == Some(
                Frame::Generic(GenericFrame { generic_id: g.generic_id, can_frame }),
            ),
            Frame::Specific(sf) => sf.specific_id < 16 ==> filtered(rx, can_frame) == if rx.object_id_filter.contains(
                rx.devices[vda as int].object_id,
            ) && rx.devices[vda as int].is_first {
                Some(
                    Frame::Specific(
                        SpecificFrame {
                            specific_id: sf.specific_id,
                            object_id: rx.devices[vda as int].object_id,
                            can_frame,
                        },
                    ),
                )
            } else {
                None
            },
            Frame::Legacy(_) => true,
        }),
{
    match frame {
        Frame::Generic(g) => {
            if 0 < g.generic_id < 16 {
                let id = heartbeat_id_of(vda).wrapping_add(g.generic_id);
                assert(id == vda * 16 + 0x400 + g.generic_id);
                assert(spec_generic_id(id) == Some(g.generic_id));
            }
        },
        Frame::Specific(sf) => {
            if sf.specific_id < 16 {
                let id = base_id_of(vda).wrapping_add(sf.specific_id);
                assert(id == vda * 16 + sf.specific_id);
                assert(spec_generic_id(id) is None);
                assert(spec_vda(id) == vda);
                assert(id % 16 == sf.specific_id);
            }
        },
        Frame::Legacy(_) => {},
    }
}

/// A device is alive for two more seconds after a heartbeat, and dead after the third second
/// without one, when it also forgets its object id.
pub proof fn lemma_heartbeat_lifetime(d: CanDeviceView, frame: CanFrameView)
    requires
        spec_is_heartbeat(frame.id),
    ensures
        device_alive(device_heartbeat(d, frame)),
        device_alive(device_sec_tick(device_heartbeat(d, frame))),
        device_alive(device_sec_tick(device_sec_tick(device_heartbeat(d, frame)))),
        !device_alive(device_sec_tick(device_sec_tick(device_sec_tick(device_heartbeat(d, frame))))),
        device_sec_tick(device_sec_tick(device_sec_tick(device_heartbeat(d, frame)))).object_id == 0,
{
}

/// The startup takes the wished address when it is free, or else the next free one: the
/// address chosen from `from` on is free, and all addresses between are taken.
pub proof fn lemma_first_free(devs: Seq<CanDeviceView>, from: int)
    requires
        0 <= from,
        devs.len() == 64,
        has_free_address(devs, from),
    ensures
        from <= first_free(devs, from) < 64,
        !device_alive(devs[first_free(devs, from)]),
        forall|k: int| from <= k < first_free(devs, from) ==> device_alive(#[trigger] devs[k]),
    decreases 64 - from,
{
    if from < 64 && device_alive(devs[from]) {
        let i = choose|i: int| from <= i < 64 && !device_alive(#[trigger] devs[i]);
        assert(i != from);
        assert(has_free_address(devs, from + 1));
        lemma_first_free(devs, from + 1);
    }
}

} // verus!
