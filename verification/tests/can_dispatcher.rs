use heapless::spsc::{Consumer, Producer, Queue};
use larus_core::can_dispatcher::{CanDevice, CanDispatch, CanRng};
use larus_core::can_frame::{CanFrame, Frame};

struct FixedRng(u32);

impl CanRng for FixedRng {
    fn random(&mut self, _min: u32, _max: u32) -> u32 {
        self.0
    }
}

type Dispatch = CanDispatch<5, 8, 32, 8, FixedRng>;

struct Bench {
    d: Dispatch,
    bus: Consumer<'static, CanFrame, 32>,
    app_rx: Consumer<'static, Frame, 8>,
    app_tx: Producer<'static, Frame, 32>,
}

fn bench() -> Bench {
    let to_bus: &'static mut Queue<CanFrame, 32> = Box::leak(Box::new(Queue::new()));
    let to_app: &'static mut Queue<Frame, 8> = Box::leak(Box::new(Queue::new()));
    let from_app: &'static mut Queue<Frame, 32> = Box::leak(Box::new(Queue::new()));
    let (p_bus, c_bus) = to_bus.split();
    let (p_app, c_app) = to_app.split();
    let (p_from, c_from) = from_app.split();
    Bench { d: Dispatch::new(FixedRng(1000), p_bus, p_app, c_from), bus: c_bus, app_rx: c_app, app_tx: p_from }
}

fn heartbeat(vda: u16, object_id: u16) -> CanFrame {
    CanFrame::empty_from_id(0x400 + vda * 16).push_u16(object_id)
}

/// Runs the startup to its end and returns the identifiers of the frames it sent.
fn start(b: &mut Bench) -> Vec<u16> {
    let mut sent = Vec::new();
    let mut next = b.d.tick(0);
    while let Some(t) = next {
        next = b.d.tick(t);
        while let Some(f) = b.bus.dequeue() {
            assert!(f.is_rtr());
            sent.push(f.id());
        }
    }
    sent
}

#[test]
fn startup_walks_down_the_stages_and_takes_the_address() {
    let mut b = bench();
    let sent = start(&mut b);
    let mut expected: Vec<u16> = (2..=15).rev().collect();
    expected.push(0x400 + 5 * 16);
    assert_eq!(sent, expected);
}

#[test]
fn startup_repeats_a_stage_that_is_taken() {
    let mut b = bench();
    assert_eq!(b.d.tick(0), Some(1000));
    assert_eq!(b.d.tick(1000), Some(2000));
    // another device uses stage 13: stage 14 is repeated
    b.d.rx_data(CanFrame::remote_trans_rq(13, 0));
    assert_eq!(b.d.tick(2000), Some(3000));
    assert_eq!(b.d.tick(3000), Some(4000));
    let ids: Vec<u16> = core::iter::from_fn(|| b.bus.dequeue()).map(|f| f.id()).collect();
    assert_eq!(ids, vec![15, 14, 14, 13]);
    // called before the planned instant, the plan is dropped
    assert_eq!(b.d.tick(3500), None);
}

#[test]
fn startup_skips_addresses_in_use() {
    let mut b = bench();
    assert_eq!(b.d.tick(0), Some(1000));
    b.d.rx_data(heartbeat(5, 0x0101));
    b.d.rx_data(heartbeat(6, 0x0102));
    let mut next = b.d.tick(1000);
    while let Some(t) = next {
        next = b.d.tick(t);
    }
    let last = core::iter::from_fn(|| b.bus.dequeue()).last().unwrap();
    assert_eq!(last.id(), 0x400 + 7 * 16);
}

#[test]
fn filter_hands_out_what_the_application_wants() {
    let mut b = bench();
    start(&mut b);
    assert!(b.d.set_legacy_filter(0x100, 0x10f).is_ok());
    assert_eq!(b.d.set_object_id_filter(0x1234), Ok(true));
    assert_eq!(b.d.set_object_id_filter(0x1234), Ok(false));

    b.d.rx_data(heartbeat(9, 0x1234));
    b.d.rx_data(heartbeat(8, 0x4321));
    // the first living device of each object id is found once a second
    assert_eq!(b.d.tick(1_000_000), None);

    // heartbeats stay out
    assert!(b.app_rx.dequeue().is_none());

    b.d.rx_data(CanFrame::empty_from_id(9 * 16 + 3).push_u8(42));
    match b.app_rx.dequeue() {
        Some(Frame::Specific(s)) => {
            assert_eq!(s.specific_id, 3);
            assert_eq!(s.object_id, 0x1234);
            assert_eq!(s.can_frame.data(), &[42u8]);
        }
        other => panic!("unexpected {:?}", other),
    }
    // an object id that the application does not want
    b.d.rx_data(CanFrame::empty_from_id(8 * 16 + 3));
    assert!(b.app_rx.dequeue().is_none());

    b.d.rx_data(CanFrame::empty_from_id(0x400 + 8 * 16 + 2));
    match b.app_rx.dequeue() {
        Some(Frame::Generic(g)) => assert_eq!(g.generic_id, 2),
        other => panic!("unexpected {:?}", other),
    }

    b.d.rx_data(CanFrame::empty_from_id(0x105));
    match b.app_rx.dequeue() {
        Some(Frame::Legacy(c)) => assert_eq!(c.id(), 0x105),
        other => panic!("unexpected {:?}", other),
    }
    assert!(matches!(b.d.filter(&CanFrame::empty_from_id(0x10f)), Some(Frame::Legacy(_))));
    assert!(b.d.filter(&CanFrame::empty_from_id(0x400)).is_none());
}

#[test]
fn filters_are_bounded() {
    let mut b = bench();
    for k in 0..8u16 {
        assert!(b.d.set_legacy_filter(k, k).is_ok());
        assert_eq!(b.d.set_object_id_filter(k), Ok(true));
    }
    assert_eq!(b.d.set_legacy_filter(100, 200), Err((100, 200)));
    assert_eq!(b.d.set_object_id_filter(100), Err(100));
}

#[test]
fn filter_size_is_a_parameter() {
    let to_bus: &'static mut Queue<CanFrame, 32> = Box::leak(Box::new(Queue::new()));
    let to_app: &'static mut Queue<Frame, 8> = Box::leak(Box::new(Queue::new()));
    let from_app: &'static mut Queue<Frame, 32> = Box::leak(Box::new(Queue::new()));
    let (p_bus, _c_bus) = to_bus.split();
    let (p_app, _c_app) = to_app.split();
    let (_p_from, c_from) = from_app.split();
    let mut d = CanDispatch::<5, 16, 32, 8, FixedRng>::new(FixedRng(1000), p_bus, p_app, c_from);
    for k in 0..16u16 {
        assert!(d.set_legacy_filter(k, k).is_ok());
        assert_eq!(d.set_object_id_filter(k), Ok(true));
    }
    assert_eq!(d.set_object_id_filter(3), Ok(false));
    assert_eq!(d.set_legacy_filter(100, 200), Err((100, 200)));
    assert_eq!(d.set_object_id_filter(100), Err(100));
}

#[test]
fn normal_tick_passes_every_queued_frame() {
    let mut b = bench();
    start(&mut b);
    for k in 0..20u16 {
        b.app_tx.enqueue(Frame::Legacy(CanFrame::empty_from_id(0x100 + k))).unwrap();
    }
    assert_eq!(b.d.norm_tick(0), None);
    let mut ids = Vec::new();
    while let Some(f) = b.bus.dequeue() {
        ids.push(f.id());
    }
    assert_eq!(ids, (0..20u16).map(|k| 0x100 + k).collect::<Vec<u16>>());
}

#[test]
fn sent_frames_get_the_own_identifiers() {
    let mut b = bench();
    start(&mut b);
    let c = CanFrame::from_slice(0, &[1, 2]);
    assert_eq!(b.d.translate(Frame::generic(c, 2)).id(), 0x400 + 5 * 16 + 2);
    assert_eq!(b.d.translate(Frame::specific(c, 3, 0x99)).id(), 5 * 16 + 3);
    assert_eq!(b.d.translate(Frame::Legacy(CanFrame::empty_from_id(0x123))).id(), 0x123);

    assert!(b.app_tx.enqueue(Frame::generic(c, 4)).is_ok());
    assert!(b.app_tx.enqueue(Frame::specific(c, 1, 7)).is_ok());
    assert_eq!(b.d.norm_tick(0), None);
    let out: Vec<CanFrame> = core::iter::from_fn(|| b.bus.dequeue()).collect();
    assert_eq!(out.len(), 2);
    assert_eq!(out[0].id(), 0x454);
    assert_eq!(out[0].data(), &[1u8, 2]);
    assert_eq!(out[1].id(), 0x51);
}

#[test]
fn frames_sent_by_one_are_received_by_another() {
    let mut sender = bench();
    start(&mut sender);
    let mut receiver = bench();
    // the receiver got the sender's heartbeat before, so it takes another address
    receiver.d.tick(0);
    receiver.d.rx_data(heartbeat(5, 0x0abc));
    let mut next = receiver.d.tick(1000);
    while let Some(t) = next {
        next = receiver.d.tick(t);
    }
    receiver.d.set_object_id_filter(0x0abc).unwrap();
    receiver.d.tick(1_000_000);

    for frame in [Frame::generic(CanFrame::from_slice(0, &[7]), 6), Frame::specific(CanFrame::from_slice(0, &[8]), 12, 0)] {
        let on_bus = sender.d.translate(frame);
        receiver.d.rx_data(on_bus);
    }
    match receiver.app_rx.dequeue() {
        Some(Frame::Generic(g)) => {
            assert_eq!(g.generic_id, 6);
            assert_eq!(g.can_frame.data(), &[7u8]);
        }
        other => panic!("unexpected {:?}", other),
    }
    match receiver.app_rx.dequeue() {
        Some(Frame::Specific(s)) => {
            assert_eq!(s.specific_id, 12);
            assert_eq!(s.object_id, 0x0abc);
            assert_eq!(s.can_frame.data(), &[8u8]);
        }
        other => panic!("unexpected {:?}", other),
    }
}

#[test]
fn heartbeat_on_own_address_restarts() {
    let mut b = bench();
    start(&mut b);
    b.d.rx_data(heartbeat(5, 0x77));
    // back in the startup: a new random wait is planned
    assert_eq!(b.d.tick(10), Some(1010));
}

#[test]
fn devices_die_after_three_seconds() {
    let mut d = CanDevice::new();
    assert!(d.is_death());
    d.set_object_id(heartbeat(3, 0x55));
    assert!(d.is_alive());
    assert_eq!(d.object_id(), 0x55);
    d.sec_tick();
    d.sec_tick();
    assert!(d.is_alive());
    d.sec_tick();
    assert!(d.is_death());
    assert_eq!(d.object_id(), 0);
    // frames other than heartbeats do not bring it to life
    d.set_object_id(CanFrame::empty_from_id(0x31).push_u16(0x55));
    assert!(d.is_death());
    d.set_is_first(true);
    assert!(d.is_first());
}
