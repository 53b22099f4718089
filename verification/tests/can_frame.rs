use larus_core::can_frame::{CanFrame, Frame, Reader};

#[test]
fn it_works() {
    let result = 2 + 2;
    assert_eq!(result, 4);
}

#[test]
fn is_heartbeat() {
    let can_frame = CanFrame::empty_from_id(0x400);
    assert_eq!(can_frame.is_heartbeat(), true);
    let can_frame = CanFrame::empty_from_id(0x610);
    assert_eq!(can_frame.is_heartbeat(), true);
    let can_frame = CanFrame::empty_from_id(0x611);
    assert_eq!(can_frame.is_heartbeat(), false);
    let can_frame = CanFrame::empty_from_id(0x300);
    assert_eq!(can_frame.is_heartbeat(), false);
}

#[test]
fn generic_id() {
    let can_frame = CanFrame::empty_from_id(0x400);
    assert_eq!(can_frame.generic_id(), Some(0));
    let can_frame = CanFrame::empty_from_id(0x613);
    assert_eq!(can_frame.generic_id(), Some(3));
    let can_frame = CanFrame::empty_from_id(0x61f);
    assert_eq!(can_frame.generic_id(), Some(15));
    let can_frame = CanFrame::empty_from_id(0x3ff);
    assert_eq!(can_frame.generic_id(), None);
    let can_frame = CanFrame::empty_from_id(0x123);
    assert_eq!(can_frame.generic_id(), None);
}

#[test]
fn specific_id() {
    let can_frame = CanFrame::empty_from_id(0x400);
    assert_eq!(can_frame.specific_id(), None);
    let can_frame = CanFrame::empty_from_id(0x613);
    assert_eq!(can_frame.specific_id(), None);
    let can_frame = CanFrame::empty_from_id(0x31f);
    assert_eq!(can_frame.specific_id(), Some(15));
    let can_frame = CanFrame::empty_from_id(0x3ff);
    assert_eq!(can_frame.specific_id(), Some(15));
    let can_frame = CanFrame::empty_from_id(0x123);
    assert_eq!(can_frame.specific_id(), Some(3));
}

#[test]
fn every_id_is_generic_or_specific() {
    for id in 0u16..0x800 {
        let f = CanFrame::empty_from_id(id);
        assert!(f.generic_id().is_some() != f.specific_id().is_some());
        assert_eq!(f.is_heartbeat(), f.generic_id() == Some(0));
        let range: u16 = if id >= 0x400 { 0x400 } else { 0 };
        let low = f.generic_id().or(f.specific_id()).unwrap();
        assert_eq!(range + 16 * f.vda() + low, id);
    }
}

#[test]
fn vda_of_identifiers() {
    assert_eq!(CanFrame::empty_from_id(0x400).vda(), 0);
    assert_eq!(CanFrame::empty_from_id(0x613).vda(), 33);
    assert_eq!(CanFrame::empty_from_id(0x3ff).vda(), 63);
    assert_eq!(CanFrame::empty_from_id(0x123).vda(), 18);
}

#[test]
fn empty_and_remote_frames() {
    let f = CanFrame::empty_from_id(0x123);
    assert_eq!(f.id(), 0x123);
    assert_eq!(f.dlc(), 0);
    assert!(!f.is_rtr());
    assert_eq!(f.data(), &[] as &[u8]);

    let f = CanFrame::remote_trans_rq(0x40f, 2);
    assert!(f.is_rtr());
    assert_eq!(f.dlc(), 2);
    assert_eq!(f.data(), &[0u8, 0u8]);
}

#[test]
fn from_slice_and_set_id() {
    let mut f = CanFrame::from_slice(0x200, &[1, 2, 3]);
    assert_eq!(f.dlc(), 3);
    assert_eq!(f.data(), &[1u8, 2, 3]);
    f.set_id(0x201);
    assert_eq!(f.id(), 0x201);
    assert_eq!(f.data(), &[1u8, 2, 3]);
}

#[test]
fn pushed_values_read_back() {
    let f = CanFrame::empty_from_id(0x10)
        .push_u16(0xbeef)
        .push_i16(-2)
        .push_u32(0x1234_5678);
    assert_eq!(f.dlc(), 8);
    assert_eq!(f.data(), &[0xef, 0xbe, 0xfe, 0xff, 0x78, 0x56, 0x34, 0x12]);
    assert_eq!(f.read_u16(0), 0xbeef);
    assert_eq!(f.read_i16(2), -2);
    assert_eq!(f.read_u16(2), 0xfffe);
    assert_eq!(f.read_u32(4), 0x1234_5678);
    assert_eq!(f.read_u8(7), 0x12);

    let g = CanFrame::empty_from_id(0x10).push_i32(-100_000).push_u8(7).push_i8(-1);
    assert_eq!(g.dlc(), 6);
    assert_eq!(g.read_i32(0), -100_000);
    assert_eq!(g.read_u32(0), 0xfffe_7960);
    assert_eq!(g.read_u8(4), 7);
    assert_eq!(g.read_i8(5), -1);
    assert_eq!(g.read_u8(5), 0xff);
}

#[test]
fn push_slice_appends() {
    let f = CanFrame::empty_from_id(0x11).push_u8(9).push_slice(&[1, 2, 3]);
    assert_eq!(f.data(), &[9u8, 1, 2, 3]);
    assert_eq!(f.dlc(), 4);
}

#[test]
fn reader_pops_in_order() {
    let f = CanFrame::empty_from_id(0x12)
        .push_u8(200)
        .push_i8(-3)
        .push_u16(513)
        .push_i32(-7);
    let mut rdr = f.reader();
    assert_eq!(rdr.pop_u8(), 200);
    assert_eq!(rdr.pop_i8(), -3);
    assert_eq!(rdr.pop_u16(), 513);
    assert_eq!(rdr.pop_i32(), -7);

    let bytes = [0x01u8, 0x00, 0xff, 0xff, 0x00, 0x00, 0x00, 0x80];
    let mut rdr = Reader::new(&bytes);
    assert_eq!(rdr.pop_i16(), 1);
    assert_eq!(rdr.pop_i16(), -1);
    assert_eq!(rdr.pop_u32(), 0x8000_0000);
}

#[test]
fn reader_counts_the_bytes_left() {
    let bytes = [1u8, 2, 3, 4, 5];
    let mut rdr = Reader::new(&bytes);
    assert_eq!(rdr.remaining(), 5);
    rdr.pop_u32();
    assert_eq!(rdr.remaining(), 1);
    rdr.pop_u8();
    assert_eq!(rdr.remaining(), 0);
}

#[test]
fn frames_wrap_can_frames() {
    let c = CanFrame::from_slice(0x42, &[5]);
    let s = Frame::specific(c, 3, 0x1234);
    match s {
        Frame::Specific(sf) => {
            assert_eq!(sf.specific_id, 3);
            assert_eq!(sf.object_id, 0x1234);
        }
        _ => panic!("not a specific frame"),
    }
    assert_eq!(s.basic_frame().id(), 0x42);
    let g = Frame::generic(c, 7);
    match g {
        Frame::Generic(gf) => assert_eq!(gf.generic_id, 7),
        _ => panic!("not a generic frame"),
    }
    assert_eq!(g.basic_frame().data(), &[5u8]);
    assert_eq!(Frame::Legacy(c).basic_frame().id(), 0x42);
}
