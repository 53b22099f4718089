use larus_core::can_frame::Frame;
use larus_core::can_ids::{CanConfigId, RemoteConfig};
use larus_core::can_wtr::{
    can_frame_avg_climb_rates, can_frame_heartbeat, can_frame_remote_config, can_frame_sound,
    can_frame_sys_config, can_frame_volt_temp, OBJECT_ID,
};

fn generic(f: Frame) -> (u16, Vec<u8>) {
    match f {
        Frame::Generic(g) => {
            assert_eq!(g.can_frame.id(), 0);
            assert!(!g.can_frame.is_rtr());
            (g.generic_id, g.can_frame.data().to_vec())
        }
        other => panic!("not generic: {:?}", other),
    }
}

fn specific(f: Frame) -> (u16, u16, Vec<u8>) {
    match f {
        Frame::Specific(s) => (s.specific_id, s.object_id, s.can_frame.data().to_vec()),
        other => panic!("not specific: {:?}", other),
    }
}

#[test]
fn heartbeat_frame() {
    let (id, data) = generic(can_frame_heartbeat(0xdead_beef));
    assert_eq!(id, 0);
    assert_eq!(data, vec![4, 0, 0, 0, 0xef, 0xbe, 0xad, 0xde]);
}

#[test]
fn sound_frame() {
    let (sid, oid, data) = specific(can_frame_sound(1200, 50, -3, true));
    assert_eq!((sid, oid), (0, OBJECT_ID));
    assert_eq!(data, vec![0xb0, 0x04, 50, 0, 0xfd, 1]);
    let (_, _, data) = specific(can_frame_sound(0, 0, 0, false));
    assert_eq!(data, vec![0, 0, 0, 0, 0, 0]);
}

#[test]
fn float_frames_carry_bit_patterns() {
    let (sid, oid, data) = specific(can_frame_volt_temp(12.5f32.to_bits(), 21.0f32.to_bits()));
    assert_eq!((sid, oid), (1, 4));
    assert_eq!(f32::from_le_bytes([data[0], data[1], data[2], data[3]]), 12.5);
    assert_eq!(f32::from_le_bytes([data[4], data[5], data[6], data[7]]), 21.0);
    let (sid, _, data) = specific(can_frame_avg_climb_rates((-1.5f32).to_bits(), 2.25f32.to_bits()));
    assert_eq!(sid, 2);
    assert_eq!(f32::from_le_bytes([data[0], data[1], data[2], data[3]]), -1.5);
    assert_eq!(f32::from_le_bytes([data[4], data[5], data[6], data[7]]), 2.25);
}

#[test]
fn sys_config_frames() {
    let (id, data) = generic(can_frame_sys_config(CanConfigId::Volume, 0xfe, 123).unwrap());
    assert_eq!(id, 2);
    assert_eq!(data, vec![0, 0, 0xfe, 0, 0, 0, 0, 0]);
    let (_, data) = generic(can_frame_sys_config(CanConfigId::VarioMode, 1, 0).unwrap());
    assert_eq!(data, vec![9, 0, 1, 0, 0, 0, 0, 0]);
    let (_, data) = generic(can_frame_sys_config(CanConfigId::Qnh, 7, 1013.25f32.to_bits()).unwrap());
    assert_eq!(&data[..4], &[4, 0, 0, 0]);
    assert_eq!(f32::from_le_bytes([data[4], data[5], data[6], data[7]]), 1013.25);
    assert!(can_frame_sys_config(CanConfigId::VarioModeControl, 0, 0).is_none());
    assert!(can_frame_sys_config(CanConfigId::SensTiltRoll, 0, 0).is_none());
    assert!(can_frame_sys_config(CanConfigId::Ignore, 0, 0).is_none());
}

#[test]
fn remote_config_frames() {
    let (id, data) = generic(can_frame_remote_config(CanConfigId::PitotOffset, RemoteConfig::Get, None).unwrap());
    assert_eq!(id, 2);
    assert_eq!(data, vec![0x03, 0x20, 0, 0, 0, 0, 0, 0]);
    let (_, data) = generic(can_frame_remote_config(CanConfigId::VarioTc, RemoteConfig::Put, Some(0x4040_0000)).unwrap());
    assert_eq!(data, vec![0x07, 0x20, 1, 0, 0, 0, 0x40, 0x40]);
    assert!(can_frame_remote_config(CanConfigId::VarioTc, RemoteConfig::Put, None).is_none());
}
