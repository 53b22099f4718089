//! The frames that the device sends on the CAN bus: its heartbeat, the sound for the sensor
//! box, supply voltage and temperature, average climb rates, and configuration values.
//!
//! Values that the model holds as floating point numbers are handed in by their IEEE 754 bit
//! patterns (`f32::to_bits`); the frames carry these bits little endian.
use crate::can_frame::{unsigned8, CanFrame, Frame};
use crate::can_ids::{CanConfigId, RemoteConfig};
use vstd::prelude::*;

verus! {

/// The object id of this device on the bus.
pub const OBJECT_ID: u16 = 4;

/// The generation of this device's object.
pub const OBJECT_ID_GEN: u16 = 0;

/// The two bytes of `n`, lowest first.
pub open spec fn le16_bytes(n: u16) -> Seq<u8> {
    seq![(n % 256) as u8, (n / 256) as u8]
}

/// The four bytes of `n`, lowest first.
pub open spec fn le32_bytes(n: u32) -> Seq<u8> {
    seq![(n % 256) as u8, ((n / 256) % 256) as u8, ((n / 65536) % 256) as u8, (n / 16777216) as u8]
}

/// Whether `f` is a data frame on identifier 0 (the dispatcher puts in the real one) that
/// carries exactly `payload`.
pub open spec fn carries(f: CanFrame, payload: Seq<u8>) -> bool {
    &&& f@.id == 0
    &&& !f@.rtr
    &&& f@.len == payload.len()
    &&& f.payload() == payload
}

/// The six data bytes of a configuration value: a byte value first, or a 32 bit value after
/// two zero bytes.
pub open spec fn config_data(config_id: CanConfigId, byte_value: u8, value_bits: u32) -> Option<Seq<u8>> {
    match config_id {
        CanConfigId::Volume | CanConfigId::VarioMode => Some(seq![byte_value, 0u8, 0u8, 0u8, 0u8, 0u8]),
        CanConfigId::MacCready | CanConfigId::WaterBallast | CanConfigId::Bugs | CanConfigId::Qnh
        | CanConfigId::PilotWeight | CanConfigId::TcClimbRate | CanConfigId::TcSpeedToFly => Some(
            seq![0u8, 0u8] + le32_bytes(value_bits),
        ),
        _ => None,
    }
}

/// The six data bytes of a remote configuration request: for a get all zero; for a put a 1,
/// a zero and the value, which must be known.
pub open spec fn remote_config_data(get_set: RemoteConfig, value_bits: Option<u32>) -> Option<Seq<u8>> {
    match get_set {
        RemoteConfig::Get => Some(seq![0u8, 0u8, 0u8, 0u8, 0u8, 0u8]),
        RemoteConfig::Put => match value_bits {
            Some(bits) => Some(seq![1u8, 0u8] + le32_bytes(bits)),
            None => None,
        },
    }
}

/// The heartbeat: object id, its generation and the device's unique id.
pub fn can_frame_heartbeat(uuid: u32) -> (r: Frame)
    ensures
        r matches Frame::Generic(g) && g.generic_id == 0 && carries(
            g.can_frame,
            le16_bytes(OBJECT_ID) + le16_bytes(OBJECT_ID_GEN) + le32_bytes(uuid),
        ),
{
    let f = CanFrame::empty_from_id(0x00).push_u16(OBJECT_ID).push_u16(OBJECT_ID_GEN).push_u32(uuid);
    assert(f.payload() =~= le16_bytes(OBJECT_ID) + le16_bytes(OBJECT_ID_GEN) + le32_bytes(uuid));
    Frame::generic(f, 0)
}

/// The sound that the sensor box plays: frequency, duty cycle, gain and whether the tone is
/// continuous.
pub fn can_frame_sound(frequency: u16, duty_cycle: u16, gain: i8, continuous: bool) -> (r: Frame)
    ensures
        r matches Frame::Specific(s) && s.specific_id == 0 && s.object_id == OBJECT_ID && carries(
            s.can_frame,
            le16_bytes(frequency) + le16_bytes(duty_cycle) + seq![
                unsigned8(gain as int) as u8,
                if continuous { 1u8 } else { 0u8 },
            ],
        ),
{
    let f = CanFrame::empty_from_id(0x00)
        .push_u16(frequency)
        .push_u16(duty_cycle)
        .push_i8(gain)
        .push_u8(if continuous { 1 } else { 0 });
    assert(f.payload() =~= le16_bytes(frequency) + le16_bytes(duty_cycle) + seq![
        unsigned8(gain as int) as u8,
        if continuous { 1u8 } else { 0u8 },
    ]);
    Frame::specific(f, 0, OBJECT_ID)
}

/// Supply voltage and temperature of the board, by their bit patterns.
pub fn can_frame_volt_temp(supply_voltage_bits: u32, temperature_bits: u32) -> (r: Frame)
    ensures
        r matches Frame::Specific(s) && s.specific_id == 1 && s.object_id == OBJECT_ID && carries(
            s.can_frame,
            le32_bytes(supply_voltage_bits) + le32_bytes(temperature_bits),
        ),
{
    let f = CanFrame::empty_from_id(0x00).push_u32(supply_voltage_bits).push_u32(temperature_bits);
    assert(f.payload() =~= le32_bytes(supply_voltage_bits) + le32_bytes(temperature_bits));
    Frame::specific(f, 1, OBJECT_ID)
}

/// The average climb rates (over the last minutes and in the last thermal), by their bit
/// patterns.
pub fn can_frame_avg_climb_rates(av2_climb_rate_bits: u32, thermal_climb_rate_bits: u32) -> (r: Frame)
    ensures
        r matches Frame::Specific(s) && s.specific_id == 2 && s.object_id == OBJECT_ID && carries(
            s.can_frame,
            le32_bytes(av2_climb_rate_bits) + le32_bytes(thermal_climb_rate_bits),
        ),
{
    let f = CanFrame::empty_from_id(0x00).push_u32(av2_climb_rate_bits).push_u32(thermal_climb_rate_bits);
    assert(f.payload() =~= le32_bytes(av2_climb_rate_bits) + le32_bytes(thermal_climb_rate_bits));
    Frame::specific(f, 2, OBJECT_ID)
}

/// A configuration value for the other devices: the id, then the value's six bytes. Volume
/// and vario mode go as `byte_value`, the others by `value_bits`; other ids are not sent.
pub fn can_frame_sys_config(config_id: CanConfigId, byte_value: u8, value_bits: u32) -> (r: Option<Frame>)
    ensures
        match config_data(config_id, byte_value, value_bits) {
            Some(data) => r matches Some(Frame::Generic(g)) && g.generic_id == 2 && carries(
                g.can_frame,
                le16_bytes(config_id.code()) + data,
            ),
            None => r is None,
        },
{
    let code = config_id.to_u16();
    let head = CanFrame::empty_from_id(0).push_u16(code);
    let f = match config_id {
        CanConfigId::Volume | CanConfigId::VarioMode => head.push_u8(byte_value).push_u8(0).push_u32(0),
        CanConfigId::MacCready | CanConfigId::WaterBallast | CanConfigId::Bugs | CanConfigId::Qnh
        | CanConfigId::PilotWeight | CanConfigId::TcClimbRate | CanConfigId::TcSpeedToFly => head.push_u16(0).push_u32(value_bits),
        _ => return None,
    };
    assert(f.payload() =~= le16_bytes(code) + config_data(config_id, byte_value, value_bits)->0);
    Some(Frame::generic(f, 2))
}

/// A request to another device to tell (get) or take (put) a configuration value. A put needs
/// the value; without it nothing is sent.
pub fn can_frame_remote_config(config_id: CanConfigId, get_set: RemoteConfig, value_bits: Option<u32>) -> (r: Option<Frame>)
    ensures
        match remote_config_data(get_set, value_bits) {
            Some(data) => r matches Some(Frame::Generic(g)) && g.generic_id == 2 && carries(
                g.can_frame,
                le16_bytes(config_id.code()) + data,
            ),
            None => r is None,
        },
{
    let code = config_id.to_u16();
    let head = CanFrame::empty_from_id(0).push_u16(code);
    let f = match get_set {
        RemoteConfig::Get => head.push_u16(0).push_u32(0),
        RemoteConfig::Put => match value_bits {
            Some(bits) => head.push_u8(1).push_u8(0).push_u32(bits),
            None => return None,
        },
    };
    assert(f.payload() =~= le16_bytes(code) + remote_config_data(get_set, value_bits)->0);
    Some(Frame::generic(f, 2))
}

} // verus!
