//! Identifiers of the legacy audio device datagrams.
use vstd::prelude::*;

verus! {

/// u32 version, as 0x0102002a for "1.02 Build 42"
pub const HEART_BEAT: u16 = 0x200;
/// u8 command for XCSoar: 0 unforce climb/cruise, 1 force climb, 2 force cruise, 3 unforce
/// windup, 4 force windup
pub const CMD_2_XCSOAR: u16 = 0x201;
/// noise level
pub const NOISE: u16 = 0x202;
/// i32 temperature * 1000
pub const TEMPERATURE: u16 = 0x203;
/// u32 humidity * 1000
pub const HUMIDY: u16 = 0x204;
/// u32 pressure * 1000
pub const PRESSURE: u16 = 0x205;
/// u16 flap position in percent * 100, u8 switch pattern
pub const FLAPS_DATA: u16 = 0x206;

} // verus!
