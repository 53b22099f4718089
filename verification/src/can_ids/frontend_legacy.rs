//! Identifiers of the legacy front end datagrams.
use vstd::prelude::*;

verus! {

/// u32 version, as 0x0102002a for "1.02 Build 42"
pub const HEART_BEAT: u16 = 0x300;
/// u8 command for XCSoar: 0 unforce climb/cruise, 1 force climb, 2 force cruise, 3 unforce
/// windup, 4 force windup
pub const CMD_2_XCSOAR: u16 = 0x301;
/// noise level
pub const NOISE: u16 = 0x302;
/// i32 temperature * 1000
pub const TEMPERATURE: u16 = 0x303;
/// u32 humidity * 1000
pub const HUMIDY: u16 = 0x304;
/// u32 pressure * 1000
pub const PRESSURE: u16 = 0x305;
/// u16 voltage * 10
pub const VDD: u16 = 0x306;
/// 4 x i16 time constants in s * 10: fast and slow wind in cruise, fast and slow wind in climb
pub const TCS: u16 = 0x307;
/// i16 hysteresis in s * 10
pub const SW_HYSTERESIS: u16 = 0x308;
/// 3 x i16 roll, nick, yaw in degrees * 10
pub const EULER_SETUP: u16 = 0x309;
/// i16 declination, i16 inclination in degrees * 10
pub const DEC_INCLINATION: u16 = 0x30a;
/// i16 IAS offset in km/h * 10
pub const IAS_OFFSET: u16 = 0x30b;
/// u8 signal id, u8 signal volume
pub const SIGNAL: u16 = 0x310;
/// i16 audio frequency, u16 interval, u8 volume, u8 duty cycle, u8 climb mode
pub const AUDIO: u16 = 0x311;
/// u8 switch, u8 current flaps, u8 optimal flaps, u8 flash control, u8 LED duty cycle in %
pub const FLAPS_STATUS: u16 = 0x312;
/// no data, just a trigger
pub const REBOOT: u16 = 0x313;
/// u8 McCready in 10 cm/s, u8 audio volume
pub const MC_CREADY: u16 = 0x320;
/// no data, just a trigger
pub const HAVE_CONTROL: u16 = 0x321;
/// a placeholder for a hardware filter, no data
pub const NOTHING: u16 = 0x3ff;

} // verus!
