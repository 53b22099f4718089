//! Identifiers of the legacy sensor box datagrams.
use vstd::prelude::*;

verus! {

/// i16 roll, nick, yaw in 1/1000 rad
pub const EULER_ANGLES: u16 = 0x101;
/// i16 TAS, IAS in km/h
pub const AIRSPEED: u16 = 0x102;
/// i16 vario, integrator in mm/s
pub const VARIO: u16 = 0x103;
/// 6 x u8: year - 2000, month, day, hour, minute, second
pub const GPS_DATE_TIME: u16 = 0x104;
/// i32 latitude, longitude in 10^-7 degrees
pub const GPS_LAT_LON: u16 = 0x105;
/// i32 altitude above sea level in mm, i32 geo separation in 1/10 m
pub const GPS_ALT: u16 = 0x106;
/// i16 ground track in 1/1000 rad, u16 ground speed in km/h
pub const GPS_TRK_SPD: u16 = 0x107;
/// current wind: i16 direction in 1/1000 rad, i16 speed in km/h; average wind the same
pub const WIND: u16 = 0x108;
/// u32 pressure in Pa, u32 density in g/m^3
pub const ATHMOSPHERE: u16 = 0x109;
/// u8 number of satellites, u8 fix type (none 0, 2D 1, 3D 2, RTK 3)
pub const GPS_SATS: u16 = 0x10a;
/// i16 g-force, i16 vertical g-force, i16 GPS vertical speed in mm/s^2 and mm/s, u8 flight mode
pub const ACCELERATION: u16 = 0x10b;
/// i16 slip angle in 1/1000 rad, i16 turn rate in 1/1000 rad/s, i16 nick angle in 1/1000 rad
pub const TURN_COORD: u16 = 0x10c;
/// u32 system state, u32 git tag
pub const SYSTEM_STATE: u16 = 0x10d;
/// u16 voltage * 10
pub const VDD: u16 = 0x112;

} // verus!
