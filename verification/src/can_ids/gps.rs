//! Specific ids of the GPS datagrams.
use vstd::prelude::*;

verus! {

/// u16 year, u8 month, u8 day, u8 hour, u8 minute, u8 second
pub const DATE_TIME: u16 = 0;
/// f64 latitude
pub const LATITUDE: u16 = 1;
/// f64 longitude
pub const LONGITUDE: u16 = 2;
/// f32 altitude, f32 geo separation
pub const ALTITUDE_GEO_SEP: u16 = 3;
/// f32 ground track, f32 ground speed
pub const GROUND_TRACK_SPEED: u16 = 4;
/// u8 number of satellites, u8 type of the fix
pub const NO_SAT_FIX_TYPE: u16 = 5;

} // verus!
