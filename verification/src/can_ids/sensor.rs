//! Specific ids of the sensor box's datagrams.
use vstd::prelude::*;

verus! {

/// f32 roll, f32 nick
pub const EULER_ROLL_NICK: u16 = 0;
/// f32 yaw, f32 turn rate
pub const EULER_YAW_TURN_RATE: u16 = 1;
/// f32 TAS, f32 IAS
pub const TAS_IAS: u16 = 2;
/// f32 vario, f32 average vario
pub const VARIO_AV_VARIO: u16 = 3;
/// f32 wind direction, f32 wind speed
pub const WIND_DIR_SPEED: u16 = 4;
/// f32 average wind direction, f32 average wind speed
pub const AV_WIND_DIR_SPEED: u16 = 5;
/// f32 ambient pressure, f32 air density
pub const AMB_PRESS_AIR_DENS: u16 = 6;
/// f32 g-force, f32 vertical g-force
pub const G_FORCE_VERTICAL_GF: u16 = 7;
/// f32 slip angle, f32 pitch angle
pub const SLIP_PITCH_ANGLE: u16 = 8;
/// f32 supply voltage, u8 circle mode
pub const UBATT_CIRCLE_MODE: u16 = 9;
/// u32 system state, git tag
pub const SYSTEM_STATE_GIT_TAG: u16 = 0x0a;
/// u32 config id, f32 value
pub const CONFIG_VALUE: u16 = 0x0f;

} // verus!
