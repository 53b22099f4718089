//! Object ids of the CAN bus specification: the kind of device that sends a heartbeat.
use vstd::prelude::*;

verus! {

pub const ARBITRATION: u16 = 0;
pub const CONFIG: u16 = 1;
pub const SENSOR: u16 = 2;
pub const GPS: u16 = 3;
pub const FRONTEND: u16 = 4;

} // verus!
