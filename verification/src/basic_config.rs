//! Basic settings of the device.
use vstd::prelude::*;

verus! {

/// Places of the queue of frames for the CAN driver.
pub const MAX_TX_FRAMES: usize = 10;
/// Places of the queue of frames from the CAN bus.
pub const MAX_RX_FRAMES: usize = 30;
/// The virtual device address that the device wishes for; its heartbeat is 0x680.
pub const VDA: u16 = 40;
/// How often per second the controller is called.
pub const CONTROLLER_TICK_RATE: u32 = 10;
/// Seconds after which the section editor closes.
pub const SECTION_EDITOR_TIMEOUT: u16 = 4;
/// Seconds after which the menu gives way to the normal display.
pub const MENU_TIMEOUT: u16 = 30;
/// Milliseconds of quiet before data is written to the EEPROM or sent on the CAN bus.
pub const PERSISTENCE_TIMEOUT: u16 = 500;

} // verus!
