//! Controller of the firmware update display.
use vstd::prelude::*;

verus! {

/// What a firmware update is doing.
#[derive(Clone, Copy, PartialEq, Eq, Debug, Structural)]
pub enum DeviceEvent {
    UploadInProgress,
    UploadFinished,
}

/// Reacts on the events of a firmware upload.
pub struct SwUpdateController {}

impl SwUpdateController {
    pub fn new() -> (r: Self) {
        SwUpdateController {}
    }

    /// Any event of the device means that an upload is running.
    pub fn device_action(&mut self, firmware_update_state: &mut DeviceEvent, _device_event: &DeviceEvent)
        ensures
            *final(firmware_update_state) == DeviceEvent::UploadInProgress,
    {
        *firmware_update_state = DeviceEvent::UploadInProgress;
    }
}

} // verus!
