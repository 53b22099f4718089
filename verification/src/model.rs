//! Modes, pin states, key events and editable items that the controller parts share.
use vstd::prelude::*;

verus! {

/// Flymode display variants
///
/// Circling is displayed while circling upwind. In straight flight the speed command is shown;
/// Transition is treated like StraightFlight.
#[derive(Clone, Copy, PartialEq, Eq, Debug, Structural)]
pub enum FlyMode {
    Circling,
    Transition,
    StraightFlight,
}

/// Vario mode shows what helps climbing in thermals, SpeedToFly what helps the glide between
/// them.
#[derive(Clone, Copy, PartialEq, Eq, Debug, Structural)]
pub enum VarioMode {
    Vario,
    SpeedToFly,
}

impl VarioMode {
    /// The other one of the two modes.
    pub open spec fn toggled_spec(self) -> Self {
        match self {
            VarioMode::Vario => VarioMode::SpeedToFly,
            VarioMode::SpeedToFly => VarioMode::Vario,
        }
    }

    /// The other one of the two modes.
    pub fn toggled(self) -> (r: Self)
        ensures
            r == self.toggled_spec(),
    {
        match self {
            VarioMode::Vario => VarioMode::SpeedToFly,
            VarioMode::SpeedToFly => VarioMode::Vario,
        }
    }
}

/// Toggling changes the mode, and toggling twice gives it back.
pub proof fn lemma_toggle_twice(mode: VarioMode)
    ensures
        mode.toggled_spec() != mode,
        mode.toggled_spec().toggled_spec() == mode,
{
}

/// How the switch between Vario and SpeedToFly is made: manual Vario, manual SpeedToFly or
/// automatic.
#[derive(Clone, Copy, PartialEq, Eq, Debug, Structural)]
pub enum VarioModeControl {
    Vario,
    SpeedToFly,
    Auto,
}

/// Whether the background stays visible while a data point is edited.
#[derive(Clone, Copy, PartialEq, Eq, Debug, Structural)]
pub enum EditMode {
    Section,
    Fullscreen,
}

/// The possible displays.
#[derive(Clone, Copy, PartialEq, Eq, Debug, Structural)]
pub enum DisplayActive {
    Vario,
    FirmwareUpdate,
}

/// The information line that the display shows in place of the normal content.
#[derive(Clone, Copy, PartialEq, Eq, Debug, Structural)]
pub enum TypeOfInfo {
    Nothing,
    WaterBallast,
    GearAlarm,
}

/// The level of an input or output pin.
#[derive(Clone, Copy, PartialEq, Eq, Debug, Structural)]
pub enum PinState {
    High,
    Low,
}

/// Events of the keys and rotary encoders.
#[derive(Clone, Copy, PartialEq, Eq, Debug, Structural)]
pub enum KeyEvent {
    NoEvent,
    Btn1,
    Btn2,
    Btn3,
    BtnEsc,
    BtnEnc,
    Btn1S3,
    Btn2S3,
    BtnEncS3,
    Rotary1Left,
    Rotary1Right,
    Rotary2Left,
    Rotary2Right,
}

/// The values that the user can edit.
#[derive(Clone, Copy, PartialEq, Eq, Debug, Structural)]
pub enum Editable {
    Nothing,
    ClimbRate,
    Display,
    Glider,
    McCready,
    PilotWeight,
    Return,
    Speed,
    Theme,
    VarioModeControl,
    Volume,
    WaterBallast,
    WindDirection,
    WindSpeed,
}

/// Direction in which to step through the displays.
#[derive(Clone, Copy, PartialEq, Eq, Debug, Structural)]
pub enum Direction {
    Forward,
    Backward,
}

/// What a controller asks of the display after an input.
#[derive(Clone, Copy, PartialEq, Eq, Debug, Structural)]
pub enum ControlResult {
    Nothing,
    Edit(EditMode, Editable),
    NextDisplay(Direction),
}

/// The timers of the controller's scheduler.
#[derive(Clone, Copy, PartialEq, Eq, Debug, Structural)]
pub enum Timer {
    Ticker1Hz,
    NmeaFast,
    PersistSetting,
    CloseEditFrame,
    CloseMenu,
}

impl Timer {
    /// The position of the timer in the scheduler.
    pub open spec fn position(self) -> int {
        match self {
            Timer::Ticker1Hz => 0,
            Timer::NmeaFast => 1,
            Timer::PersistSetting => 2,
            Timer::CloseEditFrame => 3,
            Timer::CloseMenu => 4,
        }
    }

    /// The position of the timer in the scheduler.
    pub fn index(self) -> (r: usize)
        ensures
            r == self.position(),
    {
        match self {
            Timer::Ticker1Hz => 0,
            Timer::NmeaFast => 1,
            Timer::PersistSetting => 2,
            Timer::CloseEditFrame => 3,
            Timer::CloseMenu => 4,
        }
    }
}

} // verus!
