//! Hardware pins: drain valve of the water ballast, flash output, speed to fly switch and the
//! gear alarm with its gear and airbrakes pins.
use crate::model::{PinState, TypeOfInfo, VarioMode};
use crate::text::same_text;
use vstd::prelude::*;
use vstd::string::StringSliceAdditionalSpecFns;

verus! {

pub const PIN_NONE: &'static str = "Not connected";
pub const PIN_IN_CLOSE: &'static str = "When closed";
pub const PIN_IN_OPEN: &'static str = "When opened";
pub const PIN_IN_TOGGLE: &'static str = "When toggled";
pub const PIN_OUT_CLOSE: &'static str = "Active: close";
pub const PIN_OUT_OPEN: &'static str = "Active: open";
pub const ONE_PIN_MODE: &'static str = "One Pin Mode";
pub const TWO_PIN_MODE: &'static str = "Two Pin Mode";

/// Function of an input pin.
#[derive(Clone, Copy, PartialEq, Eq, Debug, Structural)]
pub enum InPinFunction {
    NotConnected,
    OnClose,
    OnOpen,
}

impl From<u8> for InPinFunction {
    fn from(value: u8) -> (r: Self) {
        match value {
            1 => InPinFunction::OnClose,
            2 => InPinFunction::OnOpen,
            _ => InPinFunction::NotConnected,
        }
    }
}

impl vstd::std_specs::convert::FromSpecImpl<u8> for InPinFunction {
    open spec fn obeys_from_spec() -> bool {
        true
    }

    open spec fn from_spec(v: u8) -> Self {
        if v == 1 {
            InPinFunction::OnClose
        } else if v == 2 {
            InPinFunction::OnOpen
        } else {
            InPinFunction::NotConnected
        }
    }
}

impl<'a> From<&'a str> for InPinFunction {
    fn from(value: &'a str) -> (r: Self) {
        if same_text(value, PIN_IN_CLOSE) {
            InPinFunction::OnClose
        } else if same_text(value, PIN_IN_OPEN) {
            InPinFunction::OnOpen
        } else {
            InPinFunction::NotConnected
        }
    }
}

impl<'a> vstd::std_specs::convert::FromSpecImpl<&'a str> for InPinFunction {
    open spec fn obeys_from_spec() -> bool {
        true
    }

    open spec fn from_spec(v: &'a str) -> Self {
        if v.spec_bytes() == PIN_IN_CLOSE.spec_bytes() {
            InPinFunction::OnClose
        } else if v.spec_bytes() == PIN_IN_OPEN.spec_bytes() {
            InPinFunction::OnOpen
        } else {
            InPinFunction::NotConnected
        }
    }
}

impl InPinFunction {
    /// The text that the menu shows for the function.
    pub fn as_str(&self) -> (r: &'static str)
        ensures
            r == (match self {
                InPinFunction::NotConnected => PIN_NONE,
                InPinFunction::OnClose => PIN_IN_CLOSE,
                InPinFunction::OnOpen => PIN_IN_OPEN,
            }),
    {
        match self {
            InPinFunction::NotConnected => PIN_NONE,
            InPinFunction::OnClose => PIN_IN_CLOSE,
            InPinFunction::OnOpen => PIN_IN_OPEN,
        }
    }

    /// Whether a pin with this function is active at the given level: a closed contact pulls
    /// the pin low.
    pub open spec fn spec_is_active(self, state: PinState) -> bool {
        match self {
            InPinFunction::NotConnected => false,
            InPinFunction::OnClose => state == PinState::Low,
            InPinFunction::OnOpen => state == PinState::High,
        }
    }

    /// Whether a pin with this function is active at the given level.
    pub fn is_active(self, state: PinState) -> (r: bool)
        ensures
            r == self.spec_is_active(state),
    {
        match self {
            InPinFunction::NotConnected => false,
            InPinFunction::OnClose => match state {
                PinState::High => false,
                PinState::Low => true,
            },
            InPinFunction::OnOpen => match state {
                PinState::High => true,
                PinState::Low => false,
            },
        }
    }
}

/// Function of an input pin that may also act on each change of its level.
#[derive(Clone, Copy, PartialEq, Eq, Debug, Structural)]
pub enum InTogglePinFunction {
    NotConnected,
    OnClose,
    OnOpen,
    OnToggled,
}

impl From<u8> for InTogglePinFunction {
    fn from(value: u8) -> (r: Self) {
        match value {
            1 => InTogglePinFunction::OnClose,
            2 => InTogglePinFunction::OnOpen,
            3 => InTogglePinFunction::OnToggled,
            _ => InTogglePinFunction::NotConnected,
        }
    }
}

impl vstd::std_specs::convert::FromSpecImpl<u8> for InTogglePinFunction {
    open spec fn obeys_from_spec() -> bool {
        true
    }

    open spec fn from_spec(v: u8) -> Self {
        if v == 1 {
            InTogglePinFunction::OnClose
        } else if v == 2 {
            InTogglePinFunction::OnOpen
        } else if v == 3 {
            InTogglePinFunction::OnToggled
        } else {
            InTogglePinFunction::NotConnected
        }
    }
}

impl<'a> From<&'a str> for InTogglePinFunction {
    fn from(value: &'a str) -> (r: Self) {
        if same_text(value, PIN_IN_CLOSE) {
            InTogglePinFunction::OnClose
        } else if same_text(value, PIN_IN_OPEN) {
            InTogglePinFunction::OnOpen
        } else if same_text(value, PIN_IN_TOGGLE) {
            InTogglePinFunction::OnToggled
        } else {
            InTogglePinFunction::NotConnected
        }
    }
}

impl<'a> vstd::std_specs::convert::FromSpecImpl<&'a str> for InTogglePinFunction {
    open spec fn obeys_from_spec() -> bool {
        true
    }

    open spec fn from_spec(v: &'a str) -> Self {
        if v.spec_bytes() == PIN_IN_CLOSE.spec_bytes() {
            InTogglePinFunction::OnClose
        } else if v.spec_bytes() == PIN_IN_OPEN.spec_bytes() {
            InTogglePinFunction::OnOpen
        } else if v.spec_bytes() == PIN_IN_TOGGLE.spec_bytes() {
            InTogglePinFunction::OnToggled
        } else {
            InTogglePinFunction::NotConnected
        }
    }
}

impl InTogglePinFunction {
    /// The text that the menu shows for the function.
    pub fn as_str(&self) -> (r: &'static str)
        ensures
            r == (match self {
                InTogglePinFunction::NotConnected => PIN_NONE,
                InTogglePinFunction::OnClose => PIN_IN_CLOSE,
                InTogglePinFunction::OnOpen => PIN_IN_OPEN,
                InTogglePinFunction::OnToggled => PIN_IN_TOGGLE,
            }),
    {
        match self {
            InTogglePinFunction::NotConnected => PIN_NONE,
            InTogglePinFunction::OnClose => PIN_IN_CLOSE,
            InTogglePinFunction::OnOpen => PIN_IN_OPEN,
            InTogglePinFunction::OnToggled => PIN_IN_TOGGLE,
        }
    }
}

/// Function of an output pin.
#[derive(Clone, Copy, PartialEq, Eq, Debug, Structural)]
pub enum OutPinFunction {
    NotConnected,
    Closed,
    Opened,
}

impl From<u8> for OutPinFunction {
    fn from(value: u8) -> (r: Self) {
        match value {
            1 => OutPinFunction::Closed,
            2 => OutPinFunction::Opened,
            _ => OutPinFunction::NotConnected,
        }
    }
}

impl vstd::std_specs::convert::FromSpecImpl<u8> for OutPinFunction {
    open spec fn obeys_from_spec() -> bool {
        true
    }

    open spec fn from_spec(v: u8) -> Self {
        if v == 1 {
            OutPinFunction::Closed
        } else if v == 2 {
            OutPinFunction::Opened
        } else {
            OutPinFunction::NotConnected
        }
    }
}

impl<'a> From<&'a str> for OutPinFunction {
    fn from(value: &'a str) -> (r: Self) {
        if same_text(value, PIN_OUT_CLOSE) {
            OutPinFunction::Closed
        } else if same_text(value, PIN_OUT_OPEN) {
            OutPinFunction::Opened
        } else {
            OutPinFunction::NotConnected
        }
    }
}

impl<'a> vstd::std_specs::convert::FromSpecImpl<&'a str> for OutPinFunction {
    open spec fn obeys_from_spec() -> bool {
        true
    }

    open spec fn from_spec(v: &'a str) -> Self {
        if v.spec_bytes() == PIN_OUT_CLOSE.spec_bytes() {
            OutPinFunction::Closed
        } else if v.spec_bytes() == PIN_OUT_OPEN.spec_bytes() {
            OutPinFunction::Opened
        } else {
            OutPinFunction::NotConnected
        }
    }
}

impl OutPinFunction {
    /// The text that the menu shows for the function.
    pub fn as_str(&self) -> (r: &'static str)
        ensures
            r == (match self {
                OutPinFunction::NotConnected => PIN_NONE,
                OutPinFunction::Closed => PIN_OUT_CLOSE,
                OutPinFunction::Opened => PIN_OUT_OPEN,
            }),
    {
        match self {
            OutPinFunction::NotConnected => PIN_NONE,
            OutPinFunction::Closed => PIN_OUT_CLOSE,
            OutPinFunction::Opened => PIN_OUT_OPEN,
        }
    }
}

/// Whether the drain valve lets water flow: only while there is ballast left and the drain pin
/// is active.
pub open spec fn spec_drain_flowing(pin_function: InPinFunction, pin_state: PinState, ballast_left: bool) -> bool {
    ballast_left && pin_function.spec_is_active(pin_state)
}

/// The information line after the drain valve has been opened or closed: the water ballast
/// information appears while water flows, if no other information is shown, and disappears
/// when the flow stops.
pub open spec fn spec_drain_info(info: TypeOfInfo, is_flowing: bool) -> TypeOfInfo {
    if is_flowing {
        if info == TypeOfInfo::Nothing { TypeOfInfo::WaterBallast } else { info }
    } else if info == TypeOfInfo::WaterBallast {
        TypeOfInfo::Nothing
    } else {
        info
    }
}

/// Decides whether the drain valve lets water flow, and updates the information line.
///
/// `ballast_left` tells whether the water ballast is still above zero.
pub fn drain_adjust(pin_function: InPinFunction, pin_state: PinState, ballast_left: bool, info_active: &mut TypeOfInfo) -> (is_flowing: bool)
    ensures
        is_flowing == spec_drain_flowing(pin_function, pin_state, ballast_left),
        *final(info_active) == spec_drain_info(*old(info_active), is_flowing),
{
    let is_flowing = if !ballast_left {
        false
    } else {
        pin_function.is_active(pin_state)
    };
    if is_flowing {
        if *info_active == TypeOfInfo::Nothing {
            *info_active = TypeOfInfo::WaterBallast;
        }
    } else if *info_active == TypeOfInfo::WaterBallast {
        *info_active = TypeOfInfo::Nothing
    }
    is_flowing
}

/// Controls the flash output pin: active while the glider flies faster than 40 km/h.
pub struct FlashControl {
    pub pin_function: OutPinFunction,
}

impl Default for FlashControl {
    fn default() -> (r: Self)
        ensures
            r.pin_function == OutPinFunction::NotConnected,
    {
        FlashControl { pin_function: OutPinFunction::NotConnected }
    }
}

impl FlashControl {
    /// The level of the output pin, none when it is not connected; `flying` tells whether the
    /// indicated airspeed is above 40 km/h.
    pub fn tick_1s(&self, flying: bool) -> (r: Option<PinState>)
        ensures
            r == (match self.pin_function {
                OutPinFunction::NotConnected => None,
                OutPinFunction::Closed => Some(if flying { PinState::High } else { PinState::Low }),
                OutPinFunction::Opened => Some(if flying { PinState::Low } else { PinState::High }),
            }),
    {
        match self.pin_function {
            OutPinFunction::NotConnected => None,
            OutPinFunction::Closed => {
                if flying {
                    Some(PinState::High)
                } else {
                    Some(PinState::Low)
                }
            },
            OutPinFunction::Opened => {
                if flying {
                    Some(PinState::Low)
                } else {
                    Some(PinState::High)
                }
            },
        }
    }

    pub fn pin_function(&self) -> (r: OutPinFunction)
        ensures
            r == self.pin_function,
    {
        self.pin_function
    }

    pub fn set_pin_function(&mut self, pin_function: OutPinFunction)
        ensures
            final(self).pin_function == pin_function,
    {
        self.pin_function = pin_function;
    }
}

/// Switches between vario and speed to fly by an input pin.
pub struct SpeedToFlyControl {
    pin_function: InTogglePinFunction,
    vario_mode: VarioMode,
}

impl Default for SpeedToFlyControl {
    fn default() -> (r: Self)
        ensures
            r.spec_pin_function() == InTogglePinFunction::NotConnected,
            r.spec_vario_mode() == VarioMode::Vario,
    {
        SpeedToFlyControl { pin_function: InTogglePinFunction::NotConnected, vario_mode: VarioMode::Vario }
    }
}

/// The vario mode after the pin has been read at `state`.
///
/// A pin active when closed selects speed to fly when low and vario when high, one active when
/// opened the other way round; a toggle pin changes the mode on each low level and keeps it on
/// a high level; an unconnected pin keeps the mode.
pub open spec fn spec_stf_mode(pin_function: InTogglePinFunction, state: PinState, mode: VarioMode) -> VarioMode {
    match state {
        PinState::High => match pin_function {
            InTogglePinFunction::OnClose => VarioMode::Vario,
            InTogglePinFunction::OnOpen => VarioMode::SpeedToFly,
            _ => mode,
        },
        PinState::Low => match pin_function {
            InTogglePinFunction::NotConnected => mode,
            InTogglePinFunction::OnClose => VarioMode::SpeedToFly,
            InTogglePinFunction::OnOpen => VarioMode::Vario,
            InTogglePinFunction::OnToggled => if mode == VarioMode::Vario {
                VarioMode::SpeedToFly
            } else {
                VarioMode::Vario
            },
        },
    }
}

impl SpeedToFlyControl {
    pub closed spec fn spec_pin_function(self) -> InTogglePinFunction {
        self.pin_function
    }

    pub closed spec fn spec_vario_mode(self) -> VarioMode {
        self.vario_mode
    }

    /// Reads the pin at level `pin_state`.
    pub fn set_state(&mut self, pin_state: PinState)
        ensures
            final(self).spec_pin_function() == old(self).spec_pin_function(),
            final(self).spec_vario_mode() == spec_stf_mode(
                old(self).spec_pin_function(),
                pin_state,
                old(self).spec_vario_mode(),
            ),
    {
        self.vario_mode = match pin_state {
            PinState::High => match self.pin_function {
                InTogglePinFunction::NotConnected => return ,
                InTogglePinFunction::OnClose => VarioMode::Vario,
                InTogglePinFunction::OnOpen => VarioMode::SpeedToFly,
                InTogglePinFunction::OnToggled => return ,
            },
            PinState::Low => match self.pin_function {
                InTogglePinFunction::NotConnected => return ,
                InTogglePinFunction::OnClose => VarioMode::SpeedToFly,
                InTogglePinFunction::OnOpen => VarioMode::Vario,
                InTogglePinFunction::OnToggled => self.vario_mode.toggled(),
            },
        }
    }

    pub fn pin_function(&self) -> (r: InTogglePinFunction)
        ensures
            r == self.spec_pin_function(),
    {
        self.pin_function
    }

    pub fn set_pin_function(&mut self, pin_function: InTogglePinFunction)
        ensures
            final(self).spec_pin_function() == pin_function,
            final(self).spec_vario_mode() == old(self).spec_vario_mode(),
    {
        self.pin_function = pin_function;
    }

    pub fn vario_mode(&self) -> (r: VarioMode)
        ensures
            r == self.spec_vario_mode(),
    {
        self.vario_mode
    }
}

/// Whether the gear alarm uses one pin (gear only) or two (gear and airbrakes).
#[derive(Clone, Copy, PartialEq, Eq, Debug, Structural)]
pub enum GearPins {
    OnePinMode,
    TwoPinMode,
}

impl GearPins {
    /// The text that the menu shows for the mode.
    pub fn as_str(&self) -> (r: &'static str)
        ensures
            r == (match self {
                GearPins::OnePinMode => ONE_PIN_MODE,
                GearPins::TwoPinMode => TWO_PIN_MODE,
            }),
    {
        match self {
            GearPins::OnePinMode => ONE_PIN_MODE,
            GearPins::TwoPinMode => TWO_PIN_MODE,
        }
    }
}

impl From<u8> for GearPins {
    fn from(value: u8) -> (r: Self) {
        match value {
            1 => GearPins::TwoPinMode,
            _ => GearPins::OnePinMode,
        }
    }
}

impl vstd::std_specs::convert::FromSpecImpl<u8> for GearPins {
    open spec fn obeys_from_spec() -> bool {
        true
    }

    open spec fn from_spec(v: u8) -> Self {
        if v == 1 {
            GearPins::TwoPinMode
        } else {
            GearPins::OnePinMode
        }
    }
}

impl<'a> From<&'a str> for GearPins {
    fn from(value: &'a str) -> (r: Self) {
        if same_text(value, ONE_PIN_MODE) {
            GearPins::OnePinMode
        } else {
            GearPins::TwoPinMode
        }
    }
}

impl<'a> vstd::std_specs::convert::FromSpecImpl<&'a str> for GearPins {
    open spec fn obeys_from_spec() -> bool {
        true
    }

    open spec fn from_spec(v: &'a str) -> Self {
        if v.spec_bytes() == ONE_PIN_MODE.spec_bytes() {
            GearPins::OnePinMode
        } else {
            GearPins::TwoPinMode
        }
    }
}

/// What the gear alarm holds.
pub struct GearAlarmView {
    pub gear_pins: GearPins,
    pub gear_function: InPinFunction,
    pub airbrakes_function: InPinFunction,
    pub gear_state: bool,
    pub airbrakes_state: bool,
}

/// Warns when the gear is up while landing: in one pin mode whenever the gear pin is active, in
/// two pin mode when the gear pin and the airbrakes pin are both active.
pub struct GearAlarmControl {
    gear_pins: GearPins,
    pin_gear_or_both_function: InPinFunction,
    pin_airbrakes_function: InPinFunction,
    gear_state: bool,
    airbrakes_state: bool,
}

impl View for GearAlarmControl {
    type V = GearAlarmView;

    closed spec fn view(&self) -> GearAlarmView {
        GearAlarmView {
            gear_pins: self.gear_pins,
            gear_function: self.pin_gear_or_both_function,
            airbrakes_function: self.pin_airbrakes_function,
            gear_state: self.gear_state,
            airbrakes_state: self.airbrakes_state,
        }
    }
}

/// Whether the alarm sounds.
pub open spec fn spec_alarm(g: GearAlarmView) -> bool {
    match g.gear_pins {
        GearPins::OnePinMode => g.gear_state,
        GearPins::TwoPinMode => g.gear_state && g.airbrakes_state,
    }
}

/// The information line after the alarm was evaluated: the gear alarm is shown while the
/// alarm sounds and cleared when it stops.
pub open spec fn spec_alarm_info(info: TypeOfInfo, alarm: bool) -> TypeOfInfo {
    if alarm {
        TypeOfInfo::GearAlarm
    } else if info == TypeOfInfo::GearAlarm {
        TypeOfInfo::Nothing
    } else {
        info
    }
}

impl Default for GearAlarmControl {
    fn default() -> (r: Self)
        ensures
            r@ == (GearAlarmView {
                gear_pins: GearPins::TwoPinMode,
                gear_function: InPinFunction::NotConnected,
                airbrakes_function: InPinFunction::NotConnected,
                gear_state: false,
                airbrakes_state: false,
            }),
    {
        GearAlarmControl {
            gear_pins: GearPins::TwoPinMode,
            pin_gear_or_both_function: InPinFunction::NotConnected,
            pin_airbrakes_function: InPinFunction::NotConnected,
            gear_state: false,
            airbrakes_state: false,
        }
    }
}

impl GearAlarmControl {
    /// Reads the gear pin (or the common pin in one pin mode) at `state`, updates the
    /// information line and tells whether the alarm sounds.
    pub fn set_gear_pin_state(&mut self, info_active: &mut TypeOfInfo, state: PinState) -> (r: bool)
        ensures
            final(self)@ == (GearAlarmView {
                gear_state: old(self)@.gear_function.spec_is_active(state),
                ..old(self)@
            }),
            r == spec_alarm(final(self)@),
            *final(info_active) == spec_alarm_info(*old(info_active), r),
    {
        self.gear_state = self.pin_gear_or_both_function.is_active(state);
        self.alarm_is_active(info_active)
    }

    pub fn gear_pin_function(&self) -> (r: InPinFunction)
        ensures
            r == self@.gear_function,
    {
        self.pin_gear_or_both_function
    }

    pub fn set_gear_pin_function(&mut self, function: InPinFunction)
        ensures
            final(self)@ == (GearAlarmView { gear_function: function, ..old(self)@ }),
    {
        self.pin_gear_or_both_function = function;
    }

    /// Reads the airbrakes pin at `state`, updates the information line and tells whether the
    /// alarm sounds.
    pub fn set_airbrakes_pin_state(&mut self, info_active: &mut TypeOfInfo, state: PinState) -> (r: bool)
        ensures
            final(self)@ == (GearAlarmView {
                airbrakes_state: old(self)@.airbrakes_function.spec_is_active(state),
                ..old(self)@
            }),
            r == spec_alarm(final(self)@),
            *final(info_active) == spec_alarm_info(*old(info_active), r),
    {
        self.airbrakes_state = self.pin_airbrakes_function.is_active(state);
        self.alarm_is_active(info_active)
    }

    pub fn airbrakes_pin_function(&self) -> (r: InPinFunction)
        ensures
            r == self@.airbrakes_function,
    {
        self.pin_airbrakes_function
    }

    pub fn set_airbrakes_pin_function(&mut self, function: InPinFunction)
        ensures
            final(self)@ == (GearAlarmView { airbrakes_function: function, ..old(self)@ }),
    {
        self.pin_airbrakes_function = function;
    }

    pub fn gear_pin_mode(&self) -> (r: GearPins)
        ensures
            r == self@.gear_pins,
    {
        self.gear_pins
    }

    pub fn set_gear_pin_mode(&mut self, mode: GearPins)
        ensures
            final(self)@ == (GearAlarmView { gear_pins: mode, ..old(self)@ }),
    {
        self.gear_pins = mode;
    }

    fn alarm_is_active(&self, info_active: &mut TypeOfInfo) -> (r: bool)
        ensures
            r == spec_alarm(self@),
            *final(info_active) == spec_alarm_info(*old(info_active), r),
    {
        let alarm = match self.gear_pins {
            GearPins::OnePinMode => self.gear_state,
            GearPins::TwoPinMode => self.gear_state && self.airbrakes_state,
        };
        if alarm {
            *info_active = TypeOfInfo::GearAlarm;
        } else if *info_active == TypeOfInfo::GearAlarm {
            *info_active = TypeOfInfo::Nothing;
        }
        alarm
    }
}

} // verus!
