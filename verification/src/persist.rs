//! Identifiers of the items that the persistence layer stores in EEPROM and distributes to the
//! NMEA and CAN bus interfaces.
//!
//! The numbering must not change: the number addresses the item's place in the EEPROM. New items
//! are only ever inserted before `LastItem`; the items below it are stored.
use crate::model::VarioMode;
use vstd::prelude::*;

verus! {

/// An item that the persistence layer handles.
#[derive(Clone, Copy, PartialEq, Eq, Debug, Hash, Structural)]
pub enum PersistenceId {
    Volume,
    McCready,
    WaterBallast,
    PilotWeight,
    Glider,
    VarioModeControl,
    DisplayTheme,
    Qnh,
    Bugs,
    Display,
    TcClimbRate,
    TcSpeedToFly,
    Info1Vario,
    Info2Vario,
    Rotation,
    CenterFrequency,
    CenterViewCircling,
    CenterViewStraight,
    EmptyMass,
    MaxBallast,
    ReferenceWeight,
    PolarValueV1,
    PolarValueV2,
    PolarValueV3,
    PolarValueSi1,
    PolarValueSi2,
    PolarValueSi3,
    GliderSymbol,
    BatteryGood,
    BatteryLow,
    DrainPinConfig,
    FlowEmpty,
    FlowSlope,
    FlashControl,
    SpeedToFlyPinConfig,
    GearPinConfig,
    AirbrakesPinConfig,
    GearAlarmMode,
    AlarmVolume,
    StfUpperLimit,
    StfLowerLimit,
    AvgClimbeRateSrc,
    StfClimbrateAlt,
    TcCircleHysteresis,
    EnergyArrowMult,
    VarioUpperLimit,
    VarioLowerLimit,
    Info1Stf,
    Info2Stf,
    Info3Vario,
    Info3Stf,
    UnitHorizontalSpeed,
    UnitVerticalSpeed,
    UnitHeight,
    LastItem,
    VarioMode,
    UserProfile,
    DeleteAll,
    DoNotStore,
}

impl PersistenceId {
    /// The number that stands for the id on the bus and in storage.
    pub open spec fn code(self) -> u16 {
        match self {
            PersistenceId::Volume => 0,
            PersistenceId::McCready => 1,
            PersistenceId::WaterBallast => 2,
            PersistenceId::PilotWeight => 3,
            PersistenceId::Glider => 4,
            PersistenceId::VarioModeControl => 5,
            PersistenceId::DisplayTheme => 6,
            PersistenceId::Qnh => 7,
            PersistenceId::Bugs => 8,
            PersistenceId::Display => 9,
            PersistenceId::TcClimbRate => 10,
            PersistenceId::TcSpeedToFly => 11,
            PersistenceId::Info1Vario => 12,
            PersistenceId::Info2Vario => 13,
            PersistenceId::Rotation => 14,
            PersistenceId::CenterFrequency => 15,
            PersistenceId::CenterViewCircling => 16,
            PersistenceId::CenterViewStraight => 17,
            PersistenceId::EmptyMass => 18,
            PersistenceId::MaxBallast => 19,
            PersistenceId::ReferenceWeight => 20,
            PersistenceId::PolarValueV1 => 21,
            PersistenceId::PolarValueV2 => 22,
            PersistenceId::PolarValueV3 => 23,
            PersistenceId::PolarValueSi1 => 24,
            PersistenceId::PolarValueSi2 => 25,
            PersistenceId::PolarValueSi3 => 26,
            PersistenceId::GliderSymbol => 27,
            PersistenceId::BatteryGood => 28,
            PersistenceId::BatteryLow => 29,
            PersistenceId::DrainPinConfig => 30,
            PersistenceId::FlowEmpty => 31,
            PersistenceId::FlowSlope => 32,
            PersistenceId::FlashControl => 33,
            PersistenceId::SpeedToFlyPinConfig => 34,
            PersistenceId::GearPinConfig => 35,
            PersistenceId::AirbrakesPinConfig => 36,
            PersistenceId::GearAlarmMode => 37,
            PersistenceId::AlarmVolume => 38,
            PersistenceId::StfUpperLimit => 39,
            PersistenceId::StfLowerLimit => 40,
            PersistenceId::AvgClimbeRateSrc => 41,
            PersistenceId::StfClimbrateAlt => 42,
            PersistenceId::TcCircleHysteresis => 43,
            PersistenceId::EnergyArrowMult => 44,
            PersistenceId::VarioUpperLimit => 45,
            PersistenceId::VarioLowerLimit => 46,
            PersistenceId::Info1Stf => 47,
            PersistenceId::Info2Stf => 48,
            PersistenceId::Info3Vario => 49,
            PersistenceId::Info3Stf => 50,
            PersistenceId::UnitHorizontalSpeed => 51,
            PersistenceId::UnitVerticalSpeed => 52,
            PersistenceId::UnitHeight => 53,
            PersistenceId::LastItem => 54,
            PersistenceId::VarioMode => 0xfffc,
            PersistenceId::UserProfile => 0xfffd,
            PersistenceId::DeleteAll => 0xfffe,
            PersistenceId::DoNotStore => 0xffff,
        }
    }

    /// The number that stands for the id on the bus and in storage.
    pub fn to_u16(self) -> (r: u16)
        ensures
            r == self.code(),
    {
        match self {
            PersistenceId::Volume => 0,
            PersistenceId::McCready => 1,
            PersistenceId::WaterBallast => 2,
            PersistenceId::PilotWeight => 3,
            PersistenceId::Glider => 4,
            PersistenceId::VarioModeControl => 5,
            PersistenceId::DisplayTheme => 6,
            PersistenceId::Qnh => 7,
            PersistenceId::Bugs => 8,
            PersistenceId::Display => 9,
            PersistenceId::TcClimbRate => 10,
            PersistenceId::TcSpeedToFly => 11,
            PersistenceId::Info1Vario => 12,
            PersistenceId::Info2Vario => 13,
            PersistenceId::Rotation => 14,
            PersistenceId::CenterFrequency => 15,
            PersistenceId::CenterViewCircling => 16,
            PersistenceId::CenterViewStraight => 17,
            PersistenceId::EmptyMass => 18,
            PersistenceId::MaxBallast => 19,
            PersistenceId::ReferenceWeight => 20,
            PersistenceId::PolarValueV1 => 21,
            PersistenceId::PolarValueV2 => 22,
            PersistenceId::PolarValueV3 => 23,
            PersistenceId::PolarValueSi1 => 24,
            PersistenceId::PolarValueSi2 => 25,
            PersistenceId::PolarValueSi3 => 26,
            PersistenceId::GliderSymbol => 27,
            PersistenceId::BatteryGood => 28,
            PersistenceId::BatteryLow => 29,
            PersistenceId::DrainPinConfig => 30,
            PersistenceId::FlowEmpty => 31,
            PersistenceId::FlowSlope => 32,
            PersistenceId::FlashControl => 33,
            PersistenceId::SpeedToFlyPinConfig => 34,
            PersistenceId::GearPinConfig => 35,
            PersistenceId::AirbrakesPinConfig => 36,
            PersistenceId::GearAlarmMode => 37,
            PersistenceId::AlarmVolume => 38,
            PersistenceId::StfUpperLimit => 39,
            PersistenceId::StfLowerLimit => 40,
            PersistenceId::AvgClimbeRateSrc => 41,
            PersistenceId::StfClimbrateAlt => 42,
            PersistenceId::TcCircleHysteresis => 43,
            PersistenceId::EnergyArrowMult => 44,
            PersistenceId::VarioUpperLimit => 45,
            PersistenceId::VarioLowerLimit => 46,
            PersistenceId::Info1Stf => 47,
            PersistenceId::Info2Stf => 48,
            PersistenceId::Info3Vario => 49,
            PersistenceId::Info3Stf => 50,
            PersistenceId::UnitHorizontalSpeed => 51,
            PersistenceId::UnitVerticalSpeed => 52,
            PersistenceId::UnitHeight => 53,
            PersistenceId::LastItem => 54,
            PersistenceId::VarioMode => 0xfffc,
            PersistenceId::UserProfile => 0xfffd,
            PersistenceId::DeleteAll => 0xfffe,
            PersistenceId::DoNotStore => 0xffff,
        }
    }
}

/// The id that a number stands for; numbers without an id give `DoNotStore`.
pub open spec fn persistence_id_from_code(v: u16) -> PersistenceId {
    match v {
        0 => PersistenceId::Volume,
        1 => PersistenceId::McCready,
        2 => PersistenceId::WaterBallast,
        3 => PersistenceId::PilotWeight,
        4 => PersistenceId::Glider,
        5 => PersistenceId::VarioModeControl,
        6 => PersistenceId::DisplayTheme,
        7 => PersistenceId::Qnh,
        8 => PersistenceId::Bugs,
        9 => PersistenceId::Display,
        10 => PersistenceId::TcClimbRate,
        11 => PersistenceId::TcSpeedToFly,
        12 => PersistenceId::Info1Vario,
        13 => PersistenceId::Info2Vario,
        14 => PersistenceId::Rotation,
        15 => PersistenceId::CenterFrequency,
        16 => PersistenceId::CenterViewCircling,
        17 => PersistenceId::CenterViewStraight,
        18 => PersistenceId::EmptyMass,
        19 => PersistenceId::MaxBallast,
        20 => PersistenceId::ReferenceWeight,
        21 => PersistenceId::PolarValueV1,
        22 => PersistenceId::PolarValueV2,
        23 => PersistenceId::PolarValueV3,
        24 => PersistenceId::PolarValueSi1,
        25 => PersistenceId::PolarValueSi2,
        26 => PersistenceId::PolarValueSi3,
        27 => PersistenceId::GliderSymbol,
        28 => PersistenceId::BatteryGood,
        29 => PersistenceId::BatteryLow,
        30 => PersistenceId::DrainPinConfig,
        31 => PersistenceId::FlowEmpty,
        32 => PersistenceId::FlowSlope,
        33 => PersistenceId::FlashControl,
        34 => PersistenceId::SpeedToFlyPinConfig,
        35 => PersistenceId::GearPinConfig,
        36 => PersistenceId::AirbrakesPinConfig,
        37 => PersistenceId::GearAlarmMode,
        38 => PersistenceId::AlarmVolume,
        39 => PersistenceId::StfUpperLimit,
        40 => PersistenceId::StfLowerLimit,
        41 => PersistenceId::AvgClimbeRateSrc,
        42 => PersistenceId::StfClimbrateAlt,
        43 => PersistenceId::TcCircleHysteresis,
        44 => PersistenceId::EnergyArrowMult,
        45 => PersistenceId::VarioUpperLimit,
        46 => PersistenceId::VarioLowerLimit,
        47 => PersistenceId::Info1Stf,
        48 => PersistenceId::Info2Stf,
        49 => PersistenceId::Info3Vario,
        50 => PersistenceId::Info3Stf,
        51 => PersistenceId::UnitHorizontalSpeed,
        52 => PersistenceId::UnitVerticalSpeed,
        53 => PersistenceId::UnitHeight,
        54 => PersistenceId::LastItem,
        0xfffc => PersistenceId::VarioMode,
        0xfffd => PersistenceId::UserProfile,
        0xfffe => PersistenceId::DeleteAll,
        _ => PersistenceId::DoNotStore,
    }
}

impl From<u16> for PersistenceId {
    fn from(value: u16) -> (r: Self) {
        match value {
            0 => PersistenceId::Volume,
            1 => PersistenceId::McCready,
            2 => PersistenceId::WaterBallast,
            3 => PersistenceId::PilotWeight,
            4 => PersistenceId::Glider,
            5 => PersistenceId::VarioModeControl,
            6 => PersistenceId::DisplayTheme,
            7 => PersistenceId::Qnh,
            8 => PersistenceId::Bugs,
            9 => PersistenceId::Display,
            10 => PersistenceId::TcClimbRate,
            11 => PersistenceId::TcSpeedToFly,
            12 => PersistenceId::Info1Vario,
            13 => PersistenceId::Info2Vario,
            14 => PersistenceId::Rotation,
            15 => PersistenceId::CenterFrequency,
            16 => PersistenceId::CenterViewCircling,
            17 => PersistenceId::CenterViewStraight,
            18 => PersistenceId::EmptyMass,
            19 => PersistenceId::MaxBallast,
            20 => PersistenceId::ReferenceWeight,
            21 => PersistenceId::PolarValueV1,
            22 => PersistenceId::PolarValueV2,
            23 => PersistenceId::PolarValueV3,
            24 => PersistenceId::PolarValueSi1,
            25 => PersistenceId::PolarValueSi2,
            26 => PersistenceId::PolarValueSi3,
            27 => PersistenceId::GliderSymbol,
            28 => PersistenceId::BatteryGood,
            29 => PersistenceId::BatteryLow,
            30 => PersistenceId::DrainPinConfig,
            31 => PersistenceId::FlowEmpty,
            32 => PersistenceId::FlowSlope,
            33 => PersistenceId::FlashControl,
            34 => PersistenceId::SpeedToFlyPinConfig,
            35 => PersistenceId::GearPinConfig,
            36 => PersistenceId::AirbrakesPinConfig,
            37 => PersistenceId::GearAlarmMode,
            38 => PersistenceId::AlarmVolume,
            39 => PersistenceId::StfUpperLimit,
            40 => PersistenceId::StfLowerLimit,
            41 => PersistenceId::AvgClimbeRateSrc,
            42 => PersistenceId::StfClimbrateAlt,
            43 => PersistenceId::TcCircleHysteresis,
            44 => PersistenceId::EnergyArrowMult,
            45 => PersistenceId::VarioUpperLimit,
            46 => PersistenceId::VarioLowerLimit,
            47 => PersistenceId::Info1Stf,
            48 => PersistenceId::Info2Stf,
            49 => PersistenceId::Info3Vario,
            50 => PersistenceId::Info3Stf,
            51 => PersistenceId::UnitHorizontalSpeed,
            52 => PersistenceId::UnitVerticalSpeed,
            53 => PersistenceId::UnitHeight,
            54 => PersistenceId::LastItem,
            0xfffc => PersistenceId::VarioMode,
            0xfffd => PersistenceId::UserProfile,
            0xfffe => PersistenceId::DeleteAll,
            _ => PersistenceId::DoNotStore,
        }
    }
}

impl vstd::std_specs::convert::FromSpecImpl<u16> for PersistenceId {
    open spec fn obeys_from_spec() -> bool {
        true
    }

    open spec fn from_spec(v: u16) -> Self {
        persistence_id_from_code(v)
    }
}

/// Each id is the id of its own number.
pub proof fn lemma_persistence_id_code_roundtrip(id: PersistenceId)
    ensures
        persistence_id_from_code(id.code()) == id,
{
}
/// The items that are only ever stored in user profile 0.
pub open spec fn profile_0_ids() -> Seq<PersistenceId> {
    seq![
        PersistenceId::Glider,
        PersistenceId::EmptyMass,
        PersistenceId::MaxBallast,
        PersistenceId::ReferenceWeight,
        PersistenceId::PolarValueV1,
        PersistenceId::PolarValueV2,
        PersistenceId::PolarValueV3,
        PersistenceId::PolarValueSi1,
        PersistenceId::PolarValueSi2,
        PersistenceId::PolarValueSi3,
        PersistenceId::DrainPinConfig,
        PersistenceId::FlowEmpty,
        PersistenceId::FlowSlope,
        PersistenceId::FlashControl,
        PersistenceId::SpeedToFlyPinConfig,
        PersistenceId::GearPinConfig,
        PersistenceId::AirbrakesPinConfig,
        PersistenceId::GearAlarmMode,
    ]
}

/// Whether an item is only ever stored in user profile 0.
pub fn profile_always_0(id: PersistenceId) -> (r: bool)
    ensures
        r == profile_0_ids().contains(id),
{
    let ids = [PersistenceId::Glider, PersistenceId::EmptyMass, PersistenceId::MaxBallast, PersistenceId::ReferenceWeight, PersistenceId::PolarValueV1, PersistenceId::PolarValueV2, PersistenceId::PolarValueV3, PersistenceId::PolarValueSi1, PersistenceId::PolarValueSi2, PersistenceId::PolarValueSi3, PersistenceId::DrainPinConfig, PersistenceId::FlowEmpty, PersistenceId::FlowSlope, PersistenceId::FlashControl, PersistenceId::SpeedToFlyPinConfig, PersistenceId::GearPinConfig, PersistenceId::AirbrakesPinConfig, PersistenceId::GearAlarmMode];
    assert(ids@ =~= profile_0_ids());
    let mut i: usize = 0;
    while i < ids.len()
        invariant
            ids@ == profile_0_ids(),
            i <= ids@.len(),
            forall|k: int| 0 <= k < i ==> ids@[k] != id,
        decreases ids@.len() - i,
    {
        if ids[i] == id {
            assert(ids@[i as int] == id);
            return true;
        }
        i += 1;
    }
    false
}

/// Whether an item is stored in EEPROM: its number is below that of `LastItem`.
pub open spec fn is_stored(id: PersistenceId) -> bool {
    id.code() < PersistenceId::LastItem.code()
}

/// To which interfaces a set value is forwarded.
#[derive(Clone, Copy, PartialEq, Eq, Debug, Structural)]
pub enum Echo {
    Nothing,
    Nmea,
    Can,
    NmeaAndCan,
}

/// What setting an item does besides taking the value into the model.
#[derive(Clone, Copy, PartialEq, Eq, Debug, Structural)]
pub struct PersistPlan {
    /// The settings of the glider polar are cleared from the EEPROM: a new glider was chosen.
    pub clear_polar_settings: bool,
    /// The item is queued to be sent over NMEA after the pause, its last value only.
    pub to_nmea: bool,
    /// A configuration frame of the item goes to the CAN bus at once.
    pub to_can: bool,
    /// The water ballast fraction goes to the CAN bus too, for the sensor box.
    pub ballast_fraction_to_can: bool,
    /// The item is queued to be stored in EEPROM after the pause.
    pub store: bool,
}

/// What setting `id` with the forwarding `echo` does.
pub open spec fn persist_plan(id: PersistenceId, echo: Echo) -> PersistPlan {
    let to_can = echo == Echo::Can || echo == Echo::NmeaAndCan;
    PersistPlan {
        clear_polar_settings: id == PersistenceId::Glider,
        to_nmea: echo == Echo::Nmea || echo == Echo::NmeaAndCan,
        to_can,
        ballast_fraction_to_can: to_can && id == PersistenceId::WaterBallast,
        store: is_stored(id),
    }
}

/// Decides what setting the item `id`, forwarded as `echo` says, does: whether the polar
/// settings are cleared, where the value goes, and whether it is stored. Every setting also
/// restarts the pause after which the queued values are stored and sent.
pub fn persist_set(id: PersistenceId, echo: Echo) -> (r: PersistPlan)
    ensures
        r == persist_plan(id, echo),
{
    let to_can = echo == Echo::Can || echo == Echo::NmeaAndCan;
    PersistPlan {
        clear_polar_settings: id == PersistenceId::Glider,
        to_nmea: echo == Echo::Nmea || echo == Echo::NmeaAndCan,
        to_can,
        ballast_fraction_to_can: to_can && id == PersistenceId::WaterBallast,
        store: id.to_u16() < PersistenceId::LastItem.to_u16(),
    }
}

/// Who sets the vario mode: the automatic, an input pin, the NMEA interface or the CAN bus.
#[derive(Clone, Copy, PartialEq, Eq, Debug, Structural)]
pub enum VarioModeSource {
    Auto,
    InputPin,
    Nmea,
    Can,
}

/// A change of the vario mode, with what setting it does.
#[derive(Clone, Copy, PartialEq, Eq, Debug, Structural)]
pub struct VarioModeChange {
    pub vario_mode: VarioMode,
    pub plan: PersistPlan,
}

/// Where a new vario mode from `source` is forwarded: to the interfaces it did not come from.
pub open spec fn vario_mode_echo(source: VarioModeSource) -> Echo {
    match source {
        VarioModeSource::Auto | VarioModeSource::InputPin => Echo::NmeaAndCan,
        VarioModeSource::Nmea => Echo::Can,
        VarioModeSource::Can => Echo::Nmea,
    }
}

/// Whether `source` may set the vario mode when `control` controls it: the controlling source
/// may, and the CAN bus may while NMEA controls it.
pub open spec fn may_set_vario_mode(control: VarioModeSource, source: VarioModeSource) -> bool {
    source == control || (source == VarioModeSource::Can && control == VarioModeSource::Nmea)
}

/// What asking for `vario_mode` from `source` changes, while the mode is `current` and
/// `control` controls it: nothing when the source may not set it or the mode stays.
pub open spec fn vario_mode_change(
    current: VarioMode,
    control: VarioModeSource,
    vario_mode: VarioMode,
    source: VarioModeSource,
) -> Option<VarioModeChange> {
    if may_set_vario_mode(control, source) && vario_mode != current {
        Some(VarioModeChange {
            vario_mode,
            plan: persist_plan(PersistenceId::VarioMode, vario_mode_echo(source)),
        })
    } else {
        None
    }
}

/// Decides a request for the vario mode `vario_mode` from `source`, while the mode is
/// `current` and `control` controls it. A change is set as the item `VarioMode` and forwarded
/// to the interfaces it did not come from.
pub fn set_vario_mode(
    current: VarioMode,
    control: VarioModeSource,
    vario_mode: VarioMode,
    source: VarioModeSource,
) -> (r: Option<VarioModeChange>)
    ensures
        r == vario_mode_change(current, control, vario_mode, source),
{
    let may_set = source == control || (source == VarioModeSource::Can && control == VarioModeSource::Nmea);
    let wanted = if may_set { vario_mode } else { current };
    if wanted != current {
        let echo = match source {
            VarioModeSource::Auto | VarioModeSource::InputPin => Echo::NmeaAndCan,
            VarioModeSource::Nmea => Echo::Can,
            VarioModeSource::Can => Echo::Nmea,
        };
        Some(VarioModeChange { vario_mode: wanted, plan: persist_set(PersistenceId::VarioMode, echo) })
    } else {
        None
    }
}

/// A vario mode never goes back to where it came from, and a change is never stored in EEPROM
/// (the vario mode is not a stored item).
pub proof fn lemma_vario_mode_not_echoed(
    current: VarioMode,
    control: VarioModeSource,
    vario_mode: VarioMode,
    source: VarioModeSource,
)
    ensures
        vario_mode_change(current, control, vario_mode, source) matches Some(c) ==> {
            &&& !c.plan.store
            &&& (source == VarioModeSource::Nmea ==> !c.plan.to_nmea)
            &&& (source == VarioModeSource::Can ==> !c.plan.to_can)
        },
{
}

} // verus!
