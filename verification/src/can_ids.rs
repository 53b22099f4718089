//! Identifiers of CAN bus datagrams and of configuration items.
use crate::persist::PersistenceId;
use vstd::prelude::*;

pub mod object_id;
pub mod sensor;
pub mod gps;
pub mod sensor_legacy;
pub mod audio_legacy;
pub mod frontend_masster;
pub mod frontend_legacy;

verus! {

/// Specific ids of the frames that this device (object id 4) receives.
#[derive(Clone, Copy, PartialEq, Eq, Debug, Hash, Structural)]
pub enum SpecialId {
    Sound,
    VoltTemp,
    AvgClimbRates,
    Ignore,
}

impl SpecialId {
    /// The number that stands for the id on the bus and in storage.
    pub open spec fn code(self) -> u8 {
        match self {
            SpecialId::Sound => 0,
            SpecialId::VoltTemp => 1,
            SpecialId::AvgClimbRates => 2,
            SpecialId::Ignore => 3,
        }
    }

    /// The number that stands for the id on the bus and in storage.
    pub fn to_u8(self) -> (r: u8)
        ensures
            r == self.code(),
    {
        match self {
            SpecialId::Sound => 0,
            SpecialId::VoltTemp => 1,
            SpecialId::AvgClimbRates => 2,
            SpecialId::Ignore => 3,
        }
    }
}

/// The id that a number stands for; numbers without an id give `Ignore`.
pub open spec fn special_id_from_code(v: u8) -> SpecialId {
    match v {
        0 => SpecialId::Sound,
        1 => SpecialId::VoltTemp,
        2 => SpecialId::AvgClimbRates,
        _ => SpecialId::Ignore,
    }
}

impl From<u8> for SpecialId {
    fn from(value: u8) -> (r: Self) {
        match value {
            0 => SpecialId::Sound,
            1 => SpecialId::VoltTemp,
            2 => SpecialId::AvgClimbRates,
            _ => SpecialId::Ignore,
        }
    }
}

impl vstd::std_specs::convert::FromSpecImpl<u8> for SpecialId {
    open spec fn obeys_from_spec() -> bool {
        true
    }

    open spec fn from_spec(v: u8) -> Self {
        special_id_from_code(v)
    }
}

/// Each id is the id of its own number.
pub proof fn lemma_special_id_code_roundtrip(id: SpecialId)
    ensures
        special_id_from_code(id.code()) == id,
{
}
/// Generic ids: the low four bits of a frame id in the generic range.
#[derive(Clone, Copy, PartialEq, Eq, Debug, Hash, Structural)]
pub enum GenericId {
    Heartbeat,
    HwFwVersion,
    SetSysSetting,
    BinaryTransfer,
    Ignore,
}

impl GenericId {
    /// The number that stands for the id on the bus and in storage.
    pub open spec fn code(self) -> u16 {
        match self {
            GenericId::Heartbeat => 0,
            GenericId::HwFwVersion => 1,
            GenericId::SetSysSetting => 2,
            GenericId::BinaryTransfer => 3,
            GenericId::Ignore => 4,
        }
    }

    /// The number that stands for the id on the bus and in storage.
    pub fn to_u16(self) -> (r: u16)
        ensures
            r == self.code(),
    {
        match self {
            GenericId::Heartbeat => 0,
            GenericId::HwFwVersion => 1,
            GenericId::SetSysSetting => 2,
            GenericId::BinaryTransfer => 3,
            GenericId::Ignore => 4,
        }
    }
}

/// The id that a number stands for; numbers without an id give `Ignore`.
pub open spec fn generic_id_from_code(v: u16) -> GenericId {
    match v {
        0 => GenericId::Heartbeat,
        1 => GenericId::HwFwVersion,
        2 => GenericId::SetSysSetting,
        3 => GenericId::BinaryTransfer,
        _ => GenericId::Ignore,
    }
}

impl From<u16> for GenericId {
    fn from(value: u16) -> (r: Self) {
        match value {
            0 => GenericId::Heartbeat,
            1 => GenericId::HwFwVersion,
            2 => GenericId::SetSysSetting,
            3 => GenericId::BinaryTransfer,
            _ => GenericId::Ignore,
        }
    }
}

impl vstd::std_specs::convert::FromSpecImpl<u16> for GenericId {
    open spec fn obeys_from_spec() -> bool {
        true
    }

    open spec fn from_spec(v: u16) -> Self {
        generic_id_from_code(v)
    }
}

/// Each id is the id of its own number.
pub proof fn lemma_generic_id_code_roundtrip(id: GenericId)
    ensures
        generic_id_from_code(id.code()) == id,
{
}
/// Whether a remote configuration value is requested or set.
#[derive(Clone, Copy, PartialEq, Eq, Debug, Structural)]
pub enum RemoteConfig {
    Get,
    Put,
}

/// Which legacy CAN devices are active.
#[derive(Clone, Copy, PartialEq, Eq, Debug, Structural)]
pub enum CanActive {
    Nothing,
    SensorboxLegacy,
}

/// Configuration items that travel on the CAN bus.
#[derive(Clone, Copy, PartialEq, Eq, Debug, Hash, Structural)]
pub enum CanConfigId {
    Volume,
    MacCready,
    WaterBallast,
    Bugs,
    Qnh,
    PilotWeight,
    VarioModeControl,
    TcClimbRate,
    TcSpeedToFly,
    VarioMode,
    Ignore,
    SensTiltRoll,
    SensTiltPitch,
    SensTiltYaw,
    PitotOffset,
    PitotSpan,
    QnhDelta,
    MagAutoCalib,
    VarioTc,
    VarioIntTc,
    WindTc,
    MeanWindTc,
    GnssConfig,
    AntBaselen,
    AntSlaveDown,
    AntSlaveRight,
    VarioPressTc,
    CmdMeasure1,
    CmdMeasure2,
    CmdMeasure3,
    CmdCalcSensorOrientation,
    CmdFineTuneCalibration,
    CmdReset,
}

impl CanConfigId {
    /// The number that stands for the id on the bus and in storage.
    pub open spec fn code(self) -> u16 {
        match self {
            CanConfigId::Volume => 0,
            CanConfigId::MacCready => 1,
            CanConfigId::WaterBallast => 2,
            CanConfigId::Bugs => 3,
            CanConfigId::Qnh => 4,
            CanConfigId::PilotWeight => 5,
            CanConfigId::VarioModeControl => 6,
            CanConfigId::TcClimbRate => 7,
            CanConfigId::TcSpeedToFly => 8,
            CanConfigId::VarioMode => 9,
            CanConfigId::Ignore => 10,
            CanConfigId::SensTiltRoll => 0x2000,
            CanConfigId::SensTiltPitch => 0x2001,
            CanConfigId::SensTiltYaw => 0x2002,
            CanConfigId::PitotOffset => 0x2003,
            CanConfigId::PitotSpan => 0x2004,
            CanConfigId::QnhDelta => 0x2005,
            CanConfigId::MagAutoCalib => 0x2006,
            CanConfigId::VarioTc => 0x2007,
            CanConfigId::VarioIntTc => 0x2008,
            CanConfigId::WindTc => 0x2009,
            CanConfigId::MeanWindTc => 0x200a,
            CanConfigId::GnssConfig => 0x200b,
            CanConfigId::AntBaselen => 0x200c,
            CanConfigId::AntSlaveDown => 0x200d,
            CanConfigId::AntSlaveRight => 0x200e,
            CanConfigId::VarioPressTc => 0x200f,
            CanConfigId::CmdMeasure1 => 0x3000,
            CanConfigId::CmdMeasure2 => 0x3001,
            CanConfigId::CmdMeasure3 => 0x3002,
            CanConfigId::CmdCalcSensorOrientation => 0x3003,
            CanConfigId::CmdFineTuneCalibration => 0x3004,
            CanConfigId::CmdReset => 0x3005,
        }
    }

    /// The number that stands for the id on the bus and in storage.
    pub fn to_u16(self) -> (r: u16)
        ensures
            r == self.code(),
    {
        match self {
            CanConfigId::Volume => 0,
            CanConfigId::MacCready => 1,
            CanConfigId::WaterBallast => 2,
            CanConfigId::Bugs => 3,
            CanConfigId::Qnh => 4,
            CanConfigId::PilotWeight => 5,
            CanConfigId::VarioModeControl => 6,
            CanConfigId::TcClimbRate => 7,
            CanConfigId::TcSpeedToFly => 8,
            CanConfigId::VarioMode => 9,
            CanConfigId::Ignore => 10,
            CanConfigId::SensTiltRoll => 0x2000,
            CanConfigId::SensTiltPitch => 0x2001,
            CanConfigId::SensTiltYaw => 0x2002,
            CanConfigId::PitotOffset => 0x2003,
            CanConfigId::PitotSpan => 0x2004,
            CanConfigId::QnhDelta => 0x2005,
            CanConfigId::MagAutoCalib => 0x2006,
            CanConfigId::VarioTc => 0x2007,
            CanConfigId::VarioIntTc => 0x2008,
            CanConfigId::WindTc => 0x2009,
            CanConfigId::MeanWindTc => 0x200a,
            CanConfigId::GnssConfig => 0x200b,
            CanConfigId::AntBaselen => 0x200c,
            CanConfigId::AntSlaveDown => 0x200d,
            CanConfigId::AntSlaveRight => 0x200e,
            CanConfigId::VarioPressTc => 0x200f,
            CanConfigId::CmdMeasure1 => 0x3000,
            CanConfigId::CmdMeasure2 => 0x3001,
            CanConfigId::CmdMeasure3 => 0x3002,
            CanConfigId::CmdCalcSensorOrientation => 0x3003,
            CanConfigId::CmdFineTuneCalibration => 0x3004,
            CanConfigId::CmdReset => 0x3005,
        }
    }
}

/// The id that a number stands for; numbers without an id give `Ignore`.
pub open spec fn can_config_id_from_code(v: u16) -> CanConfigId {
    match v {
        0 => CanConfigId::Volume,
        1 => CanConfigId::MacCready,
        2 => CanConfigId::WaterBallast,
        3 => CanConfigId::Bugs,
        4 => CanConfigId::Qnh,
        5 => CanConfigId::PilotWeight,
        6 => CanConfigId::VarioModeControl,
        7 => CanConfigId::TcClimbRate,
        8 => CanConfigId::TcSpeedToFly,
        9 => CanConfigId::VarioMode,
        0x2000 => CanConfigId::SensTiltRoll,
        0x2001 => CanConfigId::SensTiltPitch,
        0x2002 => CanConfigId::SensTiltYaw,
        0x2003 => CanConfigId::PitotOffset,
        0x2004 => CanConfigId::PitotSpan,
        0x2005 => CanConfigId::QnhDelta,
        0x2006 => CanConfigId::MagAutoCalib,
        0x2007 => CanConfigId::VarioTc,
        0x2008 => CanConfigId::VarioIntTc,
        0x2009 => CanConfigId::WindTc,
        0x200a => CanConfigId::MeanWindTc,
        0x200b => CanConfigId::GnssConfig,
        0x200c => CanConfigId::AntBaselen,
        0x200d => CanConfigId::AntSlaveDown,
        0x200e => CanConfigId::AntSlaveRight,
        0x200f => CanConfigId::VarioPressTc,
        0x3000 => CanConfigId::CmdMeasure1,
        0x3001 => CanConfigId::CmdMeasure2,
        0x3002 => CanConfigId::CmdMeasure3,
        0x3003 => CanConfigId::CmdCalcSensorOrientation,
        0x3004 => CanConfigId::CmdFineTuneCalibration,
        0x3005 => CanConfigId::CmdReset,
        _ => CanConfigId::Ignore,
    }
}

impl From<u16> for CanConfigId {
    fn from(value: u16) -> (r: Self) {
        match value {
            0 => CanConfigId::Volume,
            1 => CanConfigId::MacCready,
            2 => CanConfigId::WaterBallast,
            3 => CanConfigId::Bugs,
            4 => CanConfigId::Qnh,
            5 => CanConfigId::PilotWeight,
            6 => CanConfigId::VarioModeControl,
            7 => CanConfigId::TcClimbRate,
            8 => CanConfigId::TcSpeedToFly,
            9 => CanConfigId::VarioMode,
            0x2000 => CanConfigId::SensTiltRoll,
            0x2001 => CanConfigId::SensTiltPitch,
            0x2002 => CanConfigId::SensTiltYaw,
            0x2003 => CanConfigId::PitotOffset,
            0x2004 => CanConfigId::PitotSpan,
            0x2005 => CanConfigId::QnhDelta,
            0x2006 => CanConfigId::MagAutoCalib,
            0x2007 => CanConfigId::VarioTc,
            0x2008 => CanConfigId::VarioIntTc,
            0x2009 => CanConfigId::WindTc,
            0x200a => CanConfigId::MeanWindTc,
            0x200b => CanConfigId::GnssConfig,
            0x200c => CanConfigId::AntBaselen,
            0x200d => CanConfigId::AntSlaveDown,
            0x200e => CanConfigId::AntSlaveRight,
            0x200f => CanConfigId::VarioPressTc,
            0x3000 => CanConfigId::CmdMeasure1,
            0x3001 => CanConfigId::CmdMeasure2,
            0x3002 => CanConfigId::CmdMeasure3,
            0x3003 => CanConfigId::CmdCalcSensorOrientation,
            0x3004 => CanConfigId::CmdFineTuneCalibration,
            0x3005 => CanConfigId::CmdReset,
            _ => CanConfigId::Ignore,
        }
    }
}

impl vstd::std_specs::convert::FromSpecImpl<u16> for CanConfigId {
    open spec fn obeys_from_spec() -> bool {
        true
    }

    open spec fn from_spec(v: u16) -> Self {
        can_config_id_from_code(v)
    }
}

/// Each id is the id of its own number.
pub proof fn lemma_can_config_id_code_roundtrip(id: CanConfigId)
    ensures
        can_config_id_from_code(id.code()) == id,
{
}
/// The configuration item on the CAN bus that a stored item is sent as; items that are not
/// sent give `Ignore`.
pub open spec fn config_id_of(value: PersistenceId) -> CanConfigId {
    match value {
        PersistenceId::Volume => CanConfigId::Volume,
        PersistenceId::McCready => CanConfigId::MacCready,
        PersistenceId::WaterBallast => CanConfigId::WaterBallast,
        PersistenceId::Bugs => CanConfigId::Bugs,
        PersistenceId::Qnh => CanConfigId::Qnh,
        PersistenceId::PilotWeight => CanConfigId::PilotWeight,
        PersistenceId::VarioModeControl => CanConfigId::Ignore,
        PersistenceId::TcClimbRate => CanConfigId::TcClimbRate,
        PersistenceId::TcSpeedToFly => CanConfigId::TcSpeedToFly,
        PersistenceId::VarioMode => CanConfigId::VarioMode,
        _ => CanConfigId::Ignore,
    }
}

impl From<PersistenceId> for CanConfigId {
    fn from(value: PersistenceId) -> (r: Self) {
        match value {
            PersistenceId::Volume => CanConfigId::Volume,
            PersistenceId::McCready => CanConfigId::MacCready,
            PersistenceId::WaterBallast => CanConfigId::WaterBallast,
            PersistenceId::Bugs => CanConfigId::Bugs,
            PersistenceId::Qnh => CanConfigId::Qnh,
            PersistenceId::PilotWeight => CanConfigId::PilotWeight,
            PersistenceId::VarioModeControl => CanConfigId::Ignore,
            PersistenceId::TcClimbRate => CanConfigId::TcClimbRate,
            PersistenceId::TcSpeedToFly => CanConfigId::TcSpeedToFly,
            PersistenceId::VarioMode => CanConfigId::VarioMode,
            _ => CanConfigId::Ignore,
        }
    }
}

impl vstd::std_specs::convert::FromSpecImpl<PersistenceId> for CanConfigId {
    open spec fn obeys_from_spec() -> bool {
        true
    }

    open spec fn from_spec(v: PersistenceId) -> Self {
        config_id_of(v)
    }
}

} // verus!
