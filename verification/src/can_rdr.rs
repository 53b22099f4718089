//! Decoding of the datagrams of the sensor box, legacy and specific, and of configuration
//! values from other devices, into their raw integer readings.
//!
//! Each datagram carries fixed point values little endian; what they mean in physical units
//! (1/1000 rad, km/h, mm/s, Pa, ...) is written at each reading. Scaling them into real
//! numbers is left to the caller.
use crate::can_frame::{lemma_frame_data_len, CanFrame, CanFrameView, SpecificFrame};
use crate::can_ids::{can_config_id_from_code, config_id_of, sensor, CanConfigId};
use crate::can_wtr::{config_data, le16_bytes, le32_bytes};
use crate::persist::{Echo, PersistenceId};
use crate::can_ids::{frontend_masster, sensor_legacy};
use crate::le_bytes::{le_u16_at, le_u32_at, signed16, signed32};
use vstd::prelude::*;

verus! {

/// What the GPS receiver can tell.
#[derive(Clone, Copy, PartialEq, Eq, Debug, Structural)]
pub enum GpsState {
    NoGps,
    PosAvail,
    HeadingAvail,
}

/// True and indicated airspeed in km/h.
#[derive(Clone, Copy, PartialEq, Eq, Debug, Structural)]
pub struct Airspeeds {
    pub tas: i16,
    pub ias: i16,
}

/// A wind as direction in 1/1000 rad and speed in km/h.
#[derive(Clone, Copy, PartialEq, Eq, Debug, Structural)]
pub struct WindSample {
    pub direction: i16,
    pub speed: i16,
}

/// Date and time of the GPS.
#[derive(Clone, Copy, PartialEq, Eq, Debug, Structural)]
pub struct DateTime {
    pub year: u16,
    pub month: u8,
    pub day: u8,
    pub hour: u8,
    pub minute: u8,
    pub second: u8,
}

/// What a legacy datagram carries. A value is none where the frame is too short for it; values
/// that are only taken together are none together.
#[derive(Clone, Copy, PartialEq, Eq, Debug, Structural)]
pub enum LegacyReading {
    /// From the virtual master: the average climb rates (of the last minutes and of the last
    /// thermal) in m/s, by the bits of their single precision values; the master keeps the
    /// device in slave mode for the next seconds.
    AvgClimbRates { av2_climb_rate: Option<u32>, thermal_climb_rate: Option<u32> },
    /// Roll and nick in 1/1000 rad within -6283..=3142, yaw in 1/1000 rad within 0..=6283.
    EulerAngles { roll: Option<i16>, nick: Option<i16>, yaw: Option<i16> },
    /// G-force and vertical g-force in mm/s².
    Acceleration { g_force: Option<i16>, vertical_g_force: Option<i16> },
    /// True and indicated airspeed in km/h.
    Airspeed { speeds: Option<Airspeeds> },
    /// Static pressure in Pa and air density in g/m³.
    Athmosphere { pressure: Option<u32>, density: Option<u32> },
    /// Year, month, day, hour, minute and second of the GPS.
    GpsDateTime { date_time: Option<DateTime> },
    /// Latitude and longitude in 10^-7 degrees.
    GpsLatLon { lat: Option<i32>, lon: Option<i32> },
    /// Altitude above sea level in mm and geo separation in 1/10 m.
    GpsAlt { altitude: Option<i32>, geo_separation: Option<i32> },
    /// Ground track in 1/1000 rad, and the ground speed in km/h that follows it.
    GpsTrackSpeed { track: Option<i16>, ground_speed: Option<u16> },
    /// Number of satellites and what the GPS can tell.
    GpsSats { sats: Option<u8>, state: Option<GpsState> },
    /// Slip angle in 1/1000 rad, turn rate in 1/1000 rad/s and nick angle in 1/1000 rad.
    TurnCoord { slip_angle: Option<i16>, turn_rate: Option<i16>, nick_angle: Option<i16> },
    /// Climb rate and average climb rate in mm/s; the legacy sensor box is active.
    Vario { climb_rate: Option<i16>, average_climb_rate: Option<i16> },
    /// Current and average wind, each as direction in 1/1000 rad and speed in km/h.
    Wind { current: Option<WindSample>, average: Option<WindSample> },
    /// Any other identifier.
    Ignored,
}

/// The signed 16 bit value at `at`.
pub open spec fn i16_at(p: Seq<u8>, at: int) -> i16 {
    signed16(le_u16_at(p, at)) as i16
}

/// The byte at `at`, none when the bytes do not reach that far.
pub open spec fn opt_u8(p: Seq<u8>, at: int) -> Option<u8> {
    if at + 1 <= p.len() { Some(p[at]) } else { None }
}

/// The signed 16 bit value at `at`, none when the bytes do not reach that far.
pub open spec fn opt_i16(p: Seq<u8>, at: int) -> Option<i16> {
    if at + 2 <= p.len() { Some(i16_at(p, at)) } else { None }
}

/// The unsigned 16 bit value at `at`, none when the bytes do not reach that far.
pub open spec fn opt_u16(p: Seq<u8>, at: int) -> Option<u16> {
    if at + 2 <= p.len() { Some(le_u16_at(p, at) as u16) } else { None }
}

/// The signed 32 bit value at `at`, none when the bytes do not reach that far.
pub open spec fn opt_i32(p: Seq<u8>, at: int) -> Option<i32> {
    if at + 4 <= p.len() { Some(signed32(le_u32_at(p, at)) as i32) } else { None }
}

/// Two airspeeds taken together.
pub open spec fn airspeeds(tas: Option<i16>, ias: Option<i16>) -> Option<Airspeeds> {
    match (tas, ias) {
        (Some(tas), Some(ias)) => Some(Airspeeds { tas, ias }),
        _ => None,
    }
}

/// Direction and speed of a wind taken together.
pub open spec fn wind_sample(direction: Option<i16>, speed: Option<i16>) -> Option<WindSample> {
    match (direction, speed) {
        (Some(direction), Some(speed)) => Some(WindSample { direction, speed }),
        _ => None,
    }
}

/// The remainder of a division that truncates towards zero, as Rust's `%` on integers.
pub open spec fn trunc_rem(r: int, m: int) -> int {
    if r >= 0 { r % m } else { -((-r) % m) }
}

/// An angle in 1/1000 rad brought into 0..=6283.
pub open spec fn norm_0_2pi(r: i16) -> i16 {
    let q = trunc_rem(r as int, 6284);
    (if q < 0 { q + 6284 } else { q }) as i16
}

/// An angle in 1/1000 rad brought into -6283..=3142.
pub open spec fn norm_mpi_ppi(r: i16) -> i16 {
    let q = trunc_rem(r as int, 6284);
    (if q > 3142 { q - 6284 } else { q }) as i16
}

/// What the GPS can tell, by the fix byte of the satellites datagram.
pub open spec fn gps_state_of(b: u8) -> GpsState {
    if b == 1 {
        GpsState::PosAvail
    } else if b == 3 {
        GpsState::HeadingAvail
    } else {
        GpsState::NoGps
    }
}

/// What the legacy datagram `f` carries.
pub open spec fn legacy_reading(f: CanFrameView) -> LegacyReading {
    let p = f.data.take(f.len as int);
    let id = f.id;
    if id == frontend_masster::AVG_CLIMB_RATES {
        LegacyReading::AvgClimbRates { av2_climb_rate: f32_at(p, 0), thermal_climb_rate: f32_at(p, 4) }
    } else if id == sensor_legacy::EULER_ANGLES {
        LegacyReading::EulerAngles {
            roll: match opt_i16(p, 0) { Some(v) => Some(norm_mpi_ppi(v)), None => None },
            nick: match opt_i16(p, 2) { Some(v) => Some(norm_mpi_ppi(v)), None => None },
            yaw: match opt_i16(p, 4) { Some(v) => Some(norm_0_2pi(v)), None => None },
        }
    } else if id == sensor_legacy::ACCELERATION {
        LegacyReading::Acceleration { g_force: opt_i16(p, 0), vertical_g_force: opt_i16(p, 2) }
    } else if id == sensor_legacy::AIRSPEED {
        LegacyReading::Airspeed { speeds: airspeeds(opt_i16(p, 0), opt_i16(p, 2)) }
    } else if id == sensor_legacy::ATHMOSPHERE {
        LegacyReading::Athmosphere { pressure: u32_at(p, 0), density: u32_at(p, 4) }
    } else if id == sensor_legacy::GPS_DATE_TIME {
        LegacyReading::GpsDateTime {
            date_time: if p.len() >= 6 {
                Some(DateTime {
                    year: (p[0] + 2000) as u16,
                    month: p[1],
                    day: p[2],
                    hour: p[3],
                    minute: p[4],
                    second: p[5],
                })
            } else {
                None
            },
        }
    } else if id == sensor_legacy::GPS_LAT_LON {
        LegacyReading::GpsLatLon { lat: opt_i32(p, 0), lon: opt_i32(p, 4) }
    } else if id == sensor_legacy::GPS_ALT {
        LegacyReading::GpsAlt { altitude: opt_i32(p, 0), geo_separation: opt_i32(p, 4) }
    } else if id == sensor_legacy::GPS_TRK_SPD {
        LegacyReading::GpsTrackSpeed {
            track: opt_i16(p, 0),
            ground_speed: if opt_i16(p, 0) is Some { opt_u16(p, 2) } else { None },
        }
    } else if id == sensor_legacy::GPS_SATS {
        LegacyReading::GpsSats {
            sats: opt_u8(p, 0),
            state: match opt_u8(p, 1) { Some(b) => Some(gps_state_of(b)), None => None },
        }
    } else if id == sensor_legacy::TURN_COORD {
        LegacyReading::TurnCoord { slip_angle: opt_i16(p, 0), turn_rate: opt_i16(p, 2), nick_angle: opt_i16(p, 4) }
    } else if id == sensor_legacy::VARIO {
        LegacyReading::Vario { climb_rate: opt_i16(p, 0), average_climb_rate: opt_i16(p, 2) }
    } else if id == sensor_legacy::WIND {
        LegacyReading::Wind {
            current: wind_sample(opt_i16(p, 0), opt_i16(p, 2)),
            average: wind_sample(opt_i16(p, 4), opt_i16(p, 6)),
        }
    } else {
        LegacyReading::Ignored
    }
}

fn norm_0_2pi_of(r: i16) -> (n: i16)
    ensures
        n == norm_0_2pi(r),
{
    let q = r % 6284;
    if q < 0 {
        q + 6284
    } else {
        q
    }
}

fn norm_mpi_ppi_of(r: i16) -> (n: i16)
    ensures
        n == norm_mpi_ppi(r),
{
    let q = r % 6284;
    if q > 3142 {
        q - 6284
    } else {
        q
    }
}

/// The byte of the data bytes at `at`, when the frame carries it.
fn u8_in_payload(frame: &CanFrame, at: usize) -> (r: Option<u8>)
    requires
        frame.well_formed(),
        at < 8,
    ensures
        r == opt_u8(frame.payload(), at as int),
{
    proof {
        lemma_frame_data_len(*frame);
    }
    if at < frame.dlc() as usize {
        Some(frame.read_u8(at))
    } else {
        None
    }
}

/// The signed 16 bit value of the data bytes at `at`, when the frame carries it.
fn i16_in_payload(frame: &CanFrame, at: usize) -> (r: Option<i16>)
    requires
        frame.well_formed(),
        at + 2 <= 8,
    ensures
        r == opt_i16(frame.payload(), at as int),
{
    proof {
        lemma_frame_data_len(*frame);
    }
    if at + 2 <= frame.dlc() as usize {
        let v = frame.read_i16(at);
        assert(le_u16_at(frame.payload(), at as int) == le_u16_at(frame@.data, at as int));
        Some(v)
    } else {
        None
    }
}

/// The unsigned 16 bit value of the data bytes at `at`, when the frame carries it.
fn u16_in_payload(frame: &CanFrame, at: usize) -> (r: Option<u16>)
    requires
        frame.well_formed(),
        at + 2 <= 8,
    ensures
        r == opt_u16(frame.payload(), at as int),
{
    proof {
        lemma_frame_data_len(*frame);
    }
    if at + 2 <= frame.dlc() as usize {
        let v = frame.read_u16(at);
        assert(le_u16_at(frame.payload(), at as int) == le_u16_at(frame@.data, at as int));
        Some(v)
    } else {
        None
    }
}

/// The signed 32 bit value of the data bytes at `at`, when the frame carries it.
fn i32_in_payload(frame: &CanFrame, at: usize) -> (r: Option<i32>)
    requires
        frame.well_formed(),
        at + 4 <= 8,
    ensures
        r == opt_i32(frame.payload(), at as int),
{
    proof {
        lemma_frame_data_len(*frame);
    }
    if at + 4 <= frame.dlc() as usize {
        let v = frame.read_i32(at);
        assert(le_u32_at(frame.payload(), at as int) == le_u32_at(frame@.data, at as int));
        Some(v)
    } else {
        None
    }
}

/// Two airspeeds taken together.
fn airspeeds_of(tas: Option<i16>, ias: Option<i16>) -> (r: Option<Airspeeds>)
    ensures
        r == airspeeds(tas, ias),
{
    match (tas, ias) {
        (Some(tas), Some(ias)) => Some(Airspeeds { tas, ias }),
        _ => None,
    }
}

/// Direction and speed of a wind taken together.
fn wind_sample_of(direction: Option<i16>, speed: Option<i16>) -> (r: Option<WindSample>)
    ensures
        r == wind_sample(direction, speed),
{
    match (direction, speed) {
        (Some(direction), Some(speed)) => Some(WindSample { direction, speed }),
        _ => None,
    }
}

/// Reads a legacy datagram.
pub fn can_frame_read_legacy(frame: &CanFrame) -> (r: LegacyReading)
    requires
        frame.well_formed(),
    ensures
        r == legacy_reading(frame@),
{
    proof {
        lemma_frame_data_len(*frame);
    }
    let id = frame.id();
    if id == frontend_masster::AVG_CLIMB_RATES {
        let av2_climb_rate = f32_in_payload(frame, 0);
        let thermal_climb_rate = f32_in_payload(frame, 4);
        LegacyReading::AvgClimbRates { av2_climb_rate, thermal_climb_rate }
    } else if id == sensor_legacy::EULER_ANGLES {
        let roll = match i16_in_payload(frame, 0) {
            Some(v) => Some(norm_mpi_ppi_of(v)),
            None => None,
        };
        let nick = match i16_in_payload(frame, 2) {
            Some(v) => Some(norm_mpi_ppi_of(v)),
            None => None,
        };
        let yaw = match i16_in_payload(frame, 4) {
            Some(v) => Some(norm_0_2pi_of(v)),
            None => None,
        };
        LegacyReading::EulerAngles { roll, nick, yaw }
    } else if id == sensor_legacy::ACCELERATION {
        let g_force = i16_in_payload(frame, 0);
        let vertical_g_force = i16_in_payload(frame, 2);
        LegacyReading::Acceleration { g_force, vertical_g_force }
    } else if id == sensor_legacy::AIRSPEED {
        let speeds = airspeeds_of(i16_in_payload(frame, 0), i16_in_payload(frame, 2));
        LegacyReading::Airspeed { speeds }
    } else if id == sensor_legacy::ATHMOSPHERE {
        let pressure = u32_in_payload(frame, 0);
        let density = u32_in_payload(frame, 4);
        LegacyReading::Athmosphere { pressure, density }
    } else if id == sensor_legacy::GPS_DATE_TIME {
        let date_time = if frame.dlc() >= 6 {
            let year = 2000 + frame.read_u8(0) as u16;
            Some(DateTime {
                year,
                month: frame.read_u8(1),
                day: frame.read_u8(2),
                hour: frame.read_u8(3),
                minute: frame.read_u8(4),
                second: frame.read_u8(5),
            })
        } else {
            None
        };
        LegacyReading::GpsDateTime { date_time }
    } else if id == sensor_legacy::GPS_LAT_LON {
        let lat = i32_in_payload(frame, 0);
        let lon = i32_in_payload(frame, 4);
        LegacyReading::GpsLatLon { lat, lon }
    } else if id == sensor_legacy::GPS_ALT {
        let altitude = i32_in_payload(frame, 0);
        let geo_separation = i32_in_payload(frame, 4);
        LegacyReading::GpsAlt { altitude, geo_separation }
    } else if id == sensor_legacy::GPS_TRK_SPD {
        let track = i16_in_payload(frame, 0);
        let ground_speed = if track.is_some() {
            u16_in_payload(frame, 2)
        } else {
            None
        };
        LegacyReading::GpsTrackSpeed { track, ground_speed }
    } else if id == sensor_legacy::GPS_SATS {
        let sats = u8_in_payload(frame, 0);
        let state = match u8_in_payload(frame, 1) {
            Some(fix) => Some(
                if fix == 1 {
                    GpsState::PosAvail
                } else if fix == 3 {
                    GpsState::HeadingAvail
                } else {
                    GpsState::NoGps
                },
            ),
            None => None,
        };
        LegacyReading::GpsSats { sats, state }
    } else if id == sensor_legacy::TURN_COORD {
        let slip_angle = i16_in_payload(frame, 0);
        let turn_rate = i16_in_payload(frame, 2);
        let nick_angle = i16_in_payload(frame, 4);
        LegacyReading::TurnCoord { slip_angle, turn_rate, nick_angle }
    } else if id == sensor_legacy::VARIO {
        let climb_rate = i16_in_payload(frame, 0);
        let average_climb_rate = i16_in_payload(frame, 2);
        LegacyReading::Vario { climb_rate, average_climb_rate }
    } else if id == sensor_legacy::WIND {
        let current = wind_sample_of(i16_in_payload(frame, 0), i16_in_payload(frame, 2));
        let average = wind_sample_of(i16_in_payload(frame, 4), i16_in_payload(frame, 6));
        LegacyReading::Wind { current, average }
    } else {
        LegacyReading::Ignored
    }
}

/// Whether the bits of an IEEE 754 single precision number give a finite number: the
/// exponent is not all ones.
pub open spec fn finite_bits(bits: u32) -> bool {
    (bits / 0x80_0000) % 256 != 255
}

/// The single precision number at `at`, by its bits: none when the bytes do not reach that far
/// or the number is not finite.
pub open spec fn f32_at(p: Seq<u8>, at: int) -> Option<u32> {
    if at + 4 <= p.len() && finite_bits(le_u32_at(p, at) as u32) {
        Some(le_u32_at(p, at) as u32)
    } else {
        None
    }
}

/// The unsigned 32 bit value at `at`, none when the bytes do not reach that far.
pub open spec fn u32_at(p: Seq<u8>, at: int) -> Option<u32> {
    if at + 4 <= p.len() {
        Some(le_u32_at(p, at) as u32)
    } else {
        None
    }
}

/// The pairs of single precision values that the sensor box sends.
#[derive(Clone, Copy, PartialEq, Eq, Debug, Structural)]
pub enum SensorPair {
    /// Roll and nick in rad.
    EulerRollNick,
    /// Yaw in rad and turn rate in rad/s.
    EulerYawTurnRate,
    /// True and indicated airspeed in m/s; they are taken only together.
    TasIas,
    /// Climb rate and average climb rate in m/s; a climb rate shows that the sensor box is
    /// active.
    VarioAvVario,
    /// Wind direction in rad and wind speed in m/s.
    WindDirSpeed,
    /// Average wind direction in rad and average wind speed in m/s.
    AvWindDirSpeed,
    /// Ambient pressure in Pa and air density in kg/m³.
    AmbPressAirDens,
    /// G-force and vertical g-force in m/s².
    GForceVerticalGf,
    /// Slip angle and pitch angle in rad.
    SlipPitchAngle,
}

/// What a specific datagram of the sensor box carries. Single precision values are given by
/// their bits, none where the frame is too short or the value is not finite.
#[derive(Clone, Copy, PartialEq, Eq, Debug, Structural)]
pub enum SensorReading {
    Pair(SensorPair, Option<u32>, Option<u32>),
    /// The system state of the sensor box.
    SystemState(Option<u32>),
    /// A configuration value that the sensor box reports, in rad for the sensor tilts.
    ConfigValue { config_id: CanConfigId, value: Option<u32> },
    /// A datagram that carries nothing to take.
    Ignored,
}

/// The pair of values of a specific id, if it is one.
pub open spec fn sensor_pair(id: u16) -> Option<SensorPair> {
    if id == sensor::EULER_ROLL_NICK {
        Some(SensorPair::EulerRollNick)
    } else if id == sensor::EULER_YAW_TURN_RATE {
        Some(SensorPair::EulerYawTurnRate)
    } else if id == sensor::TAS_IAS {
        Some(SensorPair::TasIas)
    } else if id == sensor::VARIO_AV_VARIO {
        Some(SensorPair::VarioAvVario)
    } else if id == sensor::WIND_DIR_SPEED {
        Some(SensorPair::WindDirSpeed)
    } else if id == sensor::AV_WIND_DIR_SPEED {
        Some(SensorPair::AvWindDirSpeed)
    } else if id == sensor::AMB_PRESS_AIR_DENS {
        Some(SensorPair::AmbPressAirDens)
    } else if id == sensor::G_FORCE_VERTICAL_GF {
        Some(SensorPair::GForceVerticalGf)
    } else if id == sensor::SLIP_PITCH_ANGLE {
        Some(SensorPair::SlipPitchAngle)
    } else {
        None
    }
}

/// What the specific datagram `id` of the sensor box with the data bytes `p` carries.
pub open spec fn sensor_reading(id: u16, p: Seq<u8>) -> SensorReading {
    match sensor_pair(id) {
        Some(pair) => SensorReading::Pair(pair, f32_at(p, 0), f32_at(p, 4)),
        None => if id == sensor::SYSTEM_STATE_GIT_TAG {
            SensorReading::SystemState(u32_at(p, 0))
        } else if id == sensor::CONFIG_VALUE {
            match u32_at(p, 0) {
                Some(v) => SensorReading::ConfigValue {
                    config_id: can_config_id_from_code((v % 65536) as u16),
                    value: f32_at(p, 4),
                },
                None => SensorReading::Ignored,
            }
        } else {
            SensorReading::Ignored
        },
    }
}

fn sensor_pair_of(id: u16) -> (r: Option<SensorPair>)
    ensures
        r == sensor_pair(id),
{
    if id == sensor::EULER_ROLL_NICK {
        Some(SensorPair::EulerRollNick)
    } else if id == sensor::EULER_YAW_TURN_RATE {
        Some(SensorPair::EulerYawTurnRate)
    } else if id == sensor::TAS_IAS {
        Some(SensorPair::TasIas)
    } else if id == sensor::VARIO_AV_VARIO {
        Some(SensorPair::VarioAvVario)
    } else if id == sensor::WIND_DIR_SPEED {
        Some(SensorPair::WindDirSpeed)
    } else if id == sensor::AV_WIND_DIR_SPEED {
        Some(SensorPair::AvWindDirSpeed)
    } else if id == sensor::AMB_PRESS_AIR_DENS {
        Some(SensorPair::AmbPressAirDens)
    } else if id == sensor::G_FORCE_VERTICAL_GF {
        Some(SensorPair::GForceVerticalGf)
    } else if id == sensor::SLIP_PITCH_ANGLE {
        Some(SensorPair::SlipPitchAngle)
    } else {
        None
    }
}

/// The unsigned 32 bit value of the data bytes at `at`, when the frame carries them.
fn u32_in_payload(frame: &CanFrame, at: usize) -> (r: Option<u32>)
    requires
        frame.well_formed(),
        at + 4 <= 8,
    ensures
        r == u32_at(frame.payload(), at as int),
{
    proof {
        lemma_frame_data_len(*frame);
    }
    if at + 4 <= frame.dlc() as usize {
        let v = frame.read_u32(at);
        assert(le_u32_at(frame.payload(), at as int) == le_u32_at(frame@.data, at as int));
        Some(v)
    } else {
        None
    }
}

/// The bits of the single precision number of the data bytes at `at`, when the frame carries
/// them and the number is finite.
fn f32_in_payload(frame: &CanFrame, at: usize) -> (r: Option<u32>)
    requires
        frame.well_formed(),
        at + 4 <= 8,
    ensures
        r == f32_at(frame.payload(), at as int),
{
    match u32_in_payload(frame, at) {
        Some(bits) => if (bits / 0x80_0000) % 256 != 255 {
            Some(bits)
        } else {
            None
        },
        None => None,
    }
}

/// Reads a specific datagram of the sensor box.
pub fn can_frame_read_sensor_values(frame: &SpecificFrame) -> (r: SensorReading)
    requires
        frame.can_frame.well_formed(),
    ensures
        r == sensor_reading(frame.specific_id, frame.can_frame.payload()),
{
    let id = frame.specific_id;
    match sensor_pair_of(id) {
        Some(pair) => {
            let first = f32_in_payload(&frame.can_frame, 0);
            let second = f32_in_payload(&frame.can_frame, 4);
            SensorReading::Pair(pair, first, second)
        },
        None => {
            if id == sensor::SYSTEM_STATE_GIT_TAG {
                SensorReading::SystemState(u32_in_payload(&frame.can_frame, 0))
            } else if id == sensor::CONFIG_VALUE {
                match u32_in_payload(&frame.can_frame, 0) {
                    Some(v) => {
                        let config_id = CanConfigId::from((v % 65536) as u16);
                        let value = f32_in_payload(&frame.can_frame, 4);
                        SensorReading::ConfigValue { config_id, value }
                    },
                    None => SensorReading::Ignored,
                }
            } else {
                SensorReading::Ignored
            }
        },
    }
}

/// What a configuration value from another device changes.
#[derive(Clone, Copy, PartialEq, Eq, Debug, Structural)]
pub enum ConfigChange {
    /// A setting to store and forward: for the volume the byte of the signed volume, for the
    /// others the bits of the single precision value (McCready in m/s, water ballast and pilot
    /// weight in kg, bugs, QNH in hPa, time constants in s).
    Persist { id: PersistenceId, bits: u32, echo: Echo },
    /// The byte of a new vario mode.
    VarioMode(u8),
    /// Nothing changes.
    Nothing,
}

/// What the configuration value `config_id` in the frame `f` changes. The value is a byte at
/// position 2 or a single precision number at position 4, which must be finite.
pub open spec fn spec_sys_config_change(config_id: CanConfigId, f: CanFrameView) -> ConfigChange {
    let float_setting = |id: PersistenceId, echo: Echo| match f32_at(f.data, 4) {
        Some(bits) => ConfigChange::Persist { id, bits, echo },
        None => ConfigChange::Nothing,
    };
    match config_id {
        CanConfigId::Volume => ConfigChange::Persist { id: PersistenceId::Volume, bits: f.data[2] as u32, echo: Echo::Nmea },
        CanConfigId::MacCready => float_setting(PersistenceId::McCready, Echo::Nmea),
        CanConfigId::WaterBallast => float_setting(PersistenceId::WaterBallast, Echo::Nmea),
        CanConfigId::Bugs => float_setting(PersistenceId::Bugs, Echo::Nmea),
        CanConfigId::Qnh => float_setting(PersistenceId::Qnh, Echo::Nmea),
        CanConfigId::PilotWeight => float_setting(PersistenceId::PilotWeight, Echo::Nmea),
        CanConfigId::TcClimbRate => float_setting(PersistenceId::TcClimbRate, Echo::Nothing),
        CanConfigId::TcSpeedToFly => float_setting(PersistenceId::TcSpeedToFly, Echo::Nothing),
        CanConfigId::VarioMode => ConfigChange::VarioMode(f.data[2]),
        _ => ConfigChange::Nothing,
    }
}

/// The bits of the single precision number at position 4 of the eight data bytes, when it is
/// finite.
fn f32_in_data(frame: &CanFrame) -> (r: Option<u32>)
    ensures
        r == f32_at(frame@.data, 4),
{
    proof {
        lemma_frame_data_len(*frame);
    }
    let bits = frame.read_u32(4);
    if (bits / 0x80_0000) % 256 != 255 {
        Some(bits)
    } else {
        None
    }
}

/// Reads a configuration value that another device sets.
pub fn sys_config_change(config_id: CanConfigId, frame: &CanFrame) -> (r: ConfigChange)
    ensures
        r == spec_sys_config_change(config_id, frame@),
{
    proof {
        lemma_frame_data_len(*frame);
    }
    let float_setting = |id: PersistenceId, echo: Echo| -> (c: ConfigChange)
        ensures
            c == (match f32_at(frame@.data, 4) {
                Some(bits) => ConfigChange::Persist { id, bits, echo },
                None => ConfigChange::Nothing,
            }),
    {
        match f32_in_data(frame) {
            Some(bits) => ConfigChange::Persist { id, bits, echo },
            None => ConfigChange::Nothing,
        }
    };
    match config_id {
        CanConfigId::Volume => ConfigChange::Persist {
            id: PersistenceId::Volume,
            bits: frame.read_u8(2) as u32,
            echo: Echo::Nmea,
        },
        CanConfigId::MacCready => float_setting(PersistenceId::McCready, Echo::Nmea),
        CanConfigId::WaterBallast => float_setting(PersistenceId::WaterBallast, Echo::Nmea),
        CanConfigId::Bugs => float_setting(PersistenceId::Bugs, Echo::Nmea),
        CanConfigId::Qnh => float_setting(PersistenceId::Qnh, Echo::Nmea),
        CanConfigId::PilotWeight => float_setting(PersistenceId::PilotWeight, Echo::Nmea),
        CanConfigId::TcClimbRate => float_setting(PersistenceId::TcClimbRate, Echo::Nothing),
        CanConfigId::TcSpeedToFly => float_setting(PersistenceId::TcSpeedToFly, Echo::Nothing),
        CanConfigId::VarioMode => ConfigChange::VarioMode(frame.read_u8(2)),
        _ => ConfigChange::Nothing,
    }
}

/// The four bytes of `n`, lowest first, read back little endian give `n`.
proof fn lemma_le32_bytes_read(p: Seq<u8>, at: int, n: u32)
    requires
        0 <= at,
        at + 4 <= p.len(),
        p.subrange(at, at + 4) == le32_bytes(n),
    ensures
        le_u32_at(p, at) == n,
{
    assert(p[at] == le32_bytes(n)[0]);
    assert(p[at + 1] == le32_bytes(n)[1]);
    assert(p[at + 2] == le32_bytes(n)[2]);
    assert(p[at + 3] == le32_bytes(n)[3]);
    let x = n as int;
    assert(x == x % 256 + 256 * ((x / 256) % 256) + 65536 * ((x / 65536) % 256) + 16777216 * (x / 16777216))
        by (nonlinear_arith)
        requires
            0 <= x,
    ;
}

/// Every pair of the sensor box carries its first value in data bytes 0..4 and its second in
/// bytes 4..8, whichever pair it is: a value is there, by its bits, exactly when its four bytes
/// are there and give a finite number. The nine specific ids from 0 on are the nine pairs in
/// order.
pub proof fn lemma_sensor_pair_values_in_order(id: u16, p: Seq<u8>)
    requires
        sensor_pair(id) is Some,
    ensures
        sensor_reading(id, p) matches SensorReading::Pair(pair, first, second) && {
            &&& Some(pair) == sensor_pair(id)
            &&& first is Some <==> (p.len() >= 4 && finite_bits(le_u32_at(p, 0) as u32))
            &&& first is Some ==> first->0 == le_u32_at(p, 0)
            &&& second is Some <==> (p.len() >= 8 && finite_bits(le_u32_at(p, 4) as u32))
            &&& second is Some ==> second->0 == le_u32_at(p, 4)
        },
        sensor_pair(0) == Some(SensorPair::EulerRollNick),
        sensor_pair(1) == Some(SensorPair::EulerYawTurnRate),
        sensor_pair(2) == Some(SensorPair::TasIas),
        sensor_pair(3) == Some(SensorPair::VarioAvVario),
        sensor_pair(4) == Some(SensorPair::WindDirSpeed),
        sensor_pair(5) == Some(SensorPair::AvWindDirSpeed),
        sensor_pair(6) == Some(SensorPair::AmbPressAirDens),
        sensor_pair(7) == Some(SensorPair::GForceVerticalGf),
        sensor_pair(8) == Some(SensorPair::SlipPitchAngle),
{
}

/// A configuration value sent for a setting, in the frame that `can_frame_sys_config` makes for
/// its configuration id, is taken back as that same setting with that same value: the volume by
/// its byte, the vario mode as a vario mode, the other settings by the bits of their finite
/// value (a value that is not finite changes nothing). Only the time constants are not
/// forwarded to NMEA.
pub proof fn lemma_config_value_round_trip(p: PersistenceId, byte_value: u8, bits: u32, f: CanFrameView)
    requires
        config_data(config_id_of(p), byte_value, bits) is Some,
        f.data == le16_bytes(config_id_of(p).code()) + config_data(config_id_of(p), byte_value, bits)->0,
    ensures
        p == PersistenceId::VarioMode ==> spec_sys_config_change(config_id_of(p), f) == ConfigChange::VarioMode(byte_value),
        p != PersistenceId::VarioMode && (p == PersistenceId::Volume || finite_bits(bits)) ==> spec_sys_config_change(
            config_id_of(p),
            f,
        ) == (ConfigChange::Persist {
            id: p,
            bits: if p == PersistenceId::Volume { byte_value as u32 } else { bits },
            echo: if p == PersistenceId::TcClimbRate || p == PersistenceId::TcSpeedToFly {
                Echo::Nothing
            } else {
                Echo::Nmea
            },
        }),
        p != PersistenceId::VarioMode && p != PersistenceId::Volume && !finite_bits(bits) ==> spec_sys_config_change(
            config_id_of(p),
            f,
        ) == ConfigChange::Nothing,
{
    let c = config_id_of(p);
    let d = config_data(c, byte_value, bits)->0;
    assert(f.data.len() == 8);
    if c != CanConfigId::Volume && c != CanConfigId::VarioMode {
        assert(f.data.subrange(4, 8) =~= le32_bytes(bits));
        lemma_le32_bytes_read(f.data, 4, bits);
    }
}

/// The configuration value datagram of the sensor box names the setting in the low two bytes of
/// its first four, and carries the value in the next four, by its bits when finite; without its
/// first four bytes it carries nothing. The system state is the first four bytes.
pub proof fn lemma_sensor_config_value_layout(p: Seq<u8>)
    ensures
        p.len() >= 4 ==> sensor_reading(sensor::CONFIG_VALUE, p) == (SensorReading::ConfigValue {
            config_id: can_config_id_from_code(le_u16_at(p, 0) as u16),
            value: if p.len() >= 8 && finite_bits(le_u32_at(p, 4) as u32) {
                Some(le_u32_at(p, 4) as u32)
            } else {
                None
            },
        }),
        p.len() < 4 ==> sensor_reading(sensor::CONFIG_VALUE, p) == SensorReading::Ignored,
        p.len() >= 4 ==> sensor_reading(sensor::SYSTEM_STATE_GIT_TAG, p) == SensorReading::SystemState(
            Some(le_u32_at(p, 0) as u32),
        ),
{
    if p.len() >= 4 {
        let v = le_u32_at(p, 0);
        assert(v % 65536 == le_u16_at(p, 0)) by (nonlinear_arith)
            requires
                v == p[0] + 256 * p[1] + 65536 * p[2] + 16777216 * p[3],
                le_u16_at(p, 0) == p[0] + 256 * p[1],
                0 <= p[0] < 256,
                0 <= p[1] < 256,
                0 <= p[2] < 256,
                0 <= p[3] < 256,
        ;
    }
}

/// The 16 bit value of `p` at `at` read as a signed number, none when the bytes end before.
pub open spec fn signed_pair_at(p: Seq<u8>, at: int) -> Option<i16> {
    if p.len() >= at + 2 {
        Some(signed16(p[at] + 256 * p[at + 1]) as i16)
    } else {
        None
    }
}

/// The legacy datagrams carry their values one after the other, each where the one before it
/// ends: two bytes each for the vario, the accelerations, the turn coordinator and the winds,
/// four bytes each for the position, the altitudes and the atmosphere.
pub proof fn lemma_legacy_values_in_order(f: CanFrameView)
    ensures
        ({
            let p = f.data.take(f.len as int);
            let r = legacy_reading(f);
            &&& f.id == sensor_legacy::VARIO ==> r == (LegacyReading::Vario {
                climb_rate: signed_pair_at(p, 0),
                average_climb_rate: signed_pair_at(p, 2),
            })
            &&& f.id == sensor_legacy::ACCELERATION ==> r == (LegacyReading::Acceleration {
                g_force: signed_pair_at(p, 0),
                vertical_g_force: signed_pair_at(p, 2),
            })
            &&& f.id == sensor_legacy::TURN_COORD ==> r == (LegacyReading::TurnCoord {
                slip_angle: signed_pair_at(p, 0),
                turn_rate: signed_pair_at(p, 2),
                nick_angle: signed_pair_at(p, 4),
            })
            &&& f.id == sensor_legacy::AIRSPEED && p.len() >= 4 ==> r == (LegacyReading::Airspeed {
                speeds: Some(Airspeeds { tas: signed_pair_at(p, 0)->0, ias: signed_pair_at(p, 2)->0 }),
            })
            &&& f.id == sensor_legacy::WIND && p.len() >= 8 ==> r == (LegacyReading::Wind {
                current: Some(WindSample { direction: signed_pair_at(p, 0)->0, speed: signed_pair_at(p, 2)->0 }),
                average: Some(WindSample { direction: signed_pair_at(p, 4)->0, speed: signed_pair_at(p, 6)->0 }),
            })
            &&& f.id == sensor_legacy::GPS_LAT_LON && p.len() >= 8 ==> r == (LegacyReading::GpsLatLon {
                lat: Some(signed32(le_u32_at(p, 0)) as i32),
                lon: Some(signed32(le_u32_at(p, 4)) as i32),
            })
            &&& f.id == sensor_legacy::GPS_ALT && p.len() >= 8 ==> r == (LegacyReading::GpsAlt {
                altitude: Some(signed32(le_u32_at(p, 0)) as i32),
                geo_separation: Some(signed32(le_u32_at(p, 4)) as i32),
            })
            &&& f.id == sensor_legacy::ATHMOSPHERE && p.len() >= 8 ==> r == (LegacyReading::Athmosphere {
                pressure: Some(le_u32_at(p, 0) as u32),
                density: Some(le_u32_at(p, 4) as u32),
            })
        }),
{
}

} // verus!
