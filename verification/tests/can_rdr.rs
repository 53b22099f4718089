use larus_core::can_frame::{CanFrame, SpecificFrame};
use larus_core::can_ids::{frontend_masster, object_id, sensor, sensor_legacy, CanConfigId};
use larus_core::can_rdr::{
    can_frame_read_legacy, can_frame_read_sensor_values, sys_config_change, Airspeeds, ConfigChange, DateTime,
    GpsState, LegacyReading, SensorPair, SensorReading, WindSample,
};
use larus_core::persist::{Echo, PersistenceId};

#[test]
fn legacy_airspeed_and_vario() {
    let f = CanFrame::empty_from_id(sensor_legacy::AIRSPEED).push_i16(120).push_i16(110);
    assert_eq!(
        can_frame_read_legacy(&f),
        LegacyReading::Airspeed { speeds: Some(Airspeeds { tas: 120, ias: 110 }) }
    );
    let f = CanFrame::empty_from_id(sensor_legacy::VARIO).push_i16(-1500).push_i16(800);
    assert_eq!(
        can_frame_read_legacy(&f),
        LegacyReading::Vario { climb_rate: Some(-1500), average_climb_rate: Some(800) }
    );
}

#[test]
fn legacy_airspeeds_are_taken_only_together() {
    let f = CanFrame::empty_from_id(sensor_legacy::AIRSPEED).push_i16(120);
    assert_eq!(can_frame_read_legacy(&f), LegacyReading::Airspeed { speeds: None });
}

#[test]
fn legacy_euler_angles_are_normalised() {
    let f = CanFrame::empty_from_id(sensor_legacy::EULER_ANGLES).push_i16(-1).push_i16(3200).push_i16(-1);
    assert_eq!(
        can_frame_read_legacy(&f),
        LegacyReading::EulerAngles { roll: Some(-1), nick: Some(-3084), yaw: Some(6283) }
    );
    let f = CanFrame::empty_from_id(sensor_legacy::EULER_ANGLES).push_i16(-4000).push_i16(6284).push_i16(6284);
    assert_eq!(
        can_frame_read_legacy(&f),
        LegacyReading::EulerAngles { roll: Some(-4000), nick: Some(0), yaw: Some(0) }
    );
}

#[test]
fn legacy_short_frames_give_what_they_carry() {
    let f = CanFrame::empty_from_id(sensor_legacy::EULER_ANGLES).push_i16(100);
    assert_eq!(
        can_frame_read_legacy(&f),
        LegacyReading::EulerAngles { roll: Some(100), nick: None, yaw: None }
    );
    let f = CanFrame::empty_from_id(sensor_legacy::GPS_DATE_TIME).push_u8(23);
    assert_eq!(can_frame_read_legacy(&f), LegacyReading::GpsDateTime { date_time: None });
    let f = CanFrame::empty_from_id(sensor_legacy::GPS_TRK_SPD).push_u8(1);
    assert_eq!(
        can_frame_read_legacy(&f),
        LegacyReading::GpsTrackSpeed { track: None, ground_speed: None }
    );
}

#[test]
fn legacy_acceleration() {
    let f = CanFrame::empty_from_id(sensor_legacy::ACCELERATION).push_i16(9810).push_i16(-20).push_i16(1500);
    assert_eq!(
        can_frame_read_legacy(&f),
        LegacyReading::Acceleration { g_force: Some(9810), vertical_g_force: Some(-20) }
    );
}

#[test]
fn legacy_gps_datagrams() {
    let f = CanFrame::from_slice(sensor_legacy::GPS_DATE_TIME, &[23, 6, 23, 12, 5, 20]);
    assert_eq!(
        can_frame_read_legacy(&f),
        LegacyReading::GpsDateTime {
            date_time: Some(DateTime { year: 2023, month: 6, day: 23, hour: 12, minute: 5, second: 20 })
        }
    );
    let f = CanFrame::empty_from_id(sensor_legacy::GPS_LAT_LON).push_i32(497_566_087).push_i32(-83_511_597);
    assert_eq!(
        can_frame_read_legacy(&f),
        LegacyReading::GpsLatLon { lat: Some(497_566_087), lon: Some(-83_511_597) }
    );
    let f = CanFrame::empty_from_id(sensor_legacy::GPS_ALT).push_i32(2_745_900).push_i32(-123);
    assert_eq!(
        can_frame_read_legacy(&f),
        LegacyReading::GpsAlt { altitude: Some(2_745_900), geo_separation: Some(-123) }
    );
    let f = CanFrame::empty_from_id(sensor_legacy::GPS_TRK_SPD).push_i16(-300).push_u16(40_000);
    assert_eq!(
        can_frame_read_legacy(&f),
        LegacyReading::GpsTrackSpeed { track: Some(-300), ground_speed: Some(40_000) }
    );
    for (fix, state) in [(0u8, GpsState::NoGps), (1, GpsState::PosAvail), (2, GpsState::NoGps), (3, GpsState::HeadingAvail)] {
        let f = CanFrame::from_slice(sensor_legacy::GPS_SATS, &[9, fix]);
        assert_eq!(can_frame_read_legacy(&f), LegacyReading::GpsSats { sats: Some(9), state: Some(state) });
    }
}

#[test]
fn legacy_atmosphere_turn_and_wind() {
    let f = CanFrame::empty_from_id(sensor_legacy::ATHMOSPHERE).push_u32(101_325).push_u32(1_225);
    assert_eq!(
        can_frame_read_legacy(&f),
        LegacyReading::Athmosphere { pressure: Some(101_325), density: Some(1_225) }
    );
    let f = CanFrame::empty_from_id(sensor_legacy::TURN_COORD).push_i16(5).push_i16(-6).push_i16(7);
    assert_eq!(
        can_frame_read_legacy(&f),
        LegacyReading::TurnCoord { slip_angle: Some(5), turn_rate: Some(-6), nick_angle: Some(7) }
    );
    let f = CanFrame::empty_from_id(sensor_legacy::WIND).push_i16(1571).push_i16(20).push_i16(3142).push_i16(15);
    assert_eq!(
        can_frame_read_legacy(&f),
        LegacyReading::Wind {
            current: Some(WindSample { direction: 1571, speed: 20 }),
            average: Some(WindSample { direction: 3142, speed: 15 }),
        }
    );
}

#[test]
fn legacy_average_climb_rates_from_the_master() {
    let f = CanFrame::empty_from_id(frontend_masster::AVG_CLIMB_RATES)
        .push_u32(1.5f32.to_bits())
        .push_u32(f32::NAN.to_bits());
    assert_eq!(
        can_frame_read_legacy(&f),
        LegacyReading::AvgClimbRates { av2_climb_rate: Some(1.5f32.to_bits()), thermal_climb_rate: None }
    );
}

#[test]
fn other_identifiers_are_ignored() {
    assert_eq!(can_frame_read_legacy(&CanFrame::empty_from_id(0x100)), LegacyReading::Ignored);
    assert_eq!(can_frame_read_legacy(&CanFrame::empty_from_id(sensor_legacy::SYSTEM_STATE)), LegacyReading::Ignored);
}

fn sensor_frame(specific_id: u16, can_frame: CanFrame) -> SpecificFrame {
    SpecificFrame { can_frame, specific_id, object_id: object_id::SENSOR }
}

#[test]
fn sensor_pairs_give_finite_values_by_their_bits() {
    let f = CanFrame::empty_from_id(0x400).push_u32(0.25f32.to_bits()).push_u32((-3.0f32).to_bits());
    assert_eq!(
        can_frame_read_sensor_values(&sensor_frame(sensor::EULER_ROLL_NICK, f)),
        SensorReading::Pair(SensorPair::EulerRollNick, Some(0.25f32.to_bits()), Some((-3.0f32).to_bits()))
    );
    let f = CanFrame::empty_from_id(0x400).push_u32(f32::INFINITY.to_bits()).push_u32(12.0f32.to_bits());
    assert_eq!(
        can_frame_read_sensor_values(&sensor_frame(sensor::TAS_IAS, f)),
        SensorReading::Pair(SensorPair::TasIas, None, Some(12.0f32.to_bits()))
    );
    let f = CanFrame::empty_from_id(0x400).push_u32(2.0f32.to_bits());
    assert_eq!(
        can_frame_read_sensor_values(&sensor_frame(sensor::SLIP_PITCH_ANGLE, f)),
        SensorReading::Pair(SensorPair::SlipPitchAngle, Some(2.0f32.to_bits()), None)
    );
}

#[test]
fn sensor_system_state_and_config_values() {
    let f = CanFrame::empty_from_id(0x400).push_u32(0xdead_beef);
    assert_eq!(
        can_frame_read_sensor_values(&sensor_frame(sensor::SYSTEM_STATE_GIT_TAG, f)),
        SensorReading::SystemState(Some(0xdead_beef))
    );
    let f = CanFrame::empty_from_id(0x400).push_u32(0x2001).push_u32(0.5f32.to_bits());
    assert_eq!(
        can_frame_read_sensor_values(&sensor_frame(sensor::CONFIG_VALUE, f)),
        SensorReading::ConfigValue { config_id: CanConfigId::SensTiltPitch, value: Some(0.5f32.to_bits()) }
    );
    let f = CanFrame::empty_from_id(0x400).push_u16(0x2001);
    assert_eq!(can_frame_read_sensor_values(&sensor_frame(sensor::CONFIG_VALUE, f)), SensorReading::Ignored);
    let f = CanFrame::empty_from_id(0x400).push_u32(1).push_u32(1);
    assert_eq!(can_frame_read_sensor_values(&sensor_frame(sensor::UBATT_CIRCLE_MODE, f)), SensorReading::Ignored);
}

#[test]
fn config_values_from_other_devices() {
    let volume = CanFrame::from_slice(0x120, &[0, 0, 0xfb, 0, 0, 0, 0, 0]);
    assert_eq!(
        sys_config_change(CanConfigId::Volume, &volume),
        ConfigChange::Persist { id: PersistenceId::Volume, bits: 0xfb, echo: Echo::Nmea }
    );
    let mc = CanFrame::empty_from_id(0x120).push_u32(1).push_u32(1.5f32.to_bits());
    assert_eq!(
        sys_config_change(CanConfigId::MacCready, &mc),
        ConfigChange::Persist { id: PersistenceId::McCready, bits: 1.5f32.to_bits(), echo: Echo::Nmea }
    );
    assert_eq!(
        sys_config_change(CanConfigId::TcClimbRate, &mc),
        ConfigChange::Persist { id: PersistenceId::TcClimbRate, bits: 1.5f32.to_bits(), echo: Echo::Nothing }
    );
    let nan = CanFrame::empty_from_id(0x120).push_u32(3).push_u32(f32::NAN.to_bits());
    assert_eq!(sys_config_change(CanConfigId::Bugs, &nan), ConfigChange::Nothing);
    let mode = CanFrame::from_slice(0x120, &[9, 0, 1, 0, 0, 0, 0, 0]);
    assert_eq!(sys_config_change(CanConfigId::VarioMode, &mode), ConfigChange::VarioMode(1));
    assert_eq!(sys_config_change(CanConfigId::VarioModeControl, &mode), ConfigChange::Nothing);
    assert_eq!(sys_config_change(CanConfigId::SensTiltRoll, &mc), ConfigChange::Nothing);
}
