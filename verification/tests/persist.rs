use larus_core::model::VarioMode;
use larus_core::persist::{persist_set, set_vario_mode, Echo, PersistPlan, PersistenceId, VarioModeChange, VarioModeSource};

#[test]
fn persist_set_routes_by_echo() {
    assert_eq!(
        persist_set(PersistenceId::McCready, Echo::Nmea),
        PersistPlan { clear_polar_settings: false, to_nmea: true, to_can: false, ballast_fraction_to_can: false, store: true }
    );
    assert_eq!(
        persist_set(PersistenceId::Volume, Echo::Nothing),
        PersistPlan { clear_polar_settings: false, to_nmea: false, to_can: false, ballast_fraction_to_can: false, store: true }
    );
    assert_eq!(
        persist_set(PersistenceId::WaterBallast, Echo::NmeaAndCan),
        PersistPlan { clear_polar_settings: false, to_nmea: true, to_can: true, ballast_fraction_to_can: true, store: true }
    );
    assert_eq!(
        persist_set(PersistenceId::WaterBallast, Echo::Nmea),
        PersistPlan { clear_polar_settings: false, to_nmea: true, to_can: false, ballast_fraction_to_can: false, store: true }
    );
    assert_eq!(
        persist_set(PersistenceId::Glider, Echo::Can),
        PersistPlan { clear_polar_settings: true, to_nmea: false, to_can: true, ballast_fraction_to_can: false, store: true }
    );
    assert!(!persist_set(PersistenceId::VarioMode, Echo::Nothing).store);
    assert!(!persist_set(PersistenceId::DoNotStore, Echo::Nothing).store);
    assert!(!persist_set(PersistenceId::LastItem, Echo::Nothing).store);
    assert!(persist_set(PersistenceId::UnitHeight, Echo::Nothing).store);
}

#[test]
fn vario_mode_follows_its_controlling_source() {
    let from_can = set_vario_mode(VarioMode::Vario, VarioModeSource::Can, VarioMode::SpeedToFly, VarioModeSource::Can);
    assert_eq!(
        from_can,
        Some(VarioModeChange {
            vario_mode: VarioMode::SpeedToFly,
            plan: persist_set(PersistenceId::VarioMode, Echo::Nmea),
        })
    );
    let from_pin =
        set_vario_mode(VarioMode::SpeedToFly, VarioModeSource::InputPin, VarioMode::Vario, VarioModeSource::InputPin);
    assert_eq!(from_pin.map(|c| c.plan), Some(persist_set(PersistenceId::VarioMode, Echo::NmeaAndCan)));
    let from_nmea = set_vario_mode(VarioMode::Vario, VarioModeSource::Nmea, VarioMode::SpeedToFly, VarioModeSource::Nmea);
    assert_eq!(from_nmea.map(|c| c.plan.to_can), Some(true));
    assert_eq!(from_nmea.map(|c| c.plan.to_nmea), Some(false));
}

#[test]
fn vario_mode_ignores_other_sources_and_no_change() {
    assert_eq!(set_vario_mode(VarioMode::Vario, VarioModeSource::Auto, VarioMode::SpeedToFly, VarioModeSource::Can), None);
    assert_eq!(set_vario_mode(VarioMode::Vario, VarioModeSource::Can, VarioMode::SpeedToFly, VarioModeSource::Nmea), None);
    assert_eq!(set_vario_mode(VarioMode::Vario, VarioModeSource::Auto, VarioMode::Vario, VarioModeSource::Auto), None);
    // the CAN bus may set the mode while NMEA controls it
    assert!(set_vario_mode(VarioMode::Vario, VarioModeSource::Nmea, VarioMode::SpeedToFly, VarioModeSource::Can).is_some());
}
