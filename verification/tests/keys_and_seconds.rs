use larus_core::model::{ControlResult, Direction, EditMode, Editable, FlyMode, KeyEvent, VarioMode, VarioModeControl};
use larus_core::persist::VarioModeSource;
use larus_core::tick_1s::{stf_decisions, StfState, TcrMode};
use larus_core::vario::{clamp_i8, vario_key_action, VarioKeyAction};

#[test]
fn vario_keys_open_and_cycle_the_settings() {
    let o = vario_key_action(false, Editable::Nothing, 20, VarioModeControl::Auto, KeyEvent::Btn1);
    assert_eq!(o.edit_var, Editable::McCready);
    assert_eq!(o.action, VarioKeyAction::Step(Editable::McCready));
    assert_eq!(o.result, ControlResult::Edit(EditMode::Section, Editable::McCready));
    let o = vario_key_action(true, Editable::McCready, 20, VarioModeControl::Auto, KeyEvent::Btn1);
    assert_eq!(o.edit_var, Editable::VarioModeControl);
    let o = vario_key_action(true, Editable::VarioModeControl, 20, VarioModeControl::Auto, KeyEvent::Btn2);
    assert_eq!(o.edit_var, Editable::McCready);
    let o = vario_key_action(false, Editable::Volume, 20, VarioModeControl::Auto, KeyEvent::Btn1S3);
    assert_eq!(o.action, VarioKeyAction::Step(Editable::Glider));
}

#[test]
fn vario_keys_step_the_volume_and_the_displays() {
    let o = vario_key_action(false, Editable::Nothing, 50, VarioModeControl::Auto, KeyEvent::Rotary2Right);
    assert_eq!(o.action, VarioKeyAction::SetVolume(50));
    let o = vario_key_action(false, Editable::Nothing, 0, VarioModeControl::Auto, KeyEvent::Rotary2Left);
    assert_eq!(o.action, VarioKeyAction::SetVolume(0));
    let o = vario_key_action(false, Editable::Nothing, 70, VarioModeControl::Auto, KeyEvent::Rotary2Left);
    assert_eq!(o.action, VarioKeyAction::SetVolume(50));
    let o = vario_key_action(false, Editable::Nothing, 7, VarioModeControl::Auto, KeyEvent::Rotary1Left);
    assert_eq!(o.result, ControlResult::NextDisplay(Direction::Backward));
    let o = vario_key_action(false, Editable::Nothing, 7, VarioModeControl::Auto, KeyEvent::BtnEnc);
    assert_eq!(o.result, ControlResult::Nothing);
    assert_eq!(o.action, VarioKeyAction::Nothing);
}

#[test]
fn vario_mode_control_turns_round() {
    let o = vario_key_action(true, Editable::VarioModeControl, 7, VarioModeControl::Auto, KeyEvent::Rotary2Left);
    assert_eq!(o.action, VarioKeyAction::SetVarioModeControl(VarioModeControl::SpeedToFly));
    let o = vario_key_action(true, Editable::VarioModeControl, 7, VarioModeControl::Vario, KeyEvent::Rotary2Right);
    assert_eq!(o.action, VarioKeyAction::SetVarioModeControl(VarioModeControl::SpeedToFly));
    assert_eq!(clamp_i8(-3, 0, 50), 0);
}

fn state() -> StfState {
    StfState {
        vario_mode: VarioMode::Vario,
        vario_mode_control: VarioModeSource::Auto,
        last_vario_mode: VarioMode::Vario,
        fly_mode: FlyMode::StraightFlight,
        tcr_mode: TcrMode::StraightFlight,
        climb_ticks: 0,
        transient_ticks: 0,
        slave_ticks: 0,
        hysteresis: 0,
    }
}

#[test]
fn automatic_switches_to_speed_to_fly_in_straight_fast_flight() {
    let (s, a) = stf_decisions(state(), true, VarioMode::Vario, false, 3);
    assert_eq!(s.vario_mode, VarioMode::SpeedToFly);
    assert!(a.auto_change.is_some());
    assert!(a.pin_change.is_none());
    assert!(a.restart_at_altitude);
    let (s, a) = stf_decisions(s, false, VarioMode::Vario, false, 3);
    assert_eq!(s.vario_mode, VarioMode::Vario);
    assert!(a.reset_average_climb);
}

#[test]
fn circling_hysteresis_and_thermal_measurement() {
    let mut s = state();
    for _ in 0..2 {
        s = stf_decisions(s, false, VarioMode::Vario, true, 3).0;
        assert_eq!(s.fly_mode, FlyMode::StraightFlight);
    }
    s = stf_decisions(s, false, VarioMode::Vario, true, 3).0;
    assert_eq!(s.fly_mode, FlyMode::Circling);
    assert_eq!(s.hysteresis, 3);
    let (s1, a) = stf_decisions(s, false, VarioMode::Vario, true, 3);
    assert_eq!(s1.tcr_mode, TcrMode::Climbing);
    assert_eq!(s1.climb_ticks, 1);
    assert!(a.restart_at_altitude && a.compute_thermal_climb);
    let (s2, _) = stf_decisions(s1, false, VarioMode::Vario, true, 3);
    assert_eq!(s2.climb_ticks, 2);
    let mut s3 = StfState { fly_mode: FlyMode::StraightFlight, hysteresis: 0, ..s2 };
    s3 = stf_decisions(s3, false, VarioMode::Vario, false, 3).0;
    assert_eq!(s3.tcr_mode, TcrMode::Transition);
    for _ in 0..30 {
        let (n, a) = stf_decisions(s3, false, VarioMode::Vario, false, 3);
        assert!(!a.clear_thermal_climb);
        s3 = n;
    }
    let (n, a) = stf_decisions(s3, false, VarioMode::Vario, false, 3);
    assert!(a.clear_thermal_climb);
    assert_eq!(n.tcr_mode, TcrMode::StraightFlight);
}

#[test]
fn slave_seconds_hold_back_the_thermal_climb_rate() {
    let s = StfState { fly_mode: FlyMode::Circling, tcr_mode: TcrMode::Climbing, climb_ticks: 4, slave_ticks: 2, hysteresis: 3, ..state() };
    let (n, a) = stf_decisions(s, false, VarioMode::Vario, true, 3);
    assert_eq!(n.slave_ticks, 1);
    assert!(!a.compute_thermal_climb);
    assert_eq!(n.climb_ticks, 5);
}
