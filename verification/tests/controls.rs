use larus_core::clock::{MsAction, MsClock};
use larus_core::can_ids::{CanConfigId, GenericId, SpecialId};
use larus_core::demo::{DemoController, DemoKind};
use larus_core::hw_pins::{
    drain_adjust, FlashControl, GearAlarmControl, GearPins, InPinFunction, InTogglePinFunction,
    OutPinFunction, SpeedToFlyControl, ONE_PIN_MODE, PIN_IN_CLOSE, PIN_IN_OPEN, PIN_IN_TOGGLE,
    PIN_NONE, PIN_OUT_CLOSE, PIN_OUT_OPEN, TWO_PIN_MODE,
};
use larus_core::input_pins::{self, PinFunction};
use larus_core::model::{
    ControlResult, EditMode, Editable, FlyMode, KeyEvent, PinState, Timer, TypeOfInfo, VarioMode,
};
use larus_core::persist::{profile_always_0, PersistenceId};
use larus_core::polar_index::{size, to_raw_idx, to_sorted_idx};
use larus_core::scheduler::{Duration, IntToDuration, Scheduler, Tim};
use larus_core::softkeys::Softkeys;
use larus_core::sound::{SoundControl, SoundParams, SoundScenario, Waveform};
use larus_core::sunset::{day_of_year, format_hhmm, is_leap_year, seconds_to_hms, SunsetResult};
use larus_core::sw_update::{DeviceEvent, SwUpdateController};
use larus_core::error::CoreError;

#[test]
fn softkeys_step_through_primary_keys() {
    let mut sk = Softkeys::new();
    assert_eq!(sk.current(), Editable::Volume);
    sk.set_editables(Editable::McCready, Editable::WaterBallast, Editable::Glider, Editable::Theme);
    sk.set_3s_keys(Editable::PilotWeight, Editable::Speed);
    sk.set_fallback(Editable::Volume);
    // from the volume, key 1 starts at key 1 and key 2 at key 2
    assert!(sk.key_action(&KeyEvent::Btn1));
    assert_eq!(sk.current(), Editable::McCready);
    // key 1 steps backwards, key 2 forwards
    assert!(sk.key_action(&KeyEvent::Btn1));
    assert_eq!(sk.current(), Editable::Theme);
    assert!(sk.key_action(&KeyEvent::Btn2));
    assert_eq!(sk.current(), Editable::McCready);
    assert!(sk.key_action(&KeyEvent::Btn2));
    assert_eq!(sk.current(), Editable::WaterBallast);
    assert!(sk.key_action(&KeyEvent::Btn3));
    assert_eq!(sk.current(), Editable::Glider);
    assert!(sk.key_action(&KeyEvent::BtnEsc));
    assert_eq!(sk.current(), Editable::Theme);
    // the same selection again does not refresh
    assert!(!sk.key_action(&KeyEvent::BtnEsc));
    assert!(sk.key_action(&KeyEvent::Btn1S3));
    assert_eq!(sk.current(), Editable::PilotWeight);
    assert!(sk.key_action(&KeyEvent::Btn2S3));
    assert_eq!(sk.current(), Editable::Speed);
    assert!(!sk.key_action(&KeyEvent::NoEvent));
    sk.to_fallback();
    assert_eq!(sk.current(), Editable::Volume);
    // after the fallback any event refreshes
    assert!(sk.key_action(&KeyEvent::NoEvent));
    assert!(sk.key_action(&KeyEvent::Rotary1Left));
    assert_eq!(sk.current(), Editable::Display);
    assert!(sk.key_action(&KeyEvent::Rotary2Right));
    assert_eq!(sk.current(), Editable::Volume);
}

#[test]
fn softkeys_four_steps_come_back() {
    let mut sk = Softkeys::new();
    sk.set_editables(Editable::McCready, Editable::WaterBallast, Editable::Glider, Editable::Theme);
    sk.key_action(&KeyEvent::Btn2);
    let start = sk.current();
    for _ in 0..4 {
        sk.key_action(&KeyEvent::Btn2);
    }
    assert_eq!(sk.current(), start);
}

#[test]
fn demo_keys_step_and_toggle() {
    let mut dc = DemoController::new();
    let mut vm = VarioMode::Vario;
    let mut fm = FlyMode::Circling;
    assert_eq!(dc.demo_kind(), DemoKind::Vario);
    assert_eq!(
        dc.key_action(&mut vm, &mut fm, &KeyEvent::Btn1),
        ControlResult::Edit(EditMode::Section, Editable::Speed)
    );
    assert_eq!(dc.demo_kind(), DemoKind::Speed);
    dc.key_action(&mut vm, &mut fm, &KeyEvent::Btn1);
    dc.key_action(&mut vm, &mut fm, &KeyEvent::Btn1);
    assert_eq!(dc.demo_kind(), DemoKind::WindSpeed);
    // after the last the first again
    dc.key_action(&mut vm, &mut fm, &KeyEvent::Btn1);
    assert_eq!(dc.demo_kind(), DemoKind::Vario);
    // before the first the last
    assert_eq!(
        dc.key_action(&mut vm, &mut fm, &KeyEvent::Btn2),
        ControlResult::Edit(EditMode::Section, Editable::WindSpeed)
    );
    assert_eq!(dc.key_action(&mut vm, &mut fm, &KeyEvent::Btn3), ControlResult::Nothing);
    assert_eq!(vm, VarioMode::SpeedToFly);
    assert_eq!(fm, FlyMode::StraightFlight);
    dc.key_action(&mut vm, &mut fm, &KeyEvent::Btn3);
    assert_eq!(vm, VarioMode::Vario);
    assert_eq!(fm, FlyMode::Circling);
    assert_eq!(dc.key_action(&mut vm, &mut fm, &KeyEvent::NoEvent), ControlResult::Nothing);
    assert_eq!(
        dc.key_action(&mut vm, &mut fm, &KeyEvent::Rotary2Left),
        ControlResult::Edit(EditMode::Section, Editable::WindSpeed)
    );
}

#[test]
fn demo_kind_inc_dec() {
    let mut k = DemoKind::WindDirection;
    k.inc();
    assert_eq!(k, DemoKind::WindSpeed);
    k.dec();
    k.dec();
    assert_eq!(k, DemoKind::Speed);
    let mut k = DemoKind::Last;
    k.inc();
    assert_eq!(k, DemoKind::Vario);
}

#[test]
fn sw_update_marks_upload() {
    let mut c = SwUpdateController::new();
    let mut state = DeviceEvent::UploadFinished;
    c.device_action(&mut state, &DeviceEvent::UploadFinished);
    assert_eq!(state, DeviceEvent::UploadInProgress);
}

#[test]
fn toggled_twice_is_the_same() {
    for m in [VarioMode::Vario, VarioMode::SpeedToFly] {
        assert_ne!(m.toggled(), m);
        assert_eq!(m.toggled().toggled(), m);
    }
}

#[test]
fn pin_functions_from_numbers_and_texts() {
    assert_eq!(InPinFunction::from(1u8), InPinFunction::OnClose);
    assert_eq!(InPinFunction::from(2u8), InPinFunction::OnOpen);
    assert_eq!(InPinFunction::from(9u8), InPinFunction::NotConnected);
    for f in [InPinFunction::NotConnected, InPinFunction::OnClose, InPinFunction::OnOpen] {
        assert_eq!(InPinFunction::from(f.as_str()), f);
    }
    assert_eq!(InPinFunction::OnClose.as_str(), PIN_IN_CLOSE);
    assert_eq!(InPinFunction::OnOpen.as_str(), PIN_IN_OPEN);
    assert_eq!(InPinFunction::NotConnected.as_str(), PIN_NONE);

    assert_eq!(InTogglePinFunction::from(3u8), InTogglePinFunction::OnToggled);
    assert_eq!(InTogglePinFunction::from(0u8), InTogglePinFunction::NotConnected);
    for f in [
        InTogglePinFunction::NotConnected,
        InTogglePinFunction::OnClose,
        InTogglePinFunction::OnOpen,
        InTogglePinFunction::OnToggled,
    ] {
        assert_eq!(InTogglePinFunction::from(f.as_str()), f);
    }
    assert_eq!(InTogglePinFunction::OnToggled.as_str(), PIN_IN_TOGGLE);

    assert_eq!(OutPinFunction::from(1u8), OutPinFunction::Closed);
    assert_eq!(OutPinFunction::from(2u8), OutPinFunction::Opened);
    for f in [OutPinFunction::NotConnected, OutPinFunction::Closed, OutPinFunction::Opened] {
        assert_eq!(OutPinFunction::from(f.as_str()), f);
    }
    assert_eq!(OutPinFunction::Closed.as_str(), PIN_OUT_CLOSE);
    assert_eq!(OutPinFunction::Opened.as_str(), PIN_OUT_OPEN);

    assert_eq!(GearPins::from(1u8), GearPins::TwoPinMode);
    assert_eq!(GearPins::from(0u8), GearPins::OnePinMode);
    assert_eq!(GearPins::from(ONE_PIN_MODE), GearPins::OnePinMode);
    assert_eq!(GearPins::from(TWO_PIN_MODE), GearPins::TwoPinMode);
    assert_eq!(GearPins::OnePinMode.as_str(), ONE_PIN_MODE);

    assert_eq!(PinFunction::from(1u8), PinFunction::OnClose);
    assert_eq!(PinFunction::from(7u8), PinFunction::NotConnected);
    assert_eq!(PinFunction::from(input_pins::PIN_OPEN), PinFunction::OnOpen);
    assert_eq!(PinFunction::from("something else"), PinFunction::NotConnected);
    assert_eq!(PinFunction::OnClose.as_str(), input_pins::PIN_CLOSE);
}

#[test]
fn drain_flows_only_with_ballast_and_active_pin() {
    let mut info = TypeOfInfo::Nothing;
    assert!(drain_adjust(InPinFunction::OnClose, PinState::Low, true, &mut info));
    assert_eq!(info, TypeOfInfo::WaterBallast);
    assert!(!drain_adjust(InPinFunction::OnClose, PinState::High, true, &mut info));
    assert_eq!(info, TypeOfInfo::Nothing);
    assert!(!drain_adjust(InPinFunction::OnOpen, PinState::High, false, &mut info));
    let mut info = TypeOfInfo::GearAlarm;
    assert!(drain_adjust(InPinFunction::OnOpen, PinState::High, true, &mut info));
    assert_eq!(info, TypeOfInfo::GearAlarm);
    assert!(!drain_adjust(InPinFunction::NotConnected, PinState::Low, true, &mut info));
    assert_eq!(info, TypeOfInfo::GearAlarm);
}

#[test]
fn flash_pin_follows_flying() {
    let mut fc = FlashControl::default();
    assert_eq!(fc.tick_1s(true), None);
    fc.set_pin_function(OutPinFunction::Closed);
    assert_eq!(fc.pin_function(), OutPinFunction::Closed);
    assert_eq!(fc.tick_1s(true), Some(PinState::High));
    assert_eq!(fc.tick_1s(false), Some(PinState::Low));
    fc.set_pin_function(OutPinFunction::Opened);
    assert_eq!(fc.tick_1s(true), Some(PinState::Low));
    assert_eq!(fc.tick_1s(false), Some(PinState::High));
}

#[test]
fn speed_to_fly_pin_selects_mode() {
    let mut c = SpeedToFlyControl::default();
    c.set_state(PinState::Low);
    assert_eq!(c.vario_mode(), VarioMode::Vario);
    c.set_pin_function(InTogglePinFunction::OnClose);
    assert_eq!(c.pin_function(), InTogglePinFunction::OnClose);
    c.set_state(PinState::Low);
    assert_eq!(c.vario_mode(), VarioMode::SpeedToFly);
    c.set_state(PinState::High);
    assert_eq!(c.vario_mode(), VarioMode::Vario);
    c.set_pin_function(InTogglePinFunction::OnOpen);
    c.set_state(PinState::High);
    assert_eq!(c.vario_mode(), VarioMode::SpeedToFly);
    c.set_pin_function(InTogglePinFunction::OnToggled);
    c.set_state(PinState::Low);
    assert_eq!(c.vario_mode(), VarioMode::Vario);
    c.set_state(PinState::High);
    assert_eq!(c.vario_mode(), VarioMode::Vario);
    c.set_state(PinState::Low);
    assert_eq!(c.vario_mode(), VarioMode::SpeedToFly);
}

#[test]
fn gear_alarm_in_both_modes() {
    let mut g = GearAlarmControl::default();
    let mut info = TypeOfInfo::Nothing;
    assert_eq!(g.gear_pin_mode(), GearPins::TwoPinMode);
    g.set_gear_pin_function(InPinFunction::OnClose);
    g.set_airbrakes_pin_function(InPinFunction::OnOpen);
    assert_eq!(g.gear_pin_function(), InPinFunction::OnClose);
    assert_eq!(g.airbrakes_pin_function(), InPinFunction::OnOpen);
    // two pin mode: both pins must be active
    assert!(!g.set_gear_pin_state(&mut info, PinState::Low));
    assert_eq!(info, TypeOfInfo::Nothing);
    assert!(g.set_airbrakes_pin_state(&mut info, PinState::High));
    assert_eq!(info, TypeOfInfo::GearAlarm);
    assert!(!g.set_airbrakes_pin_state(&mut info, PinState::Low));
    assert_eq!(info, TypeOfInfo::Nothing);
    // one pin mode: the gear pin alone
    g.set_gear_pin_mode(GearPins::OnePinMode);
    assert!(g.set_gear_pin_state(&mut info, PinState::Low));
    assert_eq!(info, TypeOfInfo::GearAlarm);
    let mut other = TypeOfInfo::WaterBallast;
    assert!(!g.set_gear_pin_state(&mut other, PinState::High));
    assert_eq!(other, TypeOfInfo::WaterBallast);
}

#[test]
fn waveforms_and_scenarios() {
    assert_eq!(Waveform::from(0u8), Waveform::Triangular);
    assert_eq!(Waveform::from(3u8), Waveform::SineWave);
    assert_eq!(Waveform::from(200u8), Waveform::Triangular);
    assert_eq!(Waveform::from("Sawtooth"), Waveform::Sawtooth);
    assert_eq!(SoundScenario::GearAlarm.bits(), 8);
    assert_eq!(SoundScenario::Standard.bits(), 0);
    assert!(SoundScenario::GearAlarm.is_in(0b1000));
    assert!(!SoundScenario::GearAlarm.is_in(0b0111));
    assert!(!SoundScenario::Standard.is_in(0xff));
}

#[test]
fn sound_plays_vario_tone_clamped() {
    let mut sc = SoundControl::default();
    let mut p = SoundParams::default();
    assert_eq!(p.frequency, 500);
    assert_eq!(sc.sound(&mut p, (1500, true, 2), 5, 300, 1200), None);
    assert_eq!(p.frequency, 1200);
    assert!(p.continuous);
    assert_eq!(sc.sound(&mut p, (100, false, 6), 5, 300, 1200), Some(6));
    assert_eq!(p.frequency, 300);
    assert_eq!(p.gain, 6);
    assert_eq!(p.waveform, Waveform::Triangular);
}

#[test]
fn sound_plays_gear_alarm_sequence() {
    let mut sc = SoundControl::default();
    let mut p = SoundParams::default();
    sc.set_scenario(SoundScenario::GearAlarm, true);
    let vario = (1000, true, 3);
    let mut tones = Vec::new();
    for _ in 0..41 {
        sc.sound(&mut p, vario, 7, 100, 5000);
        tones.push((p.frequency, p.continuous, p.gain));
    }
    // four steps of silence, then a rising tone of six steps
    assert_eq!(tones[0], (700, false, 0));
    assert_eq!(tones[3], (700, false, 0));
    assert_eq!(tones[4], (700, true, 7));
    assert_eq!(tones[5], (850, true, 7));
    assert_eq!(tones[9], (1450, true, 7));
    assert_eq!(tones[10], (700, false, 0));
    assert_eq!(tones[11], (700, true, 7));
    assert_eq!(tones[18], (700, true, 7));
    assert_eq!(tones[23], (1450, true, 7));
    assert_eq!(tones[24], (700, false, 0));
    assert_eq!(tones[39], (700, false, 0));
    // after step 40 the sequence starts again
    assert_eq!(tones[40], (700, false, 0));
    sc.clear_scenariio(SoundScenario::GearAlarm);
    assert_eq!(sc.sound(&mut p, vario, 7, 100, 5000), Some(3));
    assert_eq!(p.frequency, 1000);
}

#[test]
fn durations() {
    assert_eq!(1500u16.millis().0, 15);
    assert_eq!(99u16.millis().0, 0);
    assert_eq!(3u16.secs().0, 30);
}

fn scheduler() -> Scheduler {
    Scheduler::new([Tim::new(10), Tim::new(11), Tim::new(12), Tim::new(13), Tim::new(14)])
}

#[test]
fn scheduler_runs_single_and_periodic_timers() {
    let mut s = scheduler();
    s.every(Timer::Ticker1Hz, Duration(2));
    s.after(Timer::PersistSetting, Duration(3));
    let mut got = Vec::new();
    for _ in 0..6 {
        assert_eq!(s.tick_100ms(), Ok(()));
        while let Some(cb) = s.next_callback() {
            got.push(cb);
        }
    }
    assert_eq!(got, vec![10, 12, 10, 10]);
}

#[test]
fn scheduler_stop_and_chain() {
    let mut s = scheduler();
    s.every(Timer::NmeaFast, Duration(1));
    assert_eq!(s.stop(Timer::NmeaFast, true), Ok(()));
    assert_eq!(s.tick_100ms(), Ok(()));
    assert_eq!(s.next_callback(), Some(11));
    assert_eq!(s.next_callback(), None);
    assert_eq!(s.stop(Timer::CloseMenu, false), Ok(()));
    assert_eq!(s.next_callback(), None);
    for cb in 0..5 {
        assert_eq!(s.chain(cb), Ok(()));
    }
    assert_eq!(s.chain(5), Err(CoreError::SchedulerQueueOverflow));
    assert_eq!(s.stop(Timer::CloseMenu, true), Err(CoreError::SchedulerQueueOverflow));
    assert_eq!(s.next_callback(), Some(0));
}

#[test]
fn scheduler_reports_full_queue() {
    let mut s = scheduler();
    for t in [Timer::Ticker1Hz, Timer::NmeaFast, Timer::PersistSetting, Timer::CloseEditFrame, Timer::CloseMenu] {
        s.every(t, Duration(1));
    }
    assert_eq!(s.tick_100ms(), Ok(()));
    assert_eq!(s.tick_100ms(), Err(CoreError::SchedulerQueueOverflow));
    assert_eq!(s.next_callback(), Some(10));
}

#[test]
fn leap_years_and_days() {
    assert!(is_leap_year(2024));
    assert!(!is_leap_year(2023));
    assert!(!is_leap_year(1900));
    assert!(is_leap_year(2000));
    assert_eq!(day_of_year(2023, 1, 1), Some(1));
    assert_eq!(day_of_year(2023, 6, 23), Some(174));
    assert_eq!(day_of_year(2024, 6, 23), Some(175));
    assert_eq!(day_of_year(2023, 12, 31), Some(365));
    assert_eq!(day_of_year(2024, 12, 31), Some(366));
    assert_eq!(day_of_year(2023, 2, 29), None);
    assert_eq!(day_of_year(2024, 2, 29), Some(60));
    assert_eq!(day_of_year(2023, 13, 1), None);
    assert_eq!(day_of_year(2023, 4, 31), None);
    assert_eq!(day_of_year(2023, 0, 1), None);
    assert_eq!(SunsetResult::default(), SunsetResult { hour: 0, min: 0, sec: 0 });
}

#[test]
fn polar_indices_are_inverse() {
    assert_eq!(size(), 169);
    for i in 0..size() {
        assert_eq!(to_raw_idx(to_sorted_idx(i)), i);
        assert_eq!(to_sorted_idx(to_raw_idx(i)), i);
    }
    assert!((0..size()).all(|i| to_raw_idx(i) < size() && to_sorted_idx(i) < size()));
    // the two AS-33 polars, stored last, are listed before the ASG-29
    assert_eq!(to_sorted_idx(168), 6);
    assert_eq!(to_sorted_idx(167), 7);
    assert_eq!(to_raw_idx(8), 6);
    assert_eq!(to_raw_idx(0), 0);
}

#[test]
fn persistence_ids() {
    assert_eq!(PersistenceId::from(7u16), PersistenceId::Qnh);
    assert_eq!(PersistenceId::from(0xfffcu16), PersistenceId::VarioMode);
    assert_eq!(PersistenceId::from(60u16), PersistenceId::DoNotStore);
    assert_eq!(PersistenceId::UnitHeight.to_u16(), 53);
    for code in 0u16..=54 {
        assert_eq!(PersistenceId::from(code).to_u16(), code);
    }
    assert!(profile_always_0(PersistenceId::Glider));
    assert!(profile_always_0(PersistenceId::GearAlarmMode));
    assert!(!profile_always_0(PersistenceId::Volume));
    assert!(!profile_always_0(PersistenceId::McCready));
}

#[test]
fn can_ids() {
    assert_eq!(GenericId::from(2u16), GenericId::SetSysSetting);
    assert_eq!(GenericId::from(9u16), GenericId::Ignore);
    assert_eq!(GenericId::BinaryTransfer.to_u16(), 3);
    assert_eq!(SpecialId::from(SpecialId::from(1u8).to_u8()), SpecialId::from(1u8));
    assert_eq!(CanConfigId::from(PersistenceId::Qnh), CanConfigId::Qnh);
    assert_eq!(CanConfigId::from(PersistenceId::Glider), CanConfigId::Ignore);
    for code in 0u16..0x3010 {
        let id = CanConfigId::from(code);
        if id != CanConfigId::Ignore {
            assert_eq!(id.to_u16(), code);
        }
    }
}

#[test]
fn seconds_to_time_of_day() {
    assert_eq!(seconds_to_hms(0), SunsetResult { hour: 0, min: 0, sec: 0 });
    assert_eq!(seconds_to_hms(3 * 3600 + 25 * 60 + 7), SunsetResult { hour: 3, min: 25, sec: 7 });
    assert_eq!(seconds_to_hms(86400 + 61), SunsetResult { hour: 0, min: 1, sec: 1 });
    // negative seconds count back from midnight
    assert_eq!(seconds_to_hms(-1), SunsetResult { hour: 23, min: 59, sec: 59 });
    assert_eq!(seconds_to_hms(-86400), SunsetResult { hour: 0, min: 0, sec: 0 });
    assert_eq!(seconds_to_hms(i32::MIN), SunsetResult { hour: 20, min: 45, sec: 52 });
    assert_eq!(&format_hhmm(SunsetResult { hour: 7, min: 5, sec: 59 }), b"07:05");
    assert_eq!(&format_hhmm(SunsetResult { hour: 21, min: 48, sec: 0 }), b"21:48");
}

#[test]
fn device_info_scrolls_within_content() {
    let mut d = larus_core::device_info::DeviceInfoControl::new(12);
    d.key_action(&KeyEvent::Rotary2Left, 10);
    assert_eq!(d.index, 0);
    d.key_action(&KeyEvent::Rotary2Right, 10);
    d.key_action(&KeyEvent::Rotary2Right, 10);
    d.key_action(&KeyEvent::Rotary2Right, 10);
    assert_eq!(d.index, 2);
    d.key_action(&KeyEvent::Btn1, 10);
    assert_eq!(d.index, 2);
    d.key_action(&KeyEvent::Rotary2Left, 10);
    assert_eq!(d.index, 1);
    assert_eq!(d.content_len, 12);
}

#[test]
fn ms_clock_catches_up_step_by_step() {
    let mut c = MsClock::new();
    c.set_ms(98);
    let mut actions = Vec::new();
    while let Some(a) = c.step(103) {
        actions.push(a);
    }
    assert_eq!(
        actions,
        vec![
            MsAction::NextCallback,
            MsAction::SchedulerTick,
            MsAction::Tick100ms,
            MsAction::NextCallback,
            MsAction::NextCallback
        ]
    );
    assert_eq!(c.ms, 103);
    assert_eq!(c.step(103), None);
    // the count wraps at 16 bits
    c.set_ms(65535);
    assert_eq!(c.step(1), Some(MsAction::SchedulerTick));
    assert_eq!(c.ms, 0);
    assert_eq!(c.step(1), Some(MsAction::Tick100ms));
    assert_eq!(c.step(1), None);
}

#[test]
fn horizon_assigns_its_keys() {
    let mut sk = Softkeys::new();
    larus_core::horizon::set_horizon_active(&mut sk);
    sk.key_action(&KeyEvent::Btn1);
    assert_eq!(sk.current(), Editable::McCready);
    sk.key_action(&KeyEvent::Btn3);
    assert_eq!(sk.current(), Editable::PilotWeight);
    sk.key_action(&KeyEvent::BtnEsc);
    assert_eq!(sk.current(), Editable::VarioModeControl);
    sk.key_action(&KeyEvent::Btn1S3);
    assert_eq!(sk.current(), Editable::Glider);
    sk.key_action(&KeyEvent::Btn2S3);
    assert_eq!(sk.current(), Editable::Theme);
}

#[test]
fn wished_address_heartbeat() {
    let id = 0x400 + larus_core::basic_config::VDA * 16;
    assert_eq!(id, 0x680);
    assert!(larus_core::can_frame::CanFrame::empty_from_id(id).is_heartbeat());
    assert_eq!(larus_core::can_frame::CanFrame::empty_from_id(id).vda(), larus_core::basic_config::VDA);
}
