//! The decisions of the once-a-second routine: the automatic and pin switching of the vario
//! mode, the measurement of the thermal climb rate, and the circling hysteresis.
//!
//! The routine's floating point work (the speed to fly limit, the climb rate from the altitude
//! gained, the circle diameter and statistics) is left to the caller, which hands in the
//! outcomes of its comparisons and carries out the actions returned here.
use crate::model::{FlyMode, VarioMode};
use crate::persist::{set_vario_mode, vario_mode_change, VarioModeChange, VarioModeSource};
use crate::vario::{clamp_i8, clamped};
use vstd::prelude::*;

verus! {

/// Where the measurement of the thermal climb rate stands.
#[derive(Clone, Copy, PartialEq, Eq, Debug, Structural)]
pub enum TcrMode {
    /// In straight flight: the measurement starts over at each second.
    StraightFlight,
    /// Out of a thermal for a while; more than 30 s of it end the measurement.
    Transition,
    /// Circling: the seconds of climbing are counted.
    Climbing,
}

/// What the routine keeps from one second to the next.
#[derive(Clone, Copy, PartialEq, Eq, Debug, Structural)]
pub struct StfState {
    pub vario_mode: VarioMode,
    pub vario_mode_control: VarioModeSource,
    /// The vario mode at the last second.
    pub last_vario_mode: VarioMode,
    pub fly_mode: FlyMode,
    pub tcr_mode: TcrMode,
    /// Seconds of climbing in the current thermal.
    pub climb_ticks: u32,
    /// Seconds out of the thermal.
    pub transient_ticks: u32,
    /// Seconds left in which a master device sends the climb rates.
    pub slave_ticks: u8,
    /// The circling hysteresis, counting towards circling while turning.
    pub hysteresis: i8,
}

/// What the caller does after the decisions.
#[derive(Clone, Copy, PartialEq, Eq, Debug, Structural)]
pub struct StfActions {
    /// The change by the automatic, if any.
    pub auto_change: Option<VarioModeChange>,
    /// The change by the input pin, if any, after the automatic's.
    pub pin_change: Option<VarioModeChange>,
    /// The vario mode turned to vario: the average climb rate starts over at the climb rate.
    pub reset_average_climb: bool,
    /// The measurement starts over at the current GPS altitude.
    pub restart_at_altitude: bool,
    /// The thermal climb rate is computed: altitude gained over the seconds of climbing.
    pub compute_thermal_climb: bool,
    /// The thermal climb rate is set to zero.
    pub clear_thermal_climb: bool,
}

/// The vario mode after a change, if there is one.
pub open spec fn mode_after(mode: VarioMode, change: Option<VarioModeChange>) -> VarioMode {
    match change {
        Some(c) => c.vario_mode,
        None => mode,
    }
}

/// The thermal climb rate measurement one second on, in the fly mode of that second: the new
/// state, whether the measurement starts over at the altitude, whether the climb rate is
/// computed, and whether it is cleared.
pub open spec fn tcr_step(s: StfState) -> (StfState, bool, bool, bool) {
    if s.fly_mode == FlyMode::Circling {
        let (climb, transient, restart) = match s.tcr_mode {
            TcrMode::StraightFlight => (1u32, s.transient_ticks, true),
            TcrMode::Transition => ((s.climb_ticks + 1) as u32, 0u32, false),
            TcrMode::Climbing => ((s.climb_ticks + 1) as u32, s.transient_ticks, false),
        };
        let slave = if s.slave_ticks > 0 { (s.slave_ticks - 1) as u8 } else { 0u8 };
        (
            StfState {
                tcr_mode: TcrMode::Climbing,
                climb_ticks: climb,
                transient_ticks: transient,
                slave_ticks: slave,
                ..s
            },
            restart,
            s.slave_ticks == 0,
            false,
        )
    } else {
        match s.tcr_mode {
            TcrMode::Climbing => (StfState { tcr_mode: TcrMode::Transition, transient_ticks: 0, ..s }, false, false, false),
            TcrMode::Transition => {
                let t = (s.transient_ticks + 1) as u32;
                if t > 30 {
                    (StfState { tcr_mode: TcrMode::StraightFlight, transient_ticks: t, ..s }, false, false, true)
                } else {
                    (StfState { transient_ticks: t, ..s }, false, false, false)
                }
            },
            TcrMode::StraightFlight => (s, true, false, false),
        }
    }
}

/// The circling hysteresis one second on: up by one while turning, down by one otherwise,
/// within 0..=`tc`; at `tc` the glider circles, at 0 it flies straight.
pub open spec fn hysteresis_step(hyst: i8, fly_mode: FlyMode, turning: bool, tc: i8) -> (i8, FlyMode) {
    let h = clamped(if turning { hyst + 1 } else { hyst - 1 }, 0, tc as int) as i8;
    let m = if h == tc { FlyMode::Circling } else { fly_mode };
    (h, if h == 0 { FlyMode::StraightFlight } else { m })
}

/// The decisions of one second. `ias_above_limit` tells whether the indicated airspeed is above
/// the speed to fly limit, `pin_mode` is the mode that the input pin asks for, `turning` whether
/// the turn rate is above 0.1 rad/s, and `hyst_tc` the length of the circling hysteresis.
pub open spec fn stf_step(
    s: StfState,
    ias_above_limit: bool,
    pin_mode: VarioMode,
    turning: bool,
    hyst_tc: i8,
) -> (StfState, StfActions) {
    // the automatic switches to speed to fly above the limit in straight flight
    let wanted = if ias_above_limit && s.fly_mode == FlyMode::StraightFlight {
        VarioMode::SpeedToFly
    } else {
        VarioMode::Vario
    };
    let auto_change = vario_mode_change(s.vario_mode, s.vario_mode_control, wanted, VarioModeSource::Auto);
    let m1 = mode_after(s.vario_mode, auto_change);
    let pin_change = vario_mode_change(m1, s.vario_mode_control, pin_mode, VarioModeSource::InputPin);
    let m2 = mode_after(m1, pin_change);
    let mode_changed = s.last_vario_mode != m2;
    let (t, restart, compute, clear) = tcr_step(StfState { vario_mode: m2, last_vario_mode: m2, ..s });
    let (h, fly) = hysteresis_step(s.hysteresis, s.fly_mode, turning, hyst_tc);
    (
        StfState { hysteresis: h, fly_mode: fly, ..t },
        StfActions {
            auto_change,
            pin_change,
            reset_average_climb: mode_changed && m2 == VarioMode::Vario,
            restart_at_altitude: restart,
            compute_thermal_climb: compute,
            clear_thermal_climb: clear,
        },
    )
}

fn mode_after_of(mode: VarioMode, change: Option<VarioModeChange>) -> (r: VarioMode)
    ensures
        r == mode_after(mode, change),
{
    match change {
        Some(c) => c.vario_mode,
        None => mode,
    }
}

/// Takes the decisions of one second; see `stf_step`.
pub fn stf_decisions(
    s: StfState,
    ias_above_limit: bool,
    pin_mode: VarioMode,
    turning: bool,
    hyst_tc: i8,
) -> (r: (StfState, StfActions))
    requires
        hyst_tc >= 0,
        s.climb_ticks < u32::MAX,
        s.transient_ticks < u32::MAX,
        turning ==> s.hysteresis < i8::MAX,
        !turning ==> s.hysteresis > i8::MIN,
    ensures
        r == stf_step(s, ias_above_limit, pin_mode, turning, hyst_tc),
{
    let wanted = if ias_above_limit && s.fly_mode == FlyMode::StraightFlight {
        VarioMode::SpeedToFly
    } else {
        VarioMode::Vario
    };
    let auto_change = set_vario_mode(s.vario_mode, s.vario_mode_control, wanted, VarioModeSource::Auto);
    let m1 = mode_after_of(s.vario_mode, auto_change);
    let pin_change = set_vario_mode(m1, s.vario_mode_control, pin_mode, VarioModeSource::InputPin);
    let vario_mode = mode_after_of(m1, pin_change);
    let reset_average_climb = s.last_vario_mode != vario_mode && vario_mode == VarioMode::Vario;

    // the thermal climb rate
    let mut t = StfState { vario_mode, last_vario_mode: vario_mode, ..s };
    let mut restart_at_altitude = false;
    let mut compute_thermal_climb = false;
    let mut clear_thermal_climb = false;
    match s.fly_mode {
        FlyMode::Circling => {
            match s.tcr_mode {
                TcrMode::StraightFlight => {
                    restart_at_altitude = true;
                    t.climb_ticks = 1;
                },
                TcrMode::Transition => {
                    t.transient_ticks = 0;
                    t.climb_ticks = s.climb_ticks + 1;
                },
                TcrMode::Climbing => {
                    t.climb_ticks = s.climb_ticks + 1;
                },
            }
            t.tcr_mode = TcrMode::Climbing;
            if s.slave_ticks > 0 {
                t.slave_ticks = s.slave_ticks - 1;
            } else {
                compute_thermal_climb = true;
            }
        },
        _ => match s.tcr_mode {
            TcrMode::Climbing => {
                t.tcr_mode = TcrMode::Transition;
                t.transient_ticks = 0;
            },
            TcrMode::Transition => {
                t.transient_ticks = s.transient_ticks + 1;
                if t.transient_ticks > 30 {
                    t.tcr_mode = TcrMode::StraightFlight;
                    clear_thermal_climb = true;
                }
            },
            TcrMode::StraightFlight => {
                restart_at_altitude = true;
            },
        },
    }

    // circling or straight flight
    let hyst = if turning { s.hysteresis + 1 } else { s.hysteresis - 1 };
    let hyst = clamp_i8(hyst, 0, hyst_tc);
    if hyst == hyst_tc {
        t.fly_mode = FlyMode::Circling;
    }
    if hyst == 0 {
        t.fly_mode = FlyMode::StraightFlight;
    }
    t.hysteresis = hyst;
    (
        t,
        StfActions {
            auto_change,
            pin_change,
            reset_average_climb,
            restart_at_altitude,
            compute_thermal_climb,
            clear_thermal_climb,
        },
    )
}

/// The hysteresis stays within 0..=`tc`, and `tc` seconds of turning from straight flight, one
/// call each, bring the glider to circling.
pub proof fn lemma_hysteresis(hyst: i8, fly_mode: FlyMode, turning: bool, tc: i8)
    requires
        tc >= 0,
    ensures
        0 <= hysteresis_step(hyst, fly_mode, turning, tc).0 <= tc,
        0 <= hyst < tc && turning && hyst + 1 == tc ==> hysteresis_step(hyst, fly_mode, turning, tc).1
            == FlyMode::Circling,
        0 < hyst <= tc && !turning && hyst == 1 ==> hysteresis_step(hyst, fly_mode, turning, tc).1
            == FlyMode::StraightFlight,
        0 < hysteresis_step(hyst, fly_mode, turning, tc).0 < tc ==> hysteresis_step(hyst, fly_mode, turning, tc).1
            == fly_mode,
{
}

/// While the glider circles, the seconds of climbing go on counting, one more each second; only
/// a measurement that starts over at the current altitude, which happens exactly when it stood
/// in straight flight, counts from one. The measurement is then climbing, and the thermal climb
/// rate is computed exactly when no master sends it.
pub proof fn lemma_circling_counts_climb_seconds(
    s: StfState,
    ias_above_limit: bool,
    pin_mode: VarioMode,
    turning: bool,
    hyst_tc: i8,
)
    requires
        s.fly_mode == FlyMode::Circling,
        s.climb_ticks < u32::MAX,
    ensures
        ({
            let (n, a) = stf_step(s, ias_above_limit, pin_mode, turning, hyst_tc);
            &&& a.restart_at_altitude <==> s.tcr_mode == TcrMode::StraightFlight
            &&& a.restart_at_altitude ==> n.climb_ticks == 1
            &&& !a.restart_at_altitude ==> n.climb_ticks == s.climb_ticks + 1
            &&& n.tcr_mode == TcrMode::Climbing
            &&& a.compute_thermal_climb <==> s.slave_ticks == 0
            &&& s.slave_ticks > 0 ==> n.slave_ticks == s.slave_ticks - 1
            &&& !a.clear_thermal_climb
        }),
{
}

/// Out of circling, the seconds of climbing stay as they were and no climb rate is computed;
/// after a thermal the seconds out of it count up, one each second, and once more than 30 have
/// passed the thermal climb rate is cleared and the measurement is back in straight flight.
pub proof fn lemma_straight_flight_counts_transient_seconds(
    s: StfState,
    ias_above_limit: bool,
    pin_mode: VarioMode,
    turning: bool,
    hyst_tc: i8,
)
    requires
        s.fly_mode != FlyMode::Circling,
        s.transient_ticks < u32::MAX,
    ensures
        ({
            let (n, a) = stf_step(s, ias_above_limit, pin_mode, turning, hyst_tc);
            &&& n.climb_ticks == s.climb_ticks
            &&& !a.compute_thermal_climb
            &&& a.restart_at_altitude <==> s.tcr_mode == TcrMode::StraightFlight
            &&& s.tcr_mode == TcrMode::Climbing ==> n.tcr_mode == TcrMode::Transition && n.transient_ticks == 0
            &&& s.tcr_mode == TcrMode::Transition ==> n.transient_ticks == s.transient_ticks + 1
            &&& a.clear_thermal_climb <==> (s.tcr_mode == TcrMode::Transition && s.transient_ticks + 1 > 30)
            &&& s.tcr_mode == TcrMode::Transition ==> (n.tcr_mode == TcrMode::StraightFlight <==> s.transient_ticks + 1 > 30)
        }),
{
}

/// Who controls the vario mode decides it each second: under the automatic it is speed to fly
/// exactly when the airspeed is above the limit in straight flight, under the input pin it is
/// what the pin asks for, and under NMEA or the CAN bus the routine leaves it as it was. The
/// average climb rate starts over exactly when the mode turns to vario.
pub proof fn lemma_vario_mode_follows_its_control(
    s: StfState,
    ias_above_limit: bool,
    pin_mode: VarioMode,
    turning: bool,
    hyst_tc: i8,
)
    ensures
        ({
            let (n, a) = stf_step(s, ias_above_limit, pin_mode, turning, hyst_tc);
            &&& s.vario_mode_control == VarioModeSource::Auto ==> (n.vario_mode == VarioMode::SpeedToFly <==> (
            ias_above_limit && s.fly_mode == FlyMode::StraightFlight))
            &&& s.vario_mode_control == VarioModeSource::InputPin ==> n.vario_mode == pin_mode
            &&& (s.vario_mode_control == VarioModeSource::Nmea || s.vario_mode_control == VarioModeSource::Can)
                ==> n.vario_mode == s.vario_mode && a.auto_change is None && a.pin_change is None
            &&& n.last_vario_mode == n.vario_mode
            &&& a.reset_average_climb <==> (s.last_vario_mode != n.vario_mode && n.vario_mode == VarioMode::Vario)
        }),
{
}

} // verus!
