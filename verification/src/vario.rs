//! Keys on the vario display: which setting the keys edit, and what the rotary encoders do to it.
use crate::model::{ControlResult, Direction, EditMode, Editable, KeyEvent, VarioModeControl};
use vstd::prelude::*;

verus! {

/// A value clamped to `min..=max`: `min` below it, `max` above it, the value itself in between.
pub open spec fn clamped(v: int, min: int, max: int) -> int {
    if v < min {
        min
    } else if v > max {
        max
    } else {
        v
    }
}

/// `num::clamp` on 8 bit values, whose whole behaviour is `clamped`.
pub fn clamp_i8(v: i8, min: i8, max: i8) -> (r: i8)
    requires
        min <= max,
    ensures
        r == clamped(v as int, min as int, max as int),
{
    if v < min {
        min
    } else if v > max {
        max
    } else {
        v
    }
}

/// What a key does to the setting being edited. The float settings and the glider index are
/// stepped by the caller (small steps on the second, large steps on the first encoder):
/// McCready by 0.1 or 0.5 m/s within 0..=5, water ballast and pilot weight by 1 or 10 kg within
/// 0..=250, the glider by 1 or 20 within the stored polars. Every new value is set with the
/// forwarding to NMEA and CAN.
#[derive(Clone, Copy, PartialEq, Eq, Debug, Structural)]
pub enum VarioKeyAction {
    /// The caller steps this setting by the key.
    Step(Editable),
    /// The new volume.
    SetVolume(i8),
    /// Who controls the vario mode from now on.
    SetVarioModeControl(VarioModeControl),
    /// Nothing is set.
    Nothing,
}

/// The outcome of a key on the vario display: the setting edited from now on, what is set, and
/// what the display is asked to do.
#[derive(Clone, Copy, PartialEq, Eq, Debug, Structural)]
pub struct VarioKeyOutcome {
    pub edit_var: Editable,
    pub action: VarioKeyAction,
    pub result: ControlResult,
}

/// The setting edited after `key`, when `edit_var` was edited (the volume when no edit is
/// open). From the volume the buttons open McCready, water ballast, pilot weight, the vario mode
/// control or the glider; within the four settings the first two buttons cycle backwards and
/// forwards.
pub open spec fn vario_edit_var(editing: bool, edit_var: Editable, key: KeyEvent) -> Editable {
    let act = if editing { edit_var } else { Editable::Volume };
    if act == Editable::Volume {
        match key {
            KeyEvent::Btn1 => Editable::McCready,
            KeyEvent::Btn2 => Editable::WaterBallast,
            KeyEvent::Btn3 => Editable::PilotWeight,
            KeyEvent::BtnEsc => Editable::VarioModeControl,
            KeyEvent::Btn1S3 => Editable::Glider,
            _ => act,
        }
    } else {
        match (key, act) {
            (KeyEvent::Btn1, Editable::McCready) => Editable::VarioModeControl,
            (KeyEvent::Btn1, Editable::WaterBallast) => Editable::McCready,
            (KeyEvent::Btn1, Editable::PilotWeight) => Editable::WaterBallast,
            (KeyEvent::Btn1, Editable::VarioModeControl) => Editable::PilotWeight,
            (KeyEvent::Btn2, Editable::McCready) => Editable::WaterBallast,
            (KeyEvent::Btn2, Editable::WaterBallast) => Editable::PilotWeight,
            (KeyEvent::Btn2, Editable::PilotWeight) => Editable::VarioModeControl,
            (KeyEvent::Btn2, Editable::VarioModeControl) => Editable::McCready,
            _ => act,
        }
    }
}

/// The vario mode control after a turn of the second encoder: left goes auto, speed to fly,
/// vario; right goes the other way round.
pub open spec fn next_vario_mode_control(vmc: VarioModeControl, key: KeyEvent) -> VarioModeControl {
    match (key, vmc) {
        (KeyEvent::Rotary2Left, VarioModeControl::Auto) => VarioModeControl::SpeedToFly,
        (KeyEvent::Rotary2Left, VarioModeControl::SpeedToFly) => VarioModeControl::Vario,
        (KeyEvent::Rotary2Left, VarioModeControl::Vario) => VarioModeControl::Auto,
        (KeyEvent::Rotary2Right, VarioModeControl::Auto) => VarioModeControl::Vario,
        (KeyEvent::Rotary2Right, VarioModeControl::SpeedToFly) => VarioModeControl::Auto,
        (KeyEvent::Rotary2Right, VarioModeControl::Vario) => VarioModeControl::SpeedToFly,
        _ => vmc,
    }
}

/// What `key` does on the vario display. On the volume the first encoder turns to the previous
/// or next display, the second one steps the volume by one within 0..=50, and other keys do
/// nothing; every other edit asks for the edit frame of the setting.
pub open spec fn vario_key_step(
    editing: bool,
    edit_var: Editable,
    volume: i8,
    vmc: VarioModeControl,
    key: KeyEvent,
) -> VarioKeyOutcome {
    let ev = vario_edit_var(editing, edit_var, key);
    let edit = ControlResult::Edit(EditMode::Section, ev);
    if ev == Editable::Volume {
        match key {
            KeyEvent::Rotary1Left => VarioKeyOutcome {
                edit_var: ev,
                action: VarioKeyAction::Nothing,
                result: ControlResult::NextDisplay(Direction::Backward),
            },
            KeyEvent::Rotary1Right => VarioKeyOutcome {
                edit_var: ev,
                action: VarioKeyAction::Nothing,
                result: ControlResult::NextDisplay(Direction::Forward),
            },
            KeyEvent::Rotary2Left => VarioKeyOutcome {
                edit_var: ev,
                action: VarioKeyAction::SetVolume(clamped(volume - 1, 0, 50) as i8),
                result: edit,
            },
            KeyEvent::Rotary2Right => VarioKeyOutcome {
                edit_var: ev,
                action: VarioKeyAction::SetVolume(clamped(volume + 1, 0, 50) as i8),
                result: edit,
            },
            _ => VarioKeyOutcome { edit_var: ev, action: VarioKeyAction::Nothing, result: ControlResult::Nothing },
        }
    } else if ev == Editable::VarioModeControl {
        VarioKeyOutcome {
            edit_var: ev,
            action: VarioKeyAction::SetVarioModeControl(next_vario_mode_control(vmc, key)),
            result: edit,
        }
    } else if ev == Editable::McCready || ev == Editable::WaterBallast || ev == Editable::PilotWeight
        || ev == Editable::Glider {
        VarioKeyOutcome { edit_var: ev, action: VarioKeyAction::Step(ev), result: edit }
    } else {
        VarioKeyOutcome { edit_var: ev, action: VarioKeyAction::Nothing, result: edit }
    }
}

/// Handles a key on the vario display; `editing` tells whether an edit is open, on `edit_var`.
pub fn vario_key_action(
    editing: bool,
    edit_var: Editable,
    volume: i8,
    vmc: VarioModeControl,
    key: KeyEvent,
) -> (r: VarioKeyOutcome)
    requires
        vario_edit_var(editing, edit_var, key) == Editable::Volume && key == KeyEvent::Rotary2Left
            ==> volume > i8::MIN,
        vario_edit_var(editing, edit_var, key) == Editable::Volume && key == KeyEvent::Rotary2Right
            ==> volume < i8::MAX,
    ensures
        r == vario_key_step(editing, edit_var, volume, vmc, key),
{
    let act = if editing { edit_var } else { Editable::Volume };
    let ev = if act == Editable::Volume {
        match key {
            KeyEvent::Btn1 => Editable::McCready,
            KeyEvent::Btn2 => Editable::WaterBallast,
            KeyEvent::Btn3 => Editable::PilotWeight,
            KeyEvent::BtnEsc => Editable::VarioModeControl,
            KeyEvent::Btn1S3 => Editable::Glider,
            _ => act,
        }
    } else {
        match key {
            KeyEvent::Btn1 => match act {
                Editable::McCready => Editable::VarioModeControl,
                Editable::WaterBallast => Editable::McCready,
                Editable::PilotWeight => Editable::WaterBallast,
                Editable::VarioModeControl => Editable::PilotWeight,
                _ => act,
            },
            KeyEvent::Btn2 => match act {
                Editable::McCready => Editable::WaterBallast,
                Editable::WaterBallast => Editable::PilotWeight,
                Editable::PilotWeight => Editable::VarioModeControl,
                Editable::VarioModeControl => Editable::McCready,
                _ => act,
            },
            _ => act,
        }
    };
    let edit = ControlResult::Edit(EditMode::Section, ev);
    match ev {
        Editable::Volume => match key {
            KeyEvent::Rotary1Left => VarioKeyOutcome {
                edit_var: ev,
                action: VarioKeyAction::Nothing,
                result: ControlResult::NextDisplay(Direction::Backward),
            },
            KeyEvent::Rotary1Right => VarioKeyOutcome {
                edit_var: ev,
                action: VarioKeyAction::Nothing,
                result: ControlResult::NextDisplay(Direction::Forward),
            },
            KeyEvent::Rotary2Left => VarioKeyOutcome {
                edit_var: ev,
                action: VarioKeyAction::SetVolume(clamp_i8(volume - 1, 0, 50)),
                result: edit,
            },
            KeyEvent::Rotary2Right => VarioKeyOutcome {
                edit_var: ev,
                action: VarioKeyAction::SetVolume(clamp_i8(volume + 1, 0, 50)),
                result: edit,
            },
            _ => VarioKeyOutcome { edit_var: ev, action: VarioKeyAction::Nothing, result: ControlResult::Nothing },
        },
        Editable::VarioModeControl => {
            let next = match key {
                KeyEvent::Rotary2Left => match vmc {
                    VarioModeControl::Auto => VarioModeControl::SpeedToFly,
                    VarioModeControl::SpeedToFly => VarioModeControl::Vario,
                    VarioModeControl::Vario => VarioModeControl::Auto,
                },
                KeyEvent::Rotary2Right => match vmc {
                    VarioModeControl::Auto => VarioModeControl::Vario,
                    VarioModeControl::SpeedToFly => VarioModeControl::Auto,
                    VarioModeControl::Vario => VarioModeControl::SpeedToFly,
                },
                _ => vmc,
            };
            VarioKeyOutcome { edit_var: ev, action: VarioKeyAction::SetVarioModeControl(next), result: edit }
        },
        Editable::McCready | Editable::WaterBallast | Editable::PilotWeight | Editable::Glider => {
            VarioKeyOutcome { edit_var: ev, action: VarioKeyAction::Step(ev), result: edit }
        },
        _ => VarioKeyOutcome { edit_var: ev, action: VarioKeyAction::Nothing, result: edit },
    }
}

/// The keys only ever edit the volume or one of the five settings they open, and the volume
/// they set stays within 0..=50.
pub proof fn lemma_vario_keys_stay_in_range(
    editing: bool,
    edit_var: Editable,
    volume: i8,
    vmc: VarioModeControl,
    key: KeyEvent,
)
    requires
        !editing || edit_var == Editable::Volume || edit_var == Editable::McCready || edit_var
            == Editable::WaterBallast || edit_var == Editable::PilotWeight || edit_var == Editable::VarioModeControl
            || edit_var == Editable::Glider,
    ensures
        ({
            let o = vario_key_step(editing, edit_var, volume, vmc, key);
            &&& o.edit_var == Editable::Volume || o.edit_var == Editable::McCready || o.edit_var
                == Editable::WaterBallast || o.edit_var == Editable::PilotWeight || o.edit_var
                == Editable::VarioModeControl || o.edit_var == Editable::Glider
            &&& o.action matches VarioKeyAction::SetVolume(v) ==> 0 <= v <= 50
        }),
{
}

/// From the volume the buttons open each their own setting: the first three buttons McCready,
/// water ballast and pilot weight, the escape button the vario mode control, and the first
/// button with the third the glider; each opens the edit frame of that setting and is stepped
/// by the encoders.
pub proof fn lemma_buttons_open_their_settings(edit_var: Editable, volume: i8, vmc: VarioModeControl)
    ensures
        ({
            let open = |key: KeyEvent| vario_key_step(false, edit_var, volume, vmc, key);
            &&& open(KeyEvent::Btn1).edit_var == Editable::McCready
            &&& open(KeyEvent::Btn2).edit_var == Editable::WaterBallast
            &&& open(KeyEvent::Btn3).edit_var == Editable::PilotWeight
            &&& open(KeyEvent::BtnEsc).edit_var == Editable::VarioModeControl
            &&& open(KeyEvent::Btn1S3).edit_var == Editable::Glider
            &&& forall|key: KeyEvent|
                #![trigger open(key)]
                key == KeyEvent::Btn1 || key == KeyEvent::Btn2 || key == KeyEvent::Btn3 || key == KeyEvent::Btn1S3
                    ==> open(key).action == VarioKeyAction::Step(open(key).edit_var) && open(key).result
                    == ControlResult::Edit(EditMode::Section, open(key).edit_var)
        }),
{
}

/// Within the four settings the second button steps forwards through McCready, water ballast,
/// pilot weight and the vario mode control and back to McCready, and the first button undoes
/// the second.
pub proof fn lemma_buttons_cycle_the_settings(e: Editable, volume: i8, vmc: VarioModeControl)
    requires
        e == Editable::McCready || e == Editable::WaterBallast || e == Editable::PilotWeight || e
            == Editable::VarioModeControl,
    ensures
        ({
            let fwd = |x: Editable| vario_key_step(true, x, volume, vmc, KeyEvent::Btn2).edit_var;
            let back = |x: Editable| vario_key_step(true, x, volume, vmc, KeyEvent::Btn1).edit_var;
            &&& fwd(Editable::McCready) == Editable::WaterBallast
            &&& fwd(Editable::WaterBallast) == Editable::PilotWeight
            &&& fwd(Editable::PilotWeight) == Editable::VarioModeControl
            &&& fwd(Editable::VarioModeControl) == Editable::McCready
            &&& back(fwd(e)) == e
            &&& fwd(back(e)) == e
        }),
{
}

/// On the volume the second encoder moves the volume by one, to the right up and to the left
/// down, and never out of 0..=50; the first encoder turns the displays and sets nothing.
pub proof fn lemma_volume_steps_by_one(volume: i8, vmc: VarioModeControl)
    requires
        i8::MIN < volume < i8::MAX,
    ensures
        ({
            let up = vario_key_step(false, Editable::Nothing, volume, vmc, KeyEvent::Rotary2Right);
            let down = vario_key_step(false, Editable::Nothing, volume, vmc, KeyEvent::Rotary2Left);
            &&& 0 <= volume < 50 ==> up.action == VarioKeyAction::SetVolume((volume + 1) as i8)
            &&& volume >= 50 ==> up.action == VarioKeyAction::SetVolume(50)
            &&& 0 < volume <= 50 ==> down.action == VarioKeyAction::SetVolume((volume - 1) as i8)
            &&& volume <= 0 ==> down.action == VarioKeyAction::SetVolume(0)
            &&& up.edit_var == Editable::Volume && down.edit_var == Editable::Volume
            &&& vario_key_step(false, Editable::Nothing, volume, vmc, KeyEvent::Rotary1Right).result
                == ControlResult::NextDisplay(Direction::Forward)
            &&& vario_key_step(false, Editable::Nothing, volume, vmc, KeyEvent::Rotary1Left).result
                == ControlResult::NextDisplay(Direction::Backward)
        }),
{
}

/// The vario mode control turns round its three choices: a turn to the right undoes a turn to
/// the left, and three turns the same way come back to where they started.
pub proof fn lemma_vario_mode_control_turns_round(vmc: VarioModeControl)
    ensures
        next_vario_mode_control(next_vario_mode_control(vmc, KeyEvent::Rotary2Left), KeyEvent::Rotary2Right) == vmc,
        next_vario_mode_control(
            next_vario_mode_control(next_vario_mode_control(vmc, KeyEvent::Rotary2Left), KeyEvent::Rotary2Left),
            KeyEvent::Rotary2Left,
        ) == vmc,
        next_vario_mode_control(vmc, KeyEvent::Rotary2Left) != vmc,
        next_vario_mode_control(vmc, KeyEvent::Rotary2Left) != next_vario_mode_control(vmc, KeyEvent::Rotary2Right),
{
}

/// The vario mode control is set by the second encoder only: to the left it goes from auto to
/// speed to fly, to vario and back to auto, to the right the other way round; other keys keep
/// it.
pub proof fn lemma_vario_mode_control_order(vmc: VarioModeControl, key: KeyEvent, volume: i8)
    ensures
        ({
            let set = |k: KeyEvent, c: VarioModeControl|
                vario_key_step(true, Editable::VarioModeControl, volume, c, k).action;
            &&& set(KeyEvent::Rotary2Left, VarioModeControl::Auto) == VarioKeyAction::SetVarioModeControl(VarioModeControl::SpeedToFly)
            &&& set(KeyEvent::Rotary2Left, VarioModeControl::SpeedToFly) == VarioKeyAction::SetVarioModeControl(VarioModeControl::Vario)
            &&& set(KeyEvent::Rotary2Left, VarioModeControl::Vario) == VarioKeyAction::SetVarioModeControl(VarioModeControl::Auto)
            &&& set(KeyEvent::Rotary2Right, VarioModeControl::Auto) == VarioKeyAction::SetVarioModeControl(VarioModeControl::Vario)
            &&& set(KeyEvent::Rotary2Right, VarioModeControl::Vario) == VarioKeyAction::SetVarioModeControl(VarioModeControl::SpeedToFly)
            &&& set(KeyEvent::Rotary2Right, VarioModeControl::SpeedToFly) == VarioKeyAction::SetVarioModeControl(VarioModeControl::Auto)
            &&& key != KeyEvent::Rotary2Left && key != KeyEvent::Rotary2Right && key != KeyEvent::Btn1 && key
                != KeyEvent::Btn2 ==> set(key, vmc) == VarioKeyAction::SetVarioModeControl(vmc)
        }),
{
}

} // verus!
