//! Sound scenarios and the tone sequence of the gear alarm.
use crate::text::same_text;
use vstd::prelude::*;
use vstd::string::StringSliceAdditionalSpecFns;

verus! {

/// Wave form of the vario tone.
#[derive(Clone, Copy, PartialEq, Eq, Debug, Structural)]
pub enum Waveform {
    Triangular,
    Sawtooth,
    Rectangular,
    SineWave,
}

pub const WAVEFORM_TRIANGULAR: &'static str = "Triangular";
pub const WAVEFORM_SAWTOOTH: &'static str = "Sawtooth";
pub const WAVEFORM_RECTANGULAR: &'static str = "Rectangular";
pub const WAVEFORM_SINE_WAVE: &'static str = "Sine wave";

/// The wave form that a stored number stands for; unknown numbers give the triangle.
pub open spec fn waveform_from_code(v: u8) -> Waveform {
    if v == 1 {
        Waveform::Sawtooth
    } else if v == 2 {
        Waveform::Rectangular
    } else if v == 3 {
        Waveform::SineWave
    } else {
        Waveform::Triangular
    }
}

impl From<u8> for Waveform {
    fn from(value: u8) -> (r: Self) {
        match value {
            1 => Waveform::Sawtooth,
            2 => Waveform::Rectangular,
            3 => Waveform::SineWave,
            _ => Waveform::Triangular,
        }
    }
}

impl vstd::std_specs::convert::FromSpecImpl<u8> for Waveform {
    open spec fn obeys_from_spec() -> bool {
        true
    }

    open spec fn from_spec(v: u8) -> Self {
        waveform_from_code(v)
    }
}

impl<'a> From<&'a str> for Waveform {
    fn from(value: &'a str) -> (r: Self) {
        if same_text(value, WAVEFORM_SAWTOOTH) {
            Waveform::Sawtooth
        } else if same_text(value, WAVEFORM_RECTANGULAR) {
            Waveform::Rectangular
        } else if same_text(value, WAVEFORM_SINE_WAVE) {
            Waveform::SineWave
        } else {
            Waveform::Triangular
        }
    }
}

impl<'a> vstd::std_specs::convert::FromSpecImpl<&'a str> for Waveform {
    open spec fn obeys_from_spec() -> bool {
        true
    }

    open spec fn from_spec(v: &'a str) -> Self {
        if v.spec_bytes() == WAVEFORM_SAWTOOTH.spec_bytes() {
            Waveform::Sawtooth
        } else if v.spec_bytes() == WAVEFORM_RECTANGULAR.spec_bytes() {
            Waveform::Rectangular
        } else if v.spec_bytes() == WAVEFORM_SINE_WAVE.spec_bytes() {
            Waveform::SineWave
        } else {
            Waveform::Triangular
        }
    }
}

/// The parameters of the tone that the speaker plays.
#[derive(Clone, Copy, PartialEq, Eq, Debug, Structural)]
pub struct SoundParams {
    pub frequency: u16,
    pub continuous: bool,
    pub gain: i8,
    pub waveform: Waveform,
}

impl Default for SoundParams {
    fn default() -> (r: Self)
        ensures
            r == (SoundParams { frequency: 500, continuous: false, gain: 2, waveform: Waveform::Triangular }),
    {
        SoundParams { frequency: 500, continuous: false, gain: 2, waveform: Waveform::Triangular }
    }
}

/// Situations that change what the speaker plays; each one is a bit of the active set.
#[derive(Clone, Copy, PartialEq, Eq, Debug, Structural)]
pub enum SoundScenario {
    Standard,
    GearAlarm,
}

impl SoundScenario {
    /// The bit of the scenario.
    pub open spec fn spec_bits(self) -> u8 {
        match self {
            SoundScenario::Standard => 0,
            SoundScenario::GearAlarm => 8,
        }
    }

    /// The bit of the scenario.
    pub fn bits(self) -> (r: u8)
        ensures
            r == self.spec_bits(),
    {
        match self {
            SoundScenario::Standard => 0b0000_0000,
            SoundScenario::GearAlarm => 0b0000_1000,
        }
    }

    /// Whether the scenario is in the set `rhs`.
    pub fn is_in(self, rhs: u8) -> (r: bool)
        ensures
            r == (self.spec_bits() & rhs != 0),
    {
        self.bits() & rhs != 0
    }
}

/// `num::clamp` on frequencies: `min` below it, `max` above it, the value itself in between.
#[verifier::external_body]
fn clamp_u16(input: u16, min: u16, max: u16) -> (r: u16)
    requires
        min <= max,
    ensures
        r == (if input < min {
            min
        } else if input > max {
            max
        } else {
            input
        }),
{
    num::clamp(input, min, max)
}

/// The first frequency of each rising tone of the gear alarm.
pub const START_FREQ: u16 = 700;
/// The rise of the frequency per step.
pub const INC_FREQ: u16 = 150;

/// The tone of the gear alarm at step `tick` (counted from 1), given the last frequency played:
/// three rising tones of six steps, each after a step of silence, then silence up to step 40.
pub open spec fn gear_alarm_tone(tick: int, last_frequency: u16, volume: i8) -> (u16, bool, i8) {
    if tick <= 4 {
        (START_FREQ, false, 0)
    } else if tick == 5 || tick == 12 || tick == 19 {
        (START_FREQ, true, volume)
    } else if alarm_rises(tick) {
        ((last_frequency + INC_FREQ) as u16, true, volume)
    } else {
        (START_FREQ, false, 0)
    }
}

/// Whether the gear alarm's step `tick` raises the frequency of the step before.
pub open spec fn alarm_rises(tick: int) -> bool {
    (6 <= tick <= 10) || (13 <= tick <= 17) || (20 <= tick <= 24)
}

/// What the sound control holds: the set of active scenarios and the step of the alarm.
pub struct SoundView {
    pub scenario: u8,
    pub tick: u16,
}

/// Chooses the tone: the gear alarm while that scenario is active, the vario tone otherwise.
pub struct SoundControl {
    scenario: u8,
    tick: u16,
}

impl View for SoundControl {
    type V = SoundView;

    closed spec fn view(&self) -> SoundView {
        SoundView { scenario: self.scenario, tick: self.tick }
    }
}

impl Default for SoundControl {
    fn default() -> (r: Self)
        ensures
            r@ == (SoundView { scenario: 0, tick: 0 }),
    {
        SoundControl { scenario: 0, tick: 0 }
    }
}

impl SoundControl {
    #[verifier::type_invariant]
    closed spec fn inv(self) -> bool {
        self.tick <= 40
    }

    pub fn activate_scenariio(&mut self, scenariio: SoundScenario)
        ensures
            final(self)@ == (SoundView { scenario: old(self)@.scenario | scenariio.spec_bits(), ..old(self)@ }),
    {
        proof { use_type_invariant(&*self); }
        self.scenario = self.scenario | scenariio.bits();
    }

    pub fn clear_scenariio(&mut self, scenariio: SoundScenario)
        ensures
            final(self)@ == (SoundView { scenario: old(self)@.scenario & !scenariio.spec_bits(), ..old(self)@ }),
    {
        proof { use_type_invariant(&*self); }
        self.scenario = self.scenario & !scenariio.bits();
    }

    pub fn set_scenario(&mut self, scenariio: SoundScenario, active: bool)
        ensures
            final(self)@ == (SoundView {
                scenario: if active {
                    old(self)@.scenario | scenariio.spec_bits()
                } else {
                    old(self)@.scenario & !scenariio.spec_bits()
                },
                ..old(self)@
            }),
    {
        if active {
            self.activate_scenariio(scenariio);
        } else {
            self.clear_scenariio(scenariio);
        }
    }

    /// One step of the gear alarm: the tone to play, given the frequency played last.
    fn gear_alarm_sound(&mut self, last_frequency: u16, alarm_volume: i8) -> (r: (u16, bool, i8))
        requires
            alarm_rises(old(self)@.tick + 1) ==> last_frequency + INC_FREQ <= u16::MAX,
        ensures
            r == gear_alarm_tone(old(self)@.tick + 1, last_frequency, alarm_volume),
            final(self)@.scenario == old(self)@.scenario,
            final(self)@.tick == if old(self)@.tick < 40 { old(self)@.tick + 1 } else { 0 },
    {
        proof { use_type_invariant(&*self); }
        let tick = self.tick + 1;
        if tick <= 40 {
            self.tick = tick;
        } else {
            self.tick = 0;
        }
        if tick <= 4 {
            (START_FREQ, false, 0)  // silence
        } else if tick == 5 || tick == 12 || tick == 19 {
            (START_FREQ, true, alarm_volume)
        } else if (6 <= tick && tick <= 10) || (13 <= tick && tick <= 17) || (20 <= tick && tick
            <= 24) {
            (last_frequency + INC_FREQ, true, alarm_volume)
        } else {
            (START_FREQ, false, 0)  // silence
        }
    }

    /// Called every 100 ms: chooses the tone and stores it in `params`.
    ///
    /// While the gear alarm is active its tone sequence plays, otherwise `vario_tone` (frequency,
    /// continuous, gain) does and the alarm starts from its first step next time. The frequency
    /// is clamped to `min_freq..=max_freq`. When the gain changed, the new gain is returned for
    /// the amplifier.
    pub fn sound(
        &mut self,
        params: &mut SoundParams,
        vario_tone: (u16, bool, i8),
        alarm_volume: i8,
        min_freq: u16,
        max_freq: u16,
    ) -> (r: Option<u8>)
        requires
            min_freq <= max_freq,
            SoundScenario::GearAlarm.spec_bits() & old(self)@.scenario != 0 && alarm_rises(old(self)@.tick + 1)
                ==> old(params).frequency + INC_FREQ <= u16::MAX,
        ensures
            ({
                let alarm = SoundScenario::GearAlarm.spec_bits() & old(self)@.scenario != 0;
                let (frequency, continuous, gain) = if alarm {
                    gear_alarm_tone(old(self)@.tick + 1, old(params).frequency, alarm_volume)
                } else {
                    vario_tone
                };
                &&& final(self)@.scenario == old(self)@.scenario
                &&& final(self)@.tick == if !alarm {
                    0
                } else if old(self)@.tick < 40 {
                    old(self)@.tick + 1
                } else {
                    0
                }
                &&& final(params).frequency == (if frequency < min_freq {
                    min_freq
                } else if frequency > max_freq {
                    max_freq
                } else {
                    frequency
                })
                &&& final(params).continuous == continuous
                &&& final(params).waveform == old(params).waveform
                &&& final(params).gain == gain
                &&& r == if gain != old(params).gain {
                    Some(gain as u8)
                } else {
                    None::<u8>
                }
            }),
    {
        let (frequency, continuous, gain) = if SoundScenario::GearAlarm.is_in(self.scenario) {
            self.gear_alarm_sound(params.frequency, alarm_volume)
        } else {
            self.tick = 0;
            vario_tone
        };

        params.frequency = clamp_u16(frequency, min_freq, max_freq);
        params.continuous = continuous;

        if gain != params.gain {
            params.gain = gain;
            // the idle loop sets the amplifier's gain
            Some(gain as u8)
        } else {
            None
        }
    }
}

} // verus!
