//! Removes frequencies from a sound.

use vstd::prelude::*;

use crate::dsp::{Frame, Scalar};
use crate::error::CommandQueueFull;
use crate::parameter::ParameterHandle;
use crate::tween::Tween;
use crate::value::{CachedValue, Value};

verus! {

/// The frequencies that the filter will remove.
#[derive(Debug, Copy, Clone, PartialEq, Eq, Structural)]
pub enum FilterMode {
    /// Removes frequencies above the cutoff frequency.
    LowPass,
    /// Removes frequencies above and below the cutoff frequency.
    BandPass,
    /// Removes frequencies below the cutoff frequency.
    HighPass,
    /// Removes frequencies around the cutoff frequency.
    Notch,
}

/// Settings for a [`Filter`].
#[derive(Debug, Copy, Clone)]
#[non_exhaustive]
pub struct FilterSettings {
    /// The frequencies that the filter will remove.
    pub mode: FilterMode,
    /// The cutoff frequency of the filter (in hertz).
    pub cutoff: Value<Scalar>,
    /// The resonance of the filter.
    ///
    /// The resonance is a feedback effect that produces
    /// a distinctive "ringing" sound.
    pub resonance: Value<Scalar>,
    /// How much dry (unprocessed) signal should be blended
    /// with the wet (processed) signal. `0.0` means
    /// only the dry signal will be heard. `1.0` means
    /// only the wet signal will be heard.
    pub mix: Value<Scalar>,
}

impl FilterSettings {
    /// The settings that [`FilterSettings::new`] starts from: a low pass
    /// at 1000 hertz without resonance, the wet signal only.
    pub open spec fn spec_default() -> FilterSettings {
        FilterSettings {
            mode: FilterMode::LowPass,
            cutoff: Value::Fixed(Scalar { bits: 0x408F_4000_0000_0000 }),
            resonance: Value::Fixed(Scalar::spec_zero()),
            mix: Value::Fixed(Scalar::spec_one()),
        }
    }

    /// Creates a new `FilterSettings` with the default settings.
    pub fn new() -> (settings: FilterSettings)
        ensures
            settings == Self::spec_default(),
    {
        Self::default()
    }

    /// The default settings.
    pub fn default() -> (settings: FilterSettings)
        ensures
            settings == Self::spec_default(),
    {
        Self {
            mode: FilterMode::LowPass,
            cutoff: Value::Fixed(Scalar::from_bits(0x408F_4000_0000_0000)),
            resonance: Value::Fixed(Scalar::zero()),
            mix: Value::Fixed(Scalar::one()),
        }
    }

    /// Sets the frequencies that the filter will remove.
    pub fn mode(self, mode: FilterMode) -> (settings: FilterSettings)
        ensures
            settings == (FilterSettings { mode, ..self }),
    {
        Self { mode, ..self }
    }

    /// Sets the cutoff frequency of the filter (in hertz).
    pub fn cutoff(self, cutoff: Value<Scalar>) -> (settings: FilterSettings)
        ensures
            settings == (FilterSettings { cutoff, ..self }),
    {
        Self { cutoff, ..self }
    }

    /// Sets the resonance of the filter.
    pub fn resonance(self, resonance: Value<Scalar>) -> (settings: FilterSettings)
        ensures
            settings == (FilterSettings { resonance, ..self }),
    {
        Self { resonance, ..self }
    }

    /// Sets how much dry (unprocessed) signal should be blended
    /// with the wet (processed) signal. `0.0` means only the dry
    /// signal will be heard. `1.0` means only the wet signal will
    /// be heard.
    pub fn mix(self, mix: Value<Scalar>) -> (settings: FilterSettings)
        ensures
            settings == (FilterSettings { mix, ..self }),
    {
        Self { mix, ..self }
    }
}

/// What a setting reads as before the parameter it follows is first sampled.
pub open spec fn initial(setting: Value<Scalar>, default: Scalar) -> Scalar {
    match setting {
        Value::Fixed(fixed) => fixed,
        Value::Parameter { .. } => default,
    }
}

/// An effect that removes frequencies from input audio.
pub struct Filter {
    /// The frequencies that the filter removes.
    pub mode: FilterMode,
    /// The cutoff frequency, in hertz.
    pub cutoff: CachedValue<Scalar>,
    /// The resonance.
    pub resonance: CachedValue<Scalar>,
    /// The share of the wet signal in the output.
    pub mix: CachedValue<Scalar>,
    /// The first state variable of the filter.
    pub ic1eq: Frame,
    /// The second state variable of the filter.
    pub ic2eq: Frame,
}

impl Filter {
    /// Creates a new filter, at rest. A cutoff that follows a parameter
    /// reads as 10000 hertz, a resonance as zero and a mix as one until the
    /// parameter is first sampled.
    pub fn new(settings: FilterSettings) -> (filter: Filter)
        ensures
            filter.mode == settings.mode,
            filter.cutoff.setting() == settings.cutoff,
            filter.cutoff.raw() == initial(settings.cutoff, Scalar { bits: 0x40C3_8800_0000_0000 }),
            filter.resonance.setting() == settings.resonance,
            filter.resonance.raw() == initial(settings.resonance, Scalar::spec_zero()),
            filter.mix.setting() == settings.mix,
            filter.mix.raw() == initial(settings.mix, Scalar::spec_one()),
            filter.ic1eq == Frame::spec_zero(),
            filter.ic2eq == Frame::spec_zero(),
    {
        Filter {
            mode: settings.mode,
            cutoff: CachedValue::new(settings.cutoff, Scalar::from_bits(0x40C3_8800_0000_0000)),
            resonance: CachedValue::new(settings.resonance, Scalar::zero()),
            mix: CachedValue::new(settings.mix, Scalar::one()),
            ic1eq: Frame::zero(),
            ic2eq: Frame::zero(),
        }
    }

    /// Samples the settings for one frame: each takes the mapped value of
    /// the parameter it follows, where it follows one that exists.
    pub fn update(&mut self, cutoff: Option<Scalar>, resonance: Option<Scalar>, mix: Option<Scalar>)
        ensures
            final(self).mode == old(self).mode,
            final(self).ic1eq == old(self).ic1eq,
            final(self).ic2eq == old(self).ic2eq,
            final(self).cutoff.setting() == old(self).cutoff.setting(),
            final(self).resonance.setting() == old(self).resonance.setting(),
            final(self).mix.setting() == old(self).mix.setting(),
            final(self).cutoff.raw() == (match (old(self).cutoff.setting(), cutoff) {
                (Value::Parameter { .. }, Some(sample)) => sample,
                _ => old(self).cutoff.raw(),
            }),
            final(self).resonance.raw() == (match (old(self).resonance.setting(), resonance) {
                (Value::Parameter { .. }, Some(sample)) => sample,
                _ => old(self).resonance.raw(),
            }),
            final(self).mix.raw() == (match (old(self).mix.setting(), mix) {
                (Value::Parameter { .. }, Some(sample)) => sample,
                _ => old(self).mix.raw(),
            }),
    {
        self.cutoff.update(cutoff);
        self.resonance.update(resonance);
        self.mix.update(mix);
    }
}

/// Controls a filter effect from control code.
pub struct FilterHandle {
    /// The handle of the cutoff frequency.
    pub cutoff: ParameterHandle,
    /// The handle of the resonance.
    pub resonance: ParameterHandle,
    /// The handle of the mix.
    pub mix: ParameterHandle,
}

impl FilterHandle {
    /// Returns the cutoff frequency, as it was at the start of the block that the renderer
    /// last began.
    pub fn cutoff(&self) -> Scalar {
        self.cutoff.get()
    }

    /// Returns the resonance, as it was at the start of the block that the renderer
    /// last began.
    pub fn resonance(&self) -> Scalar {
        self.resonance.get()
    }

    /// Returns the mix, as it was at the start of the block that the renderer
    /// last began.
    pub fn mix(&self) -> Scalar {
        self.mix.get()
    }

    /// Asks for a transition of the cutoff frequency to the given value. Fails, without
    /// any effect, when the command queue is full.
    pub fn set_cutoff(&mut self, cutoff: Scalar, tween: Tween) -> (result: Result<
        (),
        CommandQueueFull,
    >)
        ensures
            old(self).cutoff.after_set(final(self).cutoff, cutoff, tween, result),
            final(self).resonance == old(self).resonance,
            final(self).mix == old(self).mix,
    {
        self.cutoff.set(cutoff, tween)
    }

    /// Asks for a transition of the resonance to the given value. Fails, without
    /// any effect, when the command queue is full.
    pub fn set_resonance(&mut self, resonance: Scalar, tween: Tween) -> (result: Result<
        (),
        CommandQueueFull,
    >)
        ensures
            old(self).resonance.after_set(final(self).resonance, resonance, tween, result),
            final(self).cutoff == old(self).cutoff,
            final(self).mix == old(self).mix,
    {
        self.resonance.set(resonance, tween)
    }

    /// Asks for a transition of the mix to the given value. Fails, without
    /// any effect, when the command queue is full.
    pub fn set_mix(&mut self, mix: Scalar, tween: Tween) -> (result: Result<
        (),
        CommandQueueFull,
    >)
        ensures
            old(self).mix.after_set(final(self).mix, mix, tween, result),
            final(self).cutoff == old(self).cutoff,
            final(self).resonance == old(self).resonance,
    {
        self.mix.set(mix, tween)
    }
}

} // verus!
