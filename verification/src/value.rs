//! Settings that are either fixed or follow a parameter.

use vstd::prelude::*;

use crate::dsp::Scalar;
use crate::parameter::ParameterId;

verus! {

/// A transformation from one range of values to another.
#[derive(Debug, PartialEq)]
pub struct Mapping<T> {
    /// The input range of the mapping.
    pub input_range: (Scalar, Scalar),
    /// The corresponding output range of the mapping.
    pub output_range: (T, T),
    /// Whether values should be prevented from being
    /// less than the bottom of the output range.
    pub clamp_bottom: bool,
    /// Whether values should be prevented from being
    /// greater than the top of the output range.
    pub clamp_top: bool,
}

impl<T: Copy> Copy for Mapping<T> {

}

impl<T: Copy> Clone for Mapping<T> {
    fn clone(&self) -> (copy: Self)
        ensures
            copy == *self,
    {
        *self
    }
}

/// A playback rate, as a factor of the normal rate or as an offset in
/// semitones.
#[derive(Debug, Clone, Copy, PartialEq, Eq, Structural)]
pub enum PlaybackRate {
    /// A factor of the normal playback rate.
    Factor(Scalar),
    /// An offset from the normal pitch, in semitones.
    Semitones(Scalar),
}

/// The possible values for a setting.
#[derive(Debug, PartialEq)]
#[non_exhaustive]
pub enum Value<T> {
    /// The setting is fixed to the specified value.
    Fixed(T),
    /// The setting is linked to a parameter with the
    /// given mapping.
    Parameter {
        /// The parameter the setting is linked to.
        id: ParameterId,
        /// The mapping of parameter values to setting values.
        mapping: Mapping<T>,
    },
}

impl<T: Copy> Copy for Value<T> {

}

impl<T: Copy> Clone for Value<T> {
    fn clone(&self) -> (copy: Self)
        ensures
            copy == *self,
    {
        *self
    }
}

impl Value<Scalar> {
    /// The mapping that hands a parameter's value on unchanged: the unit
    /// range onto itself, without clamping.
    pub open spec fn spec_identity_mapping() -> Mapping<Scalar> {
        Mapping {
            input_range: (Scalar::spec_zero(), Scalar::spec_one()),
            output_range: (Scalar::spec_zero(), Scalar::spec_one()),
            clamp_bottom: false,
            clamp_top: false,
        }
    }

    /// A setting fixed to `value`.
    pub fn from_scalar(value: Scalar) -> (setting: Self)
        ensures
            setting == Value::Fixed(value),
    {
        Value::Fixed(value)
    }

    /// A setting that follows the parameter `id` through the identity
    /// mapping.
    pub fn from_parameter(id: ParameterId) -> (setting: Self)
        ensures
            setting == (Value::Parameter { id, mapping: Self::spec_identity_mapping() }),
    {
        Value::Parameter {
            id,
            mapping: Mapping {
                input_range: (Scalar::zero(), Scalar::one()),
                output_range: (Scalar::zero(), Scalar::one()),
                clamp_bottom: false,
                clamp_top: false,
            },
        }
    }
}

impl Value<PlaybackRate> {
    /// The mapping from the unit range onto the factors from zero to one,
    /// without clamping.
    pub open spec fn spec_factor_mapping() -> Mapping<PlaybackRate> {
        Mapping {
            input_range: (Scalar::spec_zero(), Scalar::spec_one()),
            output_range: (
                PlaybackRate::Factor(Scalar::spec_zero()),
                PlaybackRate::Factor(Scalar::spec_one()),
            ),
            clamp_bottom: false,
            clamp_top: false,
        }
    }

    /// A setting fixed to `rate`.
    pub fn from_rate(rate: PlaybackRate) -> (setting: Self)
        ensures
            setting == Value::Fixed(rate),
    {
        Value::Fixed(rate)
    }

    /// A setting fixed to the playback rate with the given factor.
    pub fn from_factor(factor: Scalar) -> (setting: Self)
        ensures
            setting == Value::Fixed(PlaybackRate::Factor(factor)),
    {
        Value::Fixed(PlaybackRate::Factor(factor))
    }

    /// A setting that follows the parameter `id`, read as a factor.
    pub fn from_parameter(id: ParameterId) -> (setting: Self)
        ensures
            setting == (Value::Parameter { id, mapping: Self::spec_factor_mapping() }),
    {
        Value::Parameter {
            id,
            mapping: Mapping {
                input_range: (Scalar::zero(), Scalar::one()),
                output_range: (
                    PlaybackRate::Factor(Scalar::zero()),
                    PlaybackRate::Factor(Scalar::one()),
                ),
                clamp_bottom: false,
                clamp_top: false,
            },
        }
    }
}

/// Holds a [`Value`] and remembers the last valid raw value.
pub struct CachedValue<T> {
    value: Value<T>,
    raw_value: T,
}

impl<T: Copy> Copy for CachedValue<T> {

}

impl<T: Copy> Clone for CachedValue<T> {
    fn clone(&self) -> (copy: Self)
        ensures
            copy == *self,
    {
        *self
    }
}

impl<T: Copy> CachedValue<T> {
    /// The setting that is cached.
    pub closed spec fn setting(self) -> Value<T> {
        self.value
    }

    /// The last valid raw value.
    pub closed spec fn raw(self) -> T {
        self.raw_value
    }

    /// Creates a new [`CachedValue`]. A fixed setting is its own raw value; a
    /// setting bound to a parameter starts at `default`.
    pub fn new(value: Value<T>, default: T) -> (cached: Self)
        ensures
            cached.setting() == value,
            cached.raw() == (match value {
                Value::Fixed(fixed) => fixed,
                Value::Parameter { .. } => default,
            }),
    {
        let raw_value = match value {
            Value::Fixed(fixed) => fixed,
            Value::Parameter { .. } => default,
        };
        Self { value, raw_value }
    }

    /// Gets the last valid raw value.
    pub fn get(&self) -> (raw: T)
        ensures
            raw == self.raw(),
    {
        self.raw_value
    }

    /// Gets the setting.
    pub fn value(&self) -> (setting: Value<T>)
        ensures
            setting == self.setting(),
    {
        self.value
    }

    /// Sets the value. The raw value stays until the next update.
    pub fn set(&mut self, value: Value<T>)
        ensures
            final(self).setting() == value,
            final(self).raw() == old(self).raw(),
    {
        self.value = value;
    }

    /// The parameter that the setting follows and the mapping to apply to it,
    /// if the setting is bound to one.
    pub fn binding(&self) -> (bound: Option<(ParameterId, Mapping<T>)>)
        ensures
            bound == (match self.setting() {
                Value::Fixed(_) => None,
                Value::Parameter { id, mapping } => Some((id, mapping)),
            }),
    {
        match self.value {
            Value::Fixed(_) => None,
            Value::Parameter { id, mapping } => Some((id, mapping)),
        }
    }

    /// Updates the raw value of a bound setting. `mapped` is the current
    /// value of the bound parameter after the mapping, or `None` when that
    /// parameter does not exist. A fixed setting keeps its raw value.
    pub fn update(&mut self, mapped: Option<T>)
        ensures
            final(self).setting() == old(self).setting(),
            final(self).raw() == (match (old(self).setting(), mapped) {
                (Value::Parameter { .. }, Some(sample)) => sample,
                _ => old(self).raw(),
            }),
    {
        if let Value::Parameter { .. } = self.value {
            if let Some(sample) = mapped {
                self.raw_value = sample;
            }
        }
    }
}

} // verus!
