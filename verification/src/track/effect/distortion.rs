//! Makes a signal louder and clips it.

use vstd::prelude::*;

use crate::clocks::Clocks;
use crate::dsp::Scalar;
use crate::error::CommandQueueFull;
use crate::parameter::{drained, restarted, Parameter, ParameterHandle};
use crate::tween::{Tween, TweenAdvance, TweenableView};

verus! {

/// Different ways of clipping a signal.
#[derive(Debug, Clone, Copy, PartialEq, Eq, Structural)]
pub enum DistortionKind {
    /// The signal is clamped to the range from -1 to 1.
    HardClip,
    /// The signal is bent towards that range: `x / (1 + |x|)`.
    SoftClip,
}

impl DistortionKind {
    /// Hard clipping.
    pub fn default() -> (kind: DistortionKind)
        ensures
            kind == DistortionKind::HardClip,
    {
        DistortionKind::HardClip
    }
}

/// Settings for a [`Distortion`] effect.
#[derive(Debug, Clone, Copy)]
#[non_exhaustive]
pub struct DistortionBuilder {
    /// The kind of distortion to use.
    pub kind: DistortionKind,
    /// The factor to multiply the signal by before applying
    /// the distortion.
    pub drive: Scalar,
    /// How much dry (unprocessed) signal should be blended
    /// with the wet (processed) signal. `0.0` means
    /// only the dry signal will be heard. `1.0` means
    /// only the wet signal will be heard.
    pub mix: Scalar,
}

impl DistortionBuilder {
    /// Creates a new `DistortionBuilder` with the default settings: hard
    /// clipping, a drive of one, the wet signal only.
    pub fn new() -> (builder: DistortionBuilder)
        ensures
            builder.kind == DistortionKind::HardClip,
            builder.drive == Scalar::spec_one(),
            builder.mix == Scalar::spec_one(),
    {
        Self::default()
    }

    /// The default settings: hard clipping, a drive of one, the wet signal
    /// only.
    pub fn default() -> (builder: DistortionBuilder)
        ensures
            builder.kind == DistortionKind::HardClip,
            builder.drive == Scalar::spec_one(),
            builder.mix == Scalar::spec_one(),
    {
        Self { kind: DistortionKind::default(), drive: Scalar::one(), mix: Scalar::one() }
    }

    /// Sets the kind of distortion to use.
    pub fn kind(self, kind: DistortionKind) -> (builder: DistortionBuilder)
        ensures
            builder == (DistortionBuilder { kind, ..self }),
    {
        Self { kind, ..self }
    }

    /// Sets the factor to multiply the signal by before applying
    /// the distortion.
    pub fn drive(self, drive: Scalar) -> (builder: DistortionBuilder)
        ensures
            builder == (DistortionBuilder { drive, ..self }),
    {
        Self { drive, ..self }
    }

    /// Sets how much dry (unprocessed) signal should be blended
    /// with the wet (processed) signal. `0.0` means only the dry
    /// signal will be heard. `1.0` means only the wet signal will
    /// be heard.
    pub fn mix(self, mix: Scalar) -> (builder: DistortionBuilder)
        ensures
            builder == (DistortionBuilder { mix, ..self }),
    {
        Self { mix, ..self }
    }

    /// Builds the effect and the handle that controls it.
    pub fn into_effect(self) -> (made: (Distortion, DistortionHandle))
        ensures
            made.1.drive.fresh(),
            made.0.drive.received().len() == 0,
            made.1.mix.fresh(),
            made.0.mix.received().len() == 0,
            made.0.kind == self.kind,
            made.0.drive@ == TweenableView::resting(self.drive),
            made.0.mix@ == TweenableView::resting(self.mix),
    {
        Distortion::new(self)
    }
}

/// An effect that modifies an input signal to make it more
/// distorted and noisy.
pub struct Distortion {
    /// The kind of distortion.
    pub kind: DistortionKind,
    /// The factor that the signal is multiplied by before it is clipped.
    pub drive: Parameter,
    /// The share of the wet signal in the output.
    pub mix: Parameter,
}

impl Distortion {
    /// Creates a new distortion effect.
    pub fn new(builder: DistortionBuilder) -> (made: (Distortion, DistortionHandle))
        ensures
            made.1.drive.fresh(),
            made.0.drive.received().len() == 0,
            made.1.mix.fresh(),
            made.0.mix.received().len() == 0,
            made.0.kind == builder.kind,
            made.0.drive@ == TweenableView::resting(builder.drive),
            made.0.mix@ == TweenableView::resting(builder.mix),
    {
        let (drive, drive_handle) = Parameter::new(builder.drive);
        let (mix, mix_handle) = Parameter::new(builder.mix);
        (
            Distortion { kind: builder.kind, drive, mix },
            DistortionHandle { drive: drive_handle, mix: mix_handle },
        )
    }

    /// Starts a block: each parameter applies the commands that wait for it.
    pub fn on_start_processing(&mut self)
        ensures
            final(self).kind == old(self).kind,
            drained(old(self).drive, final(self).drive),
            drained(old(self).mix, final(self).mix),
            restarted(old(self).drive@, final(self).drive@),
            restarted(old(self).mix@, final(self).mix@),
    {
        self.drive.on_start_processing();
        self.mix.on_start_processing();
    }

    /// Lets one sample's worth of time pass for each parameter.
    pub fn update(&mut self, drive: TweenAdvance, mix: TweenAdvance, clocks: &Clocks)
        requires
            clocks.wf(),
            old(self).drive@.known_to(*clocks),
            old(self).mix@.known_to(*clocks),
        ensures
            final(self).kind == old(self).kind,
            final(self).drive@ == old(self).drive@.updated(drive, *clocks),
            final(self).mix@ == old(self).mix@.updated(mix, *clocks),
    {
        self.drive.update(drive, clocks);
        self.mix.update(mix, clocks);
    }
}

/// Controls a distortion effect from control code.
pub struct DistortionHandle {
    /// The handle of the drive.
    pub drive: ParameterHandle,
    /// The handle of the mix.
    pub mix: ParameterHandle,
}

impl DistortionHandle {
    /// Returns the drive, as it was at the start of the block that the renderer
    /// last began.
    pub fn drive(&self) -> Scalar {
        self.drive.get()
    }

    /// Returns the mix, as it was at the start of the block that the renderer
    /// last began.
    pub fn mix(&self) -> Scalar {
        self.mix.get()
    }

    /// Asks for a transition of the drive to the given value. Fails, without
    /// any effect, when the command queue is full.
    pub fn set_drive(&mut self, drive: Scalar, tween: Tween) -> (result: Result<
        (),
        CommandQueueFull,
    >)
        ensures
            old(self).drive.after_set(final(self).drive, drive, tween, result),
            final(self).mix == old(self).mix,
    {
        self.drive.set(drive, tween)
    }

    /// Asks for a transition of the mix to the given value. Fails, without
    /// any effect, when the command queue is full.
    pub fn set_mix(&mut self, mix: Scalar, tween: Tween) -> (result: Result<
        (),
        CommandQueueFull,
    >)
        ensures
            old(self).mix.after_set(final(self).mix, mix, tween, result),
            final(self).drive == old(self).drive,
    {
        self.mix.set(mix, tween)
    }
}

} // verus!
