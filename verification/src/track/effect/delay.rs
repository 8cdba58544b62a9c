//! Repeats audio after a certain delay.

use vstd::prelude::*;

use crate::clocks::Clocks;
use crate::dsp::{Frame, Scalar};
use crate::error::CommandQueueFull;
use crate::parameter::{drained, restarted, Parameter, ParameterHandle};
use crate::tween::{Tween, TweenAdvance, TweenableView};
use crate::line::Line;

verus! {

/// Settings for a [`Delay`] effect.
#[non_exhaustive]
pub struct DelayBuilder {
    /// The delay time (in seconds).
    pub delay_time: Scalar,
    /// The amount of feedback.
    pub feedback: Scalar,
    /// The amount of audio the delay can store (in seconds).
    /// This affects the maximum delay time.
    pub buffer_length: Scalar,
    /// How much dry (unprocessed) signal should be blended
    /// with the wet (processed) signal. `0.0` means
    /// only the dry signal will be heard. `1.0` means
    /// only the wet signal will be heard.
    pub mix: Scalar,
}

impl DelayBuilder {
    /// The settings that [`DelayBuilder::new`] starts from: half a second
    /// of delay, half the signal fed back, ten seconds of memory, wet and
    /// dry in equal parts.
    pub open spec fn spec_default() -> DelayBuilder {
        DelayBuilder {
            delay_time: Scalar::spec_half(),
            feedback: Scalar::spec_half(),
            buffer_length: Scalar { bits: 0x4024_0000_0000_0000 },
            mix: Scalar::spec_half(),
        }
    }

    /// Creates a new `DelayBuilder` with the default settings.
    pub fn new() -> (builder: DelayBuilder)
        ensures
            builder == Self::spec_default(),
    {
        Self::default()
    }

    /// The default settings.
    pub fn default() -> (builder: DelayBuilder)
        ensures
            builder == Self::spec_default(),
    {
        Self {
            delay_time: Scalar::half(),
            feedback: Scalar::half(),
            buffer_length: Scalar::from_bits(0x4024_0000_0000_0000),
            mix: Scalar::half(),
        }
    }

    /// Sets the delay time (in seconds).
    pub fn set_delay_time(&mut self, delay_time: Scalar)
        ensures
            *final(self) == (DelayBuilder { delay_time, ..*old(self) }),
    {
        self.delay_time = delay_time;
    }

    /// Sets the amount of feedback.
    pub fn set_feedback(&mut self, feedback: Scalar)
        ensures
            *final(self) == (DelayBuilder { feedback, ..*old(self) }),
    {
        self.feedback = feedback;
    }

    /// Sets the amount of audio the delay can store.
    pub fn set_buffer_length(&mut self, buffer_length: Scalar)
        ensures
            *final(self) == (DelayBuilder { buffer_length, ..*old(self) }),
    {
        self.buffer_length = buffer_length;
    }

    /// Sets how much dry (unprocessed) signal should be blended
    /// with the wet (processed) signal. `0.0` means only the dry
    /// signal will be heard. `1.0` means only the wet signal will
    /// be heard.
    pub fn set_mix(&mut self, mix: Scalar)
        ensures
            *final(self) == (DelayBuilder { mix, ..*old(self) }),
    {
        self.mix = mix;
    }

    /// Builds the effect and the handle that controls it.
    pub fn into_effect(self) -> (made: (Delay, DelayHandle))
        ensures
            made.1.delay_time.fresh(),
            made.0.delay_time.received().len() == 0,
            made.1.feedback.fresh(),
            made.0.feedback.received().len() == 0,
            made.1.mix.fresh(),
            made.0.mix.received().len() == 0,
            made.0.delay_time@ == TweenableView::resting(self.delay_time),
            made.0.feedback@ == TweenableView::resting(self.feedback),
            made.0.mix@ == TweenableView::resting(self.mix),
            made.0.state == (DelayState::Uninitialized { buffer_length: self.buffer_length }),
    {
        Delay::new(self)
    }
}

/// Whether a delay has its memory yet.
pub enum DelayState {
    /// The memory is still to be made.
    Uninitialized {
        /// The amount of audio that the memory is to hold, in seconds.
        buffer_length: Scalar,
    },
    /// The delay can process audio.
    Initialized {
        /// The memory: one slot for each frame it holds.
        line: Line<Frame>,
    },
}

impl DelayState {
    /// Whether the delay can process audio: it has a memory of at least one
    /// frame, with the write head among its slots.
    pub open spec fn ready(self) -> bool {
        self matches DelayState::Initialized { line } && line@.wf() && line@.slots.len() > 0
    }
}

/// An effect that repeats audio after a certain delay. Useful
/// for creating echo effects.
pub struct Delay {
    /// The delay time, in seconds.
    pub delay_time: Parameter,
    /// The share of the output that is written back into the memory.
    pub feedback: Parameter,
    /// The share of the wet signal in the output.
    pub mix: Parameter,
    /// The memory.
    pub state: DelayState,
}

impl Delay {
    /// Creates a new delay effect, still without its memory.
    pub fn new(builder: DelayBuilder) -> (made: (Delay, DelayHandle))
        ensures
            made.1.delay_time.fresh(),
            made.0.delay_time.received().len() == 0,
            made.1.feedback.fresh(),
            made.0.feedback.received().len() == 0,
            made.1.mix.fresh(),
            made.0.mix.received().len() == 0,
            made.0.delay_time@ == TweenableView::resting(builder.delay_time),
            made.0.feedback@ == TweenableView::resting(builder.feedback),
            made.0.mix@ == TweenableView::resting(builder.mix),
            made.0.state == (DelayState::Uninitialized { buffer_length: builder.buffer_length }),
    {
        let (delay_time, delay_time_handle) = Parameter::new(builder.delay_time);
        let (feedback, feedback_handle) = Parameter::new(builder.feedback);
        let (mix, mix_handle) = Parameter::new(builder.mix);
        (
            Delay {
                delay_time,
                feedback,
                mix,
                state: DelayState::Uninitialized { buffer_length: builder.buffer_length },
            },
            DelayHandle {
                delay_time: delay_time_handle,
                feedback: feedback_handle,
                mix: mix_handle,
            },
        )
    }

    /// The amount of audio that the memory is to hold, in seconds, as long
    /// as the memory is not made.
    pub fn buffer_length(&self) -> (length: Option<Scalar>)
        ensures
            length == (match self.state {
                DelayState::Uninitialized { buffer_length } => Some(buffer_length),
                DelayState::Initialized { .. } => None,
            }),
    {
        match &self.state {
            DelayState::Uninitialized { buffer_length } => Some(*buffer_length),
            DelayState::Initialized { .. } => None,
        }
    }

    /// Makes the memory: `frames` slots of silence, the number of frames
    /// that the buffer length comes to at the sample rate. To be called
    /// once, before the first sample is processed; a second call is an error
    /// of the caller and left out.
    pub fn init(&mut self, frames: usize)
        requires
            old(self).state is Uninitialized,
        ensures
            final(self).delay_time == old(self).delay_time,
            final(self).feedback == old(self).feedback,
            final(self).mix == old(self).mix,
            final(self).state matches DelayState::Initialized { line } && line@.wf()
                && line@.position == 0 && line@.slots.len() == frames && (forall|i: int|
                0 <= i < frames ==> line@.slots[i] == Frame::spec_zero()),
    {
        self.state = DelayState::Initialized { line: Line::new(frames, Frame::zero()) };
    }

    /// Starts a block: each parameter applies the commands that wait for it.
    pub fn on_start_processing(&mut self)
        ensures
            final(self).state == old(self).state,
            drained(old(self).delay_time, final(self).delay_time),
            drained(old(self).feedback, final(self).feedback),
            drained(old(self).mix, final(self).mix),
            restarted(old(self).delay_time@, final(self).delay_time@),
            restarted(old(self).feedback@, final(self).feedback@),
            restarted(old(self).mix@, final(self).mix@),
    {
        self.delay_time.on_start_processing();
        self.feedback.on_start_processing();
        self.mix.on_start_processing();
    }

    /// Lets one sample's worth of time pass for each parameter.
    pub fn update(
        &mut self,
        delay_time: TweenAdvance,
        feedback: TweenAdvance,
        mix: TweenAdvance,
        clocks: &Clocks,
    )
        requires
            clocks.wf(),
            old(self).delay_time@.known_to(*clocks),
            old(self).feedback@.known_to(*clocks),
            old(self).mix@.known_to(*clocks),
        ensures
            final(self).state == old(self).state,
            final(self).delay_time@ == old(self).delay_time@.updated(delay_time, *clocks),
            final(self).feedback@ == old(self).feedback@.updated(feedback, *clocks),
            final(self).mix@ == old(self).mix@.updated(mix, *clocks),
    {
        self.delay_time.update(delay_time, clocks);
        self.feedback.update(feedback, clocks);
        self.mix.update(mix, clocks);
    }

    /// The slot that the next frame is written to.
    pub fn write_position(&self) -> (position: usize)
        requires
            self.state is Initialized,
        ensures
            self.state matches DelayState::Initialized { line } && position == line@.position,
    {
        match &self.state {
            DelayState::Initialized { line } => line.position(),
            DelayState::Uninitialized { .. } => 0,
        }
    }

    /// The number of frames that the memory holds.
    pub fn buffer_frames(&self) -> (frames: usize)
        requires
            self.state is Initialized,
        ensures
            self.state matches DelayState::Initialized { line } && frames == line@.slots.len(),
    {
        match &self.state {
            DelayState::Initialized { line } => line.len(),
            DelayState::Uninitialized { .. } => 0,
        }
    }

    /// The four frames that the delayed frame is interpolated from: the
    /// one before the read position, the one at it, and the two after it,
    /// each counted round the memory.
    pub fn taps(&self, read_position: usize) -> (frames: (Frame, Frame, Frame, Frame))
        requires
            self.state.ready(),
        ensures
            self.state matches DelayState::Initialized { line } && frames == (
                line@.at(read_position - 1),
                line@.at(read_position as int),
                line@.at(read_position + 1),
                line@.at(read_position + 2),
            ),
    {
        match &self.state {
            DelayState::Initialized { line } => line.window(read_position),
            DelayState::Uninitialized { .. } => (
                Frame::zero(),
                Frame::zero(),
                Frame::zero(),
                Frame::zero(),
            ),
        }
    }

    /// Writes `frame`, the input plus the fed-back output, at the write
    /// position and moves the write position on by one, round the memory.
    pub fn write(&mut self, frame: Frame)
        requires
            old(self).state.ready(),
        ensures
            final(self).delay_time == old(self).delay_time,
            final(self).feedback == old(self).feedback,
            final(self).mix == old(self).mix,
            final(self).state.ready(),
            final(self).state->line@ == old(self).state->line@.written(frame),
    {
        match &mut self.state {
            DelayState::Initialized { line } => {
                line.write(frame);
            },
            DelayState::Uninitialized { .. } => {},
        }
    }
}

/// Controls a delay effect from control code.
pub struct DelayHandle {
    /// The handle of the delay time.
    pub delay_time: ParameterHandle,
    /// The handle of the feedback.
    pub feedback: ParameterHandle,
    /// The handle of the mix.
    pub mix: ParameterHandle,
}

impl DelayHandle {
    /// Returns the delay time, as it was at the start of the block that the renderer
    /// last began.
    pub fn delay_time(&self) -> Scalar {
        self.delay_time.get()
    }

    /// Returns the feedback, as it was at the start of the block that the renderer
    /// last began.
    pub fn feedback(&self) -> Scalar {
        self.feedback.get()
    }

    /// Returns the mix, as it was at the start of the block that the renderer
    /// last began.
    pub fn mix(&self) -> Scalar {
        self.mix.get()
    }

    /// Asks for a transition of the delay time to the given value. Fails, without
    /// any effect, when the command queue is full.
    pub fn set_delay_time(&mut self, delay_time: Scalar, tween: Tween) -> (result: Result<
        (),
        CommandQueueFull,
    >)
        ensures
            old(self).delay_time.after_set(final(self).delay_time, delay_time, tween, result),
            final(self).feedback == old(self).feedback,
            final(self).mix == old(self).mix,
    {
        self.delay_time.set(delay_time, tween)
    }

    /// Asks for a transition of the feedback to the given value. Fails, without
    /// any effect, when the command queue is full.
    pub fn set_feedback(&mut self, feedback: Scalar, tween: Tween) -> (result: Result<
        (),
        CommandQueueFull,
    >)
        ensures
            old(self).feedback.after_set(final(self).feedback, feedback, tween, result),
            final(self).delay_time == old(self).delay_time,
            final(self).mix == old(self).mix,
    {
        self.feedback.set(feedback, tween)
    }

    /// Asks for a transition of the mix to the given value. Fails, without
    /// any effect, when the command queue is full.
    pub fn set_mix(&mut self, mix: Scalar, tween: Tween) -> (result: Result<
        (),
        CommandQueueFull,
    >)
        ensures
            old(self).mix.after_set(final(self).mix, mix, tween, result),
            final(self).delay_time == old(self).delay_time,
            final(self).feedback == old(self).feedback,
    {
        self.mix.set(mix, tween)
    }
}

} // verus!
