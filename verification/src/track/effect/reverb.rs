//! Adds reverberations to a sound.

use vstd::prelude::*;

use crate::clocks::Clocks;
use crate::dsp::Scalar;
use crate::error::CommandQueueFull;
use crate::line::{Line, LineView};
use crate::parameter::{drained, restarted, Parameter, ParameterHandle};
use crate::tween::{Tween, TweenAdvance, TweenableView};

verus! {

/// The number of comb filters for each channel.
pub const NUM_COMB_FILTERS: usize = 8;

/// The number of all-pass filters for each channel.
pub const NUM_ALL_PASS_FILTERS: usize = 4;

/// The number of samples by which each filter of the right channel is longer
/// than its twin of the left channel, at the reference sample rate.
pub const STEREO_SPREAD: usize = 23;

/// The sample rate that the filter lengths are given for.
pub const REFERENCE_SAMPLE_RATE: u32 = 44100;

/// The length of comb filter `index` of the left channel at the reference
/// sample rate.
pub open spec fn spec_comb_length(index: int) -> nat {
    if index == 0 {
        1116
    } else if index == 1 {
        1188
    } else if index == 2 {
        1277
    } else if index == 3 {
        1356
    } else if index == 4 {
        1422
    } else if index == 5 {
        1491
    } else if index == 6 {
        1557
    } else {
        1617
    }
}

/// The length of all-pass filter `index` of the left channel at the
/// reference sample rate.
pub open spec fn spec_all_pass_length(index: int) -> nat {
    if index == 0 {
        556
    } else if index == 1 {
        441
    } else if index == 2 {
        341
    } else {
        225
    }
}

/// A length at the reference sample rate, scaled to `sample_rate` and
/// rounded down.
pub open spec fn scaled(length: nat, sample_rate: nat) -> nat {
    length * sample_rate / 44100
}

/// The length of comb filter `index` of the left channel at the reference
/// sample rate.
#[verifier::when_used_as_spec(spec_comb_length_of)]
pub fn comb_length(index: usize) -> (length: usize)
    requires
        index < NUM_COMB_FILTERS,
    ensures
        length == spec_comb_length(index as int),
{
    if index == 0 {
        1116
    } else if index == 1 {
        1188
    } else if index == 2 {
        1277
    } else if index == 3 {
        1356
    } else if index == 4 {
        1422
    } else if index == 5 {
        1491
    } else if index == 6 {
        1557
    } else {
        1617
    }
}

/// The length of all-pass filter `index` of the left channel at the
/// reference sample rate.
#[verifier::when_used_as_spec(spec_all_pass_length_of)]
pub fn all_pass_length(index: usize) -> (length: usize)
    requires
        index < NUM_ALL_PASS_FILTERS,
    ensures
        length == spec_all_pass_length(index as int),
{
    if index == 0 {
        556
    } else if index == 1 {
        441
    } else if index == 2 {
        341
    } else {
        225
    }
}

/// [`spec_comb_length`] of a machine index.
pub open spec fn spec_comb_length_of(index: usize) -> usize {
    spec_comb_length(index as int) as usize
}

/// [`spec_all_pass_length`] of a machine index.
pub open spec fn spec_all_pass_length_of(index: usize) -> usize {
    spec_all_pass_length(index as int) as usize
}

/// Scales a filter length from the reference sample rate to `sample_rate`,
/// rounding down. The length is at most one second at the reference sample
/// rate, so that the scaled length fits wherever the sample rate fits.
pub fn adjust_buffer_size(buffer_size: usize, sample_rate: u32) -> (adjusted: usize)
    requires
        buffer_size <= REFERENCE_SAMPLE_RATE,
    ensures
        adjusted == scaled(buffer_size as nat, sample_rate as nat),
{
    assert(buffer_size * sample_rate <= 44100 * sample_rate) by (nonlinear_arith)
        requires
            buffer_size <= 44100,
            sample_rate >= 0,
    ;
    let product: u64 = (buffer_size as u64) * (sample_rate as u64);
    let adjusted: u64 = product / 44100;
    assert(adjusted <= sample_rate) by (nonlinear_arith)
        requires
            product <= 44100 * sample_rate,
            adjusted == product / 44100,
    ;
    adjusted as usize
}

/// Whether `line` is a line of `length` slots of silence with the write head
/// at its first slot.
pub open spec fn silent(line: LineView<u32>, length: nat) -> bool {
    &&& line.wf()
    &&& line.position == 0
    &&& line.slots.len() == length
    &&& forall|i: int| 0 <= i < length ==> line.slots[i] == 0
}

/// A feedback comb filter with a damped feedback path.
pub struct CombFilter {
    /// The delayed samples.
    pub line: Line<u32>,
    /// The state of the damping low pass.
    pub filter_store: u32,
}

impl CombFilter {
    /// Creates a comb filter at rest that delays by `buffer_size` samples.
    pub fn new(buffer_size: usize) -> (filter: CombFilter)
        ensures
            silent(filter.line@, buffer_size as nat),
            filter.filter_store == 0,
    {
        CombFilter { line: Line::new(buffer_size, 0), filter_store: 0 }
    }
}

/// An all-pass filter.
pub struct AllPassFilter {
    /// The delayed samples.
    pub line: Line<u32>,
}

impl AllPassFilter {
    /// Creates an all-pass filter at rest that delays by `buffer_size`
    /// samples.
    pub fn new(buffer_size: usize) -> (filter: AllPassFilter)
        ensures
            silent(filter.line@, buffer_size as nat),
    {
        AllPassFilter { line: Line::new(buffer_size, 0) }
    }
}

/// Settings for a `Reverb`.
#[derive(Debug, Copy, Clone)]
#[non_exhaustive]
pub struct ReverbBuilder {
    /// How much the room reverberates. A higher value will
    /// result in a bigger sounding room. 1.0 gives an infinitely
    /// reverberating room.
    pub feedback: Scalar,
    /// How quickly high frequencies disappear from the reverberation.
    pub damping: Scalar,
    /// The stereo width of the reverb effect (0.0 being fully mono,
    /// 1.0 being fully stereo).
    pub stereo_width: Scalar,
    /// How much dry (unprocessed) signal should be blended
    /// with the wet (processed) signal. `0.0` means
    /// only the dry signal will be heard. `1.0` means
    /// only the wet signal will be heard.
    pub mix: Scalar,
}

impl ReverbBuilder {
    /// The settings that [`ReverbBuilder::new`] starts from: a feedback of
    /// 0.9, a damping of 0.1, full stereo width, wet and dry in equal parts.
    pub open spec fn spec_default() -> ReverbBuilder {
        ReverbBuilder {
            feedback: Scalar { bits: 0x3FEC_CCCC_CCCC_CCCD },
            damping: Scalar { bits: 0x3FB9_9999_9999_999A },
            stereo_width: Scalar::spec_one(),
            mix: Scalar::spec_half(),
        }
    }

    /// Creates a new `ReverbBuilder` with the default settings.
    pub fn new() -> (builder: ReverbBuilder)
        ensures
            builder == Self::spec_default(),
    {
        Self::default()
    }

    /// The default settings.
    pub fn default() -> (builder: ReverbBuilder)
        ensures
            builder == Self::spec_default(),
    {
        Self {
            feedback: Scalar::from_bits(0x3FEC_CCCC_CCCC_CCCD),
            damping: Scalar::from_bits(0x3FB9_9999_9999_999A),
            stereo_width: Scalar::one(),
            mix: Scalar::half(),
        }
    }

    /// Sets how much the room reverberates. A higher value will
    /// result in a bigger sounding room. 1.0 gives an infinitely
    /// reverberating room.
    pub fn feedback(self, feedback: Scalar) -> (builder: ReverbBuilder)
        ensures
            builder == (ReverbBuilder { feedback, ..self }),
    {
        Self { feedback, ..self }
    }

    /// Sets how quickly high frequencies disappear from the reverberation.
    pub fn damping(self, damping: Scalar) -> (builder: ReverbBuilder)
        ensures
            builder == (ReverbBuilder { damping, ..self }),
    {
        Self { damping, ..self }
    }

    /// Sets the stereo width of the reverb effect (0.0 being fully mono,
    /// 1.0 being fully stereo).
    pub fn stereo_width(self, stereo_width: Scalar) -> (builder: ReverbBuilder)
        ensures
            builder == (ReverbBuilder { stereo_width, ..self }),
    {
        Self { stereo_width, ..self }
    }

    /// Sets how much dry (unprocessed) signal should be blended
    /// with the wet (processed) signal. `0.0` means only the dry
    /// signal will be heard. `1.0` means only the wet signal will
    /// be heard.
    pub fn mix(self, mix: Scalar) -> (builder: ReverbBuilder)
        ensures
            builder == (ReverbBuilder { mix, ..self }),
    {
        Self { mix, ..self }
    }

    /// Builds the effect and the handle that controls it.
    pub fn into_effect(self) -> (made: (Reverb, ReverbHandle))
        ensures
            made.1.feedback.fresh(),
            made.0.feedback.received().len() == 0,
            made.1.damping.fresh(),
            made.0.damping.received().len() == 0,
            made.1.stereo_width.fresh(),
            made.0.stereo_width.received().len() == 0,
            made.1.mix.fresh(),
            made.0.mix.received().len() == 0,
            made.0.feedback@ == TweenableView::resting(self.feedback),
            made.0.damping@ == TweenableView::resting(self.damping),
            made.0.stereo_width@ == TweenableView::resting(self.stereo_width),
            made.0.mix@ == TweenableView::resting(self.mix),
            made.0.state is Uninitialized,
    {
        Reverb::new(self)
    }
}

/// Whether a reverb has its filters yet.
pub enum ReverbState {
    /// The filters are still to be made.
    Uninitialized,
    /// The reverb can process audio.
    Initialized {
        /// The comb filters, which work side by side: for each, the one of
        /// the left and the one of the right channel.
        comb_filters: Vec<(CombFilter, CombFilter)>,
        /// The all-pass filters, which work one after the other: for each,
        /// the one of the left and the one of the right channel.
        all_pass_filters: Vec<(AllPassFilter, AllPassFilter)>,
    },
}

impl ReverbState {
    /// Whether the filters are those of a reverb just made for
    /// `sample_rate`: each at rest, with its length at the reference sample
    /// rate scaled to `sample_rate`, and each filter of the right channel
    /// longer than its twin by the stereo spread before scaling.
    pub open spec fn fresh_for(self, sample_rate: u32) -> bool {
        &&& self matches ReverbState::Initialized { comb_filters, all_pass_filters }
        &&& comb_filters@.len() == NUM_COMB_FILTERS
        &&& all_pass_filters@.len() == NUM_ALL_PASS_FILTERS
        &&& forall|i: int|
            0 <= i < NUM_COMB_FILTERS ==> {
                &&& silent(
                    (#[trigger] comb_filters@[i]).0.line@,
                    scaled(spec_comb_length(i), sample_rate as nat),
                )
                &&& silent(
                    comb_filters@[i].1.line@,
                    scaled(spec_comb_length(i) + STEREO_SPREAD as nat, sample_rate as nat),
                )
                &&& comb_filters@[i].0.filter_store == 0
                &&& comb_filters@[i].1.filter_store == 0
            }
        &&& forall|i: int|
            0 <= i < NUM_ALL_PASS_FILTERS ==> {
                &&& silent(
                    (#[trigger] all_pass_filters@[i]).0.line@,
                    scaled(spec_all_pass_length(i), sample_rate as nat),
                )
                &&& silent(
                    all_pass_filters@[i].1.line@,
                    scaled(spec_all_pass_length(i) + STEREO_SPREAD as nat, sample_rate as nat),
                )
            }
    }
}

/// A reverb effect. Useful for simulating room tones.
pub struct Reverb {
    /// How much the room reverberates.
    pub feedback: Parameter,
    /// How quickly high frequencies disappear from the reverberation.
    pub damping: Parameter,
    /// The stereo width.
    pub stereo_width: Parameter,
    /// The share of the wet signal in the output.
    pub mix: Parameter,
    /// The filters.
    pub state: ReverbState,
}

impl Reverb {
    /// Creates a new `Reverb` effect, still without its filters.
    pub fn new(builder: ReverbBuilder) -> (made: (Reverb, ReverbHandle))
        ensures
            made.1.feedback.fresh(),
            made.0.feedback.received().len() == 0,
            made.1.damping.fresh(),
            made.0.damping.received().len() == 0,
            made.1.stereo_width.fresh(),
            made.0.stereo_width.received().len() == 0,
            made.1.mix.fresh(),
            made.0.mix.received().len() == 0,
            made.0.feedback@ == TweenableView::resting(builder.feedback),
            made.0.damping@ == TweenableView::resting(builder.damping),
            made.0.stereo_width@ == TweenableView::resting(builder.stereo_width),
            made.0.mix@ == TweenableView::resting(builder.mix),
            made.0.state is Uninitialized,
    {
        let (feedback, feedback_handle) = Parameter::new(builder.feedback);
        let (damping, damping_handle) = Parameter::new(builder.damping);
        let (stereo_width, stereo_width_handle) = Parameter::new(builder.stereo_width);
        let (mix, mix_handle) = Parameter::new(builder.mix);
        (
            Reverb { feedback, damping, stereo_width, mix, state: ReverbState::Uninitialized },
            ReverbHandle {
                feedback: feedback_handle,
                damping: damping_handle,
                stereo_width: stereo_width_handle,
                mix: mix_handle,
            },
        )
    }

    /// Makes the filters for `sample_rate`: see [`ReverbState::fresh_for`].
    /// To be called once, before the first sample is processed; a second
    /// call is an error of the caller and left out.
    pub fn init(&mut self, sample_rate: u32)
        requires
            old(self).state is Uninitialized,
        ensures
            final(self).feedback == old(self).feedback,
            final(self).damping == old(self).damping,
            final(self).stereo_width == old(self).stereo_width,
            final(self).mix == old(self).mix,
            final(self).state.fresh_for(sample_rate),
    {
        let mut comb_filters: Vec<(CombFilter, CombFilter)> = Vec::new();
        let mut i: usize = 0;
        while i < NUM_COMB_FILTERS
            invariant
                i <= NUM_COMB_FILTERS,
                comb_filters@.len() == i,
                forall|j: int|
                    0 <= j < i ==> {
                        &&& silent(
                            (#[trigger] comb_filters@[j]).0.line@,
                            scaled(spec_comb_length(j), sample_rate as nat),
                        )
                        &&& silent(
                            comb_filters@[j].1.line@,
                            scaled(
                                spec_comb_length(j) + STEREO_SPREAD as nat,
                                sample_rate as nat,
                            ),
                        )
                        &&& comb_filters@[j].0.filter_store == 0
                        &&& comb_filters@[j].1.filter_store == 0
                    },
            decreases NUM_COMB_FILTERS - i,
        {
            let length = comb_length(i);
            let left = CombFilter::new(adjust_buffer_size(length, sample_rate));
            let right = CombFilter::new(adjust_buffer_size(length + STEREO_SPREAD, sample_rate));
            comb_filters.push((left, right));
            i = i + 1;
        }
        let mut all_pass_filters: Vec<(AllPassFilter, AllPassFilter)> = Vec::new();
        let mut k: usize = 0;
        while k < NUM_ALL_PASS_FILTERS
            invariant
                k <= NUM_ALL_PASS_FILTERS,
                all_pass_filters@.len() == k,
                forall|j: int|
                    0 <= j < k ==> {
                        &&& silent(
                            (#[trigger] all_pass_filters@[j]).0.line@,
                            scaled(spec_all_pass_length(j), sample_rate as nat),
                        )
                        &&& silent(
                            all_pass_filters@[j].1.line@,
                            scaled(
                                spec_all_pass_length(j) + STEREO_SPREAD as nat,
                                sample_rate as nat,
                            ),
                        )
                    },
            decreases NUM_ALL_PASS_FILTERS - k,
        {
            let length = all_pass_length(k);
            let left = AllPassFilter::new(adjust_buffer_size(length, sample_rate));
            let right = AllPassFilter::new(
                adjust_buffer_size(length + STEREO_SPREAD, sample_rate),
            );
            all_pass_filters.push((left, right));
            k = k + 1;
        }
        self.state = ReverbState::Initialized { comb_filters, all_pass_filters };
    }

    /// Starts a block: each parameter applies the commands that wait for it.
    pub fn on_start_processing(&mut self)
        ensures
            final(self).state == old(self).state,
            drained(old(self).feedback, final(self).feedback),
            drained(old(self).damping, final(self).damping),
            drained(old(self).stereo_width, final(self).stereo_width),
            drained(old(self).mix, final(self).mix),
            restarted(old(self).feedback@, final(self).feedback@),
            restarted(old(self).damping@, final(self).damping@),
            restarted(old(self).stereo_width@, final(self).stereo_width@),
            restarted(old(self).mix@, final(self).mix@),
    {
        self.feedback.on_start_processing();
        self.damping.on_start_processing();
        self.stereo_width.on_start_processing();
        self.mix.on_start_processing();
    }

    /// Lets one sample's worth of time pass for each parameter.
    pub fn update(
        &mut self,
        feedback: TweenAdvance,
        damping: TweenAdvance,
        stereo_width: TweenAdvance,
        mix: TweenAdvance,
        clocks: &Clocks,
    )
        requires
            clocks.wf(),
            old(self).feedback@.known_to(*clocks),
            old(self).damping@.known_to(*clocks),
            old(self).stereo_width@.known_to(*clocks),
            old(self).mix@.known_to(*clocks),
        ensures
            final(self).state == old(self).state,
            final(self).feedback@ == old(self).feedback@.updated(feedback, *clocks),
            final(self).damping@ == old(self).damping@.updated(damping, *clocks),
            final(self).stereo_width@ == old(self).stereo_width@.updated(stereo_width, *clocks),
            final(self).mix@ == old(self).mix@.updated(mix, *clocks),
    {
        self.feedback.update(feedback, clocks);
        self.damping.update(damping, clocks);
        self.stereo_width.update(stereo_width, clocks);
        self.mix.update(mix, clocks);
    }
}

/// Controls a reverb effect from control code.
pub struct ReverbHandle {
    /// The handle of the feedback.
    pub feedback: ParameterHandle,
    /// The handle of the damping.
    pub damping: ParameterHandle,
    /// The handle of the stereo width.
    pub stereo_width: ParameterHandle,
    /// The handle of the mix.
    pub mix: ParameterHandle,
}

impl ReverbHandle {
    /// Returns the feedback, as it was at the start of the block that the renderer
    /// last began.
    pub fn feedback(&self) -> Scalar {
        self.feedback.get()
    }

    /// Returns the damping, as it was at the start of the block that the renderer
    /// last began.
    pub fn damping(&self) -> Scalar {
        self.damping.get()
    }

    /// Returns the stereo width, as it was at the start of the block that the renderer
    /// last began.
    pub fn stereo_width(&self) -> Scalar {
        self.stereo_width.get()
    }

    /// Returns the mix, as it was at the start of the block that the renderer
    /// last began.
    pub fn mix(&self) -> Scalar {
        self.mix.get()
    }

    /// Asks for a transition of the feedback to the given value. Fails, without
    /// any effect, when the command queue is full.
    pub fn set_feedback(&mut self, feedback: Scalar, tween: Tween) -> (result: Result<
        (),
        CommandQueueFull,
    >)
        ensures
            old(self).feedback.after_set(final(self).feedback, feedback, tween, result),
            final(self).damping == old(self).damping,
            final(self).stereo_width == old(self).stereo_width,
            final(self).mix == old(self).mix,
    {
        self.feedback.set(feedback, tween)
    }

    /// Asks for a transition of the damping to the given value. Fails, without
    /// any effect, when the command queue is full.
    pub fn set_damping(&mut self, damping: Scalar, tween: Tween) -> (result: Result<
        (),
        CommandQueueFull,
    >)
        ensures
            old(self).damping.after_set(final(self).damping, damping, tween, result),
            final(self).feedback == old(self).feedback,
            final(self).stereo_width == old(self).stereo_width,
            final(self).mix == old(self).mix,
    {
        self.damping.set(damping, tween)
    }

    /// Asks for a transition of the stereo width to the given value. Fails, without
    /// any effect, when the command queue is full.
    pub fn set_stereo_width(&mut self, stereo_width: Scalar, tween: Tween) -> (result: Result<
        (),
        CommandQueueFull,
    >)
        ensures
            old(self).stereo_width.after_set(final(self).stereo_width, stereo_width, tween, result),
            final(self).feedback == old(self).feedback,
            final(self).damping == old(self).damping,
            final(self).mix == old(self).mix,
    {
        self.stereo_width.set(stereo_width, tween)
    }

    /// Asks for a transition of the mix to the given value. Fails, without
    /// any effect, when the command queue is full.
    pub fn set_mix(&mut self, mix: Scalar, tween: Tween) -> (result: Result<
        (),
        CommandQueueFull,
    >)
        ensures
            old(self).mix.after_set(final(self).mix, mix, tween, result),
            final(self).feedback == old(self).feedback,
            final(self).damping == old(self).damping,
            final(self).stereo_width == old(self).stereo_width,
    {
        self.mix.set(mix, tween)
    }
}

} // verus!
