use std::time::Duration;

use kira::clock::Clock;
use kira::clocks::Clocks;
use kira::dsp::{Frame, Scalar};
use kira::line::Line;
use kira::track::effect::delay::{Delay, DelayBuilder, DelayState};
use kira::track::effect::distortion::{Distortion, DistortionBuilder, DistortionKind};
use kira::track::effect::filter::{Filter, FilterMode, FilterSettings};
use kira::track::effect::reverb::{
    adjust_buffer_size, all_pass_length, comb_length, Reverb, ReverbBuilder, ReverbState,
};
use kira::tween::{Easing, StartTime, Tween, TweenAdvance, TweenState};
use kira::value::{Mapping, PlaybackRate, Value};
use kira::CommandQueueFull;
use ringbuf::RingBuffer;

fn scalar(value: f64) -> Scalar {
    Scalar::from_bits(value.to_bits())
}

fn number(scalar: Scalar) -> f64 {
    f64::from_bits(scalar.to_bits())
}

fn mono(sample: f32) -> Frame {
    Frame::from_mono(sample.to_bits())
}

fn no_clocks() -> Clocks {
    let (producer, _consumer) = RingBuffer::<Clock>::new(1).split();
    Clocks::new(1, producer)
}

fn at_once() -> Tween {
    Tween {
        start_time: StartTime::Immediate,
        duration: Duration::from_secs(1),
        easing: Easing::Linear,
    }
}

#[test]
fn scalar_constants() {
    assert_eq!(number(Scalar::zero()), 0.0);
    assert_eq!(number(Scalar::one()), 1.0);
    assert_eq!(number(Scalar::half()), 0.5);
    assert_eq!(Frame::zero(), Frame::new(0.0f32.to_bits(), 0.0f32.to_bits()));
    assert_eq!(Scalar::from_bits(7).to_bits(), 7);
}

#[test]
fn line_reads_back_what_was_written() {
    let mut line = Line::new(4, 0u32);
    assert_eq!(line.len(), 4);
    assert_eq!(line.position(), 0);
    for value in 1..=6u32 {
        line.write(value);
    }
    // six writes into four slots: the head is at slot two
    assert_eq!(line.position(), 2);
    // the value written `age` writes ago sits `age + 1` slots behind the head
    assert_eq!(line.get(line.position() + 4 - 1), 6);
    assert_eq!(line.get(line.position() + 4 - 2), 5);
    assert_eq!(line.get(line.position() + 4 - 3), 4);
    assert_eq!(line.get(line.position() + 4 - 4), 3);
    // the oldest value is at the head
    assert_eq!(line.read(), 3);
    assert_eq!(line.window(0), (4, 5, 6, 3));
    assert_eq!(line.window(3), (3, 4, 5, 6));
    assert_eq!(line.window(usize::MAX), (line.get(2), line.get(3), line.get(0), line.get(1)));
}

#[test]
fn delay_defaults_and_memory() {
    let mut builder = DelayBuilder::new();
    assert_eq!(number(builder.delay_time), 0.5);
    assert_eq!(number(builder.feedback), 0.5);
    assert_eq!(number(builder.buffer_length), 10.0);
    assert_eq!(number(builder.mix), 0.5);
    builder.set_delay_time(scalar(0.25));
    builder.set_feedback(scalar(0.1));
    builder.set_buffer_length(scalar(2.0));
    builder.set_mix(scalar(1.0));
    let (mut delay, handle) = builder.into_effect();
    assert_eq!(number(delay.delay_time.get()), 0.25);
    assert_eq!(number(delay.feedback.get()), 0.1);
    assert_eq!(number(delay.mix.get()), 1.0);
    assert_eq!(number(handle.delay_time()), 0.25);
    assert_eq!(number(handle.feedback()), 0.1);
    assert_eq!(number(handle.mix()), 1.0);
    assert_eq!(delay.buffer_length(), Some(scalar(2.0)));

    // two seconds at four frames a second
    delay.init(8);
    assert!(matches!(delay.state, DelayState::Initialized { .. }));
    assert_eq!(delay.buffer_length(), None);
    assert_eq!(delay.buffer_frames(), 8);
    assert_eq!(delay.write_position(), 0);
    assert_eq!(delay.taps(0), (Frame::zero(), Frame::zero(), Frame::zero(), Frame::zero()));
    for sample in 1..=10 {
        delay.write(mono(sample as f32));
    }
    assert_eq!(delay.write_position(), 2);
    // a delay of three frames reads round the frame written three writes ago
    let read = delay.write_position() + 8 - 3;
    assert_eq!(delay.taps(read), (mono(7.0), mono(8.0), mono(9.0), mono(10.0)));
    // at the first slot the frame before is the last slot
    assert_eq!(delay.taps(0), (mono(8.0), mono(9.0), mono(10.0), mono(3.0)));
}

#[test]
fn delay_parameters_follow_their_handle() {
    let clocks = no_clocks();
    let (mut delay, mut handle) = Delay::new(DelayBuilder::default());
    handle.set_delay_time(scalar(1.0), at_once()).unwrap();
    handle.set_feedback(scalar(0.0), at_once()).unwrap();
    handle.set_mix(scalar(0.25), at_once()).unwrap();
    delay.on_start_processing();
    assert!(matches!(delay.delay_time.state(), TweenState::Tweening { .. }));
    delay.update(
        TweenAdvance::Finish,
        TweenAdvance::Progress { elapsed: scalar(0.5), value: scalar(0.25) },
        TweenAdvance::Finish,
        &clocks,
    );
    assert_eq!(number(delay.delay_time.get()), 1.0);
    assert_eq!(number(delay.feedback.get()), 0.25);
    assert_eq!(number(delay.mix.get()), 0.25);
    delay.on_start_processing();
    assert_eq!(number(handle.delay_time()), 1.0);
    assert_eq!(number(handle.feedback()), 0.25);
    assert_eq!(number(handle.mix()), 0.25);
}

#[test]
fn distortion_builder_and_parameters() {
    let clocks = no_clocks();
    let defaults = DistortionBuilder::new();
    assert_eq!(defaults.kind, DistortionKind::HardClip);
    assert_eq!(number(defaults.drive), 1.0);
    assert_eq!(number(defaults.mix), 1.0);
    let builder = defaults.kind(DistortionKind::SoftClip).drive(scalar(4.0)).mix(scalar(0.5));
    let (mut distortion, mut handle) = builder.into_effect();
    assert_eq!(distortion.kind, DistortionKind::SoftClip);
    assert_eq!(number(distortion.drive.get()), 4.0);
    assert_eq!(number(distortion.mix.get()), 0.5);
    handle.set_drive(scalar(2.0), at_once()).unwrap();
    handle.set_mix(scalar(0.0), at_once()).unwrap();
    distortion.on_start_processing();
    distortion.update(TweenAdvance::Finish, TweenAdvance::Finish, &clocks);
    distortion.on_start_processing();
    assert_eq!(number(handle.drive()), 2.0);
    assert_eq!(number(handle.mix()), 0.0);
    let (_other, mut full) = Distortion::new(DistortionBuilder::default());
    for _ in 0..8 {
        full.set_drive(scalar(1.0), at_once()).unwrap();
    }
    assert_eq!(full.set_drive(scalar(1.0), at_once()), Err(CommandQueueFull));
    assert_eq!(full.set_mix(scalar(1.0), at_once()), Ok(()));
}

#[test]
fn filter_settings_and_sampling() {
    let defaults = FilterSettings::new();
    assert_eq!(defaults.mode, FilterMode::LowPass);
    assert!(defaults.cutoff == Value::Fixed(scalar(1000.0)));
    assert!(defaults.resonance == Value::Fixed(scalar(0.0)));
    assert!(defaults.mix == Value::Fixed(scalar(1.0)));

    let (producer, _consumer) = RingBuffer::<Clock>::new(1).split();
    let keys = Clocks::new(1, producer);
    let parameter = kira::parameter::ParameterId(keys.controller().try_reserve().unwrap());
    let bound = Value::<Scalar>::from_parameter(parameter);
    let settings = FilterSettings::default()
        .mode(FilterMode::Notch)
        .cutoff(bound)
        .resonance(Value::Fixed(scalar(0.5)))
        .mix(bound);
    let mut filter = Filter::new(settings);
    assert_eq!(filter.mode, FilterMode::Notch);
    // until they are sampled, bound settings read as their defaults
    assert_eq!(number(filter.cutoff.get()), 10000.0);
    assert_eq!(number(filter.resonance.get()), 0.5);
    assert_eq!(number(filter.mix.get()), 1.0);
    assert_eq!(filter.ic1eq, Frame::zero());
    assert_eq!(filter.ic2eq, Frame::zero());
    filter.update(Some(scalar(440.0)), Some(scalar(0.9)), Some(scalar(0.25)));
    assert_eq!(number(filter.cutoff.get()), 440.0);
    assert_eq!(number(filter.resonance.get()), 0.5);
    assert_eq!(number(filter.mix.get()), 0.25);
    filter.update(None, None, None);
    assert_eq!(number(filter.cutoff.get()), 440.0);
    assert_eq!(number(filter.mix.get()), 0.25);
    assert!(filter.cutoff.binding().is_some());
    assert!(filter.resonance.binding().is_none());
    assert!(filter.cutoff.value() == bound);
}

#[test]
fn value_conversions() {
    let (producer, _consumer) = RingBuffer::<Clock>::new(1).split();
    let keys = Clocks::new(1, producer);
    let parameter = kira::parameter::ParameterId(keys.controller().try_reserve().unwrap());
    assert!(Value::<Scalar>::from_scalar(scalar(2.0)) == Value::Fixed(scalar(2.0)));
    assert!(
        Value::<Scalar>::from_parameter(parameter)
            == Value::Parameter {
                id: parameter,
                mapping: Mapping {
                    input_range: (scalar(0.0), scalar(1.0)),
                    output_range: (scalar(0.0), scalar(1.0)),
                    clamp_bottom: false,
                    clamp_top: false,
                },
            }
    );
    assert!(
        Value::<PlaybackRate>::from_factor(scalar(2.0))
            == Value::Fixed(PlaybackRate::Factor(scalar(2.0)))
    );
    assert!(
        Value::<PlaybackRate>::from_rate(PlaybackRate::Semitones(scalar(12.0)))
            == Value::Fixed(PlaybackRate::Semitones(scalar(12.0)))
    );
    assert!(
        Value::<PlaybackRate>::from_parameter(parameter)
            == Value::Parameter {
                id: parameter,
                mapping: Mapping {
                    input_range: (scalar(0.0), scalar(1.0)),
                    output_range: (
                        PlaybackRate::Factor(scalar(0.0)),
                        PlaybackRate::Factor(scalar(1.0))
                    ),
                    clamp_bottom: false,
                    clamp_top: false,
                },
            }
    );
}

#[test]
fn reverb_filter_lengths() {
    let lengths: Vec<usize> = (0..8).map(comb_length).collect();
    assert_eq!(lengths, vec![1116, 1188, 1277, 1356, 1422, 1491, 1557, 1617]);
    let lengths: Vec<usize> = (0..4).map(all_pass_length).collect();
    assert_eq!(lengths, vec![556, 441, 341, 225]);
    assert_eq!(adjust_buffer_size(1116, 44100), 1116);
    assert_eq!(adjust_buffer_size(1116, 48000), 1214);
    assert_eq!(adjust_buffer_size(441, 48000), 480);
    assert_eq!(adjust_buffer_size(1617 + 23, 96000), 3570);
    assert_eq!(adjust_buffer_size(225, 22050), 112);
    assert_eq!(adjust_buffer_size(225, 0), 0);
    assert_eq!(adjust_buffer_size(44100, u32::MAX), u32::MAX as usize);
}

#[test]
fn reverb_init_makes_the_filters() {
    let defaults = ReverbBuilder::new();
    assert_eq!(number(defaults.feedback), 0.9);
    assert_eq!(number(defaults.damping), 0.1);
    assert_eq!(number(defaults.stereo_width), 1.0);
    assert_eq!(number(defaults.mix), 0.5);
    let builder = defaults
        .feedback(scalar(0.5))
        .damping(scalar(0.2))
        .stereo_width(scalar(0.0))
        .mix(scalar(1.0));
    let (mut reverb, handle) = builder.into_effect();
    assert!(matches!(reverb.state, ReverbState::Uninitialized));
    assert_eq!(number(handle.feedback()), 0.5);
    assert_eq!(number(handle.damping()), 0.2);
    assert_eq!(number(handle.stereo_width()), 0.0);
    assert_eq!(number(handle.mix()), 1.0);
    reverb.init(48000);
    match &reverb.state {
        ReverbState::Initialized { comb_filters, all_pass_filters } => {
            let comb: Vec<(usize, usize)> =
                comb_filters.iter().map(|pair| (pair.0.line.len(), pair.1.line.len())).collect();
            assert_eq!(
                comb,
                vec![
                    (1214, 1239),
                    (1293, 1318),
                    (1389, 1414),
                    (1475, 1500),
                    (1547, 1572),
                    (1622, 1647),
                    (1694, 1719),
                    (1760, 1785)
                ]
            );
            let all_pass: Vec<(usize, usize)> = all_pass_filters
                .iter()
                .map(|pair| (pair.0.line.len(), pair.1.line.len()))
                .collect();
            assert_eq!(all_pass, vec![(605, 630), (480, 505), (371, 396), (244, 269)]);
            assert_eq!(comb_filters[0].0.filter_store, 0);
            assert_eq!(comb_filters[7].1.line.read(), 0);
            assert_eq!(all_pass_filters[3].0.line.position(), 0);
        }
        ReverbState::Uninitialized => panic!("the reverb was initialized"),
    }
}

#[test]
fn reverb_parameters_follow_their_handle() {
    let clocks = no_clocks();
    let (mut reverb, mut handle) = Reverb::new(ReverbBuilder::default());
    handle.set_feedback(scalar(0.1), at_once()).unwrap();
    handle.set_damping(scalar(0.2), at_once()).unwrap();
    handle.set_stereo_width(scalar(0.3), at_once()).unwrap();
    handle.set_mix(scalar(0.4), at_once()).unwrap();
    reverb.on_start_processing();
    reverb.update(
        TweenAdvance::Finish,
        TweenAdvance::Finish,
        TweenAdvance::Finish,
        TweenAdvance::Progress { elapsed: scalar(0.5), value: scalar(0.45) },
        &clocks,
    );
    assert_eq!(number(reverb.feedback.get()), 0.1);
    assert_eq!(number(reverb.damping.get()), 0.2);
    assert_eq!(number(reverb.stereo_width.get()), 0.3);
    assert_eq!(number(reverb.mix.get()), 0.45);
    reverb.update(
        TweenAdvance::Finish,
        TweenAdvance::Finish,
        TweenAdvance::Finish,
        TweenAdvance::Finish,
        &clocks,
    );
    assert_eq!(number(reverb.mix.get()), 0.4);
    reverb.on_start_processing();
    assert_eq!(number(handle.feedback()), 0.1);
    assert_eq!(number(handle.damping()), 0.2);
    assert_eq!(number(handle.stereo_width()), 0.3);
    assert_eq!(number(handle.mix()), 0.4);
    // the mix queue is drained like the others: it never fills for good
    for _ in 0..3 {
        for _ in 0..8 {
            handle.set_mix(scalar(0.4), at_once()).unwrap();
        }
        reverb.on_start_processing();
    }
}
