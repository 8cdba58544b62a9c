use std::sync::Arc;
use std::time::Duration;

use kira::clock::Clock;
use kira::clocks::Clocks;
use kira::dsp::{Frame, Scalar};
use kira::sound::static_sound::{
    Command, PlaybackState, SoundStep, StaticSound, StaticSoundData, StaticSoundSettings,
};
use kira::track::TrackId;
use kira::tween::{Easing, StartTime, Tween, TweenAdvance};
use ringbuf::RingBuffer;

fn mono(sample: f32) -> Frame {
    Frame::from_mono(sample.to_bits())
}

fn frame_at(data: &StaticSoundData, position: f64) -> Frame {
    data.frame_at_index((position * data.sample_rate as f64).floor() as i64)
}

fn no_clocks() -> Clocks {
    let (producer, _consumer) = RingBuffer::<Clock>::new(1).split();
    Clocks::new(1, producer)
}

fn linear(seconds: u64) -> Tween {
    Tween {
        start_time: StartTime::Immediate,
        duration: Duration::from_secs(seconds),
        easing: Easing::Linear,
    }
}

fn scalar(value: f64) -> Scalar {
    Scalar::from_bits(value.to_bits())
}

fn progress(elapsed: f64, value: f64) -> TweenAdvance {
    TweenAdvance::Progress { elapsed: scalar(elapsed), value: scalar(value) }
}

#[test]
fn duration() {
    let static_sound = StaticSoundData {
        sample_rate: 1,
        frames: Arc::new(vec![mono(0.0); 4]),
        settings: StaticSoundSettings::default(),
    };
    assert_eq!(static_sound.duration(), Duration::from_secs(4));
}

#[test]
fn frame_at_position() {
    let static_sound = StaticSoundData {
        sample_rate: 1,
        frames: Arc::new(vec![mono(0.0), mono(1.0), mono(2.0), mono(3.0)]),
        settings: StaticSoundSettings::default(),
    };
    assert_eq!(frame_at(&static_sound, -1.0), mono(0.0));
    assert_eq!(frame_at(&static_sound, 0.0), mono(0.0));
    assert_eq!(frame_at(&static_sound, 1.0), mono(1.0));
    assert_eq!(frame_at(&static_sound, 2.0), mono(2.0));
    assert_eq!(frame_at(&static_sound, 3.0), mono(3.0));
    assert_eq!(frame_at(&static_sound, 4.0), mono(0.0));
}

#[test]
fn duration_keeps_the_part_of_a_second() {
    let static_sound = StaticSoundData {
        sample_rate: 4,
        frames: Arc::new(vec![mono(0.0); 6]),
        settings: StaticSoundSettings::default(),
    };
    assert_eq!(static_sound.duration(), Duration::new(1, 500_000_000));
    let at_44100 = StaticSoundData {
        sample_rate: 44100,
        frames: Arc::new(vec![mono(0.0); 1]),
        settings: StaticSoundSettings::default(),
    };
    assert_eq!(at_44100.duration(), Duration::new(0, 22675));
}

#[test]
fn frame_lookup_outside_the_audio_is_silent() {
    let static_sound = StaticSoundData {
        sample_rate: 2,
        frames: Arc::new(vec![mono(5.0), mono(6.0)]),
        settings: StaticSoundSettings::default(),
    };
    assert_eq!(static_sound.frame_at_index(i64::MIN), Frame::zero());
    assert_eq!(static_sound.frame_at_index(-1), Frame::zero());
    assert_eq!(static_sound.frame_at_index(0), mono(5.0));
    assert_eq!(static_sound.frame_at_index(1), mono(6.0));
    assert_eq!(static_sound.frame_at_index(2), Frame::zero());
    assert_eq!(static_sound.frame_at_index(i64::MAX), Frame::zero());
    assert_eq!(frame_at(&static_sound, 0.75), mono(6.0));
}

#[test]
fn default_settings() {
    let settings = StaticSoundSettings::new();
    assert!(matches!(settings.start_time, StartTime::Immediate));
    assert_eq!(settings.start_position, scalar(0.0));
    assert!(settings.volume == kira::value::Value::Fixed(scalar(1.0)));
    assert!(settings.playback_rate == kira::value::Value::Fixed(scalar(1.0)));
    assert!(settings.panning == kira::value::Value::Fixed(scalar(0.5)));
    assert!(!settings.reverse);
    assert!(settings.loop_behavior.is_none());
    assert_eq!(settings.track, TrackId::Main);
    assert!(settings.fade_in_tween.is_none());
    let changed = settings.reverse(true).start_position(scalar(2.0));
    assert!(changed.reverse);
    assert_eq!(changed.start_position, scalar(2.0));
    assert_eq!(changed.track, TrackId::Main);
}

#[test]
fn playback_state_codes_round_trip() {
    let states = [
        PlaybackState::Playing,
        PlaybackState::Pausing,
        PlaybackState::Paused,
        PlaybackState::Stopping,
        PlaybackState::Stopped,
    ];
    for (code, state) in states.iter().enumerate() {
        assert_eq!(state.to_u8(), code as u8);
        assert_eq!(PlaybackState::from_u8(code as u8), *state);
    }
    assert_eq!(PlaybackState::from_u8(200), PlaybackState::Stopped);
}

fn four_frames() -> StaticSoundData {
    StaticSoundData {
        sample_rate: 1,
        frames: Arc::new(vec![mono(0.0), mono(1.0), mono(2.0), mono(3.0)]),
        settings: StaticSoundSettings::default(),
    }
}

#[test]
fn position_advances_only_while_heard() {
    let clocks = no_clocks();
    let (mut sound, mut handle) = StaticSound::new(four_frames(), scalar(0.0));
    assert_eq!(sound.state(), PlaybackState::Playing);
    let step = |position: f64| SoundStep {
        position: scalar(position),
        reached_end: false,
        fade: TweenAdvance::Finish,
    };
    assert!(sound.process(step(0.5), &clocks));
    assert!(sound.process(step(1.0), &clocks));
    assert_eq!(sound.position(), scalar(1.0));

    handle.pause(linear(1)).unwrap();
    let command = sound.pop_command().unwrap();
    assert!(matches!(command, Command::Pause(_)));
    sound.run_command(command, sound.position());
    assert_eq!(sound.state(), PlaybackState::Pausing);
    // the fade-out still moves the sound on
    assert!(sound.process(
        SoundStep { position: scalar(1.5), reached_end: false, fade: progress(0.5, 0.5) },
        &clocks
    ));
    assert_eq!(sound.state(), PlaybackState::Pausing);
    assert!(sound.process(step(2.0), &clocks));
    assert_eq!(sound.state(), PlaybackState::Paused);
    assert_eq!(sound.volume_fade().get(), scalar(0.0));
    // paused: nothing moves
    assert!(!sound.process(step(2.5), &clocks));
    assert_eq!(sound.position(), scalar(2.0));

    handle.resume(linear(1)).unwrap();
    let command = sound.pop_command().unwrap();
    sound.run_command(command, sound.position());
    assert_eq!(sound.state(), PlaybackState::Playing);
    assert!(sound.process(step(2.5), &clocks));
    assert_eq!(sound.position(), scalar(2.5));
    assert_eq!(sound.volume_fade().get(), scalar(1.0));
}

#[test]
fn stopped_sound_cannot_be_restarted() {
    let clocks = no_clocks();
    let (mut sound, mut handle) = StaticSound::new(four_frames(), scalar(0.0));
    handle.stop(linear(1)).unwrap();
    let command = sound.pop_command().unwrap();
    sound.run_command(command, sound.position());
    assert_eq!(sound.state(), PlaybackState::Stopping);
    assert!(!sound.finished());
    assert!(sound.process(
        SoundStep { position: scalar(1.0), reached_end: false, fade: TweenAdvance::Finish },
        &clocks
    ));
    assert_eq!(sound.state(), PlaybackState::Stopped);
    assert!(sound.finished());
    sound.run_command(Command::Resume(linear(1)), scalar(0.0));
    sound.run_command(Command::SeekTo(scalar(3.0)), scalar(3.0));
    assert_eq!(sound.state(), PlaybackState::Stopped);
    assert_eq!(sound.position(), scalar(1.0));
    assert!(!sound.process(
        SoundStep { position: scalar(2.0), reached_end: false, fade: TweenAdvance::Finish },
        &clocks
    ));
    assert_eq!(sound.position(), scalar(1.0));
    sound.on_start_processing();
    assert_eq!(handle.state(), PlaybackState::Stopped);
    assert_eq!(handle.position(), scalar(1.0));
}

#[test]
fn sound_stops_at_its_end_and_seeks() {
    let clocks = no_clocks();
    let (mut sound, mut handle) = StaticSound::new(four_frames(), scalar(1.0));
    assert_eq!(handle.position(), scalar(1.0));
    assert_eq!(handle.state(), PlaybackState::Playing);
    handle.seek_to(scalar(3.0)).unwrap();
    handle.seek_by(scalar(0.5)).unwrap();
    let seek_to = sound.pop_command().unwrap();
    sound.run_command(seek_to, scalar(99.0));
    assert_eq!(sound.position(), scalar(3.0));
    let seek_by = sound.pop_command().unwrap();
    assert!(matches!(seek_by, Command::SeekBy(amount) if amount == scalar(0.5)));
    sound.run_command(seek_by, scalar(3.5));
    assert_eq!(sound.position(), scalar(3.5));
    assert!(sound.pop_command().is_none());
    assert!(sound.process(
        SoundStep { position: scalar(4.5), reached_end: true, fade: TweenAdvance::Finish },
        &clocks
    ));
    assert!(sound.finished());
}

#[test]
fn sound_command_queue_reports_when_full() {
    let (mut sound, mut handle) = StaticSound::new(four_frames(), scalar(0.0));
    for _ in 0..8 {
        assert_eq!(handle.seek_by(scalar(1.0)), Ok(()));
    }
    assert_eq!(handle.seek_by(scalar(1.0)), Err(kira::CommandQueueFull));
    assert!(sound.pop_command().is_some());
    assert_eq!(handle.seek_by(scalar(1.0)), Ok(()));
    assert_eq!(handle.pause(linear(1)), Err(kira::CommandQueueFull));
}

#[test]
fn fade_in_starts_from_silence() {
    let mut data = four_frames();
    data.settings = data.settings.fade_in_tween(Some(linear(2))).track(TrackId::Main);
    let (sound, _handle) = StaticSound::new(data, scalar(0.0));
    assert_eq!(sound.volume_fade().get(), scalar(0.0));
    assert_eq!(sound.track(), TrackId::Main);
    assert_eq!(sound.volume().get(), scalar(1.0));
    assert_eq!(sound.playback_rate().get(), scalar(1.0));
    assert_eq!(sound.panning().get(), scalar(0.5));
}
