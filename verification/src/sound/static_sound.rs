//! Playable chunks of audio that are loaded into memory all at once.

use ringbuf::{Consumer, Producer};
use std::sync::atomic::{AtomicU64, AtomicU8, Ordering};
use std::sync::Arc;
use std::time::Duration;
use vstd::prelude::*;

use crate::clocks::Clocks;
use crate::dsp::{Frame, Scalar};
use crate::error::CommandQueueFull;
use crate::parameter::{drained, restarted, sent, Parameter, ParameterHandle};
use crate::queue::{
    new_sound_queue, pop_sound_command, push_sound_command, sound_commands_received,
    sound_commands_sent, sound_queue_capacity,
};
use crate::shared::share;
use crate::track::TrackId;
use crate::tween::{StartTime, Tween, TweenAdvance, Tweenable, TweenableView};
use crate::value::Value;

verus! {

/// The number of commands that a sound's queue has room for.
pub const COMMAND_CAPACITY: usize = 8;

/// The playback state of a sound.
#[derive(Debug, Clone, Copy, PartialEq, Eq, Structural)]
pub enum PlaybackState {
    /// The sound is playing normally.
    Playing,
    /// The sound is fading out, and when the fade-out
    /// is finished, playback will pause.
    Pausing,
    /// Playback is paused.
    Paused,
    /// The sound is fading out, and when the fade-out
    /// is finished, playback will stop.
    Stopping,
    /// The sound has stopped and can no longer be resumed.
    Stopped,
}

impl PlaybackState {
    /// The number that stands for the state in the mirror that the handle
    /// reads.
    pub open spec fn code(self) -> u8 {
        match self {
            PlaybackState::Playing => 0,
            PlaybackState::Pausing => 1,
            PlaybackState::Paused => 2,
            PlaybackState::Stopping => 3,
            PlaybackState::Stopped => 4,
        }
    }

    /// The state that a number of the mirror stands for. A number that
    /// stands for none reads as stopped.
    pub open spec fn of_code(code: u8) -> PlaybackState {
        if code == 0 {
            PlaybackState::Playing
        } else if code == 1 {
            PlaybackState::Pausing
        } else if code == 2 {
            PlaybackState::Paused
        } else if code == 3 {
            PlaybackState::Stopping
        } else {
            PlaybackState::Stopped
        }
    }

    /// Whether a sound in this state moves on and is heard: it is playing or
    /// fading out.
    pub open spec fn advances(self) -> bool {
        self is Playing || self is Pausing || self is Stopping
    }

    /// The number that stands for the state.
    pub fn to_u8(self) -> (code: u8)
        ensures
            code == self.code(),
            PlaybackState::of_code(code) == self,
    {
        match self {
            PlaybackState::Playing => 0,
            PlaybackState::Pausing => 1,
            PlaybackState::Paused => 2,
            PlaybackState::Stopping => 3,
            PlaybackState::Stopped => 4,
        }
    }

    /// The state that a number stands for.
    pub fn from_u8(code: u8) -> (state: PlaybackState)
        ensures
            state == PlaybackState::of_code(code),
    {
        if code == 0 {
            PlaybackState::Playing
        } else if code == 1 {
            PlaybackState::Pausing
        } else if code == 2 {
            PlaybackState::Paused
        } else if code == 3 {
            PlaybackState::Stopping
        } else {
            PlaybackState::Stopped
        }
    }
}

/// Where a sound goes on when it reaches its end.
#[derive(Debug, Clone, Copy, PartialEq, Eq, Structural)]
pub struct LoopBehavior {
    /// The position that playback jumps back to, in seconds.
    pub start_position: Scalar,
}

/// Settings for a static sound.
#[derive(Debug, Clone, Copy)]
#[non_exhaustive]
pub struct StaticSoundSettings {
    /// When the sound should start playing.
    pub start_time: StartTime,
    /// The initial playback position of the sound (in seconds).
    pub start_position: Scalar,
    /// The volume of the sound.
    pub volume: Value<Scalar>,
    /// The playback rate of the sound, as a factor of the
    /// normal playback rate.
    ///
    /// Changing the playback rate will change both the speed
    /// and the pitch of the sound.
    pub playback_rate: Value<Scalar>,
    /// The panning of the sound, where 0 is hard left
    /// and 1 is hard right.
    pub panning: Value<Scalar>,
    /// Whether the sound should play in reverse.
    ///
    /// If set to `true`, the start position will be relative
    /// to the end of the sound.
    pub reverse: bool,
    /// The looping behavior of the sound.
    pub loop_behavior: Option<LoopBehavior>,
    /// The mixer track this sound should play on.
    pub track: TrackId,
    /// An optional fade-in from silence.
    pub fade_in_tween: Option<Tween>,
}

impl StaticSoundSettings {
    /// The settings that [`StaticSoundSettings::new`] starts from: played
    /// at once from the beginning, forwards and without looping, at full
    /// volume and normal rate, centered, on the main track, without a
    /// fade-in.
    pub open spec fn spec_default() -> StaticSoundSettings {
        StaticSoundSettings {
            start_time: StartTime::Immediate,
            start_position: Scalar::spec_zero(),
            volume: Value::Fixed(Scalar::spec_one()),
            playback_rate: Value::Fixed(Scalar::spec_one()),
            panning: Value::Fixed(Scalar::spec_half()),
            reverse: false,
            loop_behavior: None,
            track: TrackId::Main,
            fade_in_tween: None,
        }
    }

    /// Creates a new [`StaticSoundSettings`] with the default settings.
    pub fn new() -> (settings: StaticSoundSettings)
        ensures
            settings == Self::spec_default(),
    {
        Self {
            start_time: StartTime::default(),
            start_position: Scalar::zero(),
            volume: Value::Fixed(Scalar::one()),
            playback_rate: Value::Fixed(Scalar::one()),
            panning: Value::Fixed(Scalar::half()),
            reverse: false,
            loop_behavior: None,
            track: TrackId::Main,
            fade_in_tween: None,
        }
    }

    /// The default settings.
    pub fn default() -> (settings: StaticSoundSettings)
        ensures
            settings == Self::spec_default(),
    {
        Self::new()
    }

    /// Sets when the sound should start playing.
    pub fn start_time(self, start_time: StartTime) -> (settings: StaticSoundSettings)
        ensures
            settings == (StaticSoundSettings { start_time, ..self }),
    {
        Self { start_time, ..self }
    }

    /// Sets the initial playback position of the sound (in seconds).
    pub fn start_position(self, start_position: Scalar) -> (settings: StaticSoundSettings)
        ensures
            settings == (StaticSoundSettings { start_position, ..self }),
    {
        Self { start_position, ..self }
    }

    /// Sets the volume of the sound.
    pub fn volume(self, volume: Value<Scalar>) -> (settings: StaticSoundSettings)
        ensures
            settings == (StaticSoundSettings { volume, ..self }),
    {
        Self { volume, ..self }
    }

    /// Sets the playback rate of the sound, as a factor of the
    /// normal playback rate.
    ///
    /// Changing the playback rate will change both the speed
    /// and the pitch of the sound.
    pub fn playback_rate(self, playback_rate: Value<Scalar>) -> (settings: StaticSoundSettings)
        ensures
            settings == (StaticSoundSettings { playback_rate, ..self }),
    {
        Self { playback_rate, ..self }
    }

    /// Sets the panning of the sound, where 0 is hard left
    /// and 1 is hard right.
    pub fn panning(self, panning: Value<Scalar>) -> (settings: StaticSoundSettings)
        ensures
            settings == (StaticSoundSettings { panning, ..self }),
    {
        Self { panning, ..self }
    }

    /// Sets whether the sound should play in reverse.
    pub fn reverse(self, reverse: bool) -> (settings: StaticSoundSettings)
        ensures
            settings == (StaticSoundSettings { reverse, ..self }),
    {
        Self { reverse, ..self }
    }

    /// Sets the looping behavior of the sound.
    pub fn loop_behavior(self, loop_behavior: Option<LoopBehavior>) -> (settings:
        StaticSoundSettings)
        ensures
            settings == (StaticSoundSettings { loop_behavior, ..self }),
    {
        Self { loop_behavior, ..self }
    }

    /// Sets the mixer track this sound should play on.
    pub fn track(self, track: TrackId) -> (settings: StaticSoundSettings)
        ensures
            settings == (StaticSoundSettings { track, ..self }),
    {
        Self { track, ..self }
    }

    /// Sets the tween used to fade in the sound from silence.
    pub fn fade_in_tween(self, fade_in_tween: Option<Tween>) -> (settings: StaticSoundSettings)
        ensures
            settings == (StaticSoundSettings { fade_in_tween, ..self }),
    {
        Self { fade_in_tween, ..self }
    }
}

/// A command that a handle sends to its sound.
#[derive(Debug, Clone, Copy)]
pub enum Command {
    /// Fade out, then pause.
    Pause(Tween),
    /// Resume and fade in.
    Resume(Tween),
    /// Fade out, then stop for good.
    Stop(Tween),
    /// Move the playback position by an amount of time, in seconds.
    SeekBy(Scalar),
    /// Move the playback position to a time, in seconds.
    SeekTo(Scalar),
}

/// The whole seconds of a span of time.
pub uninterp spec fn duration_secs(duration: Duration) -> nat;

/// The part of a span of time beyond its whole seconds, in nanoseconds.
pub uninterp spec fn duration_subsec_nanos(duration: Duration) -> nat;

/// `Duration::new`: the span of `secs` seconds and `nanos` nanoseconds.
///
/// The std function carries nanoseconds beyond a second over into the
/// seconds and panics when those overflow, so `nanos` stays below a second.
#[verifier::external_body]
fn new_duration(secs: u64, nanos: u32) -> (duration: Duration)
    requires
        nanos < 1_000_000_000,
    ensures
        duration_secs(duration) == secs,
        duration_subsec_nanos(duration) == nanos,
{
    Duration::new(secs, nanos)
}

/// A piece of audio loaded into memory all at once.
pub struct StaticSoundData {
    /// The sample rate of the audio (in Hz).
    pub sample_rate: u32,
    /// The raw samples that make up the audio.
    pub frames: Arc<Vec<Frame>>,
    /// Settings for the sound.
    pub settings: StaticSoundSettings,
}

impl StaticSoundData {
    /// Returns the duration of the audio: the number of frames over the
    /// sample rate, in whole seconds and nanoseconds, rounded down.
    pub fn duration(&self) -> (duration: Duration)
        requires
            self.sample_rate > 0,
        ensures
            duration_secs(duration) == self.frames@.len() / (self.sample_rate as nat),
            duration_subsec_nanos(duration) == (self.frames@.len() % (self.sample_rate as nat))
                * 1_000_000_000 / (self.sample_rate as nat),
    {
        let frames = self.frames.len() as u64;
        let rate = self.sample_rate as u64;
        let secs = frames / rate;
        let rest = frames % rate;
        assert(rest * 1_000_000_000 < rate * 1_000_000_000 <= 0xFFFF_FFFF * 1_000_000_000)
            by (nonlinear_arith)
            requires
                rest < rate <= 0xFFFF_FFFF,
        ;
        let scaled = rest * 1_000_000_000;
        let nanos = scaled / rate;
        assert(nanos < 1_000_000_000) by (nonlinear_arith)
            requires
                scaled < rate * 1_000_000_000,
                nanos == scaled / rate,
                rate > 0,
        ;
        new_duration(secs, nanos as u32)
    }

    /// Returns the frame with the given number, or silence where there is
    /// none: before the first frame and from the end of the audio on.
    pub fn frame_at_index(&self, index: i64) -> (frame: Frame)
        ensures
            frame == (if 0 <= index < self.frames@.len() {
                self.frames@[index as int]
            } else {
                Frame::spec_zero()
            }),
    {
        if index < 0 {
            return Frame::zero();
        }
        let index = index as u64;
        if index < self.frames.len() as u64 {
            self.frames[index as usize]
        } else {
            Frame::zero()
        }
    }
}

/// What a sound's handle and the renderer share: mirrors of the playback
/// state and position for control code to read.
pub struct Shared {
    state: AtomicU8,
    position: AtomicU64,
}

impl Shared {
    /// Creates the mirrors of a sound that plays from `position`.
    pub fn new(position: Scalar) -> Self {
        Self {
            state: AtomicU8::new(PlaybackState::Playing.to_u8()),
            position: AtomicU64::new(position.to_bits()),
        }
    }

    /// The playback state that the renderer last wrote to the mirror.
    pub fn state(&self) -> PlaybackState {
        PlaybackState::from_u8(self.state.load(Ordering::SeqCst))
    }

    /// The playback position that the renderer last wrote to the mirror, in
    /// seconds.
    pub fn position(&self) -> Scalar {
        Scalar::from_bits(self.position.load(Ordering::SeqCst))
    }
}

/// The renderer's own state of a static sound.
pub struct StaticSoundView {
    /// The playback state.
    pub state: PlaybackState,
    /// The playback position, in seconds.
    pub position: Scalar,
    /// The fade between silence (zero) and full level (one) that pausing,
    /// resuming and stopping drive.
    pub volume_fade: TweenableView,
    /// When the sound starts.
    pub start_time: StartTime,
    /// Whether the sound still waits for its start time.
    pub waiting_to_start: bool,
    /// The volume.
    pub volume: TweenableView,
    /// The playback rate, as a factor of the normal rate.
    pub playback_rate: TweenableView,
    /// The panning.
    pub panning: TweenableView,
}

/// Where one sample's worth of time takes a sound that moves on.
#[derive(Debug, Clone, Copy)]
pub struct SoundStep {
    /// The playback position after the sample, in seconds: moved on by the
    /// sample's time at the playback rate, and taken back to the loop start
    /// where the sound loops.
    pub position: Scalar,
    /// Whether the sound, not looping, has run past its end.
    pub reached_end: bool,
    /// Where the sample takes the volume fade.
    pub fade: TweenAdvance,
}

impl StaticSoundView {
    /// The state after a command. A sound that has stopped takes no
    /// command. Pausing and stopping fade out to silence, resuming fades in
    /// to full level; seeking moves the position: to the time asked for or,
    /// for a seek by an amount, to `sought`, the position that the amount
    /// leads to.
    pub open spec fn ran(self, command: Command, sought: Scalar) -> StaticSoundView {
        if self.state is Stopped {
            self
        } else {
            match command {
                Command::Pause(tween) => StaticSoundView {
                    state: PlaybackState::Pausing,
                    volume_fade: self.volume_fade.set(Scalar::spec_zero(), tween),
                    ..self
                },
                Command::Resume(tween) => StaticSoundView {
                    state: PlaybackState::Playing,
                    volume_fade: self.volume_fade.set(Scalar::spec_one(), tween),
                    ..self
                },
                Command::Stop(tween) => StaticSoundView {
                    state: PlaybackState::Stopping,
                    volume_fade: self.volume_fade.set(Scalar::spec_zero(), tween),
                    ..self
                },
                Command::SeekBy(_) => StaticSoundView { position: sought, ..self },
                Command::SeekTo(position) => StaticSoundView { position, ..self },
            }
        }
    }

    /// Whether the sound is heard and moves on in a sample: it does not wait
    /// for a start time that is not reached, and it is playing or fading
    /// out.
    pub open spec fn sounds(self, clocks: Clocks) -> bool {
        (!self.waiting_to_start || self.start_time.reached(clocks)) && self.state.advances()
    }

    /// The playback state after a sample in which the sound was heard: a
    /// sound that ran past its end has stopped; a fade-out that ended has
    /// paused or stopped the sound.
    pub open spec fn state_after(self, step: SoundStep, clocks: Clocks) -> PlaybackState {
        let state = if step.reached_end {
            PlaybackState::Stopped
        } else {
            self.state
        };
        if self.volume_fade.finishes(step.fade, clocks) {
            match state {
                PlaybackState::Pausing => PlaybackState::Paused,
                PlaybackState::Stopping => PlaybackState::Stopped,
                _ => state,
            }
        } else {
            state
        }
    }

    /// The state after a sample. A sound whose start time is reached waits
    /// no longer. A sound that is heard takes the new position, moves its
    /// fade on and changes its playback state as [`Self::state_after`] says.
    /// A sound that is paused or stopped stays where it is.
    pub open spec fn processed(self, step: SoundStep, clocks: Clocks) -> StaticSoundView {
        if self.waiting_to_start && !self.start_time.reached(clocks) {
            self
        } else if !self.state.advances() {
            StaticSoundView { waiting_to_start: false, ..self }
        } else {
            StaticSoundView {
                state: self.state_after(step, clocks),
                position: step.position,
                volume_fade: self.volume_fade.updated(step.fade, clocks),
                waiting_to_start: false,
                ..self
            }
        }
    }

    /// Whether `clocks` can be asked about the clocks that the sound may
    /// wait for.
    pub open spec fn known_to(self, clocks: Clocks) -> bool {
        self.start_time.known_to(clocks) && self.volume_fade.known_to(clocks)
    }

    /// Whether `clocks` can be asked about the clocks that the sound's
    /// parameters may wait for.
    pub open spec fn parameters_known_to(self, clocks: Clocks) -> bool {
        &&& self.volume.known_to(clocks)
        &&& self.playback_rate.known_to(clocks)
        &&& self.panning.known_to(clocks)
    }
}

/// A static sound on the renderer's side.
pub struct StaticSound {
    data: StaticSoundData,
    state: PlaybackState,
    position: Scalar,
    waiting_to_start: bool,
    volume_fade: Tweenable,
    command_consumer: Consumer<Command>,
    shared: Arc<Shared>,
    volume: Parameter,
    playback_rate: Parameter,
    panning: Parameter,
}

impl View for StaticSound {
    type V = StaticSoundView;

    closed spec fn view(&self) -> StaticSoundView {
        StaticSoundView {
            state: self.state,
            position: self.position,
            volume_fade: self.volume_fade@,
            start_time: self.data.settings.start_time,
            waiting_to_start: self.waiting_to_start,
            volume: self.volume@,
            playback_rate: self.playback_rate@,
            panning: self.panning@,
        }
    }
}

/// What a setting reads as where it is fixed, and `default` where it follows
/// a parameter.
pub open spec fn fixed_or(setting: Value<Scalar>, default: Scalar) -> Scalar {
    match setting {
        Value::Fixed(fixed) => fixed,
        Value::Parameter { .. } => default,
    }
}

/// What a setting reads as where it is fixed, and `default` where it follows
/// a parameter.
fn initial_value(setting: Value<Scalar>, default: Scalar) -> (value: Scalar)
    ensures
        value == fixed_or(setting, default),
{
    match setting {
        Value::Fixed(fixed) => fixed,
        Value::Parameter { .. } => default,
    }
}

impl StaticSound {
    /// The audio and the settings that the sound plays.
    pub closed spec fn source(self) -> StaticSoundData {
        self.data
    }

    /// The commands that the sound has taken out of its queue so far, oldest
    /// first.
    pub closed spec fn received(self) -> Seq<Command> {
        sound_commands_received(self.command_consumer)
    }

    /// The parameter that holds the volume.
    pub closed spec fn volume_parameter(self) -> Parameter {
        self.volume
    }

    /// The parameter that holds the playback rate.
    pub closed spec fn playback_rate_parameter(self) -> Parameter {
        self.playback_rate
    }

    /// The parameter that holds the panning.
    pub closed spec fn panning_parameter(self) -> Parameter {
        self.panning
    }

    /// The three parameters show in the view.
    pub proof fn lemma_parameters_in_view(self)
        ensures
            self@.volume == self.volume_parameter()@,
            self@.playback_rate == self.playback_rate_parameter()@,
            self@.panning == self.panning_parameter()@,
    {
    }

    /// Creates a sound that plays `data` from `position`, and the handle
    /// that controls it. `position` is the start position of the settings,
    /// in seconds from the beginning of the audio.
    ///
    /// The sound starts out playing; it waits first if its start time is
    /// bound to a clock. With a fade-in it starts silent and fades to full
    /// level, without one it starts at full level.
    pub fn new(data: StaticSoundData, position: Scalar) -> (made: (StaticSound, StaticSoundHandle))
        ensures
            made.0.source() == data,
            made.0.received().len() == 0,
            made.1.commands().len() == 0,
            made.1.room() == COMMAND_CAPACITY,
            made.1.volume_handle().fresh(),
            made.1.playback_rate_handle().fresh(),
            made.1.panning_handle().fresh(),
            made.0@.state == PlaybackState::Playing,
            made.0@.position == position,
            made.0@.start_time == data.settings.start_time,
            made.0@.waiting_to_start == (data.settings.start_time is ClockTime),
            made.0@.volume_fade == (match data.settings.fade_in_tween {
                Some(tween) => TweenableView::resting(Scalar::spec_zero()).set(
                    Scalar::spec_one(),
                    tween,
                ),
                None => TweenableView::resting(Scalar::spec_one()),
            }),
            made.0@.volume == TweenableView::resting(
                fixed_or(data.settings.volume, Scalar::spec_one()),
            ),
            made.0@.playback_rate == TweenableView::resting(
                fixed_or(data.settings.playback_rate, Scalar::spec_one()),
            ),
            made.0@.panning == TweenableView::resting(
                fixed_or(data.settings.panning, Scalar::spec_half()),
            ),
    {
        let (command_producer, command_consumer) = new_sound_queue(COMMAND_CAPACITY);
        let shared = Arc::new(Shared::new(position));
        let mirror = share(&shared);
        let (volume, volume_handle) = Parameter::new(
            initial_value(data.settings.volume, Scalar::one()),
        );
        let (playback_rate, playback_rate_handle) = Parameter::new(
            initial_value(data.settings.playback_rate, Scalar::one()),
        );
        let (panning, panning_handle) = Parameter::new(
            initial_value(data.settings.panning, Scalar::half()),
        );
        let volume_fade = match data.settings.fade_in_tween {
            Some(tween) => {
                let mut fade = Tweenable::new(Scalar::zero());
                fade.set(Scalar::one(), tween);
                fade
            },
            None => Tweenable::new(Scalar::one()),
        };
        let waiting_to_start = match data.settings.start_time {
            StartTime::Immediate => false,
            StartTime::ClockTime(_) => true,
        };
        (
            StaticSound {
                data,
                state: PlaybackState::Playing,
                position,
                waiting_to_start,
                volume_fade,
                command_consumer,
                shared,
                volume,
                playback_rate,
                panning,
            },
            StaticSoundHandle {
                command_producer,
                shared: mirror,
                volume: volume_handle,
                playback_rate: playback_rate_handle,
                panning: panning_handle,
            },
        )
    }

    /// The track that the sound plays on. It never changes.
    pub fn track(&self) -> (track: TrackId)
        ensures
            track == self.source().settings.track,
    {
        self.data.settings.track
    }

    /// The audio and the settings that the sound plays.
    pub fn data(&self) -> (data: &StaticSoundData)
        ensures
            *data == self.source(),
    {
        &self.data
    }

    /// The playback state.
    pub fn state(&self) -> (state: PlaybackState)
        ensures
            state == self@.state,
    {
        self.state
    }

    /// The playback position, in seconds.
    pub fn position(&self) -> (position: Scalar)
        ensures
            position == self@.position,
    {
        self.position
    }

    /// The volume fade.
    pub fn volume_fade(&self) -> (fade: &Tweenable)
        ensures
            fade@ == self@.volume_fade,
    {
        &self.volume_fade
    }

    /// Whether the sound has stopped for good and can be removed.
    pub fn finished(&self) -> (finished: bool)
        ensures
            finished == (self@.state is Stopped),
    {
        match self.state {
            PlaybackState::Stopped => true,
            _ => false,
        }
    }

    /// Takes the oldest command out of the queue, if one waits there, and
    /// counts it among the commands received. What comes depends on what the
    /// thread that holds the handle has sent. The sound itself stays as it
    /// is: a command acts when it is run.
    pub fn pop_command(&mut self) -> (command: Option<Command>)
        ensures
            final(self)@ == old(self)@,
            final(self).source() == old(self).source(),
            final(self).volume_parameter() == old(self).volume_parameter(),
            final(self).playback_rate_parameter() == old(self).playback_rate_parameter(),
            final(self).panning_parameter() == old(self).panning_parameter(),
            command matches Some(taken) ==> final(self).received() == old(self).received().push(
                taken,
            ),
            command is None ==> final(self).received() == old(self).received(),
    {
        pop_sound_command(&mut self.command_consumer)
    }

    /// Carries out one command: see [`StaticSoundView::ran`].
    pub fn run_command(&mut self, command: Command, sought: Scalar)
        ensures
            final(self)@ == old(self)@.ran(command, sought),
            final(self).source() == old(self).source(),
            final(self).received() == old(self).received(),
    {
        if self.finished() {
            return ;
        }
        match command {
            Command::Pause(tween) => {
                self.state = PlaybackState::Pausing;
                self.volume_fade.set(Scalar::zero(), tween);
            },
            Command::Resume(tween) => {
                self.state = PlaybackState::Playing;
                self.volume_fade.set(Scalar::one(), tween);
            },
            Command::Stop(tween) => {
                self.state = PlaybackState::Stopping;
                self.volume_fade.set(Scalar::zero(), tween);
            },
            Command::SeekBy(_) => {
                self.position = sought;
            },
            Command::SeekTo(position) => {
                self.position = position;
            },
        }
    }

    /// Starts a block: the parameters apply the commands that wait for
    /// them, and the playback state and position are written to the mirrors
    /// that the handle reads. The sound's own commands stay in their queue.
    pub fn on_start_processing(&mut self)
        ensures
            final(self).source() == old(self).source(),
            final(self).received() == old(self).received(),
            drained(old(self).volume_parameter(), final(self).volume_parameter()),
            drained(old(self).playback_rate_parameter(), final(self).playback_rate_parameter()),
            drained(old(self).panning_parameter(), final(self).panning_parameter()),
            final(self)@ == (StaticSoundView {
                volume: final(self).volume_parameter()@,
                playback_rate: final(self).playback_rate_parameter()@,
                panning: final(self).panning_parameter()@,
                ..old(self)@
            }),
            restarted(old(self)@.volume, final(self)@.volume),
            restarted(old(self)@.playback_rate, final(self)@.playback_rate),
            restarted(old(self)@.panning, final(self)@.panning),
    {
        self.volume.on_start_processing();
        self.playback_rate.on_start_processing();
        self.panning.on_start_processing();
        self.shared.state.store(self.state.to_u8(), Ordering::SeqCst);
        self.shared.position.store(self.position.to_bits(), Ordering::SeqCst);
    }

    /// The volume, as it is now.
    pub fn volume(&self) -> (volume: &Parameter)
        ensures
            *volume == self.volume_parameter(),
            volume@ == self@.volume,
    {
        &self.volume
    }

    /// The playback rate, as it is now.
    pub fn playback_rate(&self) -> (playback_rate: &Parameter)
        ensures
            *playback_rate == self.playback_rate_parameter(),
            playback_rate@ == self@.playback_rate,
    {
        &self.playback_rate
    }

    /// The panning, as it is now.
    pub fn panning(&self) -> (panning: &Parameter)
        ensures
            *panning == self.panning_parameter(),
            panning@ == self@.panning,
    {
        &self.panning
    }

    /// Lets one sample's worth of time pass for each parameter.
    pub fn update_parameters(
        &mut self,
        volume: TweenAdvance,
        playback_rate: TweenAdvance,
        panning: TweenAdvance,
        clocks: &Clocks,
    )
        requires
            clocks.wf(),
            old(self)@.parameters_known_to(*clocks),
        ensures
            final(self).source() == old(self).source(),
            final(self)@ == (StaticSoundView {
                volume: old(self)@.volume.updated(volume, *clocks),
                playback_rate: old(self)@.playback_rate.updated(playback_rate, *clocks),
                panning: old(self)@.panning.updated(panning, *clocks),
                ..old(self)@
            }),
    {
        self.volume.update(volume, clocks);
        self.playback_rate.update(playback_rate, clocks);
        self.panning.update(panning, clocks);
    }

    /// Lets one sample's worth of time pass and returns whether the sound is
    /// heard in this sample: see [`StaticSoundView::processed`].
    pub fn process(&mut self, step: SoundStep, clocks: &Clocks) -> (heard: bool)
        requires
            clocks.wf(),
            old(self)@.known_to(*clocks),
        ensures
            heard == old(self)@.sounds(*clocks),
            final(self)@ == old(self)@.processed(step, *clocks),
            final(self).source() == old(self).source(),
            final(self).received() == old(self).received(),
    {
        if self.waiting_to_start {
            match self.data.settings.start_time {
                StartTime::ClockTime(time) => {
                    let reached = match clocks.get(time.clock) {
                        Some(clock) => clock.ticking() && clock.ticks() >= time.ticks,
                        None => false,
                    };
                    if !reached {
                        return false;
                    }
                },
                StartTime::Immediate => {},
            }
            self.waiting_to_start = false;
        }
        match self.state {
            PlaybackState::Paused => {
                return false;
            },
            PlaybackState::Stopped => {
                return false;
            },
            _ => {},
        }
        self.position = step.position;
        if step.reached_end {
            self.state = PlaybackState::Stopped;
        }
        if self.volume_fade.update(step.fade, clocks) {
            match self.state {
                PlaybackState::Pausing => {
                    self.state = PlaybackState::Paused;
                },
                PlaybackState::Stopping => {
                    self.state = PlaybackState::Stopped;
                },
                _ => {},
            }
        }
        true
    }
}

/// Controls a static sound.
pub struct StaticSoundHandle {
    pub(crate) command_producer: Producer<Command>,
    pub(crate) shared: Arc<Shared>,
    pub(crate) volume: ParameterHandle,
    pub(crate) playback_rate: ParameterHandle,
    pub(crate) panning: ParameterHandle,
}

impl StaticSoundHandle {
    /// The commands that the handle has sent to the sound so far, oldest
    /// first.
    pub closed spec fn commands(self) -> Seq<Command> {
        sound_commands_sent(self.command_producer)
    }

    /// The number of commands that the handle's queue has room for.
    pub closed spec fn room(self) -> nat {
        sound_queue_capacity(self.command_producer)
    }

    /// The mirrors that the handle reads the state and the position from.
    pub closed spec fn mirror(self) -> Arc<Shared> {
        self.shared
    }

    /// The handle of the volume.
    pub closed spec fn volume_handle(self) -> ParameterHandle {
        self.volume
    }

    /// The handle of the playback rate.
    pub closed spec fn playback_rate_handle(self) -> ParameterHandle {
        self.playback_rate
    }

    /// The handle of the panning.
    pub closed spec fn panning_handle(self) -> ParameterHandle {
        self.panning
    }

    /// What sending `command` leaves behind: where the queue took the
    /// command, it is the last that was sent; where the queue was full,
    /// nothing was sent. The queue takes the command whenever fewer commands
    /// were sent than it has room for. Nothing else about the handle
    /// changes.
    pub open spec fn after_send(
        self,
        after: StaticSoundHandle,
        command: Command,
        result: Result<(), CommandQueueFull>,
    ) -> bool {
        &&& self.commands().len() < self.room() ==> result is Ok
        &&& result is Ok ==> after.commands() == self.commands().push(command)
        &&& result is Err ==> after.commands() == self.commands()
        &&& after.room() == self.room()
        &&& after.mirror() == self.mirror()
        &&& after.volume_handle() == self.volume_handle()
        &&& after.playback_rate_handle() == self.playback_rate_handle()
        &&& after.panning_handle() == self.panning_handle()
    }

    /// Returns the current playback state of the sound.
    pub fn state(&self) -> PlaybackState {
        self.shared.state()
    }

    /// Returns the current playback position of the sound (in seconds).
    pub fn position(&self) -> Scalar {
        self.shared.position()
    }

    /// Returns the volume, as it was at the start of the block that the
    /// renderer last began.
    pub fn volume(&self) -> Scalar {
        self.volume.get()
    }

    /// Returns the playback rate, as it was at the start of the block that
    /// the renderer last began.
    pub fn playback_rate(&self) -> Scalar {
        self.playback_rate.get()
    }

    /// Returns the panning, as it was at the start of the block that the
    /// renderer last began.
    pub fn panning(&self) -> Scalar {
        self.panning.get()
    }

    /// Asks for a transition of the volume to the given value.
    pub fn set_volume(&mut self, volume: Scalar, tween: Tween) -> (result: Result<
        (),
        CommandQueueFull,
    >)
        ensures
            old(self).volume_handle().after_set(final(self).volume_handle(), volume, tween, result),
            final(self).commands() == old(self).commands(),
            final(self).room() == old(self).room(),
            final(self).mirror() == old(self).mirror(),
            final(self).playback_rate_handle() == old(self).playback_rate_handle(),
            final(self).panning_handle() == old(self).panning_handle(),
    {
        self.volume.set(volume, tween)
    }

    /// Asks for a transition of the playback rate to the given value.
    pub fn set_playback_rate(&mut self, playback_rate: Scalar, tween: Tween) -> (result: Result<
        (),
        CommandQueueFull,
    >)
        ensures
            old(self).playback_rate_handle().after_set(final(self).playback_rate_handle(), playback_rate, tween, result),
            final(self).commands() == old(self).commands(),
            final(self).room() == old(self).room(),
            final(self).mirror() == old(self).mirror(),
            final(self).volume_handle() == old(self).volume_handle(),
            final(self).panning_handle() == old(self).panning_handle(),
    {
        self.playback_rate.set(playback_rate, tween)
    }

    /// Asks for a transition of the panning to the given value.
    pub fn set_panning(&mut self, panning: Scalar, tween: Tween) -> (result: Result<
        (),
        CommandQueueFull,
    >)
        ensures
            old(self).panning_handle().after_set(final(self).panning_handle(), panning, tween, result),
            final(self).commands() == old(self).commands(),
            final(self).room() == old(self).room(),
            final(self).mirror() == old(self).mirror(),
            final(self).volume_handle() == old(self).volume_handle(),
            final(self).playback_rate_handle() == old(self).playback_rate_handle(),
    {
        self.panning.set(panning, tween)
    }

    /// Fades out the sound to silence with the given tween and then
    /// pauses playback.
    pub fn pause(&mut self, tween: Tween) -> (result: Result<(), CommandQueueFull>)
        ensures
            old(self).after_send(*final(self), Command::Pause(tween), result),
    {
        sent(push_sound_command(&mut self.command_producer, Command::Pause(tween)))
    }

    /// Resumes playback and fades in the sound from silence
    /// with the given tween.
    pub fn resume(&mut self, tween: Tween) -> (result: Result<(), CommandQueueFull>)
        ensures
            old(self).after_send(*final(self), Command::Resume(tween), result),
    {
        sent(push_sound_command(&mut self.command_producer, Command::Resume(tween)))
    }

    /// Fades out the sound to silence with the given tween and then
    /// stops playback.
    ///
    /// Once the sound is stopped, it cannot be restarted.
    pub fn stop(&mut self, tween: Tween) -> (result: Result<(), CommandQueueFull>)
        ensures
            old(self).after_send(*final(self), Command::Stop(tween), result),
    {
        sent(push_sound_command(&mut self.command_producer, Command::Stop(tween)))
    }

    /// Sets the playback position to the specified time in seconds.
    pub fn seek_to(&mut self, position: Scalar) -> (result: Result<(), CommandQueueFull>)
        ensures
            old(self).after_send(*final(self), Command::SeekTo(position), result),
    {
        sent(push_sound_command(&mut self.command_producer, Command::SeekTo(position)))
    }

    /// Moves the playback position by the specified amount of time in seconds.
    pub fn seek_by(&mut self, amount: Scalar) -> (result: Result<(), CommandQueueFull>)
        ensures
            old(self).after_send(*final(self), Command::SeekBy(amount), result),
    {
        sent(push_sound_command(&mut self.command_producer, Command::SeekBy(amount)))
    }
}

/// A sound that has stopped stays stopped.
///
/// No command and no sample changes anything about a stopped sound: it
/// cannot be restarted, and its position stays where it is.
pub proof fn lemma_stopped_is_terminal(
    sound: StaticSoundView,
    command: Command,
    sought: Scalar,
    step: SoundStep,
    clocks: Clocks,
)
    requires
        sound.state is Stopped,
    ensures
        sound.ran(command, sought) == sound,
        sound.processed(step, clocks).state is Stopped,
        sound.processed(step, clocks).position == sound.position,
        !sound.sounds(clocks),
{
}

/// The position moves in the samples in which the sound is heard, and in no
/// others.
///
/// In a sample in which the sound is heard, the position becomes the one
/// that the sample leads to. While the sound waits for its start time, is
/// paused or has stopped, a sample leaves the position where it is.
pub proof fn lemma_position_moves_while_heard(
    sound: StaticSoundView,
    step: SoundStep,
    clocks: Clocks,
)
    ensures
        sound.sounds(clocks) ==> sound.processed(step, clocks).position == step.position,
        !sound.sounds(clocks) ==> sound.processed(step, clocks).position == sound.position,
{
}

/// A fade-out that ends pauses or stops the sound, and nothing else does.
///
/// After a pause command the sound goes on playing while it fades, and is
/// paused by the very sample in which the fade ends; after a stop command
/// it is stopped by that sample. A sound that runs past its end stops at
/// once.
pub proof fn lemma_fade_out_ends_playback(
    sound: StaticSoundView,
    tween: Tween,
    step: SoundStep,
    clocks: Clocks,
)
    requires
        !(sound.state is Stopped),
        !sound.waiting_to_start,
        tween.start_time is Immediate,
    ensures
        sound.ran(Command::Pause(tween), sound.position).sounds(clocks),
        sound.ran(Command::Pause(tween), sound.position).processed(step, clocks).state == (
        if step.reached_end {
            PlaybackState::Stopped
        } else if step.fade is Finish {
            PlaybackState::Paused
        } else {
            PlaybackState::Pausing
        }),
        sound.ran(Command::Stop(tween), sound.position).processed(step, clocks).state == (
        if step.reached_end || step.fade is Finish {
            PlaybackState::Stopped
        } else {
            PlaybackState::Stopping
        }),
{
}

} // verus!
