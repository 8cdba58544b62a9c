use std::time::Duration;

use kira::clock::{Clock, ClockAdvance, ClockId, ClockTime};
use kira::clocks::{ClockCommand, Clocks};
use kira::dsp::Scalar;
use kira::parameter::Parameter;
use kira::tween::{Easing, StartTime, Tween, TweenAdvance, TweenState, Tweenable};
use kira::value::Value;
use kira::CommandQueueFull;
use ringbuf::RingBuffer;

fn scalar(value: f64) -> Scalar {
    Scalar::from_bits(value.to_bits())
}

fn number(scalar: Scalar) -> f64 {
    f64::from_bits(scalar.to_bits())
}

fn eased(easing: Easing, x: f64) -> f64 {
    match easing {
        Easing::Linear => x,
        Easing::PowIn(power) => x.powi(power as i32),
        Easing::PowOut(power) => 1.0 - (1.0 - x).powi(power as i32),
    }
}

/// Where one more sample of `dt` seconds takes the transition under way.
fn advance_of(state: TweenState, dt: f64) -> TweenAdvance {
    match state {
        TweenState::Idle => TweenAdvance::Finish,
        TweenState::Tweening { from, to, elapsed, tween, .. } => {
            let time = number(elapsed) + dt;
            let duration = tween.duration.as_secs_f64();
            if time >= duration {
                TweenAdvance::Finish
            } else {
                let (from, to) = (number(from), number(to));
                TweenAdvance::Progress {
                    elapsed: scalar(time),
                    value: scalar(from + (to - from) * eased(tween.easing, time / duration)),
                }
            }
        }
    }
}

/// Lets `dt` seconds pass for every clock.
fn run_clocks(clocks: &mut Clocks, dt: f64) {
    let mut advances = Vec::new();
    let mut position = 0;
    while let Some(clock) = clocks.nth(position) {
        let mut fractional = number(clock.fractional()) + dt / number(clock.interval());
        let mut ticks = 0;
        while fractional >= 1.0 {
            fractional -= 1.0;
            ticks += 1;
        }
        advances.push(ClockAdvance { ticks, fractional: scalar(fractional) });
        position += 1;
    }
    clocks.update(&advances);
}

fn no_clocks() -> Clocks {
    let (producer, _consumer) = RingBuffer::<Clock>::new(1).split();
    Clocks::new(1, producer)
}

fn linear(seconds: u64, start_time: StartTime) -> Tween {
    Tween { start_time, duration: Duration::from_secs(seconds), easing: Easing::Linear }
}

#[test]
fn tween_convergence() {
    let clocks = no_clocks();
    let (mut parameter, mut handle) = Parameter::new(scalar(0.0));
    handle.set(scalar(1.0), linear(1, StartTime::Immediate)).unwrap();
    parameter.on_start_processing();
    let dt = 1.0 / 100.0;
    let mut finished = 0;
    for _ in 0..50 {
        if parameter.update(advance_of(parameter.state(), dt), &clocks) {
            finished += 1;
        }
    }
    assert!((number(parameter.get()) - 0.5).abs() <= 1e-6);
    assert_eq!(finished, 0);
    for _ in 50..100 {
        if parameter.update(advance_of(parameter.state(), dt), &clocks) {
            finished += 1;
        }
    }
    assert_eq!(number(parameter.get()), 1.0);
    assert_eq!(finished, 1);
    for _ in 0..10 {
        assert!(!parameter.update(advance_of(parameter.state(), dt), &clocks));
        assert_eq!(number(parameter.get()), 1.0);
    }
}

#[test]
fn clock_gated_tween() {
    let (producer, _consumer) = RingBuffer::new(2).split();
    let mut clocks = Clocks::new(2, producer);
    let id = ClockId::reserve(&clocks.controller()).unwrap();
    clocks.run_command(ClockCommand::Add(id, Clock::new(Value::Fixed(scalar(1.0)))));
    clocks.run_command(ClockCommand::Start(id));

    let mut tweenable = Tweenable::new(scalar(10.0));
    tweenable
        .set(scalar(20.0), linear(1, StartTime::ClockTime(ClockTime { clock: id, ticks: 2 })));
    let dt = 1.0 / 64.0;
    // one renderer frame: clocks first, then whoever waits for them
    let mut frame = |clocks: &mut Clocks, tweenable: &mut Tweenable| {
        run_clocks(clocks, dt);
        tweenable.update(advance_of(tweenable.state(), dt), clocks)
    };
    for _ in 0..96 {
        assert!(!frame(&mut clocks, &mut tweenable));
    }
    // t = 1.5 s: one tick counted, the tween has not moved
    assert_eq!(clocks.get(id).unwrap().ticks(), 1);
    assert_eq!(number(tweenable.get()), 10.0);
    for _ in 96..127 {
        assert!(!frame(&mut clocks, &mut tweenable));
    }
    assert_eq!(number(tweenable.get()), 10.0);
    // the frame in which tick 2 is observed is the first to move the tween
    assert!(!frame(&mut clocks, &mut tweenable));
    assert_eq!(clocks.get(id).unwrap().ticks(), 2);
    for _ in 0..31 {
        assert!(!frame(&mut clocks, &mut tweenable));
    }
    // half a second after tick 2: the midpoint
    assert_eq!(number(tweenable.get()), 15.0);
    // a stopped clock no longer holds back a tween that has started
    clocks.run_command(ClockCommand::Stop(id));
    let mut finished = 0;
    for _ in 0..32 {
        if frame(&mut clocks, &mut tweenable) {
            finished += 1;
        }
    }
    assert_eq!(finished, 1);
    assert_eq!(number(tweenable.get()), 20.0);
}

#[test]
fn tween_waits_for_a_missing_or_stopped_clock() {
    let (producer, _consumer) = RingBuffer::new(2).split();
    let mut clocks = Clocks::new(2, producer);
    let id = ClockId::reserve(&clocks.controller()).unwrap();
    let mut tweenable = Tweenable::new(scalar(1.0));
    tweenable
        .set(scalar(3.0), linear(1, StartTime::ClockTime(ClockTime { clock: id, ticks: 0 })));
    // the clock does not exist yet
    assert!(!tweenable.update(TweenAdvance::Finish, &clocks));
    assert_eq!(number(tweenable.get()), 1.0);
    // it exists but does not run
    clocks.run_command(ClockCommand::Add(id, Clock::new(Value::Fixed(scalar(1.0)))));
    assert!(!tweenable.update(TweenAdvance::Finish, &clocks));
    assert_eq!(number(tweenable.get()), 1.0);
    // it runs: tick zero is reached at once
    clocks.run_command(ClockCommand::Start(id));
    assert!(tweenable.update(TweenAdvance::Finish, &clocks));
    assert_eq!(number(tweenable.get()), 3.0);
    assert!(matches!(tweenable.state(), TweenState::Idle));
}

#[test]
fn set_restarts_from_the_current_value() {
    let clocks = no_clocks();
    let mut tweenable = Tweenable::new(scalar(0.0));
    tweenable.set(scalar(8.0), linear(2, StartTime::Immediate));
    assert!(!tweenable.update(advance_of(tweenable.state(), 0.5), &clocks));
    assert_eq!(number(tweenable.get()), 2.0);
    tweenable.set(scalar(0.0), linear(1, StartTime::Immediate));
    match tweenable.state() {
        TweenState::Tweening { from, to, elapsed, waiting_to_start, .. } => {
            assert_eq!(number(from), 2.0);
            assert_eq!(number(to), 0.0);
            assert_eq!(number(elapsed), 0.0);
            assert!(!waiting_to_start);
        }
        TweenState::Idle => panic!("a transition was asked for"),
    }
    assert_eq!(number(tweenable.get()), 2.0);
    assert!(!tweenable.update(advance_of(tweenable.state(), 0.25), &clocks));
    assert_eq!(number(tweenable.get()), 1.5);
}

#[test]
fn eased_tween_values() {
    let clocks = no_clocks();
    let mut tweenable = Tweenable::new(scalar(0.0));
    tweenable.set(
        scalar(16.0),
        Tween {
            start_time: StartTime::Immediate,
            duration: Duration::from_secs(1),
            easing: Easing::PowIn(2),
        },
    );
    tweenable.update(advance_of(tweenable.state(), 0.5), &clocks);
    assert_eq!(number(tweenable.get()), 4.0);
    tweenable.set(
        scalar(20.0),
        Tween {
            start_time: StartTime::Immediate,
            duration: Duration::from_secs(1),
            easing: Easing::PowOut(2),
        },
    );
    tweenable.update(advance_of(tweenable.state(), 0.5), &clocks);
    assert_eq!(number(tweenable.get()), 16.0);
}

#[test]
fn parameter_queue_is_full_after_eight_commands() {
    let (mut parameter, mut handle) = Parameter::new(scalar(3.0));
    assert_eq!(number(handle.get()), 3.0);
    for target in 0..8 {
        assert_eq!(handle.set(scalar(target as f64), linear(1, StartTime::Immediate)), Ok(()));
    }
    assert_eq!(handle.set(scalar(9.0), linear(1, StartTime::Immediate)), Err(CommandQueueFull));
    assert_eq!(handle.set(scalar(9.0), linear(1, StartTime::Immediate)), Err(CommandQueueFull));
    parameter.on_start_processing();
    // the commands were applied in order: the last one stays
    match parameter.state() {
        TweenState::Tweening { from, to, .. } => {
            assert_eq!(number(from), 3.0);
            assert_eq!(number(to), 7.0);
        }
        TweenState::Idle => panic!("commands were sent"),
    }
    assert_eq!(number(parameter.get()), 3.0);
    assert_eq!(handle.set(scalar(9.0), linear(1, StartTime::Immediate)), Ok(()));
}

#[test]
fn parameter_mirror_is_written_at_the_start_of_a_block() {
    let clocks = no_clocks();
    let (mut parameter, handle) = Parameter::new(scalar(0.0));
    parameter.set(scalar(4.0), linear(1, StartTime::Immediate));
    parameter.update(advance_of(parameter.state(), 0.25), &clocks);
    assert_eq!(number(parameter.get()), 1.0);
    assert_eq!(number(handle.get()), 0.0);
    parameter.on_start_processing();
    assert_eq!(number(handle.get()), 1.0);
}

#[test]
fn clock_counts_the_boundaries_crossed() {
    let (producer, _consumer) = RingBuffer::new(2).split();
    let mut clocks = Clocks::new(2, producer);
    let id = ClockId::reserve(&clocks.controller()).unwrap();
    let clock = Clock::new(Value::Fixed(scalar(0.25)));
    let shared = clock.shared();
    clocks.run_command(ClockCommand::Add(id, clock));
    // a stopped clock does not count
    run_clocks(&mut clocks, 1.0);
    assert_eq!(clocks.get(id).unwrap().ticks(), 0);
    clocks.run_command(ClockCommand::Start(id));
    assert!(shared.ticking());
    // floor(T / I) for T = 2.125 s and I = 0.25 s
    for _ in 0..17 {
        run_clocks(&mut clocks, 0.125);
    }
    assert_eq!(clocks.get(id).unwrap().ticks(), 8);
    assert_eq!(number(clocks.get(id).unwrap().fractional()), 0.5);
    assert_eq!(shared.ticks(), 8);
    clocks.run_command(ClockCommand::Pause(id));
    run_clocks(&mut clocks, 10.0);
    assert_eq!(clocks.get(id).unwrap().ticks(), 8);
    assert_eq!(number(clocks.get(id).unwrap().fractional()), 0.5);
    clocks.run_command(ClockCommand::SetInterval(id, Value::Fixed(scalar(0.5))));
    clocks.run_command(ClockCommand::Stop(id));
    assert_eq!(shared.ticks(), 0);
    assert!(!shared.ticking());
    assert_eq!(clocks.get(id).unwrap().ticks(), 0);
}

#[test]
fn clock_ticks_saturate() {
    let mut clock = Clock::new(Value::Fixed(scalar(1.0)));
    clock.start();
    clock.update(ClockAdvance { ticks: u64::MAX - 1, fractional: scalar(0.0) });
    clock.update(ClockAdvance { ticks: 5, fractional: scalar(0.5) });
    assert_eq!(clock.ticks(), u64::MAX);
    assert_eq!(number(clock.fractional()), 0.5);
}

#[test]
fn clock_interval_follows_its_parameter_when_sampled() {
    let (producer, _consumer) = RingBuffer::<Clock>::new(2).split();
    let parameters = Clocks::new(2, producer);
    let key = parameters.controller().try_reserve().unwrap();
    let mut clock = Clock::new(Value::<Scalar>::from_parameter(kira::parameter::ParameterId(key)));
    assert_eq!(number(clock.interval()), 1.0);
    clock.update_interval(None);
    assert_eq!(number(clock.interval()), 1.0);
    clock.update_interval(Some(scalar(0.5)));
    assert_eq!(number(clock.interval()), 0.5);
    clock.set_interval(Value::Fixed(scalar(2.0)));
    assert_eq!(number(clock.interval()), 0.5);
    clock.update_interval(Some(scalar(3.0)));
    assert_eq!(number(clock.interval()), 0.5);
}
