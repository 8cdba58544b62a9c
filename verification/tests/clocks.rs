use kira::clock::{Clock, ClockAdvance, ClockId};
use kira::clocks::{ClockCommand, Clocks};
use kira::dsp::Scalar;
use kira::error::{CommandError, CommandQueueFull};
use kira::value::Value;
use ringbuf::RingBuffer;

fn one_second() -> Value<Scalar> {
    Value::Fixed(Scalar::from_bits(1.0f64.to_bits()))
}

#[test]
fn clock_starts_stopped_at_tick_zero() {
    let clock = Clock::new(one_second());
    assert!(!clock.ticking());
    assert_eq!(clock.ticks(), 0);
    assert_eq!(clock.interval(), Scalar::from_bits(1.0f64.to_bits()));
    assert_eq!(clock.fractional(), Scalar::zero());
}

#[test]
fn added_clock_is_found_under_its_id() {
    let (producer, _consumer) = RingBuffer::new(4).split();
    let mut clocks = Clocks::new(4, producer);
    let id = ClockId::reserve(&clocks.controller()).unwrap();
    assert!(clocks.get(id).is_none());
    clocks.run_command(ClockCommand::Add(id, Clock::new(one_second())));
    assert!(clocks.get(id).is_some());
    clocks.run_command(ClockCommand::Start(id));
    assert!(clocks.get(id).unwrap().ticking());
    clocks.update(&vec![ClockAdvance { ticks: 3, fractional: Scalar::from_bits(0.25f64.to_bits()) }]);
    assert_eq!(clocks.get(id).unwrap().ticks(), 3);
    clocks.run_command(ClockCommand::Pause(id));
    assert!(!clocks.get(id).unwrap().ticking());
    assert_eq!(clocks.get(id).unwrap().ticks(), 3);
    clocks.run_command(ClockCommand::Stop(id));
    assert_eq!(clocks.get(id).unwrap().ticks(), 0);
    assert_eq!(clocks.get(id).unwrap().fractional(), Scalar::zero());
}

#[test]
fn dropped_clock_leaves_on_the_next_block() {
    let (producer, mut consumer) = RingBuffer::new(4).split();
    let mut clocks = Clocks::new(4, producer);
    let first = ClockId::reserve(&clocks.controller()).unwrap();
    let second = ClockId::reserve(&clocks.controller()).unwrap();
    let clock = Clock::new(one_second());
    let shared = clock.shared();
    clocks.run_command(ClockCommand::Add(first, clock));
    clocks.run_command(ClockCommand::Add(second, Clock::new(one_second())));
    clocks.on_start_processing();
    assert!(clocks.get(first).is_some());
    assert!(consumer.pop().is_none());
    shared.mark_for_removal();
    clocks.on_start_processing();
    assert!(clocks.get(first).is_none());
    assert!(clocks.get(second).is_some());
    assert!(consumer.pop().is_some());
    assert!(consumer.pop().is_none());
}

#[test]
fn reserving_stops_when_every_slot_is_taken() {
    let (producer, _consumer) = RingBuffer::<Clock>::new(2).split();
    let clocks = Clocks::new(2, producer);
    let controller = clocks.controller();
    let first = ClockId::reserve(&controller);
    let second = ClockId::reserve(&controller);
    assert!(first.is_some() && second.is_some());
    assert_ne!(first, second);
    assert!(ClockId::reserve(&controller).is_none());
    let (producer, _consumer) = RingBuffer::<Clock>::new(1).split();
    let none = Clocks::new(0, producer);
    assert!(ClockId::reserve(&none.controller()).is_none());
}

#[test]
fn unused_clocks_stay_while_the_return_queue_is_full() {
    let (producer, mut consumer) = RingBuffer::new(1).split();
    let mut clocks = Clocks::new(4, producer);
    let mut ids = Vec::new();
    for _ in 0..3 {
        let id = ClockId::reserve(&clocks.controller()).unwrap();
        let clock = Clock::new(one_second());
        clock.shared().mark_for_removal();
        clocks.run_command(ClockCommand::Add(id, clock));
        ids.push(id);
    }
    // room for one: the newest leaves first
    clocks.on_start_processing();
    assert!(clocks.get(ids[2]).is_none());
    assert!(clocks.get(ids[1]).is_some());
    assert!(clocks.get(ids[0]).is_some());
    // still full: nothing leaves
    clocks.on_start_processing();
    assert!(clocks.get(ids[1]).is_some());
    assert!(consumer.pop().is_some());
    clocks.on_start_processing();
    assert!(clocks.get(ids[1]).is_none());
    assert!(clocks.get(ids[0]).is_some());
    assert!(clocks.nth(0).is_some());
    assert!(clocks.nth(1).is_none());
}

#[test]
fn commands_for_a_missing_clock_do_nothing() {
    let (producer, _consumer) = RingBuffer::new(4).split();
    let mut clocks = Clocks::new(4, producer);
    let present = ClockId::reserve(&clocks.controller()).unwrap();
    let missing = ClockId::reserve(&clocks.controller()).unwrap();
    clocks.run_command(ClockCommand::Add(present, Clock::new(one_second())));
    clocks.run_command(ClockCommand::Start(missing));
    clocks.run_command(ClockCommand::Stop(missing));
    clocks.run_command(ClockCommand::Pause(missing));
    clocks.run_command(ClockCommand::SetInterval(missing, one_second()));
    assert!(clocks.get(missing).is_none());
    assert!(!clocks.get(present).unwrap().ticking());
}

#[test]
fn adding_under_a_taken_id_is_refused() {
    let (producer, _consumer) = RingBuffer::new(4).split();
    let mut clocks = Clocks::new(4, producer);
    let id = ClockId::reserve(&clocks.controller()).unwrap();
    assert!(clocks.add(id, Clock::new(one_second())));
    clocks.run_command(ClockCommand::Start(id));
    // the slot is taken: the collection stays as it is
    assert!(!clocks.add(id, Clock::new(one_second())));
    assert!(clocks.get(id).unwrap().ticking());
    assert!(clocks.nth(0).is_some());
    assert!(clocks.nth(1).is_none());
}

#[test]
fn a_clock_leaves_only_if_marked_and_there_is_room() {
    let (producer, _consumer) = RingBuffer::new(4).split();
    let mut clocks = Clocks::new(4, producer);
    let older = ClockId::reserve(&clocks.controller()).unwrap();
    let newer = ClockId::reserve(&clocks.controller()).unwrap();
    assert!(clocks.add(older, Clock::new(one_second())));
    assert!(clocks.add(newer, Clock::new(one_second())));
    clocks.run_command(ClockCommand::Start(newer));
    assert!(clocks.remove_if_unused(0, false, true).is_none());
    assert!(clocks.remove_if_unused(0, true, false).is_none());
    assert!(clocks.remove_if_unused(0, false, false).is_none());
    assert!(clocks.get(newer).is_some() && clocks.get(older).is_some());
    // place 0 is the newest clock
    let removed = clocks.remove_if_unused(0, true, true).unwrap();
    assert!(removed.ticking());
    assert!(clocks.get(newer).is_none());
    assert!(clocks.get(older).is_some());
    assert!(clocks.nth(1).is_none());
}

#[test]
fn error_messages() {
    assert_eq!(
        CommandQueueFull.message(),
        "Cannot send a command to the audio renderer because the command queue is full"
    );
    assert_eq!(
        CommandError::CommandQueueFull.message(),
        "Could not add a sound because the command queue is full."
    );
    assert_eq!(
        CommandError::MutexPoisoned.message(),
        "Could not add a sound because a thread panicked while using the command queue."
    );
}
