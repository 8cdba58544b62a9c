//! The single-producer, single-consumer ring buffers that cross the realtime
//! boundary, and what this library relies on from them.
//!
//! Nothing in this file is proved: each item states what the ring buffer
//! crate's source shows of one of its functions. The other end of a queue
//! belongs to another thread, so nothing here says how many items a queue
//! holds: each end is known by what it has itself sent or received.

use ringbuf::{Consumer, Producer, RingBuffer};
use vstd::prelude::*;

use crate::clock::Clock;
use crate::parameter::ParameterCommand;
use crate::sound::static_sound::Command;
use crate::track::Track;

verus! {

/// `ringbuf::Producer`: the end of a queue that items are pushed into.
#[verifier::external_type_specification]
#[verifier::external_body]
#[verifier::reject_recursive_types(T)]
pub struct ExProducer<T>(Producer<T>);

/// `ringbuf::Consumer`: the end of a queue that items are popped from.
#[verifier::external_type_specification]
#[verifier::external_body]
#[verifier::reject_recursive_types(T)]
pub struct ExConsumer<T>(Consumer<T>);

/// The number of parameter commands that the queue of a producer has room for.
pub uninterp spec fn parameter_queue_capacity(producer: Producer<ParameterCommand>) -> nat;

/// The parameter commands that a producer has put into its queue so far, oldest first.
/// Only the producer's own pushes add to them.
pub uninterp spec fn parameter_commands_sent(producer: Producer<ParameterCommand>) -> Seq<ParameterCommand>;

/// The parameter commands that a consumer has taken out of its queue so far, oldest
/// first. Only the consumer's own pops add to them.
pub uninterp spec fn parameter_commands_received(consumer: Consumer<ParameterCommand>) -> Seq<ParameterCommand>;

/// `RingBuffer::new` and `RingBuffer::split`: the two ends of a new queue
/// with room for `capacity` parameter commands. Nothing was sent or received yet.
///
/// The outside function allocates one slot more than the capacity.
#[verifier::external_body]
pub(crate) fn new_parameter_queue(capacity: usize) -> (ends: (Producer<ParameterCommand>, Consumer<ParameterCommand>))
    requires
        capacity < usize::MAX,
    ensures
        parameter_queue_capacity(ends.0) == capacity,
        parameter_commands_sent(ends.0).len() == 0,
        parameter_commands_received(ends.1).len() == 0,
{
    RingBuffer::new(capacity).split()
}

/// `Producer::push`: appends `command` to the queue, or hands it back when
/// the queue is full. A command that is handed back was not sent. The queue
/// holds no more than was ever sent, so it has room as long as fewer
/// commands were sent than it has room for.
#[verifier::external_body]
pub(crate) fn push_parameter_command(producer: &mut Producer<ParameterCommand>, command: ParameterCommand) -> (refused:
    Option<ParameterCommand>)
    ensures
        parameter_queue_capacity(*final(producer)) == parameter_queue_capacity(*old(producer)),
        parameter_commands_sent(*old(producer)).len() < parameter_queue_capacity(*old(producer))
            ==> refused is None,
        refused matches Some(back) ==> back == command && parameter_commands_sent(*final(producer))
            == parameter_commands_sent(*old(producer)),
        refused is None ==> parameter_commands_sent(*final(producer)) == parameter_commands_sent(
            *old(producer),
        ).push(command),
{
    producer.push(command).err()
}

/// `Consumer::pop`: takes the oldest command out of the queue, if the queue
/// holds one. What comes depends on what the other thread has pushed.
#[verifier::external_body]
pub(crate) fn pop_parameter_command(consumer: &mut Consumer<ParameterCommand>) -> (command: Option<ParameterCommand>)
    ensures
        command matches Some(taken) ==> parameter_commands_received(*final(consumer))
            == parameter_commands_received(*old(consumer)).push(taken),
        command is None ==> parameter_commands_received(*final(consumer))
            == parameter_commands_received(*old(consumer)),
{
    consumer.pop()
}

/// The number of sound commands that the queue of a producer has room for.
pub uninterp spec fn sound_queue_capacity(producer: Producer<Command>) -> nat;

/// The sound commands that a producer has put into its queue so far, oldest first.
/// Only the producer's own pushes add to them.
pub uninterp spec fn sound_commands_sent(producer: Producer<Command>) -> Seq<Command>;

/// The sound commands that a consumer has taken out of its queue so far, oldest
/// first. Only the consumer's own pops add to them.
pub uninterp spec fn sound_commands_received(consumer: Consumer<Command>) -> Seq<Command>;

/// `RingBuffer::new` and `RingBuffer::split`: the two ends of a new queue
/// with room for `capacity` sound commands. Nothing was sent or received yet.
///
/// The outside function allocates one slot more than the capacity.
#[verifier::external_body]
pub(crate) fn new_sound_queue(capacity: usize) -> (ends: (Producer<Command>, Consumer<Command>))
    requires
        capacity < usize::MAX,
    ensures
        sound_queue_capacity(ends.0) == capacity,
        sound_commands_sent(ends.0).len() == 0,
        sound_commands_received(ends.1).len() == 0,
{
    RingBuffer::new(capacity).split()
}

/// `Producer::push`: appends `command` to the queue, or hands it back when
/// the queue is full. A command that is handed back was not sent. The queue
/// holds no more than was ever sent, so it has room as long as fewer
/// commands were sent than it has room for.
#[verifier::external_body]
pub(crate) fn push_sound_command(producer: &mut Producer<Command>, command: Command) -> (refused:
    Option<Command>)
    ensures
        sound_queue_capacity(*final(producer)) == sound_queue_capacity(*old(producer)),
        sound_commands_sent(*old(producer)).len() < sound_queue_capacity(*old(producer))
            ==> refused is None,
        refused matches Some(back) ==> back == command && sound_commands_sent(*final(producer))
            == sound_commands_sent(*old(producer)),
        refused is None ==> sound_commands_sent(*final(producer)) == sound_commands_sent(
            *old(producer),
        ).push(command),
{
    producer.push(command).err()
}

/// `Consumer::pop`: takes the oldest command out of the queue, if the queue
/// holds one. What comes depends on what the other thread has pushed.
#[verifier::external_body]
pub(crate) fn pop_sound_command(consumer: &mut Consumer<Command>) -> (command: Option<Command>)
    ensures
        command matches Some(taken) ==> sound_commands_received(*final(consumer))
            == sound_commands_received(*old(consumer)).push(taken),
        command is None ==> sound_commands_received(*final(consumer))
            == sound_commands_received(*old(consumer)),
{
    consumer.pop()
}

/// The clocks that the producer has put into its queue so far, oldest first.
/// Only the producer's own pushes add to them.
pub uninterp spec fn clock_queue_sent(producer: Producer<Clock>) -> Seq<Clock>;

/// Whether the producer was seen to have room for one more clock. Only the
/// producer fills the queue, so room that was seen stays until the next
/// push.
pub uninterp spec fn clock_queue_has_room(producer: Producer<Clock>) -> bool;

/// `Producer::is_full`: whether the queue had no room when it was looked at.
#[verifier::external_body]
pub(crate) fn clock_queue_is_full(producer: &Producer<Clock>) -> (full: bool)
    ensures
        !full ==> clock_queue_has_room(*producer),
{
    producer.is_full()
}

/// `Producer::push`: appends `clock` to the queue, or hands it back when the
/// queue is full. A queue that was seen to have room takes the clock. A clock
/// that is handed back was not sent.
#[verifier::external_body]
pub(crate) fn clock_queue_push(producer: &mut Producer<Clock>, clock: Clock) -> (refused: Option<
    Clock,
>)
    ensures
        clock_queue_has_room(*old(producer)) ==> refused is None,
        refused matches Some(back) ==> back == clock && clock_queue_sent(*final(producer))
            == clock_queue_sent(*old(producer)),
        refused is None ==> clock_queue_sent(*final(producer)) == clock_queue_sent(
            *old(producer),
        ).push(clock),
{
    producer.push(clock).err()
}

/// The tracks that the producer has put into its queue so far, oldest first.
/// Only the producer's own pushes add to them.
pub uninterp spec fn track_queue_sent(producer: Producer<Track>) -> Seq<Track>;

/// Whether the producer was seen to have room for one more track. Only the
/// producer fills the queue, so room that was seen stays until the next
/// push.
pub uninterp spec fn track_queue_has_room(producer: Producer<Track>) -> bool;

/// `Producer::is_full`: whether the queue had no room when it was looked at.
#[verifier::external_body]
pub(crate) fn track_queue_is_full(producer: &Producer<Track>) -> (full: bool)
    ensures
        !full ==> track_queue_has_room(*producer),
{
    producer.is_full()
}

/// `Producer::push`: appends `track` to the queue, or hands it back when the
/// queue is full. A queue that was seen to have room takes the track. A track
/// that is handed back was not sent.
#[verifier::external_body]
pub(crate) fn track_queue_push(producer: &mut Producer<Track>, track: Track) -> (refused: Option<
    Track,
>)
    ensures
        track_queue_has_room(*old(producer)) ==> refused is None,
        refused matches Some(back) ==> back == track && track_queue_sent(*final(producer))
            == track_queue_sent(*old(producer)),
        refused is None ==> track_queue_sent(*final(producer)) == track_queue_sent(
            *old(producer),
        ).push(track),
{
    producer.push(track).err()
}

} // verus!
