//! Tweenable values that control code drives through a command queue.

use atomic_arena::Key;
use ringbuf::{Consumer, Producer};
use std::sync::atomic::{AtomicU64, Ordering};
use std::sync::Arc;
use vstd::prelude::*;

use crate::clocks::Clocks;
use crate::dsp::Scalar;
use crate::error::CommandQueueFull;
use crate::queue::{
    new_parameter_queue, parameter_commands_received, parameter_commands_sent,
    parameter_queue_capacity, pop_parameter_command, push_parameter_command,
};
use crate::shared::share;
use crate::tween::{Tween, TweenAdvance, TweenState, Tweenable, TweenableView};

verus! {

/// A unique identifier for a parameter.
#[derive(Debug, Clone, Copy, PartialEq, Eq, Hash)]
pub struct ParameterId(pub Key);

/// The number of commands that a parameter's queue has room for.
pub const COMMAND_CAPACITY: usize = 8;

/// A command that a handle sends to its parameter.
#[derive(Debug, Clone, Copy)]
pub enum ParameterCommand {
    /// Start a transition to the target with the tween.
    SetTarget(Scalar, Tween),
}

/// What a push into a command queue comes to: the queue took the command,
/// or it was full and handed the command back.
pub fn sent<T>(refused: Option<T>) -> (result: Result<(), CommandQueueFull>)
    ensures
        result is Err <==> refused is Some,
{
    match refused {
        None => Ok(()),
        Some(_) => Err(CommandQueueFull),
    }
}

/// The value after `commands` were applied, oldest first: each starts a
/// transition from where the value is.
pub open spec fn applied(value: TweenableView, commands: Seq<ParameterCommand>) -> TweenableView
    decreases commands.len(),
{
    if commands.len() == 0 {
        value
    } else {
        match commands.last() {
            ParameterCommand::SetTarget(target, tween) => applied(value, commands.drop_last()).set(
                target,
                tween,
            ),
        }
    }
}

/// What the start of a block does to a parameter: it takes commands out of
/// its queue, at most as many as the queue has room for, and applies them in
/// the order in which they come.
pub open spec fn drained(before: Parameter, after: Parameter) -> bool {
    let had = before.received().len() as int;
    &&& had <= after.received().len() <= had + COMMAND_CAPACITY
    &&& after.received().subrange(0, had) == before.received()
    &&& after@ == applied(before@, after.received().skip(had))
}

/// What holds of a parameter after the start of a block, whatever was in its
/// queue: nothing has happened, or one transition starts from where the
/// value is.
pub proof fn lemma_drained_restarted(before: Parameter, after: Parameter)
    requires
        drained(before, after),
    ensures
        restarted(before@, after@),
{
    lemma_applied_restarted(before@, after.received().skip(before.received().len() as int));
}

/// Commands never move the value itself: after any number of them nothing
/// has happened, or one transition starts from where the value is.
pub proof fn lemma_applied_restarted(value: TweenableView, commands: Seq<ParameterCommand>)
    ensures
        restarted(value, applied(value, commands)),
    decreases commands.len(),
{
    if commands.len() > 0 {
        lemma_applied_restarted(value, commands.drop_last());
        match commands.last() {
            ParameterCommand::SetTarget(target, tween) => {
                assert(applied(value, commands) == value.set(target, tween));
            },
        }
    }
}

/// What the start of a block can do to a parameter: nothing, or start one
/// transition from where the value is.
pub open spec fn restarted(before: TweenableView, after: TweenableView) -> bool {
    after == before || exists|target: Scalar, tween: Tween| after == before.set(target, tween)
}

/// A tweenable value on the renderer's side.
pub struct Parameter {
    tweenable: Tweenable,
    command_consumer: Consumer<ParameterCommand>,
    shared_value: Arc<AtomicU64>,
}

impl View for Parameter {
    type V = TweenableView;

    closed spec fn view(&self) -> TweenableView {
        self.tweenable@
    }
}

impl Parameter {
    /// The commands that the parameter has taken out of its queue so far,
    /// oldest first.
    pub closed spec fn received(self) -> Seq<ParameterCommand> {
        parameter_commands_received(self.command_consumer)
    }

    /// Creates a parameter that rests at `initial_value`, and the handle
    /// through which control code drives and reads it. No command was sent
    /// or received yet.
    pub fn new(initial_value: Scalar) -> (made: (Parameter, ParameterHandle))
        ensures
            made.0@ == TweenableView::resting(initial_value),
            made.0.received().len() == 0,
            made.1.fresh(),
    {
        let (command_producer, command_consumer) = new_parameter_queue(COMMAND_CAPACITY);
        let shared_value = Arc::new(AtomicU64::new(initial_value.to_bits()));
        let mirror = share(&shared_value);
        (
            Parameter { tweenable: Tweenable::new(initial_value), command_consumer, shared_value },
            ParameterHandle { command_producer, shared_value: mirror },
        )
    }

    /// Returns the current value.
    pub fn get(&self) -> (value: Scalar)
        ensures
            value == self@.value,
    {
        self.tweenable.get()
    }

    /// Returns what the value is doing.
    pub fn state(&self) -> (state: TweenState)
        ensures
            state == self@.state,
    {
        self.tweenable.state()
    }

    /// Starts a block: applies the commands that wait in the queue, oldest
    /// first and at most as many as the queue has room for, then writes the
    /// current value to the mirror that the handle reads.
    ///
    /// Each command starts a transition from the current value, so only the
    /// last one applied stays. Which commands wait is decided by the thread
    /// that holds the handle; whatever it sent, the value itself does not
    /// move.
    pub fn on_start_processing(&mut self)
        ensures
            drained(*old(self), *final(self)),
            restarted(old(self)@, final(self)@),
    {
        self.drain_commands();
        self.shared_value.store(self.tweenable.get().to_bits(), Ordering::SeqCst);
    }

    /// Applies the commands that wait in the queue, oldest first and at most
    /// as many as the queue has room for.
    fn drain_commands(&mut self)
        ensures
            drained(*old(self), *final(self)),
            restarted(old(self)@, final(self)@),
            final(self).shared_value == old(self).shared_value,
    {
        let ghost had = self.received().len() as int;
        let mut taken: usize = 0;
        assert(self.received().skip(had) =~= Seq::<ParameterCommand>::empty());
        while taken < COMMAND_CAPACITY
            invariant
                taken <= COMMAND_CAPACITY,
                had == old(self).received().len(),
                self.received().len() == had + taken,
                self.received().subrange(0, had) == old(self).received(),
                self@ == applied(old(self)@, self.received().skip(had)),
                self.shared_value == old(self).shared_value,
            decreases COMMAND_CAPACITY - taken,
        {
            let ghost before = self.received();
            match pop_parameter_command(&mut self.command_consumer) {
                None => {
                    break ;
                },
                Some(command) => {
                    match command {
                        ParameterCommand::SetTarget(target, tween) => {
                            self.tweenable.set(target, tween);
                        },
                    }
                    proof {
                        let now = self.received();
                        assert(now == before.push(command));
                        assert(now.subrange(0, had) =~= before.subrange(0, had));
                        assert(now.skip(had).drop_last() =~= before.skip(had));
                        assert(now.skip(had).last() == command);
                    }
                },
            }
            taken = taken + 1;
        }
        proof {
            lemma_drained_restarted(*old(self), *self);
        }
    }

    /// Starts a transition to `target`, as a command does.
    pub fn set(&mut self, target: Scalar, tween: Tween)
        ensures
            final(self)@ == old(self)@.set(target, tween),
            final(self).received() == old(self).received(),
    {
        self.tweenable.set(target, tween);
    }

    /// Lets one sample's worth of time pass: see [`Tweenable::update`].
    pub fn update(&mut self, advance: TweenAdvance, clocks: &Clocks) -> (just_finished: bool)
        requires
            clocks.wf(),
            old(self)@.known_to(*clocks),
        ensures
            final(self)@ == old(self)@.updated(advance, *clocks),
            final(self).received() == old(self).received(),
            just_finished == old(self)@.finishes(advance, *clocks),
    {
        self.tweenable.update(advance, clocks)
    }
}

/// Controls a parameter from control code.
pub struct ParameterHandle {
    command_producer: Producer<ParameterCommand>,
    shared_value: Arc<AtomicU64>,
}

impl ParameterHandle {
    /// The commands that the handle has sent so far, oldest first.
    pub closed spec fn commands(self) -> Seq<ParameterCommand> {
        parameter_commands_sent(self.command_producer)
    }

    /// The number of commands that the handle's queue has room for.
    pub closed spec fn room(self) -> nat {
        parameter_queue_capacity(self.command_producer)
    }

    /// Whether the handle is that of a parameter just made: nothing was sent
    /// yet, and the queue has room for [`COMMAND_CAPACITY`] commands.
    pub open spec fn fresh(self) -> bool {
        self.commands().len() == 0 && self.room() == COMMAND_CAPACITY
    }

    /// The mirror that the handle reads the value from.
    pub closed spec fn mirror(self) -> Arc<AtomicU64> {
        self.shared_value
    }

    /// What a call of [`ParameterHandle::set`] leaves behind: where the
    /// queue took the command, the command is the last that was sent; where
    /// the queue was full, nothing was sent. The queue takes the command
    /// whenever fewer commands were sent than it has room for. The handle
    /// reads from the mirror it read from.
    pub open spec fn after_set(
        self,
        after: ParameterHandle,
        target: Scalar,
        tween: Tween,
        result: Result<(), CommandQueueFull>,
    ) -> bool {
        &&& after.mirror() == self.mirror()
        &&& after.room() == self.room()
        &&& self.commands().len() < self.room() ==> result is Ok
        &&& result is Ok ==> after.commands() == self.commands().push(
            ParameterCommand::SetTarget(target, tween),
        )
        &&& result is Err ==> after.commands() == self.commands()
    }

    /// Returns the value that the parameter had at the start of the block
    /// that the renderer last began.
    pub fn get(&self) -> Scalar {
        Scalar::from_bits(self.shared_value.load(Ordering::SeqCst))
    }

    /// Asks the parameter to start a transition to `target`. The command is
    /// applied at the start of the renderer's next block. Fails, without any
    /// effect, when the queue is full.
    pub fn set(&mut self, target: Scalar, tween: Tween) -> (result: Result<(), CommandQueueFull>)
        ensures
            old(self).after_set(*final(self), target, tween, result),
    {
        sent(
            push_parameter_command(
                &mut self.command_producer,
                ParameterCommand::SetTarget(target, tween),
            ),
        )
    }
}

} // verus!
