//! The renderer's collection of clocks.

use atomic_arena::{Arena, Controller, Key};
use ringbuf::Producer;
use vstd::prelude::*;

use crate::arena::{
    clock_capacity, clock_controller, clock_entries, clock_get, clock_get_mut, clock_insert,
    clock_nth, clock_nth_mut, clock_remove, clock_slot_open, controller_capacity, has_key,
    key_index, new_clock_arena, position_of, well_keyed,
};
use crate::clock::{Clock, ClockAdvance, ClockId, ClockView};
use crate::dsp::Scalar;
use crate::queue::{
    clock_queue_has_room, clock_queue_is_full, clock_queue_push, clock_queue_sent,
};
use crate::remainder::{
    is_remainder, lemma_parted_leaves, lemma_parted_rest, lemma_parted_stays,
    lemma_remove_keeps_picks, lemma_whole_is_remainder, parted, picked_from,
};
use crate::value::Value;

verus! {

/// A command that control code sends to the clocks.
pub enum ClockCommand {
    /// Puts a new clock into the slot reserved for it.
    Add(ClockId, Clock),
    /// Changes the interval setting of a clock.
    SetInterval(ClockId, Value<Scalar>),
    /// Starts or resumes a clock.
    Start(ClockId),
    /// Pauses a clock.
    Pause(ClockId),
    /// Stops a clock and resets it to tick zero.
    Stop(ClockId),
}

impl ClockCommand {
    /// The clock that the command is about.
    pub open spec fn id(self) -> ClockId {
        match self {
            ClockCommand::Add(id, _) => id,
            ClockCommand::SetInterval(id, _) => id,
            ClockCommand::Start(id) => id,
            ClockCommand::Pause(id) => id,
            ClockCommand::Stop(id) => id,
        }
    }
}

/// Whether `views` lists a clock under `id`.
pub open spec fn lists(views: Seq<(ClockId, ClockView)>, id: ClockId) -> bool {
    exists|i: int| 0 <= i < views.len() && (#[trigger] views[i]).0 == id
}

/// The identifiers and states of the listed clocks.
pub open spec fn clock_views(entries: Seq<(Key, Clock)>) -> Seq<(ClockId, ClockView)> {
    Seq::new(entries.len(), |i: int| (ClockId(entries[i].0), entries[i].1@))
}

/// The states of the listed clocks.
pub open spec fn states(views: Seq<(ClockId, ClockView)>) -> Seq<ClockView> {
    Seq::new(views.len(), |i: int| views[i].1)
}

/// The states of `clocks`.
pub open spec fn states_of(clocks: Seq<Clock>) -> Seq<ClockView> {
    Seq::new(clocks.len(), |i: int| clocks[i]@)
}

/// Provides access to all existing [`Clock`]s.
pub struct Clocks {
    clocks: Arena<Clock>,
    unused_clock_producer: Producer<Clock>,
}

impl View for Clocks {
    type V = Seq<(ClockId, ClockView)>;

    /// The clocks, most recently added first.
    closed spec fn view(&self) -> Seq<(ClockId, ClockView)> {
        clock_views(clock_entries(self.clocks))
    }
}

impl Clocks {
    /// The number of clocks that the collection has room for.
    pub closed spec fn capacity(self) -> nat {
        clock_capacity(self.clocks)
    }

    /// What every collection of clocks keeps: each clock's identifier names a
    /// slot of the collection, and no identifier is listed twice.
    pub closed spec fn wf(self) -> bool {
        well_keyed(clock_entries(self.clocks), clock_capacity(self.clocks))
    }

    /// Whether `id` names a slot of this collection. Identifiers reserved
    /// through this collection's controller do.
    pub open spec fn in_range(self, id: ClockId) -> bool {
        key_index(id.0) < self.capacity()
    }

    /// Whether the slot reserved under `id` is still free, so that a clock
    /// can be added under `id`.
    pub closed spec fn accepts(self, id: ClockId) -> bool {
        clock_slot_open(self.clocks, id.0)
    }

    /// The end of the queue of unused clocks that the collection holds.
    pub closed spec fn return_queue(self) -> Producer<Clock> {
        self.unused_clock_producer
    }

    /// The clocks that have left the collection and were handed to the queue
    /// of unused clocks so far, oldest first.
    pub closed spec fn returned(self) -> Seq<Clock> {
        clock_queue_sent(self.unused_clock_producer)
    }

    /// The states of the clocks that were handed to the queue of unused
    /// clocks since `before`.
    pub open spec fn returned_since(self, before: Clocks) -> Seq<ClockView> {
        states_of(self.returned().skip(before.returned().len() as int))
    }

    /// Whether the collection holds a clock under `id`.
    pub open spec fn has(self, id: ClockId) -> bool {
        lists(self@, id)
    }

    /// The place of the clock `id` in the collection, where it has one.
    pub open spec fn place(self, id: ClockId) -> int {
        choose|i: int| 0 <= i < self@.len() && (#[trigger] self@[i]).0 == id
    }

    /// The collection after `change` was applied to the clock `id`, if there
    /// is one.
    pub open spec fn with_changed(
        self,
        id: ClockId,
        change: spec_fn(ClockView) -> ClockView,
    ) -> Seq<(ClockId, ClockView)> {
        if self.has(id) {
            self@.update(self.place(id), (id, change(self@[self.place(id)].1)))
        } else {
            self@
        }
    }

    /// Creates an empty collection with room for `capacity` clocks. Clocks
    /// that leave the collection are handed to `unused_clock_producer`.
    pub fn new(capacity: usize, unused_clock_producer: Producer<Clock>) -> (clocks: Clocks)
        ensures
            clocks.wf(),
            clocks.capacity() == capacity,
            clocks@.len() == 0,
    {
        Self { clocks: new_clock_arena(capacity), unused_clock_producer }
    }

    /// Returns the token through which control code reserves identifiers for
    /// new clocks.
    pub fn controller(&self) -> (controller: Controller)
        ensures
            controller_capacity(controller) == self.capacity(),
    {
        clock_controller(&self.clocks)
    }

    /// Returns a reference to the clock with the given ID (if it exists).
    pub fn get(&self, id: ClockId) -> (found: Option<&Clock>)
        requires
            self.wf(),
            self.in_range(id),
        ensures
            found.is_some() == self.has(id),
            found matches Some(clock) ==> clock@ == self@[self.place(id)].1,
    {
        proof {
            self.lemma_places(id);
        }
        clock_get(&self.clocks, id.0)
    }

    /// Returns the clock at `position`, counted from the most recently added
    /// one, if there are that many.
    pub fn nth(&self, position: usize) -> (found: Option<&Clock>)
        ensures
            found.is_some() == (position < self@.len()),
            found matches Some(clock) ==> clock@ == self@[position as int].1,
    {
        match clock_nth(&self.clocks, position) {
            Some(entry) => Some(entry.1),
            None => None,
        }
    }

    /// Takes the clock at `place` out of the collection if its removal was
    /// asked for and the queue of unused clocks has room, and leaves the
    /// collection as it is otherwise. `marked` and `room` are what the flag
    /// of that clock and the queue were seen to say.
    pub fn remove_if_unused(&mut self, place: usize, marked: bool, room: bool) -> (removed: Option<
        Clock,
    >)
        requires
            old(self).wf(),
            place < old(self)@.len(),
        ensures
            final(self).wf(),
            final(self).capacity() == old(self).capacity(),
            final(self).return_queue() == old(self).return_queue(),
            removed.is_some() == (marked && room),
            removed matches Some(clock) ==> clock@ == old(self)@[place as int].1 && final(self)@
                == old(self)@.remove(place as int),
            removed is None ==> final(self)@ == old(self)@,
    {
        if !(marked && room) {
            return None;
        }
        let ghost entries = clock_entries(self.clocks);
        let key = match clock_nth(&self.clocks, place) {
            Some(entry) => entry.0,
            None => {
                return None;
            },
        };
        proof {
            assert(entries[place as int].0 == key);
            assert(position_of(entries, key) == place) by {
                let p = position_of(entries, key);
                assert(entries[p].0 == entries[place as int].0);
            }
        }
        let removed = clock_remove(&mut self.clocks, key);
        proof {
            assert(clock_views(entries.remove(place as int)) =~= clock_views(entries).remove(
                place as int,
            ));
        }
        removed
    }

    /// Takes the clocks whose handles were dropped out of the collection and
    /// hands them to the queue of unused clocks, newest first, for as long as
    /// that queue has room.
    ///
    /// Whether a handle was dropped and whether the queue has room is
    /// decided on other threads; [`Clocks::remove_if_unused`] says what
    /// follows from each answer. Whatever the answers, the clocks that were
    /// there are parted into those that stay and those that were handed to
    /// the queue: none is lost, none is changed, and both keep their order.
    pub fn on_start_processing(&mut self)
        requires
            old(self).wf(),
        ensures
            final(self).wf(),
            final(self).capacity() == old(self).capacity(),
            is_remainder(final(self)@, old(self)@),
            forall|id: ClockId| final(self).has(id) ==> old(self).has(id),
            old(self).returned().len() <= final(self).returned().len(),
            final(self).returned().subrange(0, old(self).returned().len() as int) == old(
                self,
            ).returned(),
            parted(states(old(self)@), states(final(self)@), final(self).returned_since(*old(self))),
    {
        let ghost before = self@;
        let ghost whole = states(self@);
        let ghost had = self.returned().len() as int;
        proof {
            lemma_whole_is_remainder(before);
            assert(self.returned_since(*old(self)) =~= Seq::<ClockView>::empty());
            assert(whole.subrange(0, 0) =~= Seq::<ClockView>::empty());
            assert(states(self@).subrange(0, 0) =~= Seq::<ClockView>::empty());
            assert(states(self@).skip(0) =~= whole.skip(0));
        }
        let mut place: usize = 0;
        loop
            invariant
                self.wf(),
                self.capacity() == old(self).capacity(),
                before == old(self)@,
                whole == states(before),
                is_remainder(self@, before),
                had == old(self).returned().len(),
                had <= self.returned().len(),
                self.returned().subrange(0, had) == old(self).returned(),
                place <= self@.len(),
                self@.len() + self.returned_since(*old(self)).len() == whole.len(),
                parted(
                    whole.subrange(0, place + self.returned_since(*old(self)).len()),
                    states(self@).subrange(0, place as int),
                    self.returned_since(*old(self)),
                ),
                states(self@).skip(place as int) == whole.skip(
                    place + self.returned_since(*old(self)).len(),
                ),
            decreases self@.len() - place,
        {
            let marked = match clock_nth(&self.clocks, place) {
                Some(entry) => entry.1.is_marked_for_removal(),
                None => {
                    break ;
                },
            };
            let room = !clock_queue_is_full(&self.unused_clock_producer);
            if !room {
                break ;
            }
            let ghost views = self@;
            let ghost gone = self.returned_since(*old(self));
            let ghost sent = self.returned();
            proof {
                assert(states(views)[place as int] == states(views).skip(place as int)[0]);
                assert(whole[place + gone.len()] == whole.skip(place + gone.len())[0]);
            }
            match self.remove_if_unused(place, marked, room) {
                Some(clock) => {
                    let refused = clock_queue_push(&mut self.unused_clock_producer, clock);
                    proof {
                        assert(refused is None);
                        let picks = choose|picks: Seq<int>| picked_from(views, before, picks);
                        lemma_remove_keeps_picks(views, before, picks, place as int);
                        assert(self.returned() == sent.push(clock));
                        assert(self.returned().subrange(0, had) =~= sent.subrange(0, had));
                        assert(self.returned_since(*old(self)) =~= gone.push(clock@));
                        assert(states(self@) =~= states(views).remove(place as int));
                        lemma_parted_leaves(whole, states(views), gone, place as int);
                        assert(states(self@).skip(place as int) =~= states(views).skip(
                            place as int,
                        ).skip(1));
                        assert(whole.skip(place + gone.len() + 1) =~= whole.skip(
                            place + gone.len(),
                        ).skip(1));
                    }
                },
                None => {
                    if place == usize::MAX {
                        break ;
                    }
                    proof {
                        lemma_parted_stays(whole, states(views), gone, place as int);
                        assert(states(self@).skip(place + 1) =~= states(views).skip(
                            place as int,
                        ).skip(1));
                        assert(whole.skip(place + 1 + gone.len()) =~= whole.skip(
                            place + gone.len(),
                        ).skip(1));
                    }
                    place = place + 1;
                },
            }
        }
        proof {
            lemma_remainder_has(self@, before);
            let gone = self.returned_since(*old(self));
            let now = states(self@);
            lemma_parted_rest(
                whole.subrange(0, place + gone.len()),
                now.subrange(0, place as int),
                gone,
                now.skip(place as int),
            );
            assert(whole.subrange(0, place + gone.len()) + whole.skip(place + gone.len()) =~= whole);
            assert(now.subrange(0, place as int) + now.skip(place as int) =~= now);
        }
    }

    /// Puts `clock` into the slot reserved under `id`, as the first of the
    /// collection, and says whether it did. The slot takes the clock if it
    /// is still free; otherwise nothing changes and the clock is given up.
    pub fn add(&mut self, id: ClockId, clock: Clock) -> (added: bool)
        requires
            old(self).wf(),
        ensures
            final(self).wf(),
            final(self).capacity() == old(self).capacity(),
            final(self).return_queue() == old(self).return_queue(),
            added == old(self).accepts(id),
            final(self)@ == (if added {
                seq![(id, clock@)] + old(self)@
            } else {
                old(self)@
            }),
            forall|other: ClockId|
                other != id ==> final(self).accepts(other) == old(self).accepts(other),
            forall|other: ClockId|
                final(self).has(other) == (old(self).has(other) || (added && other == id)),
    {
        let added = clock_insert(&mut self.clocks, id.0, clock);
        proof {
            if added {
                assert(self@ =~= seq![(id, clock@)] + old(self)@);
                lemma_lists_added(old(self)@, (id, clock@));
            } else {
                assert(self@ =~= old(self)@);
            }
            assert forall|other: ClockId| other != id implies self.accepts(other) == old(
                self,
            ).accepts(other) by {
                assert(other.0 != id.0);
            }
        }
        added
    }

    /// Carries out one command.
    ///
    /// A clock is added as the first of the collection. The other commands
    /// change the clock they name and do nothing when no such clock exists.
    /// Adding under an identifier whose slot is not free is an error of the
    /// caller and left out.
    pub fn run_command(&mut self, command: ClockCommand)
        requires
            old(self).wf(),
            old(self).in_range(command.id()),
            command is Add ==> old(self).accepts(command.id()),
        ensures
            final(self).wf(),
            final(self).capacity() == old(self).capacity(),
            final(self).return_queue() == old(self).return_queue(),
            forall|id: ClockId|
                id != command.id() ==> final(self).accepts(id) == old(self).accepts(id),
            forall|id: ClockId|
                final(self).has(id) == (old(self).has(id) || (command is Add && id
                    == command.id())),
            final(self)@ == (match command {
                ClockCommand::Add(id, clock) => seq![(id, clock@)] + old(self)@,
                ClockCommand::SetInterval(id, interval) => old(self).with_changed(
                    id,
                    |clock: ClockView| ClockView { interval_setting: interval, ..clock },
                ),
                ClockCommand::Start(id) => old(self).with_changed(
                    id,
                    |clock: ClockView| ClockView { ticking: true, ..clock },
                ),
                ClockCommand::Pause(id) => old(self).with_changed(
                    id,
                    |clock: ClockView| ClockView { ticking: false, ..clock },
                ),
                ClockCommand::Stop(id) => old(self).with_changed(
                    id,
                    |clock: ClockView| ClockView {
                        ticking: false,
                        ticks: 0,
                        fractional: Scalar::spec_zero(),
                        ..clock
                    },
                ),
            }),
    {
        proof {
            self.lemma_places(command.id());
        }
        let ghost entries = clock_entries(self.clocks);
        match command {
            ClockCommand::Add(id, clock) => {
                let added = self.add(id, clock);
                assert(added);
            },
            ClockCommand::SetInterval(id, interval) => {
                if let Some(clock) = clock_get_mut(&mut self.clocks, id.0) {
                    clock.set_interval(interval);
                }
                proof {
                    lemma_changed(entries, clock_entries(self.clocks), clock_capacity(self.clocks));
                    lemma_lists_same(old(self)@, self@);
                }
                assert(self@ =~= old(self).with_changed(
                    id,
                    |clock: ClockView| ClockView { interval_setting: interval, ..clock },
                ));
            },
            ClockCommand::Start(id) => {
                if let Some(clock) = clock_get_mut(&mut self.clocks, id.0) {
                    clock.start();
                }
                proof {
                    lemma_changed(entries, clock_entries(self.clocks), clock_capacity(self.clocks));
                    lemma_lists_same(old(self)@, self@);
                }
                assert(self@ =~= old(self).with_changed(
                    id,
                    |clock: ClockView| ClockView { ticking: true, ..clock },
                ));
            },
            ClockCommand::Pause(id) => {
                if let Some(clock) = clock_get_mut(&mut self.clocks, id.0) {
                    clock.pause();
                }
                proof {
                    lemma_changed(entries, clock_entries(self.clocks), clock_capacity(self.clocks));
                    lemma_lists_same(old(self)@, self@);
                }
                assert(self@ =~= old(self).with_changed(
                    id,
                    |clock: ClockView| ClockView { ticking: false, ..clock },
                ));
            },
            ClockCommand::Stop(id) => {
                if let Some(clock) = clock_get_mut(&mut self.clocks, id.0) {
                    clock.stop();
                }
                proof {
                    lemma_changed(entries, clock_entries(self.clocks), clock_capacity(self.clocks));
                    lemma_lists_same(old(self)@, self@);
                }
                assert(self@ =~= old(self).with_changed(
                    id,
                    |clock: ClockView| ClockView {
                        ticking: false,
                        ticks: 0,
                        fractional: Scalar::spec_zero(),
                        ..clock
                    },
                ));
            },
        }
    }

    /// Lets time pass for every clock: the clock at place `i` takes
    /// `advances[i]`, and a clock without an item in `advances` stays as it
    /// is. See [`ClockView::advanced`].
    pub fn update(&mut self, advances: &Vec<ClockAdvance>)
        requires
            old(self).wf(),
        ensures
            final(self).wf(),
            final(self).capacity() == old(self).capacity(),
            final(self).return_queue() == old(self).return_queue(),
            forall|id: ClockId| final(self).accepts(id) == old(self).accepts(id),
            forall|id: ClockId| final(self).has(id) == old(self).has(id),
            final(self)@.len() == old(self)@.len(),
            forall|i: int|
                0 <= i < old(self)@.len() ==> #[trigger] final(self)@[i] == (
                    old(self)@[i].0,
                    if i < advances@.len() {
                        old(self)@[i].1.advanced(advances@[i])
                    } else {
                        old(self)@[i].1
                    },
                ),
    {
        let mut position: usize = 0;
        while position < advances.len()
            invariant
                self.wf(),
                self.capacity() == old(self).capacity(),
                self.return_queue() == old(self).return_queue(),
                forall|id: ClockId| self.accepts(id) == old(self).accepts(id),
                self@.len() == old(self)@.len(),
                position <= advances@.len(),
                forall|i: int|
                    0 <= i < old(self)@.len() ==> #[trigger] self@[i] == (
                        old(self)@[i].0,
                        if i < position {
                            old(self)@[i].1.advanced(advances@[i])
                        } else {
                            old(self)@[i].1
                        },
                    ),
            ensures
                self.wf(),
                self.capacity() == old(self).capacity(),
                self.return_queue() == old(self).return_queue(),
                forall|id: ClockId| self.accepts(id) == old(self).accepts(id),
                self@.len() == old(self)@.len(),
                forall|i: int|
                    0 <= i < old(self)@.len() ==> #[trigger] self@[i] == (
                        old(self)@[i].0,
                        if i < advances@.len() {
                            old(self)@[i].1.advanced(advances@[i])
                        } else {
                            old(self)@[i].1
                        },
                    ),
            decreases advances@.len() - position,
        {
            let ghost entries = clock_entries(self.clocks);
            let ghost views = self@;
            let advance = advances[position];
            match clock_nth_mut(&mut self.clocks, position) {
                None => {
                    break ;
                },
                Some(clock) => {
                    clock.update(advance);
                },
            }
            proof {
                lemma_changed(entries, clock_entries(self.clocks), clock_capacity(self.clocks));
                assert(self@ =~= views.update(
                    position as int,
                    (views[position as int].0, views[position as int].1.advanced(advance)),
                ));
            }
            position = position + 1;
        }
        proof {
            lemma_lists_same(old(self)@, self@);
        }
    }

    /// The places in the view are the places in the arena.
    proof fn lemma_places(self, id: ClockId)
        requires
            self.wf(),
        ensures
            self.has(id) == has_key(clock_entries(self.clocks), id.0),
            self.has(id) ==> self.place(id) == position_of(clock_entries(self.clocks), id.0),
    {
        let entries = clock_entries(self.clocks);
        if self.has(id) {
            let i = self.place(id);
            assert(entries[i].0 == id.0);
            let p = position_of(entries, id.0);
            assert(entries[p].0 == entries[i].0);
        }
        if has_key(entries, id.0) {
            let p = position_of(entries, id.0);
            assert(self@[p].0 == id);
        }
    }
}

/// Lists with the same identifiers at the same places list the same clocks.
proof fn lemma_lists_same(before: Seq<(ClockId, ClockView)>, after: Seq<(ClockId, ClockView)>)
    requires
        after.len() == before.len(),
        forall|i: int| 0 <= i < before.len() ==> (#[trigger] after[i]).0 == before[i].0,
    ensures
        forall|id: ClockId| lists(after, id) == lists(before, id),
{
    assert forall|id: ClockId| lists(after, id) == lists(before, id) by {
        if lists(after, id) {
            let i = choose|i: int| 0 <= i < after.len() && (#[trigger] after[i]).0 == id;
            assert(before[i].0 == id);
        }
        if lists(before, id) {
            let i = choose|i: int| 0 <= i < before.len() && (#[trigger] before[i]).0 == id;
            assert(after[i].0 == id);
        }
    }
}

/// A list with one more clock in front lists that clock and those it listed.
proof fn lemma_lists_added(before: Seq<(ClockId, ClockView)>, added: (ClockId, ClockView))
    ensures
        forall|id: ClockId|
            lists(seq![added] + before, id) == (lists(before, id) || id == added.0),
{
    let after = seq![added] + before;
    assert forall|id: ClockId| lists(after, id) == (lists(before, id) || id == added.0) by {
        if lists(after, id) {
            let i = choose|i: int| 0 <= i < after.len() && (#[trigger] after[i]).0 == id;
            if i > 0 {
                assert(before[i - 1].0 == id);
            }
        }
        if lists(before, id) {
            let i = choose|i: int| 0 <= i < before.len() && (#[trigger] before[i]).0 == id;
            assert(after[i + 1].0 == id);
        }
        if id == added.0 {
            assert(after[0].0 == id);
        }
    }
}

/// A clock of a remainder is a clock of the whole.
proof fn lemma_remainder_has(part: Seq<(ClockId, ClockView)>, whole: Seq<(ClockId, ClockView)>)
    requires
        is_remainder(part, whole),
    ensures
        forall|id: ClockId| #[trigger] lists(part, id) ==> lists(whole, id),
{
    let picks = choose|picks: Seq<int>| picked_from(part, whole, picks);
    assert forall|id: ClockId| #[trigger] lists(part, id) implies lists(whole, id) by {
        let i = choose|i: int| 0 <= i < part.len() && (#[trigger] part[i]).0 == id;
        assert(whole[picks[i]].0 == id);
    }
}

/// Changing items in place keeps the keys, and with them what holds of the
/// keys.
proof fn lemma_changed(before: Seq<(Key, Clock)>, after: Seq<(Key, Clock)>, capacity: nat)
    requires
        well_keyed(before, capacity),
        after.len() == before.len(),
        forall|i: int| 0 <= i < before.len() ==> (#[trigger] after[i]).0 == before[i].0,
    ensures
        well_keyed(after, capacity),
{
    assert forall|i: int, j: int|
        0 <= i < after.len() && 0 <= j < after.len() && (#[trigger] after[i]).0 == (
        #[trigger] after[j]).0 implies i == j by {
        assert(before[i].0 == before[j].0);
    }
    assert forall|i: int| 0 <= i < after.len() implies key_index((#[trigger] after[i]).0)
        < capacity by {
        assert(key_index(before[i].0) < capacity);
    }
}

} // verus!
