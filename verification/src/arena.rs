//! The slot arena that holds renderer-owned resources, and what this library
//! relies on from it.
//!
//! Nothing in this file is proved: each item states what the arena crate's
//! source shows of one of its functions.

use atomic_arena::{Arena, Controller, Key};
use vstd::prelude::*;

use crate::clock::Clock;
use crate::track::Track;

verus! {

/// `atomic_arena::Key`: an opaque slot identifier (index and generation).
#[verifier::external_type_specification]
#[verifier::external_body]
pub struct ExKey(Key);

/// `atomic_arena::Controller`: the token that reserves keys from any thread.
#[verifier::external_type_specification]
#[verifier::external_body]
pub struct ExController(Controller);

/// `atomic_arena::Arena`.
#[verifier::external_type_specification]
#[verifier::external_body]
#[verifier::reject_recursive_types(T)]
pub struct ExArena<T>(Arena<T>);

/// The index of the slot that a key names.
pub uninterp spec fn key_index(key: Key) -> nat;

/// The number of slots of the arena that a controller reserves keys for.
pub uninterp spec fn controller_capacity(controller: Controller) -> nat;

/// The number of slots of an arena of clocks.
pub uninterp spec fn clock_capacity(arena: Arena<Clock>) -> nat;

/// The occupied slots of an arena of clocks, most recently inserted first:
/// the order in which the arena's iterators visit them.
pub uninterp spec fn clock_entries(arena: Arena<Clock>) -> Seq<(Key, Clock)>;

/// Whether the slot that `key` names exists, carries the key's generation and
/// is free, so that an insertion under `key` is accepted.
pub uninterp spec fn clock_slot_open(arena: Arena<Clock>, key: Key) -> bool;

/// The number of slots of an arena of tracks.
pub uninterp spec fn track_capacity(arena: Arena<Track>) -> nat;

/// The occupied slots of an arena of tracks, most recently inserted first:
/// the order in which the arena's iterators visit them.
pub uninterp spec fn track_entries(arena: Arena<Track>) -> Seq<(Key, Track)>;

/// Whether the slot that `key` names exists, carries the key's generation and
/// is free, so that an insertion under `key` is accepted.
pub uninterp spec fn track_slot_open(arena: Arena<Track>, key: Key) -> bool;

/// Whether `key` is the key of one of `entries`.
pub open spec fn has_key<T>(entries: Seq<(Key, T)>, key: Key) -> bool {
    exists|i: int| 0 <= i < entries.len() && (#[trigger] entries[i]).0 == key
}

/// The position of `key` among `entries`, where it has one.
pub open spec fn position_of<T>(entries: Seq<(Key, T)>, key: Key) -> int {
    choose|i: int| 0 <= i < entries.len() && (#[trigger] entries[i]).0 == key
}

/// What holds of the occupied slots of every arena with `capacity` slots:
/// each key names a slot of the arena, and no slot is listed twice.
pub open spec fn well_keyed<T>(entries: Seq<(Key, T)>, capacity: nat) -> bool {
    &&& forall|i: int| 0 <= i < entries.len() ==> key_index((#[trigger] entries[i]).0) < capacity
    &&& forall|i: int, j: int|
        0 <= i < entries.len() && 0 <= j < entries.len() && (#[trigger] entries[i]).0 == (
        #[trigger] entries[j]).0 ==> i == j
}

/// `Key`'s `==`: whether two keys name the same slot in the same generation.
#[verifier::external_body]
pub(crate) fn same_key(left: Key, right: Key) -> (same: bool)
    ensures
        same == (left == right),
{
    left == right
}

/// `Controller::capacity`: the number of slots of the arena that the
/// controller reserves keys for.
#[verifier::external_body]
pub(crate) fn capacity(controller: &Controller) -> (capacity: usize)
    ensures
        capacity == controller_capacity(*controller),
{
    controller.capacity()
}

/// `Controller::try_reserve`: a key for a free slot, or `None` when every
/// slot is taken. Which key comes back depends on what other threads have
/// reserved; its index is always that of a slot of the arena.
///
/// The outside function reads slot zero before it looks at the capacity, so
/// an arena without slots is left out.
#[verifier::external_body]
pub(crate) fn try_reserve(controller: &Controller) -> (key: Option<Key>)
    requires
        controller_capacity(*controller) > 0,
    ensures
        key matches Some(k) ==> key_index(k) < controller_capacity(*controller),
{
    controller.try_reserve().ok()
}

/// `Arena::new`: an arena with `capacity` slots, all of them free.
#[verifier::external_body]
pub(crate) fn new_clock_arena(capacity: usize) -> (arena: Arena<Clock>)
    ensures
        clock_capacity(arena) == capacity,
        clock_entries(arena).len() == 0,
{
    Arena::new(capacity)
}

/// `Arena::controller`: a controller for the slots of this arena.
#[verifier::external_body]
pub(crate) fn clock_controller(arena: &Arena<Clock>) -> (controller: Controller)
    ensures
        controller_capacity(controller) == clock_capacity(*arena),
{
    arena.controller()
}

/// `Arena::get`: the item stored under `key`, if the arena holds one.
///
/// The outside function indexes its slots with the key's index and panics
/// when there is no such slot.
#[verifier::external_body]
pub(crate) fn clock_get(arena: &Arena<Clock>, key: Key) -> (found: Option<&Clock>)
    requires
        key_index(key) < clock_capacity(*arena),
    ensures
        found.is_some() == has_key(clock_entries(*arena), key),
        found matches Some(clock) ==> *clock == clock_entries(*arena)[position_of(
            clock_entries(*arena),
            key,
        )].1,
{
    arena.get(key)
}

/// `Arena::get_mut`: the item stored under `key`, if the arena holds one, to
/// be changed in place. Nothing else in the arena changes.
///
/// The outside function indexes its slots with the key's index and panics
/// when there is no such slot.
#[verifier::external_body]
pub(crate) fn clock_get_mut(arena: &mut Arena<Clock>, key: Key) -> (found: Option<&mut Clock>)
    requires
        key_index(key) < clock_capacity(*old(arena)),
    ensures
        clock_capacity(*final(arena)) == clock_capacity(*old(arena)),
        forall|k: Key|
            clock_slot_open(*final(arena), k) == clock_slot_open(*old(arena), k),
        found.is_some() == has_key(clock_entries(*old(arena)), key),
        found is None ==> clock_entries(*final(arena)) == clock_entries(*old(arena)),
        found matches Some(clock) ==> {
            let i = position_of(clock_entries(*old(arena)), key);
            &&& *clock == clock_entries(*old(arena))[i].1
            &&& clock_entries(*final(arena)) == clock_entries(*old(arena)).update(
                i,
                (key, *final(clock)),
            )
        },
{
    arena.get_mut(key)
}

/// `Arena::iter_mut`, advanced to its item number `position`: the occupied
/// slots are visited most recently inserted first. Nothing else in the arena
/// changes.
#[verifier::external_body]
pub(crate) fn clock_nth_mut(arena: &mut Arena<Clock>, position: usize) -> (found: Option<
    &mut Clock,
>)
    ensures
        clock_capacity(*final(arena)) == clock_capacity(*old(arena)),
        forall|k: Key|
            clock_slot_open(*final(arena), k) == clock_slot_open(*old(arena), k),
        found.is_some() == (position < clock_entries(*old(arena)).len()),
        found is None ==> clock_entries(*final(arena)) == clock_entries(*old(arena)),
        found matches Some(clock) ==> {
            &&& *clock == clock_entries(*old(arena))[position as int].1
            &&& clock_entries(*final(arena)) == clock_entries(*old(arena)).update(
                position as int,
                (clock_entries(*old(arena))[position as int].0, *final(clock)),
            )
        },
{
    arena.iter_mut().nth(position).map(|(_, clock)| clock)
}

/// `Arena::insert_with_key`: puts `clock` into the slot that `key` names and
/// makes it the first item that the iterators visit. The insertion is
/// refused, and the arena stays as it was, unless that slot exists, carries
/// the key's generation and is free.
#[verifier::external_body]
pub(crate) fn clock_insert(arena: &mut Arena<Clock>, key: Key, clock: Clock) -> (inserted: bool)
    ensures
        inserted == clock_slot_open(*old(arena), key),
        clock_capacity(*final(arena)) == clock_capacity(*old(arena)),
        well_keyed(clock_entries(*final(arena)), clock_capacity(*final(arena))),
        inserted ==> clock_entries(*final(arena)) == seq![(key, clock)] + clock_entries(
            *old(arena),
        ),
        !inserted ==> clock_entries(*final(arena)) == clock_entries(*old(arena)),
        forall|k: Key|
            k != key ==> clock_slot_open(*final(arena), k) == clock_slot_open(*old(arena), k),
        !clock_slot_open(*final(arena), key),
{
    arena.insert_with_key(key, clock).is_ok()
}

/// `Arena::iter`, advanced to its item number `position`: the occupied slots
/// are visited most recently inserted first, each with its key.
#[verifier::external_body]
pub(crate) fn clock_nth(arena: &Arena<Clock>, position: usize) -> (found: Option<(Key, &Clock)>)
    ensures
        found.is_some() == (position < clock_entries(*arena).len()),
        found matches Some(entry) ==> entry.0 == clock_entries(*arena)[position as int].0
            && *entry.1 == clock_entries(*arena)[position as int].1,
{
    arena.iter().nth(position)
}


/// `Arena::new`: an arena with `capacity` slots, all of them free.
#[verifier::external_body]
pub(crate) fn new_track_arena(capacity: usize) -> (arena: Arena<Track>)
    ensures
        track_capacity(arena) == capacity,
        track_entries(arena).len() == 0,
{
    Arena::new(capacity)
}

/// `Arena::controller`: a controller for the slots of this arena.
#[verifier::external_body]
pub(crate) fn track_controller(arena: &Arena<Track>) -> (controller: Controller)
    ensures
        controller_capacity(controller) == track_capacity(*arena),
{
    arena.controller()
}

/// `Arena::get`: the item stored under `key`, if the arena holds one.
///
/// The outside function indexes its slots with the key's index and panics
/// when there is no such slot.
#[verifier::external_body]
pub(crate) fn track_get(arena: &Arena<Track>, key: Key) -> (found: Option<&Track>)
    requires
        key_index(key) < track_capacity(*arena),
    ensures
        found.is_some() == has_key(track_entries(*arena), key),
        found matches Some(track) ==> *track == track_entries(*arena)[position_of(
            track_entries(*arena),
            key,
        )].1,
{
    arena.get(key)
}

/// `Arena::get_mut`: the item stored under `key`, if the arena holds one, to
/// be changed in place. Nothing else in the arena changes.
///
/// The outside function indexes its slots with the key's index and panics
/// when there is no such slot.
#[verifier::external_body]
pub(crate) fn track_get_mut(arena: &mut Arena<Track>, key: Key) -> (found: Option<&mut Track>)
    requires
        key_index(key) < track_capacity(*old(arena)),
    ensures
        track_capacity(*final(arena)) == track_capacity(*old(arena)),
        forall|k: Key|
            track_slot_open(*final(arena), k) == track_slot_open(*old(arena), k),
        found.is_some() == has_key(track_entries(*old(arena)), key),
        found is None ==> track_entries(*final(arena)) == track_entries(*old(arena)),
        found matches Some(track) ==> {
            let i = position_of(track_entries(*old(arena)), key);
            &&& *track == track_entries(*old(arena))[i].1
            &&& track_entries(*final(arena)) == track_entries(*old(arena)).update(
                i,
                (key, *final(track)),
            )
        },
{
    arena.get_mut(key)
}

/// `Arena::insert_with_key`: puts `track` into the slot that `key` names and
/// makes it the first item that the iterators visit. The insertion is
/// refused, and the arena stays as it was, unless that slot exists, carries
/// the key's generation and is free.
#[verifier::external_body]
pub(crate) fn track_insert(arena: &mut Arena<Track>, key: Key, track: Track) -> (inserted: bool)
    ensures
        inserted == track_slot_open(*old(arena), key),
        track_capacity(*final(arena)) == track_capacity(*old(arena)),
        well_keyed(track_entries(*final(arena)), track_capacity(*final(arena))),
        inserted ==> track_entries(*final(arena)) == seq![(key, track)] + track_entries(
            *old(arena),
        ),
        !inserted ==> track_entries(*final(arena)) == track_entries(*old(arena)),
        forall|k: Key|
            k != key ==> track_slot_open(*final(arena), k) == track_slot_open(*old(arena), k),
        !track_slot_open(*final(arena), key),
{
    arena.insert_with_key(key, track).is_ok()
}

/// `Arena::remove`: takes the item stored under `key` out of the arena, if
/// the arena holds one. The other items stay in their order.
///
/// The outside function indexes its slots with the key's index and panics
/// when there is no such slot.
#[verifier::external_body]
pub(crate) fn clock_remove(arena: &mut Arena<Clock>, key: Key) -> (removed: Option<Clock>)
    requires
        key_index(key) < clock_capacity(*old(arena)),
    ensures
        clock_capacity(*final(arena)) == clock_capacity(*old(arena)),
        well_keyed(clock_entries(*final(arena)), clock_capacity(*final(arena))),
        removed.is_some() == has_key(clock_entries(*old(arena)), key),
        removed is None ==> clock_entries(*final(arena)) == clock_entries(*old(arena)),
        removed matches Some(clock) ==> {
            let i = position_of(clock_entries(*old(arena)), key);
            &&& clock == clock_entries(*old(arena))[i].1
            &&& clock_entries(*final(arena)) == clock_entries(*old(arena)).remove(i)
        },
{
    arena.remove(key)
}

/// `Arena::remove`: takes the item stored under `key` out of the arena, if
/// the arena holds one. The other items stay in their order.
///
/// The outside function indexes its slots with the key's index and panics
/// when there is no such slot.
#[verifier::external_body]
pub(crate) fn track_remove(arena: &mut Arena<Track>, key: Key) -> (removed: Option<Track>)
    requires
        key_index(key) < track_capacity(*old(arena)),
    ensures
        track_capacity(*final(arena)) == track_capacity(*old(arena)),
        well_keyed(track_entries(*final(arena)), track_capacity(*final(arena))),
        removed.is_some() == has_key(track_entries(*old(arena)), key),
        removed is None ==> track_entries(*final(arena)) == track_entries(*old(arena)),
        removed matches Some(track) ==> {
            let i = position_of(track_entries(*old(arena)), key);
            &&& track == track_entries(*old(arena))[i].1
            &&& track_entries(*final(arena)) == track_entries(*old(arena)).remove(i)
        },
{
    arena.remove(key)
}

} // verus!
