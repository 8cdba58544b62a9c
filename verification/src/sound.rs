//! Sources of audio.

pub mod static_sound;

use vstd::prelude::*;

verus! {

/// Whether the renderer takes a new sound: it does while it holds fewer
/// sounds than it has room for, so that nothing is allocated for it.
pub fn takes(held: usize, room: usize) -> (takes: bool)
    ensures
        takes == (held < room),
{
    held < room
}

/// Whether a sound leaves the renderer at the start of a block: it does when
/// it has finished and the list of unused sounds, which holds `held_unused`
/// of them, has room for one more. A finished sound that finds no room stays
/// and is asked again at the next block.
pub fn leaves(finished: bool, held_unused: usize, room_unused: usize) -> (leaves: bool)
    ensures
        leaves == (finished && held_unused < room_unused),
{
    finished && held_unused < room_unused
}

} // verus!
