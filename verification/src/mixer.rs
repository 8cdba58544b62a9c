//! The mixer: the main track, the sub-tracks and the order in which a frame
//! passes through them.

use atomic_arena::{Arena, Controller, Key};
use ringbuf::Producer;
use vstd::prelude::*;

use crate::arena::{
    controller_capacity, has_key, key_index, new_track_arena, position_of, track_capacity,
    track_controller, track_entries, track_get, track_get_mut, track_insert, track_remove,
    track_slot_open, well_keyed,
};
use crate::dsp::Scalar;
use crate::queue::{track_queue_is_full, track_queue_push, track_queue_sent};
use crate::remainder::{
    is_remainder, lemma_parted_leaves, lemma_parted_rest, lemma_parted_stays,
    lemma_remove_keeps_picks, lemma_whole_is_remainder, parted, picked_from,
};
use crate::track::{
    destinations, reachable, routes_among, routes_except, RouteView, SubTrackId, Track,
    TrackBuilder, TrackId, TrackView,
};
use crate::value::Value;

verus! {

/// A command that control code sends to the mixer.
pub enum MixerCommand {
    /// Puts a new sub-track into the slot reserved for it.
    AddSubTrack(SubTrackId, Track),
    /// Changes the volume setting of a track.
    SetTrackVolume(TrackId, Value<Scalar>),
    /// Changes the panning setting of a track.
    SetTrackPanning(TrackId, Value<Scalar>),
}

/// Whether `subs` lists a sub-track under `id`.
pub open spec fn lists(subs: Seq<(SubTrackId, TrackView)>, id: SubTrackId) -> bool {
    exists|i: int| 0 <= i < subs.len() && (#[trigger] subs[i]).0 == id
}

/// The tracks of a mixer.
pub struct MixerView {
    /// The main track.
    pub main: TrackView,
    /// The sub-tracks, in the order they were added.
    pub subs: Seq<(SubTrackId, TrackView)>,
}

impl MixerView {
    /// Whether there is a track `id`. The main track always exists.
    pub open spec fn has_track(self, id: TrackId) -> bool {
        match id {
            TrackId::Main => true,
            TrackId::Sub(sub) => self.has_sub(sub),
        }
    }

    /// Whether there is a sub-track `id`.
    pub open spec fn has_sub(self, id: SubTrackId) -> bool {
        lists(self.subs, id)
    }

    /// The place of the sub-track `id` among the sub-tracks, where it has
    /// one.
    pub open spec fn place(self, id: SubTrackId) -> int {
        choose|i: int| 0 <= i < self.subs.len() && (#[trigger] self.subs[i]).0 == id
    }

    /// The state of the track `id`, where there is one.
    pub open spec fn track(self, id: TrackId) -> TrackView {
        match id {
            TrackId::Main => self.main,
            TrackId::Sub(sub) => self.subs[self.place(sub)].1,
        }
    }

    /// The mixer with the state of the track `id` replaced, if there is such
    /// a track.
    pub open spec fn with_track(self, id: TrackId, track: TrackView) -> MixerView {
        match id {
            TrackId::Main => MixerView { main: track, ..self },
            TrackId::Sub(sub) => if self.has_sub(sub) {
                MixerView { subs: self.subs.update(self.place(sub), (sub, track)), ..self }
            } else {
                self
            },
        }
    }

    /// The identifiers of the sub-tracks, in the order they were added.
    pub open spec fn ids(self) -> Seq<SubTrackId> {
        Seq::new(self.subs.len(), |i: int| self.subs[i].0)
    }

    /// Whether route `route` of the sub-track at place `from` leads to the
    /// sub-track at place `to`.
    pub open spec fn sends(self, from: int, route: int, to: int) -> bool {
        &&& 0 <= from < self.subs.len()
        &&& 0 <= to < self.subs.len()
        &&& 0 <= route < self.subs[from].1.routes.len()
        &&& self.subs[from].1.routes[route].destination == TrackId::Sub(self.subs[to].0)
    }

    /// Whether every route between sub-tracks leads from a newer track to an
    /// older one. Then no track sends to itself, and no chain of routes
    /// comes back to where it started: the only sink is the main track.
    pub open spec fn routes_forward(self) -> bool {
        forall|from: int, route: int, to: int| #[trigger] self.sends(from, route, to) ==> to < from
    }

    /// The mixer after a sub-track was added under `id`. Of the new track's
    /// routes only those stay that lead to a track that exists; a route of
    /// an older track that names `id`, which did not exist when the route was
    /// made, is dropped.
    pub open spec fn with_added(self, id: SubTrackId, track: TrackView) -> MixerView {
        MixerView {
            main: self.main,
            subs: self.without_routes_to(id).push(
                (id, TrackView { routes: routes_among(track.routes, self.ids()), ..track }),
            ),
        }
    }

    /// The sub-tracks without their routes to the sub-track `id`.
    pub open spec fn without_routes_to(self, id: SubTrackId) -> Seq<(SubTrackId, TrackView)> {
        Seq::new(
            self.subs.len(),
            |i: int|
                (
                    self.subs[i].0,
                    TrackView { routes: routes_except(self.subs[i].1.routes, id), ..self.subs[i].1 },
                ),
        )
    }

    /// The track that is processed at `step` of a frame: the sub-tracks from
    /// the newest to the oldest, so that a track can send to any track that
    /// existed before it and be heard in the same frame, then the main
    /// track.
    pub open spec fn processing_step(self, step: int) -> Option<TrackId> {
        if 0 <= step < self.subs.len() {
            Some(TrackId::Sub(self.subs[self.subs.len() - 1 - step].0))
        } else if step == self.subs.len() {
            Some(TrackId::Main)
        } else {
            None
        }
    }
}

/// The sub-tracks that `ids` lists, with the state each has in `entries`.
/// The arena lists its items newest first, the mixer oldest first.
pub open spec fn sub_views(ids: Seq<SubTrackId>, entries: Seq<(Key, Track)>) -> Seq<
    (SubTrackId, TrackView),
> {
    Seq::new(ids.len(), |i: int| (ids[i], entries[entries.len() - 1 - i].1@))
}

/// The states of the listed sub-tracks.
pub open spec fn states(subs: Seq<(SubTrackId, TrackView)>) -> Seq<TrackView> {
    Seq::new(subs.len(), |i: int| subs[i].1)
}

/// The states of `tracks`.
pub open spec fn states_of(tracks: Seq<Track>) -> Seq<TrackView> {
    Seq::new(tracks.len(), |i: int| tracks[i]@)
}

/// Holds the main track and the sub-tracks.
pub struct Mixer {
    main_track: Track,
    sub_tracks: Arena<Track>,
    sub_track_ids: Vec<SubTrackId>,
    unused_track_producer: Producer<Track>,
}

impl View for Mixer {
    type V = MixerView;

    closed spec fn view(&self) -> MixerView {
        MixerView {
            main: self.main_track@,
            subs: sub_views(self.sub_track_ids@, track_entries(self.sub_tracks)),
        }
    }
}

impl Mixer {
    /// The number of sub-tracks that the mixer has room for.
    pub closed spec fn capacity(self) -> nat {
        track_capacity(self.sub_tracks)
    }

    /// What every mixer keeps: the list of sub-track identifiers and the
    /// arena of sub-tracks name the same tracks, each once, and each
    /// identifier names a slot of the arena.
    pub closed spec fn wf(self) -> bool {
        let entries = track_entries(self.sub_tracks);
        let ids = self.sub_track_ids@;
        &&& well_keyed(entries, track_capacity(self.sub_tracks))
        &&& ids.len() == entries.len()
        &&& forall|i: int| 0 <= i < ids.len() ==> (#[trigger] ids[i]).0 == entries[ids.len() - 1 - i].0
    }

    /// The end of the queue of unused tracks that the mixer holds.
    pub closed spec fn return_queue(self) -> Producer<Track> {
        self.unused_track_producer
    }

    /// The sub-tracks that have left the mixer and were handed to the queue
    /// of unused tracks so far, oldest first.
    pub closed spec fn returned(self) -> Seq<Track> {
        track_queue_sent(self.unused_track_producer)
    }

    /// The states of the sub-tracks that were handed to the queue of unused
    /// tracks since `before`.
    pub open spec fn returned_since(self, before: Mixer) -> Seq<TrackView> {
        states_of(self.returned().skip(before.returned().len() as int))
    }

    /// Whether `id` names a slot of this mixer. Identifiers reserved through
    /// this mixer's controller do, and so does the main track.
    pub open spec fn in_range(self, id: TrackId) -> bool {
        id matches TrackId::Sub(sub) ==> key_index(sub.0) < self.capacity()
    }

    /// Whether the slot reserved under `id` is still free, so that a
    /// sub-track can be added under `id`.
    pub closed spec fn accepts(self, id: SubTrackId) -> bool {
        track_slot_open(self.sub_tracks, id.0)
    }

    /// Creates a mixer with a main track at its default settings and room
    /// for `sub_track_capacity` sub-tracks. Sub-tracks that leave the mixer
    /// are handed to `unused_sub_track_producer`.
    pub fn new(sub_track_capacity: usize, unused_sub_track_producer: Producer<Track>) -> (mixer:
        Mixer)
        ensures
            mixer.wf(),
            mixer.capacity() == sub_track_capacity,
            mixer@.subs.len() == 0,
            mixer@.routes_forward(),
            mixer@.main.volume == Scalar::spec_one(),
            mixer@.main.panning == Scalar::spec_half(),
            mixer@.main.input == crate::dsp::Frame::spec_zero(),
    {
        Self {
            main_track: Track::new(TrackBuilder::new()),
            sub_tracks: new_track_arena(sub_track_capacity),
            sub_track_ids: Vec::with_capacity(sub_track_capacity),
            unused_track_producer: unused_sub_track_producer,
        }
    }

    /// Returns the token through which control code reserves identifiers for
    /// new sub-tracks.
    pub fn sub_track_controller(&self) -> (controller: Controller)
        ensures
            controller_capacity(controller) == self.capacity(),
    {
        track_controller(&self.sub_tracks)
    }

    /// The number of sub-tracks.
    pub fn sub_track_count(&self) -> (count: usize)
        ensures
            count == self@.subs.len(),
    {
        self.sub_track_ids.len()
    }

    /// The track to process at `step` of a frame, or `None` when the frame
    /// is done. See [`MixerView::processing_step`].
    pub fn processing_step(&self, step: usize) -> (track: Option<TrackId>)
        ensures
            track == self@.processing_step(step as int),
    {
        let count = self.sub_track_ids.len();
        if step < count {
            Some(TrackId::Sub(self.sub_track_ids[count - 1 - step]))
        } else if step == count {
            Some(TrackId::Main)
        } else {
            None
        }
    }

    /// Returns the track `id`, if it exists.
    pub fn track(&self, id: TrackId) -> (found: Option<&Track>)
        requires
            self.wf(),
            self.in_range(id),
        ensures
            found.is_some() == self@.has_track(id),
            found matches Some(track) ==> track@ == self@.track(id),
    {
        match id {
            TrackId::Main => Some(&self.main_track),
            TrackId::Sub(sub) => {
                proof {
                    self.lemma_places(sub);
                }
                track_get(&self.sub_tracks, sub.0)
            },
        }
    }

    /// Returns the track `id`, if it exists, to be changed in place. A
    /// destination that no longer exists is answered with `None`, not with
    /// an error.
    pub fn track_mut(&mut self, id: TrackId) -> (found: Option<&mut Track>)
        requires
            old(self).wf(),
            old(self).in_range(id),
        ensures
            final(self).wf(),
            final(self).capacity() == old(self).capacity(),
            final(self).return_queue() == old(self).return_queue(),
            forall|other: SubTrackId| final(self).accepts(other) == old(self).accepts(other),
            forall|other: TrackId| final(self)@.has_track(other) == old(self)@.has_track(other),
            found.is_some() == old(self)@.has_track(id),
            found is None ==> final(self)@ == old(self)@,
            found matches Some(track) ==> track@ == old(self)@.track(id) && final(self)@ == old(self)@.with_track(id, final(track)@),
            found matches Some(track) ==> (old(self)@.routes_forward() && destinations(
                final(track)@,
            ) == destinations(track@) ==> final(self)@.routes_forward()),
            found is None ==> (old(self)@.routes_forward() ==> final(self)@.routes_forward()),
    {
        match id {
            TrackId::Main => {
                proof {
                    let before = *self;
                    assert forall|after: Mixer|
                        after.sub_tracks == before.sub_tracks && after.sub_track_ids
                            == before.sub_track_ids implies #[trigger] after.wf()
                        == before.wf() && after@.subs == before@.subs && after@.routes_forward()
                        == before@.routes_forward() by {
                        lemma_forward_is_about_sub_tracks(before@, after@);
                    }
                }
                Some(&mut self.main_track)
            },
            TrackId::Sub(sub) => {
                proof {
                    self.lemma_places(sub);
                    let before = *self;
                    assert forall|after: Mixer|
                        before.changed_in_place(after, sub) implies #[trigger] after.wf() && after@
                        == before@.with_track(id, before.changed_track(after, sub)@) && (
                    forall|other: TrackId| after@.has_track(other) == before@.has_track(other))
                        && (before@.routes_forward() && destinations(
                        before.changed_track(after, sub)@,
                    ) == destinations(before@.track(id)) ==> after@.routes_forward()) by {
                        before.lemma_changed_in_place(after, sub);
                    }
                }
                track_get_mut(&mut self.sub_tracks, sub.0)
            },
        }
    }

    /// Puts `track` into the slot reserved under `id`, as the newest
    /// sub-track, and says whether it did. The slot takes the track if it is
    /// still free; otherwise nothing changes and the track is given up.
    ///
    /// A track may send only to tracks that exist when it is added: see
    /// [`MixerView::with_added`].
    pub fn add_sub_track(&mut self, id: SubTrackId, track: Track) -> (added: bool)
        requires
            old(self).wf(),
        ensures
            final(self).wf(),
            final(self).capacity() == old(self).capacity(),
            final(self).return_queue() == old(self).return_queue(),
            added == old(self).accepts(id),
            final(self)@ == (if added {
                old(self)@.with_added(id, track@)
            } else {
                old(self)@
            }),
            forall|other: SubTrackId|
                other != id ==> final(self).accepts(other) == old(self).accepts(other),
            forall|other: SubTrackId|
                final(self)@.has_sub(other) == (old(self)@.has_sub(other) || (added && id
                    == other)),
            old(self)@.routes_forward() ==> final(self)@.routes_forward(),
    {
        let mut track = track;
        let ghost given = track@;
        track.restrict_routes(&self.sub_track_ids);
        let ghost entries = track_entries(self.sub_tracks);
        let added = track_insert(&mut self.sub_tracks, id.0, track);
        proof {
            assert forall|other: SubTrackId| id != other implies self.accepts(other) == old(self).accepts(other) by {
                assert(other.0 != id.0);
            }
        }
        if !added {
            assert(self@.subs =~= old(self)@.subs);
            return false;
        }
        self.sub_track_ids.push(id);
        proof {
            let after = track_entries(self.sub_tracks);
            assert(after == seq![(id.0, track)] + entries);
            assert forall|i: int| 0 <= i < self.sub_track_ids@.len() implies (
            #[trigger] self.sub_track_ids@[i]).0 == after[self.sub_track_ids@.len() - 1 - i].0 by {
                if i < old(self).sub_track_ids@.len() {
                    assert(old(self).sub_track_ids@[i].0 == entries[entries.len() - 1 - i].0);
                }
            }
            assert(old(self)@.ids() =~= old(self).sub_track_ids@);
            assert(self@.subs =~= old(self)@.subs.push((id, track@)));
            lemma_subs_added(old(self)@.subs, (id, track@));
            // the new identifier names none of the tracks that were there
            assert(!old(self)@.ids().contains(id)) by {
                if old(self)@.ids().contains(id) {
                    let i = choose|i: int|
                        0 <= i < old(self)@.ids().len() && old(self)@.ids()[i] == id;
                    let p = entries.len() - 1 - i;
                    assert(after[p + 1] == entries[p]);
                    assert(after[0].0 == after[p + 1].0);
                }
            }
        }
        let ghost listed = self@;
        self.scrub_routes_to(id);
        proof {
            lemma_subs_same(listed.subs, self@.subs);
            lemma_among_has_no_other(given.routes, old(self)@.ids(), id);
            assert(self@.subs =~= old(self)@.with_added(id, given).subs);
            if old(self)@.routes_forward() {
                lemma_added_keeps_forward(old(self)@, id, given);
            }
            assert forall|other: SubTrackId| self@.has_sub(other) == (old(self)@.has_sub(other)
                || id == other) by {
                assert(lists(self@.subs, other) == lists(listed.subs, other));
                assert(lists(listed.subs, other) == (lists(old(self)@.subs, other) || other
                    == id));
            }
        }
        true
    }

    /// Carries out one command.
    ///
    /// A sub-track is added as the newest. The other commands change the
    /// setting of the track they name and do nothing when no such track
    /// exists. Adding under an identifier whose slot is not free is an error
    /// of the caller and left out.
    pub fn run_command(&mut self, command: MixerCommand)
        requires
            old(self).wf(),
            match command {
                MixerCommand::AddSubTrack(id, _) => old(self).in_range(TrackId::Sub(id)) && old(self).accepts(id),
                MixerCommand::SetTrackVolume(id, _) => old(self).in_range(id),
                MixerCommand::SetTrackPanning(id, _) => old(self).in_range(id),
            },
        ensures
            final(self).wf(),
            final(self).capacity() == old(self).capacity(),
            final(self).return_queue() == old(self).return_queue(),
            final(self)@ == (match command {
                MixerCommand::AddSubTrack(id, track) => old(self)@.with_added(id, track@),
                MixerCommand::SetTrackVolume(id, volume) => if old(self)@.has_track(id) {
                    old(self)@.with_track(
                        id,
                        TrackView { volume_setting: volume, ..old(self)@.track(id) },
                    )
                } else {
                    old(self)@
                },
                MixerCommand::SetTrackPanning(id, panning) => if old(self)@.has_track(id) {
                    old(self)@.with_track(
                        id,
                        TrackView { panning_setting: panning, ..old(self)@.track(id) },
                    )
                } else {
                    old(self)@
                },
            }),
            forall|other: SubTrackId|
                !(command matches MixerCommand::AddSubTrack(id, _) && id == other) ==> final(self).accepts(other) == old(self).accepts(other),
            forall|other: SubTrackId|
                final(self)@.has_sub(other) == (old(self)@.has_sub(other) || (
                command matches MixerCommand::AddSubTrack(id, _) && id == other)),
            old(self)@.routes_forward() ==> final(self)@.routes_forward(),
    {
        match command {
            MixerCommand::AddSubTrack(id, track) => {
                let added = self.add_sub_track(id, track);
                assert(added);
            },
            MixerCommand::SetTrackVolume(id, volume) => {
                if let Some(track) = self.track_mut(id) {
                    track.set_volume(volume);
                }
                assert forall|other: SubTrackId| self@.has_sub(other) == old(self)@.has_sub(
                    other,
                ) by {
                    assert(self@.has_track(TrackId::Sub(other)) == old(self)@.has_track(
                        TrackId::Sub(other),
                    ));
                }
            },
            MixerCommand::SetTrackPanning(id, panning) => {
                if let Some(track) = self.track_mut(id) {
                    track.set_panning(panning);
                }
                assert forall|other: SubTrackId| self@.has_sub(other) == old(self)@.has_sub(
                    other,
                ) by {
                    assert(self@.has_track(TrackId::Sub(other)) == old(self)@.has_track(
                        TrackId::Sub(other),
                    ));
                }
            },
        }
    }

    /// Drops, from every sub-track, the routes that lead to the sub-track
    /// `id`.
    fn scrub_routes_to(&mut self, id: SubTrackId)
        requires
            old(self).wf(),
        ensures
            final(self).wf(),
            final(self).capacity() == old(self).capacity(),
            final(self).sub_track_ids == old(self).sub_track_ids,
            final(self).return_queue() == old(self).return_queue(),
            forall|other: SubTrackId| final(self).accepts(other) == old(self).accepts(other),
            final(self)@.main == old(self)@.main,
            final(self)@.subs == old(self)@.without_routes_to(id),
    {
        let count = self.sub_track_ids.len();
        let mut k: usize = 0;
        while k < count
            invariant
                self.wf(),
                count == self.sub_track_ids@.len(),
                k <= count,
                self.capacity() == old(self).capacity(),
                self.sub_track_ids == old(self).sub_track_ids,
                self.main_track == old(self).main_track,
                self.unused_track_producer == old(self).unused_track_producer,
                forall|other: SubTrackId| self.accepts(other) == old(self).accepts(other),
                self@.subs.len() == old(self)@.subs.len(),
                forall|i: int|
                    0 <= i < count ==> #[trigger] self@.subs[i] == (if i < k {
                        old(self)@.without_routes_to(id)[i]
                    } else {
                        old(self)@.subs[i]
                    }),
            decreases count - k,
        {
            let key = self.sub_track_ids[k].0;
            let ghost entries = track_entries(self.sub_tracks);
            let ghost subs = self@.subs;
            let ghost place = entries.len() - 1 - k;
            proof {
                assert(self.sub_track_ids@[k as int].0 == entries[place].0);
                assert(key_index(entries[place].0) < track_capacity(self.sub_tracks));
                assert(position_of(entries, key) == place) by {
                    let p = position_of(entries, key);
                    assert(entries[p].0 == entries[place].0);
                }
            }
            match track_get_mut(&mut self.sub_tracks, key) {
                Some(track) => {
                    track.remove_routes_to(id);
                },
                None => {},
            }
            proof {
                let after = track_entries(self.sub_tracks);
                lemma_changed(entries, after, track_capacity(self.sub_tracks));
                assert forall|i: int| 0 <= i < count implies #[trigger] self@.subs[i] == (if i < k
                    + 1 {
                    old(self)@.without_routes_to(id)[i]
                } else {
                    old(self)@.subs[i]
                }) by {
                    if i != k {
                        assert(self@.subs[i] == subs[i]);
                    } else {
                        assert(subs[i] == old(self)@.subs[i]);
                    }
                }
            }
            k = k + 1;
        }
        assert(self@.subs =~= old(self)@.without_routes_to(id));
    }

    /// Starts a block: see [`Mixer::remove_unused_tracks`].
    pub fn on_start_processing(&mut self)
        requires
            old(self).wf(),
        ensures
            final(self).wf(),
            final(self).capacity() == old(self).capacity(),
            final(self)@.main == old(self)@.main,
            is_remainder(final(self)@.subs, old(self)@.subs),
            old(self)@.routes_forward() ==> final(self)@.routes_forward(),
            old(self).returned().len() <= final(self).returned().len(),
            final(self).returned().subrange(0, old(self).returned().len() as int) == old(self).returned(),
            parted(
                states(old(self)@.subs),
                states(final(self)@.subs),
                final(self).returned_since(*old(self)),
            ),
    {
        self.remove_unused_tracks();
    }

    /// Takes the sub-track at `place` out of the mixer if its removal was
    /// asked for and the queue of unused tracks has room, and leaves the
    /// mixer as it is otherwise. `marked` and `room` are what the flag of
    /// that track and the queue were seen to say.
    pub fn remove_if_unused(&mut self, place: usize, marked: bool, room: bool) -> (removed: Option<
        Track,
    >)
        requires
            old(self).wf(),
            place < old(self)@.subs.len(),
        ensures
            final(self).wf(),
            final(self).capacity() == old(self).capacity(),
            final(self).return_queue() == old(self).return_queue(),
            final(self)@.main == old(self)@.main,
            removed.is_some() == (marked && room),
            removed matches Some(track) ==> track@ == old(self)@.subs[place as int].1 && final(self)@.subs == old(self)@.subs.remove(place as int),
            removed is None ==> final(self)@ == old(self)@,
            old(self)@.routes_forward() ==> final(self)@.routes_forward(),
    {
        if !(marked && room) {
            return None;
        }
        let id = self.sub_track_ids[place];
        let ghost entries = track_entries(self.sub_tracks);
        let ghost ids = self.sub_track_ids@;
        let ghost subs = self@.subs;
        let ghost n = ids.len() as int;
        proof {
            assert(ids[place as int].0 == entries[n - 1 - place].0);
            assert(key_index(entries[n - 1 - place].0) < track_capacity(self.sub_tracks));
            assert(position_of(entries, id.0) == n - 1 - place) by {
                let p = position_of(entries, id.0);
                assert(entries[p].0 == entries[n - 1 - place].0);
            }
        }
        match track_remove(&mut self.sub_tracks, id.0) {
            Some(track) => {
                self.sub_track_ids.remove(place);
                proof {
                    let after = track_entries(self.sub_tracks);
                    assert(after == entries.remove(n - 1 - place));
                    assert forall|j: int| 0 <= j < self.sub_track_ids@.len() implies (
                    #[trigger] self.sub_track_ids@[j]).0 == after[self.sub_track_ids@.len() - 1
                        - j].0 by {
                        if j < place {
                            assert(ids[j].0 == entries[n - 1 - j].0);
                        } else {
                            assert(ids[j + 1].0 == entries[n - 1 - (j + 1)].0);
                        }
                    }
                    assert(self@.subs =~= subs.remove(place as int));
                    if old(self)@.routes_forward() {
                        lemma_removed_keeps_forward(
                            MixerView { main: self@.main, subs },
                            place as int,
                        );
                    }
                }
                Some(track)
            },
            None => None,
        }
    }

    /// Takes the sub-tracks whose handles were dropped out of the mixer,
    /// oldest first, and hands them to the queue of unused tracks, for as
    /// long as that queue has room.
    ///
    /// Whether a handle was dropped and whether the queue has room is
    /// decided on other threads; [`Mixer::remove_if_unused`] says what
    /// follows from each answer. Whatever the answers, the sub-tracks that
    /// were there are parted into those that stay and those that were handed
    /// to the queue: none is lost, none is changed, and both keep their
    /// order.
    pub fn remove_unused_tracks(&mut self)
        requires
            old(self).wf(),
        ensures
            final(self).wf(),
            final(self).capacity() == old(self).capacity(),
            final(self)@.main == old(self)@.main,
            is_remainder(final(self)@.subs, old(self)@.subs),
            old(self)@.routes_forward() ==> final(self)@.routes_forward(),
            old(self).returned().len() <= final(self).returned().len(),
            final(self).returned().subrange(0, old(self).returned().len() as int) == old(self).returned(),
            parted(
                states(old(self)@.subs),
                states(final(self)@.subs),
                final(self).returned_since(*old(self)),
            ),
    {
        let ghost before = self@.subs;
        let ghost whole = states(self@.subs);
        let ghost had = self.returned().len() as int;
        proof {
            lemma_whole_is_remainder(before);
            assert(self.returned_since(*old(self)) =~= Seq::<TrackView>::empty());
            assert(whole.subrange(0, 0) =~= Seq::<TrackView>::empty());
            assert(states(self@.subs).subrange(0, 0) =~= Seq::<TrackView>::empty());
            assert(states(self@.subs).skip(0) =~= whole.skip(0));
        }
        let mut place: usize = 0;
        loop
            invariant
                self.wf(),
                self.capacity() == old(self).capacity(),
                self@.main == old(self)@.main,
                before == old(self)@.subs,
                whole == states(before),
                is_remainder(self@.subs, before),
                old(self)@.routes_forward() ==> self@.routes_forward(),
                had == old(self).returned().len(),
                had <= self.returned().len(),
                self.returned().subrange(0, had) == old(self).returned(),
                place <= self@.subs.len(),
                self@.subs.len() + self.returned_since(*old(self)).len() == whole.len(),
                parted(
                    whole.subrange(0, place + self.returned_since(*old(self)).len()),
                    states(self@.subs).subrange(0, place as int),
                    self.returned_since(*old(self)),
                ),
                states(self@.subs).skip(place as int) == whole.skip(
                    place + self.returned_since(*old(self)).len(),
                ),
            decreases self@.subs.len() - place,
        {
            if place >= self.sub_track_ids.len() {
                break ;
            }
            let room = !track_queue_is_full(&self.unused_track_producer);
            if !room {
                break ;
            }
            let id = self.sub_track_ids[place];
            proof {
                let entries = track_entries(self.sub_tracks);
                let n = self.sub_track_ids@.len() as int;
                assert(self.sub_track_ids@[place as int].0 == entries[n - 1 - place].0);
                assert(key_index(entries[n - 1 - place].0) < track_capacity(self.sub_tracks));
            }
            let marked = match track_get(&self.sub_tracks, id.0) {
                Some(track) => track.is_marked_for_removal(),
                None => false,
            };
            let ghost subs = self@.subs;
            let ghost gone = self.returned_since(*old(self));
            let ghost sent = self.returned();
            proof {
                assert(states(subs)[place as int] == states(subs).skip(place as int)[0]);
                assert(whole[place + gone.len()] == whole.skip(place + gone.len())[0]);
            }
            match self.remove_if_unused(place, marked, room) {
                Some(track) => {
                    let refused = track_queue_push(&mut self.unused_track_producer, track);
                    proof {
                        assert(refused is None);
                        let picks = choose|picks: Seq<int>| picked_from(subs, before, picks);
                        lemma_remove_keeps_picks(subs, before, picks, place as int);
                        assert(self.returned() == sent.push(track));
                        assert(self.returned().subrange(0, had) =~= sent.subrange(0, had));
                        assert(self.returned_since(*old(self)) =~= gone.push(track@));
                        assert(states(self@.subs) =~= states(subs).remove(place as int));
                        lemma_parted_leaves(whole, states(subs), gone, place as int);
                        assert(states(self@.subs).skip(place as int) =~= states(subs).skip(
                            place as int,
                        ).skip(1));
                        assert(whole.skip(place + gone.len() + 1) =~= whole.skip(
                            place + gone.len(),
                        ).skip(1));
                    }
                },
                None => {
                    proof {
                        lemma_parted_stays(whole, states(subs), gone, place as int);
                        assert(states(self@.subs).skip(place + 1) =~= states(subs).skip(
                            place as int,
                        ).skip(1));
                        assert(whole.skip(place + 1 + gone.len()) =~= whole.skip(
                            place + gone.len(),
                        ).skip(1));
                    }
                    place = place + 1;
                },
            }
        }
        proof {
            let gone = self.returned_since(*old(self));
            let now = states(self@.subs);
            lemma_parted_rest(
                whole.subrange(0, place + gone.len()),
                now.subrange(0, place as int),
                gone,
                now.skip(place as int),
            );
            assert(whole.subrange(0, place + gone.len()) + whole.skip(place + gone.len()) =~= whole);
            assert(now.subrange(0, place as int) + now.skip(place as int) =~= now);
        }
    }

    /// Whether `after` is this mixer with the sub-track `id` changed in
    /// place and nothing else.
    spec fn changed_in_place(self, after: Mixer, id: SubTrackId) -> bool {
        let entries = track_entries(self.sub_tracks);
        let place = position_of(entries, id.0);
        &&& has_key(entries, id.0)
        &&& after.main_track == self.main_track
        &&& after.sub_track_ids == self.sub_track_ids
        &&& track_capacity(after.sub_tracks) == track_capacity(self.sub_tracks)
        &&& track_entries(after.sub_tracks) == entries.update(
            place,
            (id.0, self.changed_track(after, id)),
        )
    }

    /// The sub-track `id` as it is in `after`.
    spec fn changed_track(self, after: Mixer, id: SubTrackId) -> Track {
        track_entries(after.sub_tracks)[position_of(track_entries(self.sub_tracks), id.0)].1
    }

    /// A sub-track changed in place leaves the mixer as it should be, with
    /// that one track's state replaced.
    proof fn lemma_changed_in_place(self, after: Mixer, id: SubTrackId)
        requires
            self.wf(),
            self.changed_in_place(after, id),
        ensures
            after.wf(),
            after@ == self@.with_track(TrackId::Sub(id), self.changed_track(after, id)@),
            forall|other: TrackId| after@.has_track(other) == self@.has_track(other),
            self@.routes_forward() && destinations(self.changed_track(after, id)@) == destinations(
                self@.track(TrackId::Sub(id)),
            ) ==> after@.routes_forward(),
    {
        self.lemma_places(id);
        lemma_subs_same(self@.subs, after@.subs);
        if self@.routes_forward() && destinations(self.changed_track(after, id)@) == destinations(
            self@.track(TrackId::Sub(id)),
        ) {
            lemma_same_destinations_keep_forward(self@, after@);
        }
        let before = track_entries(self.sub_tracks);
        let entries = track_entries(after.sub_tracks);
        lemma_changed(before, entries, track_capacity(self.sub_tracks));
        assert(after@.subs =~= self@.with_track(
            TrackId::Sub(id),
            self.changed_track(after, id)@,
        ).subs);
    }

    /// The places in the view mirror the places in the arena.
    proof fn lemma_places(self, id: SubTrackId)
        requires
            self.wf(),
        ensures
            self@.has_sub(id) == has_key(track_entries(self.sub_tracks), id.0),
            self@.has_sub(id) ==> self@.place(id) == self@.subs.len() - 1 - position_of(
                track_entries(self.sub_tracks),
                id.0,
            ),
    {
        let entries = track_entries(self.sub_tracks);
        let ids = self.sub_track_ids@;
        let n = ids.len() as int;
        if self@.has_sub(id) {
            let i = self@.place(id);
            assert(self@.subs[i].0 == id);
            assert(ids[i] == id);
            assert(entries[n - 1 - i].0 == id.0);
            let p = position_of(entries, id.0);
            assert(entries[p].0 == entries[n - 1 - i].0);
        }
        if has_key(entries, id.0) {
            let p = position_of(entries, id.0);
            assert(ids[n - 1 - p].0 == entries[p].0);
            assert(self@.subs[n - 1 - p].0 == id);
        }
    }
}

/// In every frame each track is processed exactly once, newer sub-tracks
/// before older ones and the main track last.
///
/// With `count` sub-tracks a frame has `count + 1` steps. The sub-track at
/// place `i` in the order of creation has step `count - 1 - i` and no other,
/// so of two sub-tracks the one added later comes first: what it sends to
/// the other is heard in the same frame. The main track has the last step,
/// and after it the frame is done.
pub proof fn lemma_processing_order(mixer: MixerView, i: int, j: int, step: int)
    requires
        0 <= i < j < mixer.subs.len(),
    ensures
        mixer.processing_step(mixer.subs.len() - 1 - i) == Some(TrackId::Sub(mixer.subs[i].0)),
        mixer.processing_step(mixer.subs.len() - 1 - j) == Some(TrackId::Sub(mixer.subs[j].0)),
        mixer.subs.len() - 1 - j < mixer.subs.len() - 1 - i < mixer.subs.len(),
        mixer.processing_step(mixer.subs.len() as int) == Some(TrackId::Main),
        mixer.processing_step(step) == Some(TrackId::Main) ==> step == mixer.subs.len(),
        mixer.processing_step(step) is Some <==> 0 <= step <= mixer.subs.len(),
{
}

/// A route goes on in the frame in which it is taken.
///
/// In a mixer whose routes lead from newer tracks to older ones, the track
/// that a route leads to is processed at a later step of the frame than the
/// track that sends: what is sent along a route is heard in the same frame,
/// along every chain of routes down to the main track.
pub proof fn lemma_routes_lead_on(mixer: MixerView, from: int, route: int, to: int)
    requires
        mixer.routes_forward(),
        mixer.sends(from, route, to),
    ensures
        mixer.processing_step(mixer.subs.len() - 1 - from) == Some(TrackId::Sub(mixer.subs[from].0)),
        mixer.processing_step(mixer.subs.len() - 1 - to) == Some(TrackId::Sub(mixer.subs[to].0)),
        mixer.subs.len() - 1 - from < mixer.subs.len() - 1 - to < mixer.subs.len(),
{
}

/// Each of the routes that are kept is one of the routes, and leads to a
/// track that exists.
pub proof fn lemma_routes_among(routes: Seq<RouteView>, existing: Seq<SubTrackId>, kept: int)
    requires
        0 <= kept < routes_among(routes, existing).len(),
    ensures
        reachable(routes_among(routes, existing)[kept].destination, existing),
        routes.contains(routes_among(routes, existing)[kept]),
    decreases routes.len(),
{
    if routes.len() > 0 {
        let earlier = routes_among(routes.drop_last(), existing);
        if kept < earlier.len() {
            lemma_routes_among(routes.drop_last(), existing, kept);
            let found = choose|i: int|
                0 <= i < routes.drop_last().len() && routes.drop_last()[i] == earlier[kept];
            assert(routes[found] == earlier[kept]);
        } else {
            assert(routes[routes.len() - 1] == routes.last());
        }
    }
}

/// Each of the routes that are kept is one of the routes, and does not lead
/// to the track that is excepted.
pub proof fn lemma_routes_except(routes: Seq<RouteView>, id: SubTrackId, kept: int)
    requires
        0 <= kept < routes_except(routes, id).len(),
    ensures
        routes_except(routes, id)[kept].destination != TrackId::Sub(id),
        routes.contains(routes_except(routes, id)[kept]),
    decreases routes.len(),
{
    if routes.len() > 0 {
        let earlier = routes_except(routes.drop_last(), id);
        if kept < earlier.len() {
            lemma_routes_except(routes.drop_last(), id, kept);
            let found = choose|i: int|
                0 <= i < routes.drop_last().len() && routes.drop_last()[i] == earlier[kept];
            assert(routes[found] == earlier[kept]);
        } else {
            assert(routes[routes.len() - 1] == routes.last());
        }
    }
}

/// Among the routes to tracks that exist there is none to a track that does
/// not.
proof fn lemma_among_has_no_other(routes: Seq<RouteView>, existing: Seq<SubTrackId>, id: SubTrackId)
    requires
        !existing.contains(id),
    ensures
        routes_except(routes_among(routes, existing), id) == routes_among(routes, existing),
    decreases routes.len(),
{
    if routes.len() > 0 {
        lemma_among_has_no_other(routes.drop_last(), existing, id);
        let earlier = routes_among(routes.drop_last(), existing);
        if reachable(routes.last().destination, existing) {
            assert(earlier.push(routes.last()).drop_last() =~= earlier);
            assert(earlier.push(routes.last()).last() == routes.last());
        }
    }
}

/// Adding a sub-track keeps the routes leading from newer to older tracks.
proof fn lemma_added_keeps_forward(mixer: MixerView, id: SubTrackId, track: TrackView)
    requires
        mixer.routes_forward(),
        !mixer.ids().contains(id),
    ensures
        mixer.with_added(id, track).routes_forward(),
{
    let after = mixer.with_added(id, track);
    let count = mixer.subs.len() as int;
    assert forall|from: int, route: int, to: int| #[trigger]
        after.sends(from, route, to) implies to < from by {
        let sent = after.subs[from].1.routes[route];
        if from < count {
            lemma_routes_except(mixer.subs[from].1.routes, id, route);
            let r = choose|r: int|
                0 <= r < mixer.subs[from].1.routes.len() && mixer.subs[from].1.routes[r] == sent;
            if to < count {
                assert(mixer.sends(from, r, to));
            }
        } else {
            lemma_routes_among(track.routes, mixer.ids(), route);
            if to == count {
                assert(mixer.ids().contains(id));
            }
        }
    }
}

/// Taking a sub-track out keeps the routes leading from newer to older
/// tracks.
proof fn lemma_removed_keeps_forward(mixer: MixerView, place: int)
    requires
        mixer.routes_forward(),
        0 <= place < mixer.subs.len(),
    ensures
        (MixerView { main: mixer.main, subs: mixer.subs.remove(place) }).routes_forward(),
{
    let after = MixerView { main: mixer.main, subs: mixer.subs.remove(place) };
    assert forall|from: int, route: int, to: int| #[trigger]
        after.sends(from, route, to) implies to < from by {
        let from_before = if from < place { from } else { from + 1 };
        let to_before = if to < place { to } else { to + 1 };
        assert(mixer.sends(from_before, route, to_before));
    }
}

/// Whether the routes lead from newer to older tracks is a matter of the
/// sub-tracks alone.
proof fn lemma_forward_is_about_sub_tracks(before: MixerView, after: MixerView)
    requires
        after.subs == before.subs,
    ensures
        after.routes_forward() == before.routes_forward(),
{
    if before.routes_forward() {
        assert forall|from: int, route: int, to: int| #[trigger]
            after.sends(from, route, to) implies to < from by {
            assert(before.sends(from, route, to));
        }
    }
    if after.routes_forward() {
        assert forall|from: int, route: int, to: int| #[trigger]
            before.sends(from, route, to) implies to < from by {
            assert(after.sends(from, route, to));
        }
    }
}

/// Changing tracks without changing where their routes lead keeps the
/// routes leading from newer to older tracks.
proof fn lemma_same_destinations_keep_forward(before: MixerView, after: MixerView)
    requires
        before.routes_forward(),
        after.subs.len() == before.subs.len(),
        forall|i: int|
            0 <= i < before.subs.len() ==> (#[trigger] after.subs[i]).0 == before.subs[i].0
                && destinations(after.subs[i].1) == destinations(before.subs[i].1),
    ensures
        after.routes_forward(),
{
    assert forall|from: int, route: int, to: int| #[trigger]
        after.sends(from, route, to) implies to < from by {
        assert(after.subs[from].0 == before.subs[from].0);
        assert(after.subs[to].0 == before.subs[to].0);
        let now = destinations(after.subs[from].1);
        let then = destinations(before.subs[from].1);
        assert(now.len() == after.subs[from].1.routes.len());
        assert(then.len() == before.subs[from].1.routes.len());
        assert(now[route] == after.subs[from].1.routes[route].destination);
        assert(then[route] == before.subs[from].1.routes[route].destination);
        assert(before.sends(from, route, to));
    }
}

/// Lists with the same identifiers at the same places list the same
/// sub-tracks.
proof fn lemma_subs_same(before: Seq<(SubTrackId, TrackView)>, after: Seq<(SubTrackId, TrackView)>)
    requires
        after.len() == before.len(),
        forall|i: int| 0 <= i < before.len() ==> (#[trigger] after[i]).0 == before[i].0,
    ensures
        forall|id: SubTrackId| lists(after, id) == lists(before, id),
{
    assert forall|id: SubTrackId| lists(after, id) == lists(before, id) by {
        if lists(after, id) {
            let i = choose|i: int| 0 <= i < after.len() && (#[trigger] after[i]).0 == id;
            assert(before[i].0 == id);
        }
        if lists(before, id) {
            let i = choose|i: int| 0 <= i < before.len() && (#[trigger] before[i]).0 == id;
            assert(after[i].0 == id);
        }
    }
}

/// A list with one more sub-track at its end lists that track and those it
/// listed.
proof fn lemma_subs_added(before: Seq<(SubTrackId, TrackView)>, added: (SubTrackId, TrackView))
    ensures
        forall|id: SubTrackId|
            lists(before.push(added), id) == (lists(before, id) || id == added.0),
{
    let after = before.push(added);
    assert forall|id: SubTrackId| lists(after, id) == (lists(before, id) || id == added.0) by {
        if lists(after, id) {
            let i = choose|i: int| 0 <= i < after.len() && (#[trigger] after[i]).0 == id;
            if i < before.len() {
                assert(before[i].0 == id);
            }
        }
        if lists(before, id) {
            let i = choose|i: int| 0 <= i < before.len() && (#[trigger] before[i]).0 == id;
            assert(after[i].0 == id);
        }
        if id == added.0 {
            assert(after[before.len() as int].0 == id);
        }
    }
}

/// Changing items in place keeps the keys, and with them what holds of the
/// keys.
proof fn lemma_changed(before: Seq<(Key, Track)>, after: Seq<(Key, Track)>, capacity: nat)
    requires
        well_keyed(before, capacity),
        after.len() == before.len(),
        forall|i: int| 0 <= i < before.len() ==> (#[trigger] after[i]).0 == before[i].0,
    ensures
        well_keyed(after, capacity),
{
    assert forall|i: int, j: int|
        0 <= i < after.len() && 0 <= j < after.len() && (#[trigger] after[i]).0 == (
        #[trigger] after[j]).0 implies i == j by {
        assert(before[i].0 == before[j].0);
    }
    assert forall|i: int| 0 <= i < after.len() implies key_index((#[trigger] after[i]).0)
        < capacity by {
        assert(key_index(before[i].0) < capacity);
    }
}

} // verus!
