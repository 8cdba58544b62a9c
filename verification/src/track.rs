//! Mixer tracks: where sounds are summed, shaped and routed onwards.

pub mod effect;

use atomic_arena::{Controller, Key};
use std::sync::atomic::{AtomicBool, Ordering};
use std::sync::Arc;
use vstd::prelude::*;

use crate::arena::{capacity, controller_capacity, key_index, same_key, try_reserve};
use crate::shared::share;
use crate::dsp::{Frame, Scalar};
use crate::value::{CachedValue, Value};

verus! {

/// A unique identifier for a mixer sub-track.
#[derive(Debug, Clone, Copy, PartialEq, Eq, Hash)]
pub struct SubTrackId(pub Key);

/// A unique identifier for a track.
#[derive(Debug, Clone, Copy, PartialEq, Eq, Hash)]
pub enum TrackId {
    /// The main mixer track.
    Main,
    /// A sub-track.
    Sub(SubTrackId),
}

impl SubTrackId {
    /// Reserves an identifier for a new sub-track, or returns `None` when
    /// every slot of the mixer is taken. The identifier names a slot of the
    /// mixer that the controller belongs to.
    pub fn reserve(controller: &Controller) -> (id: Option<SubTrackId>)
        ensures
            controller_capacity(*controller) == 0 ==> id is None,
            id matches Some(id) ==> key_index(id.0) < controller_capacity(*controller),
    {
        if capacity(controller) == 0 {
            return None;
        }
        match try_reserve(controller) {
            Some(key) => Some(SubTrackId(key)),
            None => None,
        }
    }
}

impl TrackId {
    /// The identifier of the sub-track `id` among all tracks.
    pub fn from(id: SubTrackId) -> (track: TrackId)
        ensures
            track == TrackId::Sub(id),
    {
        TrackId::Sub(id)
    }
}

/// What a track's handle and the renderer share: the flag by which a dropped
/// handle asks for the track's removal.
pub struct TrackShared {
    removed: AtomicBool,
}

impl TrackShared {
    /// Creates the shared state of a track that nobody asked to remove.
    pub fn new() -> Self {
        Self { removed: AtomicBool::new(false) }
    }

    /// Whether the track's removal was asked for.
    pub fn is_marked_for_removal(&self) -> bool {
        self.removed.load(Ordering::SeqCst)
    }

    /// Asks for the track's removal.
    pub fn mark_for_removal(&self) {
        self.removed.store(true, Ordering::SeqCst);
    }
}

/// How the output of a track is sent on to other tracks: destinations, each
/// with the setting of the amount sent there.
pub struct TrackRoutes {
    routes: Vec<(TrackId, Value<Scalar>)>,
}

impl View for TrackRoutes {
    type V = Seq<(TrackId, Value<Scalar>)>;

    closed spec fn view(&self) -> Seq<(TrackId, Value<Scalar>)> {
        self.routes@
    }
}

impl TrackRoutes {
    /// Routes everything to the main track, at full amount.
    pub fn new() -> (routes: TrackRoutes)
        ensures
            routes@ == seq![(TrackId::Main, Value::Fixed(Scalar::spec_one()))],
    {
        let mut routes = Vec::new();
        routes.push((TrackId::Main, Value::Fixed(Scalar::one())));
        TrackRoutes { routes }
    }

    /// Routes nothing anywhere.
    pub fn empty() -> (routes: TrackRoutes)
        ensures
            routes@.len() == 0,
    {
        TrackRoutes { routes: Vec::new() }
    }

    /// Adds a route to `track` after the routes that are there.
    pub fn add_route(&mut self, track: TrackId, amount: Value<Scalar>)
        ensures
            final(self)@ == old(self)@.push((track, amount)),
    {
        self.routes.push((track, amount));
    }

    /// The routes as a list, in the order they were added.
    pub fn into_vec(self) -> (routes: Vec<(TrackId, Value<Scalar>)>)
        ensures
            routes@ == self@,
    {
        self.routes
    }
}

/// Settings for a mixer track.
#[non_exhaustive]
pub struct TrackBuilder {
    /// The volume of the track.
    pub volume: Scalar,
    /// The panning of the track, where 0 is hard left
    /// and 1 is hard right.
    pub panning: Scalar,
    /// How the output of this track should be routed
    /// to other mixer tracks.
    pub routes: TrackRoutes,
}

impl TrackBuilder {
    /// Creates a new [`TrackBuilder`] with the default settings: full
    /// volume, centered, routed to the main track.
    pub fn new() -> (settings: TrackBuilder)
        ensures
            settings.volume == Scalar::spec_one(),
            settings.panning == Scalar::spec_half(),
            settings.routes@ == seq![(TrackId::Main, Value::Fixed(Scalar::spec_one()))],
    {
        Self { volume: Scalar::one(), panning: Scalar::half(), routes: TrackRoutes::new() }
    }

    /// Sets the volume of the track.
    pub fn set_volume(&mut self, volume: Scalar)
        ensures
            final(self).volume == volume,
            final(self).panning == old(self).panning,
            final(self).routes == old(self).routes,
    {
        self.volume = volume;
    }

    /// Sets the panning of the track, where 0 is hard left
    /// and 1 is hard right.
    pub fn set_panning(&mut self, panning: Scalar)
        ensures
            final(self).volume == old(self).volume,
            final(self).panning == panning,
            final(self).routes == old(self).routes,
    {
        self.panning = panning;
    }

    /// Sets how the output of this track should be routed
    /// to other mixer tracks.
    pub fn set_routes(&mut self, routes: TrackRoutes)
        ensures
            final(self).volume == old(self).volume,
            final(self).panning == old(self).panning,
            final(self).routes == routes,
    {
        self.routes = routes;
    }
}

/// One route of a track.
pub struct RouteView {
    /// Where the output is sent.
    pub destination: TrackId,
    /// The setting that the amount follows.
    pub setting: Value<Scalar>,
    /// The amount, as last sampled.
    pub amount: Scalar,
}

/// The renderer's own state of a track.
pub struct TrackView {
    /// The setting that the volume follows.
    pub volume_setting: Value<Scalar>,
    /// The volume, as last sampled.
    pub volume: Scalar,
    /// The setting that the panning follows.
    pub panning_setting: Value<Scalar>,
    /// The panning, as last sampled.
    pub panning: Scalar,
    /// The routes, in the order they were given.
    pub routes: Seq<RouteView>,
    /// What the track has received since it was last processed.
    pub input: Frame,
}

/// A setting after it was sampled: a setting that follows a parameter takes
/// `mapped`, the mapped value of that parameter, where the parameter exists.
pub open spec fn sampled(setting: Value<Scalar>, raw: Scalar, mapped: Option<Scalar>) -> Scalar {
    match (setting, mapped) {
        (Value::Parameter { .. }, Some(sample)) => sample,
        _ => raw,
    }
}

/// The samples that a track's settings take at the start of a frame: for each
/// setting the mapped value of the parameter it follows, or `None` where it
/// follows none or the parameter does not exist.
pub struct TrackSamples {
    /// For the volume.
    pub volume: Option<Scalar>,
    /// For the panning.
    pub panning: Option<Scalar>,
    /// For the amount of each route, in the order of the routes. Routes
    /// beyond the end of this list are not sampled.
    pub amounts: Vec<Option<Scalar>>,
}

impl TrackView {
    /// The amount of route `i` after sampling.
    pub open spec fn sampled_route(self, samples: TrackSamples, i: int) -> RouteView {
        RouteView {
            amount: if i < samples.amounts@.len() {
                sampled(self.routes[i].setting, self.routes[i].amount, samples.amounts@[i])
            } else {
                self.routes[i].amount
            },
            ..self.routes[i]
        }
    }

    /// The state after a frame was processed: every setting is sampled and
    /// the received input is handed out, leaving silence.
    pub open spec fn processed(self, samples: TrackSamples) -> TrackView {
        TrackView {
            volume: sampled(self.volume_setting, self.volume, samples.volume),
            panning: sampled(self.panning_setting, self.panning, samples.panning),
            routes: Seq::new(self.routes.len(), |i: int| self.sampled_route(samples, i)),
            input: Frame::spec_zero(),
            ..self
        }
    }
}

/// Whether a track may send to `destination` when `existing` are the
/// sub-tracks that exist: to the main track and to each of them.
pub open spec fn reachable(destination: TrackId, existing: Seq<SubTrackId>) -> bool {
    match destination {
        TrackId::Main => true,
        TrackId::Sub(id) => existing.contains(id),
    }
}

/// The routes among `routes` that lead to the main track or to one of
/// `existing`, in their order.
pub open spec fn routes_among(routes: Seq<RouteView>, existing: Seq<SubTrackId>) -> Seq<RouteView>
    decreases routes.len(),
{
    if routes.len() == 0 {
        routes
    } else if reachable(routes.last().destination, existing) {
        routes_among(routes.drop_last(), existing).push(routes.last())
    } else {
        routes_among(routes.drop_last(), existing)
    }
}

/// The routes among `routes` that do not lead to the sub-track `id`, in
/// their order.
pub open spec fn routes_except(routes: Seq<RouteView>, id: SubTrackId) -> Seq<RouteView>
    decreases routes.len(),
{
    if routes.len() == 0 {
        routes
    } else if routes.last().destination != TrackId::Sub(id) {
        routes_except(routes.drop_last(), id).push(routes.last())
    } else {
        routes_except(routes.drop_last(), id)
    }
}

/// Whether `id` is one of `existing`.
pub fn is_listed(existing: &Vec<SubTrackId>, id: SubTrackId) -> (listed: bool)
    ensures
        listed == existing@.contains(id),
{
    let mut i: usize = 0;
    while i < existing.len()
        invariant
            i <= existing@.len(),
            forall|j: int| 0 <= j < i ==> existing@[j] != id,
        decreases existing@.len() - i,
    {
        if same_key(existing[i].0, id.0) {
            assert(existing@[i as int] == id);
            return true;
        }
        i = i + 1;
    }
    false
}

/// Where the routes of a track lead, in the order of the routes.
pub open spec fn destinations(track: TrackView) -> Seq<TrackId> {
    Seq::new(track.routes.len(), |i: int| track.routes[i].destination)
}

/// Processing a frame does not change where the routes of a track lead.
pub proof fn lemma_processing_keeps_destinations(track: TrackView, samples: TrackSamples)
    ensures
        destinations(track.processed(samples)) == destinations(track),
{
    assert(destinations(track.processed(samples)) =~= destinations(track));
}

/// The state of a list of routes.
pub open spec fn route_views(routes: Seq<(TrackId, CachedValue<Scalar>)>) -> Seq<RouteView> {
    Seq::new(
        routes.len(),
        |i: int|
            RouteView {
                destination: routes[i].0,
                setting: routes[i].1.setting(),
                amount: routes[i].1.raw(),
            },
    )
}

/// A mixer track.
pub struct Track {
    shared: Arc<TrackShared>,
    volume: CachedValue<Scalar>,
    panning: CachedValue<Scalar>,
    routes: Vec<(TrackId, CachedValue<Scalar>)>,
    input: Frame,
}

impl View for Track {
    type V = TrackView;

    closed spec fn view(&self) -> TrackView {
        TrackView {
            volume_setting: self.volume.setting(),
            volume: self.volume.raw(),
            panning_setting: self.panning.setting(),
            panning: self.panning.raw(),
            routes: route_views(self.routes@),
            input: self.input,
        }
    }
}

impl Track {
    /// The shared state by which the track's handle asks for its removal.
    pub closed spec fn handle(self) -> Arc<TrackShared> {
        self.shared
    }

    /// Creates a track from its settings, with no input received. A route
    /// amount that follows a parameter reads as one until the parameter is
    /// first sampled.
    pub fn new(settings: TrackBuilder) -> (track: Track)
        ensures
            track@.volume_setting == Value::Fixed(settings.volume),
            track@.volume == settings.volume,
            track@.panning_setting == Value::Fixed(settings.panning),
            track@.panning == settings.panning,
            track@.input == Frame::spec_zero(),
            track@.routes.len() == settings.routes@.len(),
            forall|i: int|
                0 <= i < settings.routes@.len() ==> #[trigger] track@.routes[i] == (RouteView {
                    destination: settings.routes@[i].0,
                    setting: settings.routes@[i].1,
                    amount: match settings.routes@[i].1 {
                        Value::Fixed(fixed) => fixed,
                        Value::Parameter { .. } => Scalar::spec_one(),
                    },
                }),
    {
        let volume = CachedValue::new(Value::Fixed(settings.volume), Scalar::one());
        let panning = CachedValue::new(Value::Fixed(settings.panning), Scalar::half());
        let listed = settings.routes.into_vec();
        let mut routes: Vec<(TrackId, CachedValue<Scalar>)> = Vec::new();
        let mut i: usize = 0;
        while i < listed.len()
            invariant
                i <= listed@.len(),
                routes@.len() == i,
                forall|j: int|
                    0 <= j < i ==> (#[trigger] routes@[j]).0 == listed@[j].0 && routes@[j].1.setting()
                        == listed@[j].1 && routes@[j].1.raw() == (match listed@[j].1 {
                        Value::Fixed(fixed) => fixed,
                        Value::Parameter { .. } => Scalar::spec_one(),
                    }),
            decreases listed@.len() - i,
        {
            let (destination, amount) = listed[i];
            routes.push((destination, CachedValue::new(amount, Scalar::one())));
            i = i + 1;
        }
        Track { shared: Arc::new(TrackShared::new()), volume, panning, routes, input: Frame::zero() }
    }

    /// The state that the track shares with its handle.
    pub fn shared(&self) -> (shared: Arc<TrackShared>)
        ensures
            shared == self.handle(),
    {
        share(&self.shared)
    }

    /// Whether the handle of this track asked for its removal.
    pub fn is_marked_for_removal(&self) -> bool {
        self.shared.is_marked_for_removal()
    }

    /// The volume, as last sampled.
    pub fn volume(&self) -> (volume: Scalar)
        ensures
            volume == self@.volume,
    {
        self.volume.get()
    }

    /// The panning, as last sampled.
    pub fn panning(&self) -> (panning: Scalar)
        ensures
            panning == self@.panning,
    {
        self.panning.get()
    }

    /// The setting that the volume follows.
    pub fn volume_setting(&self) -> (setting: Value<Scalar>)
        ensures
            setting == self@.volume_setting,
    {
        self.volume.value()
    }

    /// The setting that the panning follows.
    pub fn panning_setting(&self) -> (setting: Value<Scalar>)
        ensures
            setting == self@.panning_setting,
    {
        self.panning.value()
    }

    /// The setting that the amount of route `index` follows.
    pub fn route_setting(&self, index: usize) -> (setting: Option<Value<Scalar>>)
        ensures
            setting == (if index < self@.routes.len() {
                Some(self@.routes[index as int].setting)
            } else {
                None
            }),
    {
        if index < self.routes.len() {
            Some(self.routes[index].1.value())
        } else {
            None
        }
    }

    /// The number of routes.
    pub fn route_count(&self) -> (count: usize)
        ensures
            count == self@.routes.len(),
    {
        self.routes.len()
    }

    /// The destination of route `index` and the amount sent there, as last
    /// sampled.
    pub fn route(&self, index: usize) -> (route: Option<(TrackId, Scalar)>)
        ensures
            route == (if index < self@.routes.len() {
                Some((self@.routes[index as int].destination, self@.routes[index as int].amount))
            } else {
                None
            }),
    {
        if index < self.routes.len() {
            Some((self.routes[index].0, self.routes[index].1.get()))
        } else {
            None
        }
    }

    /// What the track has received since it was last processed.
    pub fn input(&self) -> (input: Frame)
        ensures
            input == self@.input,
    {
        self.input
    }

    /// Changes the volume setting. The sampled volume stays until the next
    /// frame.
    pub fn set_volume(&mut self, volume: Value<Scalar>)
        ensures
            final(self).handle() == old(self).handle(),
            final(self)@ == (TrackView { volume_setting: volume, ..old(self)@ }),
    {
        self.volume.set(volume);
    }

    /// Changes the panning setting. The sampled panning stays until the next
    /// frame.
    pub fn set_panning(&mut self, panning: Value<Scalar>)
        ensures
            final(self).handle() == old(self).handle(),
            final(self)@ == (TrackView { panning_setting: panning, ..old(self)@ }),
    {
        self.panning.set(panning);
    }

    /// Replaces what the track has received by `input`: the sum of what was
    /// there and what is sent in.
    pub fn set_input(&mut self, input: Frame)
        ensures
            final(self).handle() == old(self).handle(),
            final(self)@ == (TrackView { input, ..old(self)@ }),
    {
        self.input = input;
    }

    /// Drops the routes that lead to a sub-track that is not among
    /// `existing`. The other routes stay in their order. Nothing is
    /// allocated.
    pub fn restrict_routes(&mut self, existing: &Vec<SubTrackId>)
        ensures
            final(self).handle() == old(self).handle(),
            final(self)@ == (TrackView { routes: routes_among(old(self)@.routes, existing@), ..old(self)@ }),
    {
        let ghost whole = route_views(self.routes@);
        let ghost mut dropped: int = 0;
        let mut i: usize = 0;
        proof {
            assert(route_views(self.routes@).subrange(0, 0) =~= routes_among(
                whole.subrange(0, 0),
                existing@,
            ));
            assert(route_views(self.routes@).skip(0) =~= whole.skip(0));
        }
        while i < self.routes.len()
            invariant
                self.shared == old(self).shared,
                self.volume == old(self).volume,
                self.panning == old(self).panning,
                self.input == old(self).input,
                whole == route_views(old(self).routes@),
                0 <= dropped,
                i <= self.routes@.len(),
                self.routes@.len() + dropped == whole.len(),
                route_views(self.routes@).subrange(0, i as int) == routes_among(
                    whole.subrange(0, i + dropped),
                    existing@,
                ),
                route_views(self.routes@).skip(i as int) == whole.skip(i + dropped),
            decreases self.routes@.len() - i,
        {
            let ghost before = route_views(self.routes@);
            let keep = match self.routes[i].0 {
                TrackId::Main => true,
                TrackId::Sub(destination) => is_listed(existing, destination),
            };
            proof {
                assert(before[i as int] == before.skip(i as int)[0]);
                assert(whole[i + dropped] == whole.skip(i + dropped)[0]);
                assert(whole.subrange(0, i + dropped + 1).drop_last() =~= whole.subrange(
                    0,
                    i + dropped,
                ));
                assert(whole.subrange(0, i + dropped + 1).last() == whole[i + dropped]);
                assert(whole.skip(i + dropped + 1) =~= whole.skip(i + dropped).skip(1));
                assert(before.skip(i + 1) =~= before.skip(i as int).skip(1));
            }
            if keep {
                proof {
                    assert(before.subrange(0, i + 1) =~= before.subrange(0, i as int).push(
                        before[i as int],
                    ));
                }
                i = i + 1;
            } else {
                self.routes.remove(i);
                proof {
                    let after = route_views(self.routes@);
                    assert(after =~= before.remove(i as int));
                    assert(after.subrange(0, i as int) =~= before.subrange(0, i as int));
                    assert(after.skip(i as int) =~= before.skip(i + 1));
                    dropped = dropped + 1;
                }
            }
        }
        proof {
            assert(whole.subrange(0, whole.len() as int) =~= whole);
            assert(route_views(self.routes@).subrange(0, i as int) =~= route_views(self.routes@));
        }
    }

    /// Drops the routes that lead to the sub-track `id`. The other routes
    /// stay in their order. Nothing is allocated.
    pub fn remove_routes_to(&mut self, id: SubTrackId)
        ensures
            final(self).handle() == old(self).handle(),
            final(self)@ == (TrackView { routes: routes_except(old(self)@.routes, id), ..old(self)@ }),
    {
        let ghost whole = route_views(self.routes@);
        let ghost mut dropped: int = 0;
        let mut i: usize = 0;
        proof {
            assert(route_views(self.routes@).subrange(0, 0) =~= routes_except(
                whole.subrange(0, 0),
                id,
            ));
            assert(route_views(self.routes@).skip(0) =~= whole.skip(0));
        }
        while i < self.routes.len()
            invariant
                self.shared == old(self).shared,
                self.volume == old(self).volume,
                self.panning == old(self).panning,
                self.input == old(self).input,
                whole == route_views(old(self).routes@),
                0 <= dropped,
                i <= self.routes@.len(),
                self.routes@.len() + dropped == whole.len(),
                route_views(self.routes@).subrange(0, i as int) == routes_except(
                    whole.subrange(0, i + dropped),
                    id,
                ),
                route_views(self.routes@).skip(i as int) == whole.skip(i + dropped),
            decreases self.routes@.len() - i,
        {
            let ghost before = route_views(self.routes@);
            let keep = match self.routes[i].0 {
                TrackId::Main => true,
                TrackId::Sub(destination) => !same_key(destination.0, id.0),
            };
            proof {
                assert(before[i as int] == before.skip(i as int)[0]);
                assert(whole[i + dropped] == whole.skip(i + dropped)[0]);
                assert(whole.subrange(0, i + dropped + 1).drop_last() =~= whole.subrange(
                    0,
                    i + dropped,
                ));
                assert(whole.subrange(0, i + dropped + 1).last() == whole[i + dropped]);
                assert(whole.skip(i + dropped + 1) =~= whole.skip(i + dropped).skip(1));
                assert(before.skip(i + 1) =~= before.skip(i as int).skip(1));
            }
            if keep {
                proof {
                    assert(before.subrange(0, i + 1) =~= before.subrange(0, i as int).push(
                        before[i as int],
                    ));
                }
                i = i + 1;
            } else {
                self.routes.remove(i);
                proof {
                    let after = route_views(self.routes@);
                    assert(after =~= before.remove(i as int));
                    assert(after.subrange(0, i as int) =~= before.subrange(0, i as int));
                    assert(after.skip(i as int) =~= before.skip(i + 1));
                    dropped = dropped + 1;
                }
            }
        }
        proof {
            assert(whole.subrange(0, whole.len() as int) =~= whole);
            assert(route_views(self.routes@).subrange(0, i as int) =~= route_views(self.routes@));
        }
    }

    /// Starts a frame: samples the settings, hands out what the track has
    /// received and leaves silence in its place.
    pub fn process(&mut self, samples: &TrackSamples) -> (received: Frame)
        ensures
            final(self).handle() == old(self).handle(),
            received == old(self)@.input,
            final(self)@ == old(self)@.processed(*samples),
    {
        self.volume.update(samples.volume);
        self.panning.update(samples.panning);
        let ghost volume = self.volume;
        let ghost panning = self.panning;
        let mut i: usize = 0;
        while i < self.routes.len() && i < samples.amounts.len()
            invariant
                self.shared == old(self).shared,
                self.volume == volume,
                self.panning == panning,
                self.input == old(self).input,
                self.routes@.len() == old(self).routes@.len(),
                forall|j: int|
                    0 <= j < self.routes@.len() ==> #[trigger] route_views(self.routes@)[j] == (
                    if j < i {
                        old(self)@.sampled_route(*samples, j)
                    } else {
                        old(self)@.routes[j]
                    }),
            decreases self.routes@.len() - i,
        {
            let ghost before = self.routes@;
            let sample = samples.amounts[i];
            self.routes[i].1.update(sample);
            proof {
                assert forall|j: int| 0 <= j < self.routes@.len() implies #[trigger] route_views(
                    self.routes@,
                )[j] == (if j < i + 1 {
                    old(self)@.sampled_route(*samples, j)
                } else {
                    old(self)@.routes[j]
                }) by {
                    if j != i {
                        assert(route_views(before)[j] == route_views(self.routes@)[j]);
                    } else {
                        assert(route_views(before)[j] == old(self)@.routes[j]);
                    }
                }
            }
            i = i + 1;
        }
        let received = self.input;
        self.input = Frame::zero();
        proof {
            assert(self@.routes =~= old(self)@.processed(*samples).routes);
        }
        received
    }
}

} // verus!
