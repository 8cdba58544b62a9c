use kira::dsp::{Frame, Scalar};
use kira::mixer::{Mixer, MixerCommand};
use kira::track::{
    SubTrackId, Track, TrackBuilder, TrackId, TrackRoutes, TrackSamples, TrackShared,
};
use kira::value::Value;
use ringbuf::{Consumer, RingBuffer};

fn scalar(value: f64) -> Scalar {
    Scalar::from_bits(value.to_bits())
}

fn number(scalar: Scalar) -> f64 {
    f64::from_bits(scalar.to_bits())
}

fn frame(left: f32, right: f32) -> Frame {
    Frame::new(left.to_bits(), right.to_bits())
}

fn channels(frame: Frame) -> (f32, f32) {
    (f32::from_bits(frame.left), f32::from_bits(frame.right))
}

fn panned(sample: (f32, f32), panning: f32) -> (f32, f32) {
    let angle = panning * std::f32::consts::FRAC_PI_2;
    (sample.0 * angle.cos(), sample.1 * angle.sin())
}

fn track_with(volume: f64, panning: f64, routes: Vec<(TrackId, f64)>) -> Track {
    let mut settings = TrackBuilder::new();
    settings.set_volume(scalar(volume));
    settings.set_panning(scalar(panning));
    let mut list = TrackRoutes::empty();
    for (destination, amount) in routes {
        list.add_route(destination, Value::Fixed(scalar(amount)));
    }
    settings.set_routes(list);
    Track::new(settings)
}

fn new_mixer(capacity: usize) -> (Mixer, Consumer<Track>) {
    let (producer, consumer) = RingBuffer::new(capacity).split();
    (Mixer::new(capacity, producer), consumer)
}

/// Renders one frame: every sound adds its sample to its track, then the
/// tracks are processed in the mixer's order.
fn render(mixer: &mut Mixer, sounds: &[(TrackId, f32)]) -> (f32, f32) {
    for (id, sample) in sounds {
        if let Some(track) = mixer.track_mut(*id) {
            let (left, right) = channels(track.input());
            track.set_input(frame(left + sample, right + sample));
        }
    }
    let mut step = 0;
    loop {
        let id = match mixer.processing_step(step) {
            Some(id) => id,
            None => panic!("the main track ends the frame"),
        };
        let track = mixer.track_mut(id).unwrap();
        let samples = TrackSamples { volume: None, panning: None, amounts: vec![] };
        let received = channels(track.process(&samples));
        let volume = number(track.volume()) as f32;
        let output =
            panned((received.0 * volume, received.1 * volume), number(track.panning()) as f32);
        if id == TrackId::Main {
            return output;
        }
        let mut routes = Vec::new();
        let mut index = 0;
        while let Some(route) = track.route(index) {
            routes.push(route);
            index += 1;
        }
        for (destination, amount) in routes {
            let amount = number(amount) as f32;
            if let Some(track) = mixer.track_mut(destination) {
                let (left, right) = channels(track.input());
                track.set_input(frame(left + output.0 * amount, right + output.1 * amount));
            }
        }
        step += 1;
    }
}

#[test]
fn mixer_without_routes_sums_the_sounds_on_the_main_track() {
    let (mut mixer, _unused) = new_mixer(2);
    mixer.run_command(MixerCommand::SetTrackVolume(TrackId::Main, Value::Fixed(scalar(0.5))));
    // the setting is sampled at the next frame; a fixed value is its own sample
    let main = mixer.track_mut(TrackId::Main).unwrap();
    assert_eq!(number(main.volume()), 1.0);
    let output = render(&mut mixer, &[(TrackId::Main, 1.0), (TrackId::Main, 0.5)]);
    assert_eq!(output, panned((1.5, 1.5), 0.5));
    // nothing is left over for the next frame
    assert_eq!(render(&mut mixer, &[]), panned((0.0, 0.0), 0.5));
}

#[test]
fn mixer_routing() {
    let (mut mixer, _unused) = new_mixer(4);
    // a track can only send to a track that exists, so the receiving track
    // is made first
    let b = SubTrackId::reserve(&mixer.sub_track_controller()).unwrap();
    let a = SubTrackId::reserve(&mixer.sub_track_controller()).unwrap();
    let (volume_b, panning_b) = (0.8, 0.25);
    mixer.run_command(MixerCommand::AddSubTrack(
        b,
        track_with(volume_b, panning_b, vec![(TrackId::Main, 1.0)]),
    ));
    mixer.run_command(MixerCommand::AddSubTrack(
        a,
        track_with(1.0, 0.5, vec![(TrackId::Sub(b), 0.5)]),
    ));
    assert_eq!(mixer.sub_track_count(), 2);
    assert_eq!(mixer.processing_step(0), Some(TrackId::Sub(a)));
    assert_eq!(mixer.processing_step(1), Some(TrackId::Sub(b)));
    assert_eq!(mixer.processing_step(2), Some(TrackId::Main));
    assert_eq!(mixer.processing_step(3), None);
    assert_eq!(mixer.track(TrackId::Sub(a)).unwrap().route(0), Some((TrackId::Sub(b), scalar(0.5))));

    let through_a = panned((1.0, 1.0), 0.5);
    let into_b = (through_a.0 * 0.5, through_a.1 * 0.5);
    let through_b =
        panned((into_b.0 * volume_b as f32, into_b.1 * volume_b as f32), panning_b as f32);
    let expected = panned(through_b, 0.5);
    // the sending track is processed first: the receiving one hears it in
    // the same frame
    for _ in 0..4 {
        assert_eq!(render(&mut mixer, &[(TrackId::Sub(a), 1.0)]), expected);
    }
    assert_eq!(render(&mut mixer, &[]), (0.0, 0.0));
}

#[test]
fn route_to_a_track_that_does_not_exist_yet_is_dropped() {
    let (mut mixer, _unused) = new_mixer(4);
    let a = SubTrackId::reserve(&mixer.sub_track_controller()).unwrap();
    let b = SubTrackId::reserve(&mixer.sub_track_controller()).unwrap();
    // `a` is made before `b` and names it, and itself, as destinations
    mixer.run_command(MixerCommand::AddSubTrack(
        a,
        track_with(
            1.0,
            0.5,
            vec![(TrackId::Sub(b), 0.5), (TrackId::Main, 0.25), (TrackId::Sub(a), 1.0)],
        ),
    ));
    mixer.run_command(MixerCommand::AddSubTrack(
        b,
        track_with(1.0, 0.5, vec![(TrackId::Sub(a), 1.0), (TrackId::Main, 1.0)]),
    ));
    let track_a = mixer.track(TrackId::Sub(a)).unwrap();
    assert_eq!(track_a.route_count(), 1);
    assert_eq!(track_a.route(0), Some((TrackId::Main, scalar(0.25))));
    let track_b = mixer.track(TrackId::Sub(b)).unwrap();
    assert_eq!(track_b.route_count(), 2);
    assert_eq!(track_b.route(0), Some((TrackId::Sub(a), scalar(1.0))));
    // b -> a -> main and b -> main, all within one frame
    let through_b = panned((1.0, 1.0), 0.5);
    let through_a = panned(through_b, 0.5);
    let into_main = (through_a.0 * 0.25 + through_b.0, through_a.1 * 0.25 + through_b.1);
    assert_eq!(render(&mut mixer, &[(TrackId::Sub(b), 1.0)]), panned(into_main, 0.5));
    assert_eq!(render(&mut mixer, &[]), (0.0, 0.0));
}

#[test]
fn routes_are_filtered_by_destination() {
    let (mixer, _unused) = new_mixer(4);
    let a = SubTrackId::reserve(&mixer.sub_track_controller()).unwrap();
    let b = SubTrackId::reserve(&mixer.sub_track_controller()).unwrap();
    let c = SubTrackId::reserve(&mixer.sub_track_controller()).unwrap();
    let routes =
        vec![(TrackId::Sub(a), 0.1), (TrackId::Main, 0.2), (TrackId::Sub(b), 0.3), (TrackId::Sub(c), 0.4)];
    let mut track = track_with(1.0, 0.5, routes.clone());
    track.remove_routes_to(b);
    assert_eq!(track.route_count(), 3);
    assert_eq!(track.route(0), Some((TrackId::Sub(a), scalar(0.1))));
    assert_eq!(track.route(1), Some((TrackId::Main, scalar(0.2))));
    assert_eq!(track.route(2), Some((TrackId::Sub(c), scalar(0.4))));
    let mut track = track_with(1.0, 0.5, routes);
    track.restrict_routes(&vec![c, a]);
    assert_eq!(track.route_count(), 3);
    assert_eq!(track.route(2), Some((TrackId::Sub(c), scalar(0.4))));
    track.restrict_routes(&vec![]);
    assert_eq!(track.route_count(), 1);
    assert_eq!(track.route(0), Some((TrackId::Main, scalar(0.2))));
    assert!(kira::track::is_listed(&vec![a, b], b));
    assert!(!kira::track::is_listed(&vec![a, b], c));
}

#[test]
fn route_to_a_removed_track_is_skipped() {
    let (mut mixer, mut unused) = new_mixer(4);
    let b = SubTrackId::reserve(&mixer.sub_track_controller()).unwrap();
    let a = SubTrackId::reserve(&mixer.sub_track_controller()).unwrap();
    let track_b = track_with(1.0, 0.5, vec![(TrackId::Main, 1.0)]);
    let shared_b = track_b.shared();
    mixer.run_command(MixerCommand::AddSubTrack(b, track_b));
    mixer.run_command(MixerCommand::AddSubTrack(
        a,
        track_with(1.0, 0.5, vec![(TrackId::Sub(b), 1.0), (TrackId::Main, 1.0)]),
    ));
    shared_b.mark_for_removal();
    mixer.on_start_processing();
    assert!(mixer.track(TrackId::Sub(b)).is_none());
    assert!(mixer.track_mut(TrackId::Sub(b)).is_none());
    assert!(unused.pop().is_some());
    assert_eq!(mixer.sub_track_count(), 1);
    assert_eq!(mixer.processing_step(0), Some(TrackId::Sub(a)));
    assert_eq!(mixer.processing_step(1), Some(TrackId::Main));
    // the route to main still carries the sound
    let through_a = panned((1.0, 1.0), 0.5);
    assert_eq!(render(&mut mixer, &[(TrackId::Sub(a), 1.0)]), panned(through_a, 0.5));
    // commands for the removed track do nothing
    mixer.run_command(MixerCommand::SetTrackVolume(TrackId::Sub(b), Value::Fixed(scalar(0.0))));
    mixer.run_command(MixerCommand::SetTrackPanning(TrackId::Sub(b), Value::Fixed(scalar(0.0))));
    assert_eq!(mixer.sub_track_count(), 1);
}

#[test]
fn handle_drop_eviction() {
    let (mut mixer, mut unused) = new_mixer(4);
    let mut ids = Vec::new();
    let mut handles = Vec::new();
    for _ in 0..3 {
        let id = SubTrackId::reserve(&mixer.sub_track_controller()).unwrap();
        let track = Track::new(TrackBuilder::new());
        handles.push(track.shared());
        mixer.run_command(MixerCommand::AddSubTrack(id, track));
        ids.push(id);
    }
    mixer.on_start_processing();
    assert_eq!(mixer.sub_track_count(), 3);
    assert!(unused.pop().is_none());
    // dropping a handle marks the track
    handles[1].mark_for_removal();
    assert!(handles[1].is_marked_for_removal());
    assert!(!handles[0].is_marked_for_removal());
    mixer.on_start_processing();
    assert!(mixer.track(TrackId::Sub(ids[1])).is_none());
    assert!(mixer.track(TrackId::Sub(ids[0])).is_some());
    assert!(mixer.track(TrackId::Sub(ids[2])).is_some());
    assert_eq!(mixer.processing_step(0), Some(TrackId::Sub(ids[2])));
    assert_eq!(mixer.processing_step(1), Some(TrackId::Sub(ids[0])));
    let returned = unused.pop().unwrap();
    assert!(returned.is_marked_for_removal());
    assert!(unused.pop().is_none());
    // the slot is free again for a new track
    let again = SubTrackId::reserve(&mixer.sub_track_controller()).unwrap();
    mixer.run_command(MixerCommand::AddSubTrack(again, Track::new(TrackBuilder::new())));
    assert_eq!(mixer.sub_track_count(), 3);
    assert_eq!(mixer.processing_step(0), Some(TrackId::Sub(again)));
}

#[test]
fn unused_tracks_stay_while_the_return_queue_is_full() {
    let (producer, mut unused) = RingBuffer::new(1).split();
    let mut mixer = Mixer::new(4, producer);
    let mut ids = Vec::new();
    for _ in 0..3 {
        let id = SubTrackId::reserve(&mixer.sub_track_controller()).unwrap();
        let track = Track::new(TrackBuilder::new());
        track.shared().mark_for_removal();
        mixer.run_command(MixerCommand::AddSubTrack(id, track));
        ids.push(id);
    }
    // room for one: the oldest leaves first
    mixer.remove_unused_tracks();
    assert!(mixer.track(TrackId::Sub(ids[0])).is_none());
    assert_eq!(mixer.sub_track_count(), 2);
    mixer.remove_unused_tracks();
    assert_eq!(mixer.sub_track_count(), 2);
    assert!(unused.pop().is_some());
    mixer.on_start_processing();
    assert!(mixer.track(TrackId::Sub(ids[1])).is_none());
    assert!(mixer.track(TrackId::Sub(ids[2])).is_some());
}

#[test]
fn track_settings_are_sampled_when_processed() {
    let (producer, _consumer) = RingBuffer::<Track>::new(1).split();
    let keys = Mixer::new(1, producer);
    let key = keys.sub_track_controller().try_reserve().unwrap();
    let parameter = kira::parameter::ParameterId(key);

    let mut settings = TrackBuilder::new();
    let mut routes = TrackRoutes::new();
    routes.add_route(TrackId::Main, Value::<Scalar>::from_parameter(parameter));
    settings.set_routes(routes);
    let mut track = Track::new(settings);
    assert_eq!(track.route_count(), 2);
    assert_eq!(track.route(0), Some((TrackId::Main, scalar(1.0))));
    assert_eq!(track.route(1), Some((TrackId::Main, scalar(1.0))));
    assert_eq!(track.route(2), None);
    track.set_volume(Value::<Scalar>::from_parameter(parameter));
    track.set_panning(Value::Fixed(scalar(0.0)));
    track.set_input(frame(1.0, 2.0));
    let received = track.process(&TrackSamples {
        volume: Some(scalar(0.25)),
        panning: Some(scalar(0.75)),
        amounts: vec![Some(scalar(0.1)), Some(scalar(0.2))],
    });
    assert_eq!(received, frame(1.0, 2.0));
    assert_eq!(track.input(), Frame::zero());
    // bound settings take their samples, fixed ones keep their value
    assert_eq!(track.volume(), scalar(0.25));
    assert_eq!(track.panning(), scalar(0.5));
    assert_eq!(track.route(0), Some((TrackId::Main, scalar(1.0))));
    assert_eq!(track.route(1), Some((TrackId::Main, scalar(0.2))));
    // a missing parameter leaves the last sample in place
    track.process(&TrackSamples { volume: None, panning: None, amounts: vec![None] });
    assert_eq!(track.volume(), scalar(0.25));
    assert_eq!(track.route(1), Some((TrackId::Main, scalar(0.2))));
}

#[test]
fn adding_a_track_under_a_taken_id_is_refused() {
    let (mut mixer, _unused) = new_mixer(4);
    let a = SubTrackId::reserve(&mixer.sub_track_controller()).unwrap();
    let b = SubTrackId::reserve(&mixer.sub_track_controller()).unwrap();
    assert!(mixer.add_sub_track(a, track_with(1.0, 0.5, vec![(TrackId::Main, 1.0)])));
    assert!(mixer.add_sub_track(b, track_with(0.5, 0.5, vec![(TrackId::Sub(a), 1.0)])));
    // `a` is taken: nothing changes, and the route of `b` to `a` stays
    assert!(!mixer.add_sub_track(a, track_with(0.25, 0.5, vec![])));
    assert_eq!(mixer.sub_track_count(), 2);
    assert_eq!(number(mixer.track(TrackId::Sub(a)).unwrap().volume()), 1.0);
    assert_eq!(mixer.track(TrackId::Sub(b)).unwrap().route(0), Some((TrackId::Sub(a), scalar(1.0))));
}

#[test]
fn a_track_leaves_only_if_marked_and_there_is_room() {
    let (mut mixer, _unused) = new_mixer(4);
    let a = SubTrackId::reserve(&mixer.sub_track_controller()).unwrap();
    let b = SubTrackId::reserve(&mixer.sub_track_controller()).unwrap();
    assert!(mixer.add_sub_track(a, track_with(0.25, 0.5, vec![])));
    assert!(mixer.add_sub_track(b, track_with(0.75, 0.5, vec![])));
    assert!(mixer.remove_if_unused(0, false, true).is_none());
    assert!(mixer.remove_if_unused(0, true, false).is_none());
    assert!(mixer.remove_if_unused(1, false, false).is_none());
    assert_eq!(mixer.sub_track_count(), 2);
    // place 0 is the oldest sub-track
    let removed = mixer.remove_if_unused(0, true, true).unwrap();
    assert_eq!(number(removed.volume()), 0.25);
    assert_eq!(mixer.sub_track_count(), 1);
    assert!(mixer.track(TrackId::Sub(a)).is_none());
    assert_eq!(mixer.processing_step(0), Some(TrackId::Sub(b)));
}

#[test]
fn returned_tracks_come_oldest_first_and_none_is_lost() {
    let (mut mixer, mut unused) = new_mixer(4);
    let mut volumes = Vec::new();
    for index in 0..4 {
        let id = SubTrackId::reserve(&mixer.sub_track_controller()).unwrap();
        let track = track_with(index as f64, 0.5, vec![]);
        if index != 2 {
            track.shared().mark_for_removal();
        }
        assert!(mixer.add_sub_track(id, track));
    }
    mixer.on_start_processing();
    while let Some(track) = unused.pop() {
        volumes.push(number(track.volume()));
    }
    assert_eq!(volumes, vec![0.0, 1.0, 3.0]);
    assert_eq!(mixer.sub_track_count(), 1);
    let left = mixer.processing_step(0).unwrap();
    assert_eq!(number(mixer.track(left).unwrap().volume()), 2.0);
}

#[test]
fn track_settings_can_be_read() {
    let mut track = track_with(1.0, 0.5, vec![(TrackId::Main, 0.5)]);
    assert!(track.volume_setting() == Value::Fixed(scalar(1.0)));
    assert!(track.panning_setting() == Value::Fixed(scalar(0.5)));
    assert!(track.route_setting(0) == Some(Value::Fixed(scalar(0.5))));
    assert!(track.route_setting(1).is_none());
    track.set_volume(Value::Fixed(scalar(0.0)));
    assert!(track.volume_setting() == Value::Fixed(scalar(0.0)));
}

#[test]
fn sounds_are_taken_and_leave_while_there_is_room() {
    assert!(kira::sound::takes(0, 1));
    assert!(!kira::sound::takes(1, 1));
    assert!(!kira::sound::takes(0, 0));
    assert!(kira::sound::leaves(true, 0, 1));
    assert!(!kira::sound::leaves(false, 0, 1));
    assert!(!kira::sound::leaves(true, 1, 1));
    assert!(!kira::sound::leaves(true, 2, 1));
}

#[test]
fn track_id_of_a_sub_track() {
    let (mixer, _unused) = new_mixer(1);
    let id = SubTrackId::reserve(&mixer.sub_track_controller()).unwrap();
    assert_eq!(TrackId::from(id), TrackId::Sub(id));
    assert_ne!(TrackId::from(id), TrackId::Main);
    assert!(SubTrackId::reserve(&mixer.sub_track_controller()).is_none());
}

#[test]
fn track_shared_flag() {
    let shared = TrackShared::new();
    assert!(!shared.is_marked_for_removal());
    shared.mark_for_removal();
    assert!(shared.is_marked_for_removal());
}

#[test]
fn default_track_settings() {
    let settings = TrackBuilder::new();
    assert_eq!(number(settings.volume), 1.0);
    assert_eq!(number(settings.panning), 0.5);
    assert_eq!(settings.routes.into_vec(), vec![(TrackId::Main, Value::Fixed(scalar(1.0)))]);
    let (mut mixer, _unused) = new_mixer(1);
    let main = mixer.track_mut(TrackId::Main).unwrap();
    assert_eq!(number(main.volume()), 1.0);
    assert_eq!(number(main.panning()), 0.5);
    assert_eq!(main.route_count(), 1);
}
