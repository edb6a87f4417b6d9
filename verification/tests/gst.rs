use myvid::engine::export::ExportRefusal;
use myvid::engine::gst::{
    enter_failure, rate_refused, rate_seek, split_volume, BusAction, BusMessage, GstEngine,
    PipelineState, Tags,
};
use myvid::engine::labels::StreamFacts;
use myvid::engine::{Duration, Event, MediaInfo, State, TrackKind};

fn stream(id: &str, audio: bool) -> StreamFacts {
    StreamFacts {
        id: Some(id.to_owned()),
        video: false,
        audio,
        text: !audio,
        language_name: None,
        language_code: None,
        title: None,
        media: None,
        channels: None,
        rate: None,
        bitrate: None,
        nominal_bitrate: None,
    }
}

fn no_tags() -> Tags {
    Tags { title: None, video_codec: None, audio_codec: None, container: None }
}

#[test]
fn the_end_of_the_stream_is_told_twice_over() {
    let mut engine = GstEngine::new();
    assert_eq!(
        engine.on_message(BusMessage::Eos),
        [
            BusAction::Emit(Event::State(State::Ended)),
            BusAction::Emit(Event::Eos)
        ]
    );
}

#[test]
fn an_error_says_where_it_came_from() {
    let mut engine = GstEngine::new();
    let error = |source: Option<&str>, detail: Option<&str>| BusMessage::Error {
        source: source.map(str::to_owned),
        error: "broken".to_owned(),
        detail: detail.map(str::to_owned),
    };
    let told = |words: &str| vec![BusAction::Emit(Event::Error(words.to_owned()))];
    assert_eq!(
        engine.on_message(error(Some("/playbin"), Some("here"))),
        told("/playbin: broken (here)")
    );
    assert_eq!(engine.on_message(error(None, None)), told("pipeline: broken"));
    assert_eq!(engine.on_message(error(None, Some(""))), told("pipeline: broken"));
}

#[test]
fn buffering_is_a_percentage() {
    let mut engine = GstEngine::new();
    for (n, shown) in [(-5, 0), (42, 42), (400, 100)] {
        assert_eq!(
            engine.on_message(BusMessage::Buffering(n)),
            [BusAction::Emit(Event::Buffering(shown))]
        );
    }
}

#[test]
fn tags_are_collected_piece_by_piece() {
    let mut engine = GstEngine::new();
    let tag = |tags: Tags| BusMessage::Tag { tags, hardware: true, streams: None };
    assert_eq!(engine.on_message(tag(no_tags())), []);
    let first = engine.on_message(tag(Tags { title: Some("Film".to_owned()), ..no_tags() }));
    let second = engine.on_message(tag(Tags {
        video_codec: Some("H.264".to_owned()),
        ..no_tags()
    }));
    let info = MediaInfo { title: "Film".to_owned(), hardware: true, ..MediaInfo::default() };
    assert_eq!(first, [BusAction::Emit(Event::Loaded(info.clone()))]);
    let info = MediaInfo { video_codec: "H.264".to_owned(), ..info };
    assert_eq!(second, [BusAction::Emit(Event::Loaded(info))]);
    assert!(!engine.info.hardware);
}

#[test]
fn the_first_collection_is_adopted_and_its_labels_follow() {
    let mut engine = GstEngine::new();
    let streams = vec![stream("a", true), stream("t", false)];
    let actions = engine.on_message(BusMessage::StreamCollection(streams.clone()));
    assert_eq!(actions.len(), 4);
    assert_eq!(actions[0], BusAction::WatchTags);
    match &actions[1] {
        BusAction::Emit(Event::Tracks(tracks)) => {
            assert!(tracks.iter().all(|t| t.selected));
            assert_eq!(tracks[0].label, "Track 1");
        }
        other => panic!("{other:?}"),
    }
    assert_eq!(
        actions[2],
        BusAction::SelectStreams(vec!["a".to_owned(), "t".to_owned()])
    );
    assert_eq!(engine.on_message(BusMessage::StreamCollection(streams.clone())), []);

    let mut tagged = streams;
    tagged[0].language_code = Some("hi".to_owned());
    match &engine.on_message(BusMessage::StreamTags(Some(tagged.clone())))[..] {
        [BusAction::Emit(Event::Tracks(tracks))] => assert_eq!(tracks[0].label, "Hindi"),
        other => panic!("{other:?}"),
    }
    assert_eq!(engine.on_message(BusMessage::StreamTags(Some(tagged))), []);
    assert_eq!(engine.on_message(BusMessage::StreamTags(None)), []);
}

#[test]
fn starting_to_play_tells_what_is_known() {
    let mut engine = GstEngine::new();
    let changed = |own: bool, current: PipelineState| BusMessage::StateChanged {
        own,
        current,
        duration: Some(5),
        hardware: true,
        streams: None,
    };
    assert_eq!(engine.on_message(changed(false, PipelineState::Playing)), []);
    assert_eq!(engine.on_message(changed(true, PipelineState::Pending)), []);
    for (current, state) in [
        (PipelineState::Paused, State::Paused),
        (PipelineState::Ready, State::Idle),
        (PipelineState::Null, State::Idle),
    ] {
        assert_eq!(
            engine.on_message(changed(true, current)),
            [BusAction::Emit(Event::State(state))]
        );
    }
    assert_eq!(
        engine.on_message(changed(true, PipelineState::Playing)),
        [
            BusAction::Emit(Event::State(State::Playing)),
            BusAction::Emit(Event::Duration(Duration { nanos: 5 })),
            BusAction::Emit(Event::Loaded(MediaInfo { hardware: true, ..MediaInfo::default() })),
        ]
    );
    assert_eq!(engine.on_message(BusMessage::DurationChanged(Some(0))), []);
    assert_eq!(engine.on_message(BusMessage::Other), []);
}

#[test]
fn a_settled_seek_sends_the_one_that_waited() {
    let mut engine = GstEngine::new();
    let total = Some(Duration::from_secs(100));
    assert!(engine.seek(Duration::from_secs(1), total).is_some());
    assert!(engine.seek(Duration::from_secs(99), total).is_none());
    assert_eq!(
        engine.on_message(BusMessage::AsyncDone),
        [BusAction::Seek(Duration::from_secs(98))]
    );
    assert_eq!(engine.on_message(BusMessage::AsyncDone), []);
    engine.seek(Duration::from_secs(1), total);
    engine.seek_refused();
    assert!(!engine.seeks.seeking);
}

#[test]
fn opening_drops_what_waited_for_the_last_file() {
    let mut engine = GstEngine::new();
    engine.on_message(BusMessage::StreamCollection(vec![stream("a", true)]));
    engine.seek(Duration::from_secs(1), None);
    engine.seek(Duration::from_secs(2), None);
    engine.open("file:///b".to_owned());
    assert!(engine.tracks.is_empty());
    assert_eq!(engine.seeks.pending, None);
    assert_eq!(engine.source.as_deref(), Some("file:///b"));
    assert_eq!(engine.selection.audio, None);
}

#[test]
fn switching_a_track_asks_and_tells() {
    let mut engine = GstEngine::new();
    engine.on_message(BusMessage::StreamCollection(vec![
        stream("a", true),
        stream("b", true),
    ]));
    let actions = engine.select_track(TrackKind::Audio, Some("b".to_owned()));
    assert_eq!(actions[0], BusAction::SelectStreams(vec!["b".to_owned()]));
    match &actions[1] {
        BusAction::Emit(Event::Tracks(tracks)) => {
            assert!(!tracks[0].selected && tracks[1].selected)
        }
        other => panic!("{other:?}"),
    }
    assert_eq!(actions.len(), 2);
    let off = engine.select_track(TrackKind::Text, None);
    assert_eq!(off.len(), 3);
    assert_eq!(
        off[2],
        BusAction::Emit(Event::Subtitle {
            text: None,
            start: Duration::zero(),
            end: Duration::zero()
        })
    );
}

#[test]
fn sound_cannot_be_turned_off() {
    let mut engine = GstEngine::new();
    engine.on_message(BusMessage::StreamCollection(vec![stream("a", true)]));
    let actions = engine.select_track(TrackKind::Audio, None);
    assert_eq!(engine.selection.audio.as_deref(), Some("a"));
    match &actions[..] {
        [BusAction::Emit(Event::Tracks(tracks))] => assert!(tracks[0].selected),
        other => panic!("{other:?}"),
    }
}

#[test]
fn a_second_file_gets_its_own_tracks() {
    let mut engine = GstEngine::new();
    let tags = Tags { title: Some("First".to_owned()), ..no_tags() };
    engine.on_message(BusMessage::Tag { tags, hardware: false, streams: None });
    engine.on_message(BusMessage::StreamCollection(vec![stream("a", true)]));
    engine.open("file:///b".to_owned());
    assert_eq!(engine.info, MediaInfo::default());
    let mut better = stream("c", true);
    better.channels = Some(6);
    let actions =
        engine.on_message(BusMessage::StreamCollection(vec![stream("b", true), better]));
    assert_eq!(engine.selection.audio.as_deref(), Some("c"));
    assert_eq!(actions[2], BusAction::SelectStreams(vec!["c".to_owned()]));
    match &actions[1] {
        BusAction::Emit(Event::Tracks(tracks)) => {
            assert!(!tracks[0].selected && tracks[1].selected)
        }
        other => panic!("{other:?}"),
    }
    assert!(matches!(&actions[3], BusAction::Emit(Event::Loaded(_))));
}

#[test]
fn volume_above_full_is_a_boost() {
    assert_eq!(split_volume(0), (0, 100));
    assert_eq!(split_volume(60), (60, 100));
    assert_eq!(split_volume(100), (100, 100));
    assert_eq!(split_volume(150), (100, 150));
}

#[test]
fn another_speed_restarts_where_playback_is() {
    assert_eq!(rate_seek(200, Some(9)), Some(9));
    assert_eq!(rate_seek(50, None), Some(0));
    assert_eq!(rate_seek(0, Some(9)), None);
    assert_eq!(
        rate_refused(),
        Event::Error("playback rate change rejected".to_owned())
    );
    assert_eq!(
        enter_failure(PipelineState::Playing, "no"),
        Event::Error("could not enter Playing: no".to_owned())
    );
}

#[test]
fn the_newest_frame_is_remembered() {
    let mut engine = GstEngine::new();
    assert_eq!(engine.new_frame(Some(40), 1920, 1080), Event::Frame(1920, 1080));
    assert_eq!(engine.new_frame(None, 1920, 1080), Event::Frame(1920, 1080));
    assert_eq!(engine.last_frame(), Duration { nanos: 40 });
}

#[test]
fn an_export_needs_something_open() {
    let mut engine = GstEngine::new();
    assert_eq!(engine.export_clip(), Err(ExportRefusal::NothingOpen));
    engine.open("file:///a".to_owned());
    assert_eq!(engine.export_clip(), Ok("file:///a".to_owned()));
    assert_eq!(engine.export_clip(), Err(ExportRefusal::AlreadyRunning));
}
