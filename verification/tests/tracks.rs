use myvid::engine::labels::StreamFacts;
use myvid::engine::tracks::{adopt_collection, publish_tracks, refresh_labels, Selection};
use myvid::engine::{Duration, Event, MediaInfo, TrackKind};

fn facts(id: &str) -> StreamFacts {
    StreamFacts {
        id: Some(id.to_owned()),
        video: false,
        audio: false,
        text: false,
        language_name: None,
        language_code: None,
        title: None,
        media: None,
        channels: None,
        rate: None,
        bitrate: None,
        nominal_bitrate: None,
    }
}

fn video(id: &str) -> StreamFacts {
    StreamFacts { video: true, ..facts(id) }
}

fn audio(id: &str, channels: i32, bitrate: u32) -> StreamFacts {
    StreamFacts {
        audio: true,
        channels: Some(channels),
        bitrate: Some(bitrate),
        rate: Some(48_000),
        ..facts(id)
    }
}

fn subtitles(id: &str) -> StreamFacts {
    StreamFacts { text: true, ..facts(id) }
}

#[test]
fn the_best_audio_is_chosen_by_channels_then_bitrate() {
    let streams = vec![
        video("v"),
        audio("stereo", 2, 900_000),
        audio("low", 6, 384_000),
        audio("high", 6, 640_000),
        audio("same", 6, 640_000),
        subtitles("t1"),
        subtitles("t2"),
    ];
    let mut info = MediaInfo::default();
    let adopted = adopt_collection(&streams, &mut info).unwrap();
    assert_eq!(
        adopted.selection,
        Selection {
            video: Some("v".to_owned()),
            audio: Some("high".to_owned()),
            text: Some("t1".to_owned()),
        }
    );
    assert_eq!(
        (info.audio_channels, info.audio_rate, info.audio_bitrate),
        (6, 48_000, 640_000)
    );
    let ids: Vec<&str> = adopted.tracks.iter().map(|t| t.id.as_str()).collect();
    assert_eq!(ids, ["stereo", "low", "high", "same", "t1", "t2"]);
}

#[test]
fn tracks_are_numbered_per_kind() {
    let streams = vec![audio("a", 2, 0), subtitles("b"), audio("c", 2, 0), subtitles("d")];
    let adopted = adopt_collection(&streams, &mut MediaInfo::default()).unwrap();
    let labels: Vec<&str> = adopted.tracks.iter().map(|t| t.label.as_str()).collect();
    assert_eq!(labels, ["Track 1", "Track 1", "Track 2", "Track 2"]);
}

#[test]
fn a_collection_with_nothing_to_play_is_not_adopted() {
    let mut info = MediaInfo::default();
    let nameless = StreamFacts { id: None, ..audio("", 2, 0) };
    assert!(adopt_collection(&vec![nameless, facts("odd")], &mut info).is_none());
    assert_eq!(info, MediaInfo::default());
    assert!(adopt_collection(&vec![video("v")], &mut info).is_some());
}

#[test]
fn labels_settle_once_tags_arrive() {
    let mut streams = vec![audio("a", 2, 0), subtitles("b")];
    let mut tracks = adopt_collection(&streams, &mut MediaInfo::default()).unwrap().tracks;
    assert!(!refresh_labels(&mut tracks, &streams));
    streams[1].language_code = Some("te".to_owned());
    assert!(refresh_labels(&mut tracks, &streams));
    assert_eq!(tracks[0].label, "Track 1");
    assert_eq!(tracks[1].label, "Telugu");
    assert!(!refresh_labels(&mut tracks, &streams));
    assert!(!refresh_labels(&mut tracks, &vec![]));
    assert_eq!(tracks[1].label, "Telugu");
}

#[test]
fn only_the_selected_tracks_are_live() {
    let streams = vec![audio("a", 2, 0), audio("b", 2, 0), subtitles("a")];
    let adopted = adopt_collection(&streams, &mut MediaInfo::default()).unwrap();
    let mut selection = adopted.selection;
    selection.audio = Some("b".to_owned());
    let live = |s: &Selection| -> Vec<bool> {
        publish_tracks(&adopted.tracks, s).iter().map(|t| t.selected).collect()
    };
    assert_eq!(live(&selection), [false, true, true]);
    selection.text = None;
    assert_eq!(live(&selection), [false, true, false]);
}

#[test]
fn switching_audio_does_not_deselect_the_subtitles() {
    let mut selection = Selection {
        video: Some("v".to_owned()),
        audio: Some("a".to_owned()),
        text: Some("t".to_owned()),
    };
    assert_eq!(selection.select_track(TrackKind::Audio, Some("b".to_owned())), None);
    assert_eq!(selection.ids(), ["v", "b", "t"]);
    assert_eq!(selection.apply_selection(), Some(selection.ids()));
}

#[test]
fn turning_subtitles_off_clears_the_last_cue() {
    let mut selection = Selection::none();
    selection.text = Some("t".to_owned());
    assert_eq!(
        selection.select_track(TrackKind::Text, None),
        Some(Event::Subtitle {
            text: None,
            start: Duration::zero(),
            end: Duration::zero(),
        })
    );
    assert_eq!(selection.ids(), Vec::<String>::new());
    assert_eq!(selection.apply_selection(), None);
}
