use myvid::engine::export::ExportRefusal;
use myvid::engine::protocol::{Layout, Notice, Request};
use myvid::engine::remote::{spawn_failure, Heard, Listener, RemoteEngine, Reply};
use myvid::engine::worker::translate;
use myvid::engine::{AudioEffects, Duration, Event, State, Track, TrackKind};

#[test]
fn every_file_gets_a_decoder_of_its_own() {
    let mut engine = RemoteEngine::new();
    engine.restart();
    let mut played_on = Vec::new();
    for uri in ["a", "b", "a"] {
        if engine.open(uri.to_owned()) {
            engine.restart();
        }
        played_on.push(engine.epoch);
    }
    assert_eq!(played_on, [1, 2, 3]);
}

#[test]
fn a_fresh_decoder_sounds_the_same() {
    let mut engine = RemoteEngine::new();
    let effects = AudioEffects { dialogue: false, night: true };
    assert_eq!(engine.set_volume(50), Request::Volume(50));
    assert_eq!(engine.set_audio_effects(effects), Request::AudioEffects(effects));
    assert_eq!(
        engine.restart(),
        [Request::Volume(50), Request::AudioEffects(effects)]
    );
}

#[test]
fn a_local_file_is_played_by_its_path() {
    let uri = || "file:///a".to_owned();
    assert_eq!(
        RemoteEngine::play_request(uri(), Some("/a".to_owned())),
        Request::PlayPath("/a".to_owned())
    );
    assert_eq!(RemoteEngine::play_request(uri(), None), Request::PlayUri(uri()));
}

#[test]
fn opening_forgets_the_position_and_the_length() {
    let mut engine = RemoteEngine::new();
    let mut listener = Listener::new(0);
    listener.listen(&mut engine, Heard::Notice(Notice::Position(5), false));
    let told = listener.listen(&mut engine, Heard::Notice(Notice::Duration(9), false));
    assert_eq!(told, [Reply::Emit(Event::Duration(Duration { nanos: 9 }))]);
    assert_eq!(engine.position(), Some(Duration { nanos: 5 }));
    assert_eq!(engine.duration(), Some(Duration { nanos: 9 }));
    engine.open("b".to_owned());
    assert_eq!(engine.position(), Some(Duration::zero()));
    assert_eq!(engine.duration(), None);
    assert_eq!(engine.source.as_deref(), Some("b"));
}

#[test]
fn commands_become_requests() {
    let engine = RemoteEngine::new();
    assert_eq!(engine.play(), Request::Resume);
    assert_eq!(engine.pause(), Request::Pause);
    assert_eq!(engine.seek(Duration { nanos: 3 }), Request::Seek(3));
    assert_eq!(engine.set_rate(125), Request::Rate(125));
    assert_eq!(
        engine.select_track(TrackKind::Audio, Some("a".to_owned())),
        Request::SelectTrack { kind: TrackKind::Audio, id: Some("a".to_owned()) }
    );
}

#[test]
fn only_the_current_decoder_dying_is_news() {
    let mut engine = RemoteEngine::new();
    engine.restart();
    let mut old = Listener::new(engine.epoch);
    engine.restart();
    let mut current = Listener::new(engine.epoch);
    assert_eq!(old.listen(&mut engine, Heard::Nothing), [Reply::Stop]);
    assert_eq!(
        current.listen(&mut engine, Heard::Nothing),
        [
            Reply::Emit(Event::Error(
                "the decode process stopped unexpectedly".to_owned()
            )),
            Reply::Emit(Event::State(State::Idle)),
            Reply::Stop,
        ]
    );
}

#[test]
fn a_replaced_decoder_cannot_scribble_over_the_new_one() {
    let mut engine = RemoteEngine::new();
    let mut old = Listener::new(engine.epoch);
    engine.restart();
    for notice in [Notice::Position(5), Notice::Duration(5), Notice::Eos] {
        assert_eq!(
            old.listen(&mut engine, Heard::Notice(notice, false)),
            [Reply::Stop]
        );
    }
    assert_eq!((engine.position, engine.duration), (0, 0));
}

#[test]
fn frames_are_shown_once_their_buffer_is_mapped() {
    let mut engine = RemoteEngine::new();
    let mut listener = Listener::new(0);
    let layout = Layout::new(4, 2, 4, 4, 3);
    let frame = || Heard::Notice(Notice::Frame { slot: 1, generation: 2, sent_ns: 0 }, false);
    assert_eq!(listener.listen(&mut engine, frame()), []);
    assert_eq!(
        listener.listen(&mut engine, Heard::Notice(Notice::Surface(layout), true)),
        [Reply::Adopt(layout)]
    );
    assert_eq!(listener.mapped(layout, true), None);
    assert_eq!(
        listener.listen(&mut engine, frame()),
        [Reply::Show(1), Reply::Emit(Event::Frame(4, 2))]
    );
}

#[test]
fn a_buffer_that_cannot_be_mapped_is_told() {
    let mut engine = RemoteEngine::new();
    let mut listener = Listener::new(0);
    let layout = Layout::new(4, 2, 4, 4, 3);
    let told = || {
        Reply::Emit(Event::Error(
            "could not map the decoder's frame buffer".to_owned(),
        ))
    };
    listener.mapped(layout, true);
    assert_eq!(listener.mapped(layout, false), Some(told()));
    assert_eq!(listener.surface, None);
    assert_eq!(
        listener.listen(&mut engine, Heard::Notice(Notice::Surface(layout), false)),
        [told()]
    );
}

#[test]
fn what_the_decoder_reports_reaches_the_player_as_it_was() {
    let track = Track {
        id: "a".to_owned(),
        kind: TrackKind::Audio,
        label: "English".to_owned(),
        detail: String::new(),
        selected: true,
    };
    for event in [
        Event::State(State::Playing),
        Event::Duration(Duration::from_secs(7_200)),
        Event::Buffering(30),
        Event::Tracks(vec![track]),
        Event::Subtitle {
            text: None,
            start: Duration::from_secs(1),
            end: Duration::from_secs(2),
        },
        Event::Eos,
        Event::Error("x".to_owned()),
    ] {
        let notice = translate(event.clone()).unwrap();
        let mut engine = RemoteEngine::new();
        assert_eq!(
            Listener::new(0).listen(&mut engine, Heard::Notice(notice, false)),
            [Reply::Emit(event)]
        );
    }
}

#[test]
fn how_well_a_decoder_is_confined_is_logged() {
    let mut engine = RemoteEngine::new();
    let ready = Notice::Ready { confinement: "landlock: enforced".to_owned() };
    assert_eq!(
        Listener::new(0).listen(&mut engine, Heard::Notice(ready, false)),
        [Reply::Log("landlock: enforced".to_owned())]
    );
}

#[test]
fn clips_are_exported_by_the_player() {
    let mut engine = RemoteEngine::new();
    assert_eq!(engine.export_clip(), Err(ExportRefusal::NothingOpen));
    engine.open("file:///a".to_owned());
    assert_eq!(engine.export_clip(), Ok("file:///a".to_owned()));
    assert!(engine.exporting);
    assert_eq!(engine.export_clip(), Err(ExportRefusal::AlreadyRunning));
}

#[test]
fn failures_to_reach_a_decoder_are_told() {
    assert_eq!(
        RemoteEngine::not_listening("sending a message"),
        Event::Error("the decoder is not listening: sending a message".to_owned())
    );
    assert_eq!(
        spawn_failure("no such program"),
        Event::Error("could not start the decode process: no such program".to_owned())
    );
}
