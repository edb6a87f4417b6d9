use myvid::engine::protocol::{Layout, Notice, Request};
use myvid::engine::sandbox::Confinement;
use myvid::engine::worker::{translate, Action, FrameStep, Incoming, Source, Worker};
use myvid::engine::{AudioEffects, Duration, Event, Export, MediaInfo, State, TrackKind};

fn peer(request: Request) -> Incoming {
    Incoming::Peer(request)
}

#[test]
fn a_worker_starts_unconfined_and_says_so() {
    assert_eq!(
        Worker::greeting(),
        Notice::Ready { confinement: "awaiting media".to_owned() }
    );
    assert!(!Worker::new().confined);
}

#[test]
fn a_film_is_opened_only_once_the_process_is_confined_to_it() {
    let mut worker = Worker::new();
    let path = || Source::Path("/film.mkv".to_owned());
    assert_eq!(
        worker.serve(peer(Request::PlayPath("/film.mkv".to_owned()))),
        [Action::Confine(path())]
    );
    assert_eq!(path().film().as_deref(), Some("/film.mkv"));
    assert_eq!(
        worker.confined_to(path(), &Confinement::Enforced),
        [
            Action::Send(Notice::Ready { confinement: "landlock: enforced".to_owned() }),
            Action::Open(path()),
        ]
    );
    assert!(worker.confined);
    assert_eq!(
        worker.serve(peer(Request::PlayPath("/other.mkv".to_owned()))),
        [Action::Send(Notice::Failed(
            "this decoder is already confined to another file".to_owned()
        ))]
    );
}

#[test]
fn a_network_source_is_confined_to_no_file() {
    let mut worker = Worker::new();
    let uri = || Source::Uri("http://a".to_owned());
    assert_eq!(
        worker.serve(peer(Request::PlayUri("http://a".to_owned()))),
        [Action::Confine(uri())]
    );
    assert_eq!(uri().film(), None);
    worker.confined_to(uri(), &Confinement::Unavailable("old".to_owned()));
    assert_eq!(
        worker.serve(peer(Request::PlayUri("http://a".to_owned()))),
        [Action::Open(uri())]
    );
}

#[test]
fn what_opens_is_played_and_what_does_not_is_told() {
    let worker = Worker::new();
    assert_eq!(worker.opened(Ok(())), Action::Play);
    assert_eq!(
        worker.opened(Err("bad".to_owned())),
        Action::Send(Notice::Failed("bad".to_owned()))
    );
}

#[test]
fn requests_reach_the_engine() {
    let worker = Worker::new();
    let effects = AudioEffects { dialogue: true, night: false };
    for (request, action) in [
        (Request::Resume, Action::Play),
        (Request::Pause, Action::Pause),
        (Request::Seek(7), Action::Seek(Duration { nanos: 7 })),
        (Request::Volume(80), Action::SetVolume(80)),
        (Request::AudioEffects(effects), Action::SetAudioEffects(effects)),
        (Request::Rate(150), Action::SetRate(150)),
        (
            Request::SelectTrack { kind: TrackKind::Text, id: None },
            Action::SelectTrack { kind: TrackKind::Text, id: None },
        ),
        (Request::Shutdown, Action::Stop),
    ] {
        assert_eq!(worker.serve(peer(request)), [action]);
    }
    assert_eq!(worker.serve(Incoming::PeerGone), [Action::Stop]);
}

#[test]
fn only_a_position_may_be_dropped() {
    let worker = Worker::new();
    assert_eq!(
        worker.serve(Incoming::Tick(Some(Duration { nanos: 9 }))),
        [Action::TrySend(Notice::Position(9))]
    );
    assert_eq!(worker.serve(Incoming::Tick(None)), []);
    assert_eq!(
        worker.serve(Incoming::Engine(Event::Eos)),
        [Action::Send(Notice::Eos)]
    );
    assert_eq!(
        worker.serve(Incoming::Engine(Event::Frame(4, 2))),
        [Action::Publish(4, 2)]
    );
    assert_eq!(worker.serve(Incoming::Engine(Event::Ready)), []);
}

#[test]
fn events_become_notices() {
    assert_eq!(
        translate(Event::State(State::Paused)),
        Some(Notice::State(State::Paused))
    );
    assert_eq!(
        translate(Event::Duration(Duration::from_secs(1))),
        Some(Notice::Duration(1_000_000_000))
    );
    assert_eq!(translate(Event::Buffering(3)), Some(Notice::Buffering(3)));
    assert_eq!(
        translate(Event::Loaded(MediaInfo::default())),
        Some(Notice::Loaded(MediaInfo::default()))
    );
    assert_eq!(translate(Event::Tracks(vec![])), Some(Notice::Tracks(vec![])));
    assert_eq!(
        translate(Event::Error("x".to_owned())),
        Some(Notice::Failed("x".to_owned()))
    );
    assert_eq!(
        translate(Event::Subtitle {
            text: Some("a".to_owned()),
            start: Duration { nanos: 1 },
            end: Duration { nanos: 2 },
        }),
        Some(Notice::Subtitle { text: Some("a".to_owned()), start: 1, end: 2 })
    );
    assert_eq!(translate(Event::Export(Export::Progress(1))), None);
    assert_eq!(translate(Event::Frame(1, 1)), None);
}

#[test]
fn a_buffer_is_handed_over_before_the_frame_in_it() {
    let mut worker = Worker::new();
    assert_eq!(worker.publish_frame(4, 2, None), FrameStep::Skip);
    let layout = Layout::new(4, 2, 4, 4, 3);
    assert_eq!(worker.publish_frame(4, 2, Some((4, 4))), FrameStep::Create(layout));
    let slot = worker.surface_created(layout);
    assert_eq!(
        worker.frame_written(slot, Some(layout), 99),
        [
            Action::Send(Notice::Surface(layout)),
            Action::TrySend(Notice::Frame { slot: 0, generation: 1, sent_ns: 99 }),
        ]
    );
    for n in 1..7u64 {
        let slot = (n % 3) as u32;
        assert_eq!(worker.publish_frame(4, 2, Some((4, 4))), FrameStep::Write(slot));
        assert_eq!(
            worker.frame_written(slot, None, 0),
            [Action::TrySend(Notice::Frame { slot, generation: n + 1, sent_ns: 0 })]
        );
    }
}

#[test]
fn another_resolution_needs_another_buffer() {
    let mut worker = Worker::new();
    let small = Layout::new(4, 2, 4, 4, 3);
    worker.surface_created(small);
    worker.frame_written(0, Some(small), 0);
    let large = Layout::new(8, 2, 8, 8, 3);
    assert_eq!(worker.publish_frame(8, 2, Some((8, 8))), FrameStep::Create(large));
    assert_eq!(worker.surface_created(large), 0);
    assert_eq!(worker.generation, 0);
    assert_eq!(
        worker.publish_frame(8, 2, Some((8, 16))),
        FrameStep::Create(Layout::new(8, 2, 8, 16, 3))
    );
}
