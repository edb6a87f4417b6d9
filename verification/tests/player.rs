use myvid::engine::{
    AudioEffects, ClipRequest, Container, Duration, Event, Export, LocationError, MediaInfo, State,
    Track, TrackKind,
};
use myvid::ui::keys::{Key, KeyEvent, Modifiers, Named};
use myvid::ui::{Command, Message, Myvid, Problem};

fn secs(n: u64) -> Duration {
    Duration::from_secs(n)
}

fn boot() -> Myvid {
    Myvid::boot(Duration::zero(), None)
}

/// A player with a live engine, playing a local file of a hundred seconds.
fn playing() -> Myvid {
    let mut player = boot();
    player.update(Duration::zero(), Message::Engine(Event::Ready));
    player.update(Duration::zero(), Message::Dropped("file:///films/a.mkv".to_owned()));
    player.opened(Some("/films/a.mkv".to_owned()), Ok(()));
    let mut send = |message: Message| player.update(Duration::zero(), message);
    send(Message::Engine(Event::Duration(secs(100))));
    send(Message::Engine(Event::State(State::Playing)));
    player
}

fn at(player: &mut Myvid, position: u64) {
    player.update(
        Duration::zero(),
        Message::Tick { position: Some(secs(position)), duration: None },
    );
}

fn press(player: &mut Myvid, key: Key, command: bool) -> Vec<Command> {
    player.update(
        Duration::zero(),
        Message::Key(KeyEvent::Pressed { key, modifiers: Modifiers { command } }),
    )
}

fn typed(player: &mut Myvid, text: &str) -> Vec<Command> {
    press(player, Key::Character(text.to_owned()), false)
}

#[test]
fn a_file_named_at_the_start_waits_for_the_engine() {
    let mut player = Myvid::boot(Duration::zero(), Some("https://a/b".to_owned()));
    assert_eq!(player.pending.as_deref(), Some("https://a/b"));
    assert_eq!(
        player.update(Duration::zero(), Message::Engine(Event::Ready)),
        [
            Command::UseFrames,
            Command::SetVolume(100),
            Command::SetAudioEffects(AudioEffects { dialogue: false, night: false }),
            Command::Open("https://a/b".to_owned()),
        ]
    );
    assert_eq!(player.pending, None);
    assert_eq!(player.source.as_deref(), Some("https://a/b"));
}

#[test]
fn a_file_dropped_before_the_engine_is_live_waits_too() {
    let mut player = boot();
    let asked = player.update(Duration::zero(), Message::Dropped("/a".to_owned()));
    assert_eq!(asked, []);
    assert_eq!(player.pending.as_deref(), Some("/a"));
}

#[test]
fn a_path_is_looked_for_before_it_is_opened() {
    let mut player = boot();
    player.update(Duration::zero(), Message::Engine(Event::Ready));
    assert_eq!(
        player.update(Duration::zero(), Message::Picked(Some(" a.mkv ".to_owned()))),
        [Command::Find { path: "a.mkv".to_owned(), absolute: false }]
    );
    assert_eq!(player.source, None);
    assert_eq!(
        player.located("/home/a.mkv".to_owned(), true, Ok("file:///home/a.mkv".to_owned())),
        [Command::Open("file:///home/a.mkv".to_owned())]
    );
    assert_eq!(player.source.as_deref(), Some("file:///home/a.mkv"));
    assert_eq!(player.opened(None, Ok(())), [Command::Play]);
}

#[test]
fn what_cannot_be_opened_is_told() {
    let mut player = boot();
    let mut send = |message: Message| player.update(Duration::zero(), message);
    send(Message::Engine(Event::Ready));
    send(Message::Picked(Some("  ".to_owned())));
    assert_eq!(player.error, Some(Problem::Location(LocationError::Empty)));
    player.located("/x".to_owned(), false, Err("none".to_owned()));
    assert_eq!(player.error.as_ref().unwrap().message(), "no such file: /x");
    player.located("/x".to_owned(), true, Err("none".to_owned()));
    assert_eq!(player.error.as_ref().unwrap().message(), "none");
    assert_eq!(player.opened(None, Err("preroll".to_owned())), []);
    assert_eq!(player.error, Some(Problem::Playback("preroll".to_owned())));
    assert_eq!(
        player.update(Duration::zero(), Message::CopyError),
        [Command::CopyText("preroll".to_owned())]
    );
    player.update(Duration::zero(), Message::DismissError);
    assert_eq!(player.error, None);
    assert_eq!(player.update(Duration::zero(), Message::CopyError), []);
}

#[test]
fn opening_drops_everything_of_the_file_before() {
    let mut player = playing();
    at(&mut player, 10);
    player.update(Duration::zero(), Message::MarkIn);
    player.update(Duration::zero(), Message::SetRate(200));
    player.update(
        Duration::zero(),
        Message::Engine(Event::Loaded(MediaInfo {
            title: "A".to_owned(),
            ..MediaInfo::default()
        })),
    );
    player.update(Duration::zero(), Message::Picked(Some("http://b".to_owned())));
    assert_eq!(player.info, MediaInfo::default());
    assert_eq!(player.position, Duration::zero());
    assert_eq!((player.duration, player.rate), (None, 100));
    assert_eq!((player.clip_in, player.clip_out), (None, None));
    assert_eq!(player.source.as_deref(), Some("http://b"));
    assert_eq!(player.local, None);
}

#[test]
fn play_toggles() {
    let mut player = playing();
    assert_eq!(
        player.update(Duration::zero(), Message::TogglePlay),
        [Command::Pause]
    );
    player.update(Duration::zero(), Message::Engine(Event::State(State::Paused)));
    assert_eq!(typed(&mut player, "k"), [Command::Play]);
    assert_eq!(press(&mut player, Key::Named(Named::Space), false), [Command::Play]);
    assert_eq!(boot().update(Duration::zero(), Message::TogglePlay), []);
}

#[test]
fn skips_stay_inside_the_media() {
    let mut player = playing();
    at(&mut player, 3);
    assert_eq!(typed(&mut player, "j"), [Command::Seek(Duration::zero())]);
    at(&mut player, 50);
    assert_eq!(typed(&mut player, "l"), [Command::Seek(secs(60))]);
    assert_eq!(player.position, secs(60));
    at(&mut player, 95);
    assert_eq!(typed(&mut player, "L"), [Command::Seek(secs(100))]);
    assert_eq!(
        press(&mut player, Key::Named(Named::ArrowLeft), false),
        [Command::Seek(secs(95))]
    );
    assert_eq!(
        press(&mut player, Key::Named(Named::ArrowRight), false),
        [Command::Seek(secs(100))]
    );
    let all = player.update(Duration::zero(), Message::Skip(i64::MAX));
    assert_eq!(all, [Command::Seek(secs(100))]);
    let none = player.update(Duration::zero(), Message::Skip(i64::MIN));
    assert_eq!(none, [Command::Seek(Duration::zero())]);
}

#[test]
fn nothing_open_cannot_be_seeked() {
    let mut player = boot();
    player.update(Duration::zero(), Message::Engine(Event::Ready));
    assert_eq!(typed(&mut player, "l"), []);
    assert_eq!(player.update(Duration::zero(), Message::SeekFraction(500_000_000)), []);
    assert_eq!(player.error, None);
}

#[test]
fn the_scrub_bar_covers_the_media() {
    let mut player = playing();
    let mut seek = |parts: u32| player.update(Duration::zero(), Message::SeekFraction(parts));
    assert_eq!(seek(0), [Command::Seek(Duration::zero())]);
    assert_eq!(seek(250_000_000), [Command::Seek(secs(25))]);
    assert_eq!(seek(100_000), [Command::Seek(Duration::from_millis(10))]);
    assert_eq!(seek(1), [Command::Seek(Duration { nanos: 100 })]);
    assert_eq!(seek(1_000_000_000), [Command::Seek(secs(100))]);
    assert_eq!(seek(u32::MAX), [Command::Seek(secs(100))]);
}

#[test]
fn volume_goes_to_a_hundred_and_fifty() {
    let mut player = playing();
    for _ in 0..20 {
        press(&mut player, Key::Named(Named::ArrowUp), false);
    }
    assert_eq!(player.volume, 150);
    assert_eq!(
        press(&mut player, Key::Named(Named::ArrowDown), false),
        [Command::SetVolume(145)]
    );
    let set = player.update(Duration::zero(), Message::SetVolume(-3));
    assert_eq!(set, [Command::SetVolume(0)]);
    assert!(player.muted);
}

#[test]
fn unmuting_gives_the_volume_back() {
    let mut player = playing();
    player.update(Duration::zero(), Message::SetVolume(70));
    assert_eq!(typed(&mut player, "m"), [Command::SetVolume(0)]);
    assert!(player.muted);
    assert_eq!(typed(&mut player, "m"), [Command::SetVolume(70)]);
    assert!(!player.muted);
}

#[test]
fn speed_steps_and_stops_at_the_ends() {
    let mut player = playing();
    assert_eq!(typed(&mut player, "]"), [Command::SetRate(125)]);
    assert_eq!(typed(&mut player, "["), [Command::SetRate(100)]);
    let fast = player.update(Duration::zero(), Message::StepRate(i32::MAX));
    assert_eq!(fast, [Command::SetRate(200)]);
    assert_eq!(typed(&mut player, "]"), [Command::SetRate(200)]);
    let slow = player.update(Duration::zero(), Message::StepRate(i32::MIN));
    assert_eq!(slow, [Command::SetRate(25)]);
}

#[test]
fn a_step_from_any_other_speed_starts_at_the_nearest() {
    let mut player = playing();
    for (rate, slower, faster) in
        [(90, 75, 125), (33, 25, 50), (38, 25, 75), (0, 25, 50), (1_000, 175, 200)]
    {
        player.update(Duration::zero(), Message::SetRate(rate));
        assert_eq!(typed(&mut player, "["), [Command::SetRate(slower)]);
        player.update(Duration::zero(), Message::SetRate(rate));
        assert_eq!(typed(&mut player, "]"), [Command::SetRate(faster)]);
    }
}

#[test]
fn ctrl_chords_never_seek() {
    for key in [("l", true), ("\u{c}", false), ("L", true)] {
        let mut player = playing();
        let asked = press(&mut player, Key::Character(key.0.to_owned()), key.1);
        assert_eq!(asked, [Command::FocusUrlField]);
        assert_eq!(player.url_prompt.as_deref(), Some(""));
    }
    for key in [("o", true), ("\u{f}", false)] {
        let mut player = playing();
        let asked = press(&mut player, Key::Character(key.0.to_owned()), key.1);
        assert_eq!(asked, [Command::PickFile]);
        assert_eq!(player.clip_out, None);
    }
    let mut player = playing();
    assert_eq!(press(&mut player, Key::Character("j".to_owned()), true), []);
}

#[test]
fn typing_a_url_is_not_a_shortcut() {
    let mut player = playing();
    player.update(Duration::zero(), Message::ShowUrlPrompt);
    assert_eq!(typed(&mut player, "m"), []);
    assert!(!player.muted);
    player.update(Duration::zero(), Message::UrlInput("  ".to_owned()));
    assert_eq!(player.update(Duration::zero(), Message::SubmitUrl), []);
    assert_eq!(player.url_prompt, None);
    player.update(Duration::zero(), Message::UrlInput(" rtsp://cam ".to_owned()));
    assert_eq!(
        player.update(Duration::zero(), Message::SubmitUrl),
        [Command::Open("rtsp://cam".to_owned())]
    );
    player.update(Duration::zero(), Message::ShowUrlPrompt);
    assert_eq!(press(&mut player, Key::Named(Named::Escape), false), []);
    assert_eq!(player.url_prompt, None);
    assert_eq!(player.update(Duration::zero(), Message::SubmitUrl), []);
}

#[test]
fn escape_leaves_fullscreen_and_nothing_else() {
    let mut player = playing();
    assert_eq!(press(&mut player, Key::Named(Named::Escape), false), []);
    assert_eq!(typed(&mut player, "f"), [Command::SetFullscreen(true)]);
    assert_eq!(
        press(&mut player, Key::Named(Named::Escape), false),
        [Command::SetFullscreen(false)]
    );
    assert_eq!(
        player.update(Duration::zero(), Message::Key(KeyEvent::Other)),
        []
    );
}

#[test]
fn the_out_point_comes_after_the_in_point() {
    let mut player = playing();
    at(&mut player, 20);
    typed(&mut player, "i");
    typed(&mut player, "o");
    assert_eq!(player.error, Some(Problem::Backwards));
    assert_eq!(
        player.error.as_ref().unwrap().message(),
        "the out point must come after the in point"
    );
    assert_eq!(player.clip_out, None);
    at(&mut player, 30);
    typed(&mut player, "o");
    assert_eq!((player.clip_in, player.clip_out), (Some(secs(20)), Some(secs(30))));
    at(&mut player, 40);
    typed(&mut player, "i");
    assert_eq!((player.clip_in, player.clip_out), (Some(secs(40)), None));
    player.update(Duration::zero(), Message::ClearClip);
    assert_eq!((player.clip_in, player.clip_out), (None, None));
}

#[test]
fn a_marked_clip_is_exported_beside_the_source() {
    let mut player = playing();
    assert_eq!(typed(&mut player, "e"), []);
    assert_eq!(player.error, None);
    assert_eq!(player.update(Duration::zero(), Message::ExportClip), []);
    assert_eq!(player.error, Some(Problem::NoRange));
    at(&mut player, 5);
    typed(&mut player, "i");
    at(&mut player, 13);
    typed(&mut player, "o");
    player.update(Duration::zero(), Message::SetContainer(Container::Mp4));
    assert_eq!(
        typed(&mut player, "e"),
        [Command::ExportClip(ClipRequest {
            start: secs(5),
            end: secs(13),
            output: "/films/a-clip-0005-0013.mp4".to_owned(),
            container: Container::Mp4,
        })]
    );
    assert_eq!(player.export, Some(Export::Progress(0)));
    player.update(
        Duration::zero(),
        Message::Engine(Event::Export(Export::Failed("full".to_owned()))),
    );
    assert_eq!(
        player.error.as_ref().unwrap().message(),
        "clip export failed: full"
    );
    assert_eq!(
        Problem::NoRange.message(),
        "set an in and an out point first"
    );
}

#[test]
fn a_clip_of_a_stream_has_nowhere_to_land() {
    let mut player = playing();
    at(&mut player, 5);
    typed(&mut player, "i");
    at(&mut player, 13);
    typed(&mut player, "o");
    player.local = None;
    assert_eq!(typed(&mut player, "e"), []);
    assert_eq!(player.error, Some(Problem::NotLocal));
    assert_eq!(Problem::NotLocal.message(), "clip export needs a local file");
}

#[test]
fn the_chrome_hides_while_playing_and_untouched() {
    let mut player = playing();
    let tick = |player: &mut Myvid, millis: u64| {
        player.update(
            Duration::from_millis(millis),
            Message::Tick { position: None, duration: None },
        );
        player.chrome
    };
    player.update(Duration::from_millis(1_000), Message::Activity);
    assert!(tick(&mut player, 3_400));
    assert!(!tick(&mut player, 3_401));
    player.update(Duration::from_millis(3_500), Message::Activity);
    assert!(player.chrome);
    assert!(!tick(&mut player, 9_000));
    player.update(Duration::zero(), Message::Engine(Event::Buffering(40)));
    assert!(tick(&mut player, 9_000));
    player.update(Duration::zero(), Message::Engine(Event::State(State::Paused)));
    assert!(tick(&mut player, 9_000));
}

#[test]
fn the_chrome_comes_back() {
    let hidden = || {
        let mut player = playing();
        player.update(secs(60), Message::Tick { position: None, duration: None });
        assert!(!player.chrome);
        player
    };

    let mut player = hidden();
    typed(&mut player, "x");
    assert!(player.chrome);

    let mut player = hidden();
    player.update(secs(60), Message::Engine(Event::Eos));
    assert!(player.chrome);

    let mut player = hidden();
    player.update(secs(60), Message::Engine(Event::State(State::Playing)));
    assert!(!player.chrome);
    player.update(secs(60), Message::Engine(Event::State(State::Paused)));
    assert!(player.chrome);
}

#[test]
fn a_cue_is_shown_until_its_time_is_over() {
    let mut player = playing();
    player.update(
        Duration::zero(),
        Message::Engine(Event::Subtitle {
            text: Some("Hi".to_owned()),
            start: secs(10),
            end: secs(12),
        }),
    );
    assert_eq!(player.position, secs(10));
    at(&mut player, 12);
    assert_eq!(player.subtitle.as_deref(), Some("Hi"));
    at(&mut player, 13);
    assert_eq!((player.subtitle.clone(), player.subtitle_end), (None, None));
    player.update(
        Duration::zero(),
        Message::Engine(Event::Subtitle { text: None, start: secs(90), end: secs(91) }),
    );
    assert_eq!(player.position, secs(13));
}

#[test]
fn turning_subtitles_off_clears_the_screen() {
    let mut player = playing();
    player.update(
        Duration::zero(),
        Message::Engine(Event::Subtitle {
            text: Some("Hi".to_owned()),
            start: secs(0),
            end: secs(2),
        }),
    );
    let asked = player.update(Duration::zero(), Message::SelectTrack(TrackKind::Text, None));
    assert_eq!(asked, [Command::SelectTrack(TrackKind::Text, None)]);
    assert_eq!(player.subtitle, None);
}

#[test]
fn what_is_known_is_kept_where_a_report_says_nothing() {
    let mut player = playing();
    let mut load = |info: MediaInfo| {
        player.update(Duration::zero(), Message::Engine(Event::Loaded(info)));
    };
    load(MediaInfo {
        title: "A".to_owned(),
        audio_channels: 6,
        audio_rate: 48_000,
        audio_bitrate: 640_000,
        hardware: true,
        ..MediaInfo::default()
    });
    load(MediaInfo { video_codec: "H.264".to_owned(), ..MediaInfo::default() });
    player.update(Duration::zero(), Message::Engine(Event::Frame(1920, 1080)));
    assert_eq!(
        player.info,
        MediaInfo {
            title: "A".to_owned(),
            video_codec: "H.264".to_owned(),
            audio_channels: 6,
            audio_rate: 48_000,
            audio_bitrate: 640_000,
            width: 1920,
            height: 1080,
            ..MediaInfo::default()
        }
    );
}

#[test]
fn reports_change_what_they_are_about() {
    let mut player = playing();
    let mut report = |event: Event| player.update(Duration::zero(), Message::Engine(event));
    report(Event::Buffering(100));
    report(Event::Eos);
    assert_eq!((player.buffering, player.state), (None, State::Ended));
    let mut report = |event: Event| player.update(Duration::zero(), Message::Engine(event));
    report(Event::Buffering(99));
    report(Event::Error("bad".to_owned()));
    assert_eq!(player.buffering, Some(99));
    assert_eq!(player.error, Some(Problem::Playback("bad".to_owned())));
    let track = Track {
        id: "a".to_owned(),
        kind: TrackKind::Audio,
        label: String::new(),
        detail: String::new(),
        selected: true,
    };
    player.update(Duration::zero(), Message::Engine(Event::Tracks(vec![track.clone()])));
    assert_eq!(player.tracks, [track]);
    player.update(Duration::zero(), Message::Engine(Event::State(State::Playing)));
    assert_eq!(player.buffering, None);
}

#[test]
fn the_length_is_asked_for_until_it_is_known() {
    let mut player = boot();
    let tick = || Message::Tick { position: Some(secs(1)), duration: Some(secs(9)) };
    player.update(Duration::zero(), tick());
    assert_eq!((player.position, player.duration), (Duration::zero(), None));
    player.update(Duration::zero(), Message::Engine(Event::Ready));
    player.update(Duration::zero(), tick());
    assert_eq!((player.position, player.duration), (secs(1), Some(secs(9))));
    player.update(
        Duration::zero(),
        Message::Tick { position: None, duration: Some(secs(50)) },
    );
    assert_eq!((player.position, player.duration), (secs(1), Some(secs(9))));
}

#[test]
fn other_switches_switch() {
    let mut player = playing();
    typed(&mut player, "t");
    assert!(player.panel);
    let effects = AudioEffects { dialogue: true, night: true };
    let asked = player.update(Duration::zero(), Message::SetAudioEffects(effects));
    assert_eq!(asked, [Command::SetAudioEffects(effects)]);
    player.update(Duration::zero(), Message::DragOver(true));
    assert!(player.hovering);
    player.update(Duration::zero(), Message::DragOver(false));
    assert!(!player.hovering);
    assert_eq!(
        player.update(Duration::zero(), Message::OpenDialog),
        [Command::PickFile]
    );
    assert_eq!(player.update(Duration::zero(), Message::Picked(None)), []);
    player.update(Duration::zero(), Message::ShowUrlPrompt);
    player.update(Duration::zero(), Message::CloseUrlPrompt);
    assert_eq!(player.url_prompt, None);
}
