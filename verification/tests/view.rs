use myvid::engine::export::progress_line;
use myvid::engine::{
    AudioEffects, Container, Duration, Event, Export, MediaInfo, State, Track, TrackKind,
};
use myvid::ui::clip::{clip_path, name_clip, saved_name};
use myvid::ui::feed::collapse;
use myvid::ui::icons::{draw, Glyph, Step, GRID};
use myvid::ui::view::{percent_label, rate_label, short_name, ControlBar, Layer, Status};
use myvid::ui::{Message, Myvid};

fn secs(n: u64) -> Duration {
    Duration::from_secs(n)
}

fn player() -> Myvid {
    Myvid::boot(Duration::zero(), None)
}

fn track(id: &str, kind: TrackKind, selected: bool) -> Track {
    Track {
        id: id.to_owned(),
        kind,
        label: format!("label {id}"),
        detail: format!("detail {id}"),
        selected,
    }
}

#[test]
fn a_name_is_the_last_segment_made_readable() {
    assert_eq!(short_name("file:///films/My%20Film%2.mkv"), "My Film%2.mkv");
    assert_eq!(short_name("%20%20"), "  ");
    assert_eq!(short_name("plain"), "plain");
    assert_eq!(short_name("http://a/"), "");
}

#[test]
fn the_title_says_what_plays() {
    let mut player = player();
    assert_eq!(player.title(), "myvid");
    assert_eq!(player.source_name(), "—");
    player.source = Some("file:///a%20b.mkv".to_owned());
    assert_eq!(player.title(), "a b.mkv — myvid");
    assert_eq!(player.source_name(), "a b.mkv");
    player.info.title = "Film".to_owned();
    assert_eq!(player.title(), "Film — myvid");
}

#[test]
fn the_summary_joins_what_is_known() {
    let mut player = player();
    assert_eq!(player.format_summary(), "");
    player.info = MediaInfo {
        width: 1920,
        height: 1080,
        video_codec: "H.264".to_owned(),
        audio_codec: "E-AC-3".to_owned(),
        audio_channels: 6,
        audio_rate: 48_000,
        audio_bitrate: 640_000,
        ..MediaInfo::default()
    };
    assert_eq!(
        player.format_summary(),
        "1920×1080 · H.264 · E-AC-3 5.1 640 kb/s 48 kHz"
    );
    player.info.width = 0;
    player.info.audio_codec = String::new();
    player.info.audio_bitrate = 0;
    assert_eq!(player.format_summary(), "H.264 · 5.1 48 kHz");
}

#[test]
fn the_control_bar_shows_the_player() {
    let mut player = player();
    player.state = State::Playing;
    player.position = secs(25);
    player.duration = Some(secs(100));
    player.volume = 130;
    player.rate = 125;
    player.info.hardware = true;
    player.fullscreen = true;
    let bar = player.control_bar();
    assert_eq!(bar.fraction, 250_000_000);
    assert_eq!((bar.play.glyph, bar.speaker.glyph), (Glyph::Pause, Glyph::Volume));
    assert_eq!((bar.volume, bar.volume_label.as_str()), (130, "130%"));
    assert_eq!(bar.clock, "00:25 / 01:40");
    assert_eq!(bar.rate_label, "1.25x");
    assert_eq!(bar.accelerator, "GPU decode");
    assert_eq!(bar.screen.glyph, Glyph::ExitFullscreen);
}

#[test]
fn the_controls_say_what_they_do() {
    let bar = player().control_bar();
    let controls = [
        (bar.back, Glyph::Back10, Message::Skip(-10)),
        (bar.play, Glyph::Play, Message::TogglePlay),
        (bar.forward, Glyph::Forward10, Message::Skip(10)),
        (bar.speaker, Glyph::Volume, Message::ToggleMute),
        (bar.clip, Glyph::Scissors, Message::MarkIn),
        (bar.tracks, Glyph::Sliders, Message::TogglePanel),
        (bar.screen, Glyph::Fullscreen, Message::ToggleFullscreen),
    ];
    for (control, glyph, message) in controls {
        assert_eq!((control.glyph, control.message), (glyph, message));
    }
    assert_eq!(ControlBar::scrubbed(250_000_000), Message::SeekFraction(250_000_000));
    assert_eq!(ControlBar::turned(130), Message::SetVolume(130));
}

#[test]
fn a_quiet_control_bar_says_little() {
    let mut player = player();
    player.muted = true;
    player.volume = 150;
    let bar = player.control_bar();
    assert_eq!((bar.fraction, bar.volume), (0, 0));
    assert_eq!((bar.play.glyph, bar.speaker.glyph), (Glyph::Play, Glyph::Mute));
    assert_eq!((bar.volume_label.as_str(), bar.rate_label.as_str()), ("", ""));
    assert_eq!(bar.clock, "00:00 / 00:00");
    assert_eq!((bar.accelerator, bar.screen.glyph), ("CPU decode", Glyph::Fullscreen));
}

#[test]
fn how_far_along_is_counted_in_parts() {
    let mut player = player();
    for (position, total, parts) in [
        (0u128, 7u128, 0),
        (1, 3, 333_333_333),
        (2, 3, 666_666_666),
        (6, 7, 857_142_857),
        (7, 7, 1_000_000_000),
        (9, 7, 1_000_000_000),
        (u128::MAX - 1, u128::MAX, 999_999_999),
        (u128::MAX / 2, u128::MAX, 499_999_999),
    ] {
        player.position = Duration { nanos: position };
        player.duration = Some(Duration { nanos: total });
        assert_eq!(player.control_bar().fraction, parts);
    }
}

#[test]
fn speeds_read_without_spare_zeros() {
    for (rate, label) in [
        (25, "0.25x"),
        (50, "0.5x"),
        (75, "0.75x"),
        (100, "1x"),
        (125, "1.25x"),
        (200, "2x"),
        (105, "1.05x"),
    ] {
        assert_eq!(rate_label(rate), label);
    }
    assert_eq!(percent_label(42), "42%");
}

#[test]
fn the_panel_lists_tracks_by_kind() {
    let mut player = player();
    player.tracks = vec![
        track("a", TrackKind::Audio, true),
        track("t", TrackKind::Text, false),
        track("b", TrackKind::Audio, false),
    ];
    player.effects = AudioEffects { dialogue: true, night: false };
    player.info.width = 1920;
    player.info.height = 1080;
    let panel = player.panel_layer();
    let labels: Vec<&str> = panel.audio.iter().map(|r| r.label.as_str()).collect();
    assert_eq!(labels, ["label a", "label b"]);
    assert_eq!(panel.audio[0].detail, "detail a");
    assert!(panel.audio[0].selected && !panel.audio[1].selected);
    assert_eq!(
        panel.audio[1].message,
        Message::SelectTrack(TrackKind::Audio, Some("b".to_owned()))
    );
    assert_eq!(panel.subtitles.len(), 2);
    assert_eq!(panel.subtitles[0].label, "Off");
    assert!(panel.subtitles[0].selected);
    assert_eq!(
        panel.subtitles[0].message,
        Message::SelectTrack(TrackKind::Text, None)
    );
    assert_eq!(panel.resolution, "1920x1080");
    assert_eq!(panel.decoder, "software");
    assert_eq!(
        panel.sound[0].message,
        Message::SetAudioEffects(AudioEffects { dialogue: false, night: false })
    );
    assert_eq!(
        panel.sound[1].message,
        Message::SetAudioEffects(AudioEffects { dialogue: true, night: true })
    );
    assert!(panel.sound[0].selected && !panel.sound[1].selected);
    let chosen: Vec<u32> =
        panel.speeds.iter().filter(|c| c.selected).map(|c| c.rate).collect();
    assert_eq!(chosen, [100]);
    let speeds: Vec<&str> = panel.speeds.iter().map(|c| c.label.as_str()).collect();
    assert_eq!(speeds, ["0.25x", "0.5x", "0.75x", "1x", "1.25x", "1.5x", "1.75x", "2x"]);
}

#[test]
fn a_live_subtitle_track_means_that_they_are_not_off() {
    let mut player = player();
    assert!(player.panel_layer().subtitles.is_empty());
    player.tracks = vec![track("t", TrackKind::Text, true)];
    let panel = player.panel_layer();
    assert!(!panel.subtitles[0].selected && panel.subtitles[1].selected);
    assert!(panel.audio.is_empty());
}

#[test]
fn the_clip_strip_appears_with_an_in_or_out_point() {
    let mut player = player();
    assert!(player.clip_bar().is_none());
    player.clip_out = Some(secs(80));
    let bar = player.clip_bar().unwrap();
    assert_eq!((bar.start.as_str(), bar.end.as_str(), bar.length.as_str()), ("—", "01:20", "—"));
    assert!(!bar.can_export);
    player.clip_out = None;
    player.clip_in = Some(secs(65));
    let bar = player.clip_bar().unwrap();
    assert_eq!((bar.start.as_str(), bar.end.as_str(), bar.length.as_str()), ("01:05", "—", "—"));
    assert!(!bar.can_export);
    player.clip_out = Some(secs(80));
    let bar = player.clip_bar().unwrap();
    assert_eq!((bar.end.as_str(), bar.length.as_str()), ("01:20", "00:15"));
    assert!(bar.can_export);
    let formats: Vec<(&str, bool)> =
        bar.formats.iter().map(|f| (f.label.as_str(), f.selected)).collect();
    assert_eq!(formats, [("MKV copy", true), ("MP4 copy", false)]);
    assert_eq!(bar.status, Status::Quiet);
}

#[test]
fn an_export_says_how_it_stands() {
    let mut player = player();
    player.clip_in = Some(secs(0));
    player.clip_out = Some(secs(1));
    player.container = Container::Mp4;
    let mut status = |export: Export| {
        player.export = Some(export);
        let bar = player.clip_bar().unwrap();
        (bar.status, bar.can_export)
    };
    for (parts, words) in [
        (0, "Exporting 0%"),
        (5_000_000, "Exporting 0%"),
        (5_010_000, "Exporting 1%"),
        (424_999_999, "Exporting 42%"),
        (425_000_000, "Exporting 42%"),
        (425_000_001, "Exporting 43%"),
        (435_000_000, "Exporting 44%"),
        (1_000_000_000, "Exporting 100%"),
    ] {
        assert_eq!(
            status(Export::Progress(parts)),
            (Status::Exporting(words.to_owned()), false)
        );
    }
    assert_eq!(
        status(Export::Done("/films/a-clip.mkv".to_owned())),
        (Status::Saved("Saved a-clip.mkv".to_owned()), true)
    );
    assert_eq!(status(Export::Failed("x".to_owned())), (Status::Failed, true));
}

#[test]
fn half_a_percent_and_a_little_more_reads_as_one() {
    let mut player = player();
    player.clip_in = Some(secs(0));
    player.export = progress_line("out_time_us=501", Duration::from_millis(100));
    assert_eq!(
        player.clip_bar().unwrap().status,
        Status::Exporting("Exporting 1%".to_owned())
    );
}

#[test]
fn layers_stack_from_the_picture_up() {
    let mut player = player();
    player.panel = true;
    assert_eq!(player.view(), [Layer::Stage, Layer::Empty]);
    player.source = Some("a".to_owned());
    assert_eq!(player.view(), [Layer::Stage, Layer::Chrome, Layer::Panel]);
    player.hovering = true;
    assert_eq!(player.view(), [Layer::Stage, Layer::Drop, Layer::Panel]);
    player.hovering = false;
    player.chrome = false;
    player.panel = false;
    player.subtitle = Some("Hi".to_owned());
    player.buffering = Some(3);
    player.error = Some(myvid::ui::Problem::NoRange);
    player.url_prompt = Some(String::new());
    assert_eq!(
        player.view(),
        [
            Layer::Stage,
            Layer::Subtitle,
            Layer::Buffering,
            Layer::Error,
            Layer::UrlPrompt
        ]
    );
}

#[test]
fn cues_make_room_for_the_chrome() {
    let mut player = player();
    assert_eq!(player.cue_bottom(), 190);
    player.chrome = false;
    assert_eq!(player.cue_bottom(), 64);
    assert_eq!(player.drop_prompt(), "Drop a video here");
    player.hovering = true;
    assert_eq!(player.drop_prompt(), "Drop to play");
}

#[test]
fn a_clip_lands_beside_its_source() {
    assert_eq!(
        clip_path("/films/a.b.mkv", secs(5), secs(3_725), Container::Matroska).as_deref(),
        Some("/films/a.b-clip-0005-010205.mkv")
    );
    assert_eq!(
        clip_path("/film", secs(0), secs(1), Container::Mp4).as_deref(),
        Some("/film-clip-0000-0001.mp4")
    );
    assert_eq!(
        clip_path("/x/.hidden", secs(0), secs(1), Container::Mp4).as_deref(),
        Some("/x/.hidden-clip-0000-0001.mp4")
    );
    assert_eq!(clip_path("/", secs(0), secs(1), Container::Mp4), None);
    assert_eq!(
        name_clip("film", secs(59), secs(60), Container::Mp4),
        "film-clip-0059-0100.mp4"
    );
}

#[test]
fn a_saved_clip_goes_by_its_file_name() {
    assert_eq!(saved_name("/films/a.mkv"), "a.mkv");
    assert_eq!(saved_name("/films/.."), "");
}

#[test]
fn only_the_newest_frame_of_a_batch_is_left() {
    let batch = vec![
        Event::Frame(1, 1),
        Event::Buffering(1),
        Event::Frame(2, 2),
        Event::Eos,
        Event::Frame(3, 3),
        Event::Buffering(2),
    ];
    assert_eq!(
        collapse(batch),
        [Event::Buffering(1), Event::Eos, Event::Frame(3, 3), Event::Buffering(2)]
    );
    assert_eq!(collapse(vec![]), []);
    assert_eq!(collapse(vec![Event::Eos]), [Event::Eos]);
}

const GLYPHS: [Glyph; 11] = [
    Glyph::Play,
    Glyph::Pause,
    Glyph::Back10,
    Glyph::Forward10,
    Glyph::Volume,
    Glyph::Mute,
    Glyph::Fullscreen,
    Glyph::ExitFullscreen,
    Glyph::Folder,
    Glyph::Sliders,
    Glyph::Scissors,
];

#[test]
fn every_icon_is_finished_and_stays_on_its_grid() {
    for glyph in GLYPHS {
        let steps = draw(glyph);
        assert!(matches!(steps.last(), Some(Step::Fill | Step::Stroke)));
        for step in steps {
            if let Step::Move(x, y) | Step::Line(x, y) = step {
                assert!(x <= GRID && y <= GRID, "{glyph:?} {step:?}");
            }
        }
    }
}

#[test]
fn skipping_ahead_points_right_and_back_points_left() {
    assert_eq!(
        draw(Glyph::Back10),
        [
            Step::Move(130, 60),
            Step::Line(84, 120),
            Step::Line(130, 180),
            Step::Move(194, 60),
            Step::Line(148, 120),
            Step::Line(194, 180),
            Step::Stroke,
        ]
    );
    assert_eq!(
        draw(Glyph::Forward10)[..3],
        [Step::Move(110, 60), Step::Line(156, 120), Step::Line(110, 180)]
    );
}

#[test]
fn brackets_point_out_to_enter_and_in_to_leave() {
    assert_eq!(
        draw(Glyph::Fullscreen)[..3],
        [Step::Move(36, 90), Step::Line(36, 36), Step::Line(90, 36)]
    );
    assert_eq!(
        draw(Glyph::ExitFullscreen)[6..9],
        [Step::Move(150, 204), Step::Line(150, 150), Step::Line(204, 150)]
    );
}
