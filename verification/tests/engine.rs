use myvid::engine::{
    file_uri, format_time, to_uri, AudioEffects, Container, Duration, Location, LocationError,
    MediaInfo, State,
};

#[test]
fn only_playing_is_playing() {
    assert!(State::Playing.is_playing());
    for state in [State::Idle, State::Paused, State::Ended] {
        assert!(!state.is_playing());
    }
}

#[test]
fn containers_have_an_extension_and_a_label() {
    assert_eq!(Container::Matroska.extension(), "mkv");
    assert_eq!(Container::Mp4.extension(), "mp4");
    assert_eq!(Container::Matroska.label(), "MKV");
    assert_eq!(Container::Mp4.label(), "MP4");
}

#[test]
fn hours_are_shown_only_where_there_are_any() {
    assert_eq!(format_time(Duration::from_secs(4364)), "01:12:44");
    assert_eq!(format_time(Duration::from_secs(764)), "12:44");
    assert_eq!(format_time(Duration::zero()), "00:00");
    assert_eq!(format_time(Duration::from_millis(59_999)), "00:59");
    assert_eq!(format_time(Duration::from_secs(360_000)), "100:00:00");
}

#[test]
fn nothing_is_known_and_nothing_is_on_by_default() {
    let info = MediaInfo::default();
    assert_eq!(info.title, "");
    assert_eq!((info.width, info.height), (0, 0));
    assert!(!info.hardware);
    let effects = AudioEffects::default();
    assert!(!effects.dialogue && !effects.night);
}

#[test]
fn a_known_scheme_passes_through_untouched() {
    for uri in [
        "http://a/b",
        "https://example.com/stream.m3u8",
        "file:///film.mkv",
        "rtsp://a",
        "rtmp://a",
        "udp://a",
        "srt://a",
        "hls://a",
    ] {
        assert_eq!(to_uri(&format!("  {uri}\n")), Ok(Location::Uri(uri.to_owned())));
    }
}

#[test]
fn anything_else_is_a_file() {
    assert_eq!(
        to_uri(" /films/a.mkv "),
        Ok(Location::File { path: "/films/a.mkv".to_owned(), absolute: true })
    );
    assert_eq!(
        to_uri("ftp://a"),
        Ok(Location::File { path: "ftp://a".to_owned(), absolute: false })
    );
    assert_eq!(
        to_uri("x http://a"),
        Ok(Location::File { path: "x http://a".to_owned(), absolute: false })
    );
}

#[test]
fn an_empty_location_is_refused() {
    assert_eq!(to_uri(" \t\n"), Err(LocationError::Empty));
    assert_eq!(LocationError::Empty.message(), "empty location");
}

#[test]
fn a_file_that_is_not_there_is_refused() {
    let missing = file_uri("/nowhere".to_owned(), false, Ok("file:///nowhere".to_owned()));
    assert_eq!(missing, Err(LocationError::NoSuchFile("/nowhere".to_owned())));
    assert_eq!(missing.unwrap_err().message(), "no such file: /nowhere");
}

#[test]
fn a_file_that_is_there_has_its_uri() {
    assert_eq!(
        file_uri("/a b".to_owned(), true, Ok("file:///a%20b".to_owned())),
        Ok("file:///a%20b".to_owned())
    );
    let none = file_uri("/a".to_owned(), true, Err("no uri".to_owned()));
    assert_eq!(none, Err(LocationError::NoUri("no uri".to_owned())));
    assert_eq!(none.unwrap_err().message(), "no uri");
}

#[test]
fn spans_of_time_add_up() {
    let second = Duration::from_secs(1);
    assert_eq!(second, Duration::from_millis(1_000));
    assert_eq!(second, Duration::from_nanos(1_000_000_000));
    assert!(Duration::zero().is_zero() && !second.is_zero());
    assert_eq!(second.saturating_sub(Duration::from_millis(400)).nanos, 600_000_000);
    assert_eq!(Duration::zero().saturating_sub(second), Duration::zero());
    assert_eq!(second.min(Duration::zero()), Duration::zero());
    assert_eq!(second.max(Duration::zero()), second);
    assert_eq!(Duration { nanos: (1 << 64) + 7 }.wire_nanos(), 7);
}
