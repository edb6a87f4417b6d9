use myvid::engine::export::{
    begin_export, export_outcome, finish_export, last_complaint, parse_i64, progress_line,
    run_export, ExportRefusal, StartFailure,
};
use myvid::engine::{ClipRequest, Container, Duration, Event, Export, PARTS};

fn request(start: u64, end: u64, container: Container) -> ClipRequest {
    ClipRequest {
        start: Duration::from_millis(start),
        end: Duration::from_millis(end),
        output: "/out.mkv".to_owned(),
        container,
    }
}

fn parse(s: &str) -> Option<i64> {
    parse_i64(&s.chars().collect())
}

#[test]
fn a_matroska_clip_keeps_every_track() {
    let args = run_export(
        "file:///film.mkv",
        Some("/film.mkv".to_owned()),
        &request(5_000, 13_250, Container::Matroska),
    );
    assert_eq!(
        args.unwrap().join(" "),
        "-hide_banner -loglevel error -y -ss 5.000 -i /film.mkv -t 8.250 -c copy -map 0 \
         -avoid_negative_ts make_zero -progress pipe:1 -nostdin /out.mkv"
    );
}

#[test]
fn an_mp4_clip_takes_the_picture_and_the_sound() {
    let args = run_export(
        "file:///film.mkv",
        Some("/film.mkv".to_owned()),
        &request(0, 61_007, Container::Mp4),
    );
    assert_eq!(
        args.unwrap().join(" "),
        "-hide_banner -loglevel error -y -ss 0.000 -i /film.mkv -t 61.007 -c copy -map 0:v? \
         -map 0:a? -movflags +faststart -avoid_negative_ts make_zero -progress pipe:1 -nostdin \
         /out.mkv"
    );
}

#[test]
fn a_clip_of_a_stream_is_refused() {
    assert_eq!(
        run_export("http://a/b", None, &request(0, 1, Container::Mp4)),
        Err("clip export needs a local file, not http://a/b".to_owned())
    );
}

#[test]
fn a_clip_without_length_is_refused() {
    for (start, end) in [(5, 5), (6, 5)] {
        assert_eq!(
            run_export("file:///a", Some("/a".to_owned()), &request(start, end, Container::Mp4)),
            Err("the clip has no length".to_owned())
        );
    }
}

#[test]
fn only_one_export_runs_at_a_time() {
    let mut busy = false;
    let source = Some("file:///a".to_owned());
    assert_eq!(begin_export(&None, &mut busy), Err(ExportRefusal::NothingOpen));
    assert!(!busy);
    assert_eq!(begin_export(&source, &mut busy), Ok("file:///a".to_owned()));
    assert!(busy);
    assert_eq!(begin_export(&source, &mut busy), Err(ExportRefusal::AlreadyRunning));
    assert_eq!(
        finish_export(&mut busy, Ok("/out".to_owned())),
        Event::Export(Export::Done("/out".to_owned()))
    );
    assert!(!busy);
    assert_eq!(
        finish_export(&mut busy, Err("no".to_owned())),
        Event::Export(Export::Failed("no".to_owned()))
    );
    assert_eq!(ExportRefusal::NothingOpen.message(), "nothing is open");
    assert_eq!(
        ExportRefusal::AlreadyRunning.message(),
        "an export is already running"
    );
}

#[test]
fn ffmpeg_missing_is_said_plainly() {
    assert_eq!(
        StartFailure::NotFound.message(),
        "ffmpeg is not installed — run: sudo apt install ffmpeg"
    );
    assert_eq!(
        StartFailure::Other("denied".to_owned()).message(),
        "could not start ffmpeg: denied"
    );
}

#[test]
fn progress_is_read_from_its_line() {
    let span = Duration::from_secs(8);
    let parts = |line: &str| match progress_line(line, span) {
        Some(Export::Progress(parts)) => Some(parts),
        _ => None,
    };
    assert_eq!(parts("out_time_us=2000000"), Some(250_000_000));
    assert_eq!(parts("out_time_us= 4000000 "), Some(500_000_000));
    assert_eq!(parts("out_time_us=-5"), Some(0));
    assert_eq!(parts("out_time_us=9000000"), Some(PARTS));
    assert_eq!(parts("out_time_us=N/A"), None);
    assert_eq!(parts("out_time=1"), None);
    assert_eq!(parts("progress=continue"), None);
    assert_eq!(parts("out_time_us=1"), Some(125));
}

#[test]
fn progress_does_not_run_backwards() {
    let span = Duration::from_millis(7_777);
    let mut last: u32 = 0;
    for micros in (0..9_000_000u64).step_by(100_000) {
        match progress_line(&format!("out_time_us={micros}"), span) {
            Some(Export::Progress(parts)) => {
                assert!(last <= parts && parts <= PARTS);
                assert_eq!(parts == PARTS, micros * 1_000 >= 7_777_000_000);
                last = parts;
            }
            other => panic!("{other:?}"),
        }
    }
}

#[test]
fn numbers_are_read_as_the_standard_library_reads_them() {
    for s in [
        "0", "7", "-7", "+7", "", "-", "+", "--1", "+-1", "1a", "a", " 1", "007",
        "9223372036854775807", "9223372036854775808", "-9223372036854775808",
        "-9223372036854775809", "99999999999999999999999999", "１",
    ] {
        assert_eq!(parse(s), s.parse::<i64>().ok(), "{s:?}");
    }
}

#[test]
fn a_failure_is_told_by_its_last_line() {
    assert_eq!(last_complaint("first\n second \r\n"), "second");
    assert_eq!(last_complaint("only"), "only");
    assert_eq!(last_complaint(""), "ffmpeg failed");
    assert_eq!(last_complaint("a\n\n"), "");
    assert_eq!(last_complaint("\n"), "");
}

#[test]
fn an_export_ends_with_everything_or_with_a_complaint() {
    assert_eq!(export_outcome(true, b"noise"), Ok(Export::Progress(PARTS)));
    assert_eq!(export_outcome(false, b"a\nno space left\n"), Err("no space left".to_owned()));
    assert_eq!(export_outcome(false, &[b'x', 0xc0, b'\n']), Err("x\u{fffd}".to_owned()));
}
