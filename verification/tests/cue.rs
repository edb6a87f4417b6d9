use myvid::engine::cue::{clean_cue, cue_event};
use myvid::engine::{Duration, Event};

#[test]
fn strips_html_style_tags() {
    assert_eq!(clean_cue("<i>Hello</i> there"), "Hello there");
}

#[test]
fn strips_ass_override_blocks() {
    assert_eq!(clean_cue("{\\an8}{\\b1}Top line"), "Top line");
}

#[test]
fn keeps_plain_text_untouched() {
    assert_eq!(clean_cue("  Just a line.  "), "Just a line.");
}

#[test]
fn turns_ass_breaks_into_newlines() {
    assert_eq!(clean_cue("first\\Nsecond"), "first\nsecond");
}

#[test]
fn drops_the_nine_ass_event_fields() {
    let line = "Dialogue: 0,0:00:01.00,0:00:03.00,Default,,0,0,0,,Actual text";
    assert_eq!(clean_cue(line), "Actual text");
}

#[test]
fn keeps_commas_of_the_text_itself() {
    assert_eq!(
        clean_cue("0,1,2,3,4,5,6,7,8,Yes, and no, maybe"),
        "Yes, and no, maybe"
    );
    assert_eq!(clean_cue("one, two, three"), "one, two, three");
}

#[test]
fn a_dialogue_line_with_too_few_fields_is_text() {
    assert_eq!(clean_cue("Dialogue: hello, you"), "Dialogue: hello, you");
}

#[test]
fn unbalanced_marks_do_not_swallow_what_follows_them() {
    assert_eq!(clean_cue("a } b > c"), "a  b  c");
    assert_eq!(clean_cue("a { b"), "a");
    assert_eq!(clean_cue("<i <b>x>y"), "y");
}

#[test]
fn a_backslash_is_a_break_only_before_an_n() {
    assert_eq!(clean_cue("a\\nb\\tc\\"), "a\nb\\tc\\");
}

#[test]
fn a_cleaned_cue_stays_as_it_is() {
    let once = clean_cue(" {\\i1}<b>Some</b> words ");
    assert_eq!(once, "Some words");
    assert_eq!(clean_cue(&once), once);
}

#[test]
fn a_cue_runs_for_as_long_as_it_says() {
    let cue = cue_event(Some("text/x-raw"), b"<i>Hi</i>", Some(1_000), Some(500));
    assert_eq!(
        cue,
        Some(Event::Subtitle {
            text: Some("Hi".to_owned()),
            start: Duration { nanos: 1_000 },
            end: Duration { nanos: 1_500 },
        })
    );
}

#[test]
fn a_cue_without_a_length_lasts_five_seconds() {
    let cue = cue_event(Some("text/x-raw"), b"Hi", None, None);
    assert_eq!(
        cue,
        Some(Event::Subtitle {
            text: Some("Hi".to_owned()),
            start: Duration { nanos: 0 },
            end: Duration { nanos: 5_000_000_000 },
        })
    );
}

#[test]
fn a_backslash_in_a_tag_goes_with_the_tag() {
    assert_eq!(clean_cue("a<b\\c>d"), "ad");
    assert_eq!(clean_cue("a<b\\Nc>d"), "ad");
    assert_eq!(clean_cue("a{b\\Nc}d"), "ad");
    assert_eq!(clean_cue("a\\c"), "a\\c");
}

#[test]
fn an_empty_cue_clears_the_last_one() {
    let cue = cue_event(Some("text/x-raw"), b"{\\an8}", Some(0), Some(1));
    assert_eq!(
        cue,
        Some(Event::Subtitle {
            text: None,
            start: Duration { nanos: 0 },
            end: Duration { nanos: 1 },
        })
    );
}

#[test]
fn bitmap_subtitles_are_skipped() {
    assert_eq!(cue_event(Some("subpicture/x-pgs"), b"x", None, None), None);
    assert_eq!(cue_event(None, b"x", None, None), None);
}

#[test]
fn bytes_that_are_not_text_are_replaced() {
    let cue = cue_event(Some("text/x-raw"), &[b'a', 0xff, b'b'], None, Some(0));
    match cue {
        Some(Event::Subtitle { text, .. }) => assert_eq!(text.as_deref(), Some("a\u{fffd}b")),
        other => panic!("{other:?}"),
    }
}
