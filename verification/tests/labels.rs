use myvid::engine::labels::{
    channel_layout, codec_label, codec_name, describe, language_in_lowercase, language_name,
    StreamFacts,
};

fn stream() -> StreamFacts {
    StreamFacts {
        id: Some("a".to_owned()),
        video: false,
        audio: true,
        text: false,
        language_name: None,
        language_code: None,
        title: None,
        media: None,
        channels: None,
        rate: None,
        bitrate: None,
        nominal_bitrate: None,
    }
}

#[test]
fn maps_two_and_three_letter_codes() {
    assert_eq!(language_name("te"), "Telugu");
    assert_eq!(language_name("tel"), "Telugu");
    assert_eq!(language_name("ENG"), "English");
}

#[test]
fn passes_through_what_it_does_not_know() {
    assert_eq!(language_name("zzz"), "zzz");
}

#[test]
fn leaves_names_alone() {
    assert_eq!(language_name("Brazilian Portuguese"), "Brazilian Portuguese");
}

#[test]
fn a_code_is_looked_up_in_lowercase() {
    assert_eq!(language_in_lowercase("DEU", "deu"), "German");
    assert_eq!(language_in_lowercase("DEU", "zzz"), "DEU");
    assert_eq!(language_name("und"), "Undetermined");
    assert_eq!(language_name("ZZZ"), "ZZZ");
}

#[test]
fn codecs_go_by_the_names_people_use() {
    assert_eq!(codec_name("audio/x-eac3"), "E-AC-3");
    assert_eq!(codec_name("audio/mpeg"), "AAC");
    assert_eq!(codec_name("audio/x-raw"), "PCM");
    assert_eq!(codec_name("text/x-raw"), "Text");
    assert_eq!(codec_name("subtitle/x-x-ass"), "ASS");
    assert_eq!(codec_name("opus"), "Opus");
    assert_eq!(codec_label("nonesuch"), "nonesuch");
}

#[test]
fn channels_read_as_a_layout() {
    assert_eq!(channel_layout(1), "mono");
    assert_eq!(channel_layout(2), "stereo");
    assert_eq!(channel_layout(6), "5.1");
    assert_eq!(channel_layout(8), "7.1");
    assert_eq!(channel_layout(4), "4ch");
    assert_eq!(channel_layout(-3), "-3ch");
}

#[test]
fn a_stream_without_tags_is_numbered() {
    assert_eq!(describe(&stream(), 2), ("Track 2".to_owned(), String::new()));
}

#[test]
fn a_stream_says_what_it_is_made_of() {
    let facts = StreamFacts {
        language_code: Some("te".to_owned()),
        title: Some("Commentary".to_owned()),
        media: Some("audio/x-eac3".to_owned()),
        channels: Some(6),
        rate: Some(48_000),
        nominal_bitrate: Some(640_000),
        ..stream()
    };
    assert_eq!(
        describe(&facts, 1),
        (
            "Telugu".to_owned(),
            "E-AC-3 5.1 · 48 kHz · 640 kb/s".to_owned()
        )
    );
}

#[test]
fn a_bitrate_under_a_thousand_is_not_worth_saying() {
    let facts = StreamFacts {
        media: Some("audio/x-flac".to_owned()),
        bitrate: Some(999),
        ..stream()
    };
    assert_eq!(describe(&facts, 1).1, "FLAC");
}
