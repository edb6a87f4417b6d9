//! What a stream is called: language, codec, channels, rate and bitrate in words.

use vstd::prelude::*;

use crate::text;
use crate::text::{
    chars, last_part, lowercase, push_decimal, push_signed, same, span, starts_with, trim,
};

verus! {

/// What the container says of one stream, read from its caps and its tags.
#[derive(Debug, Clone, PartialEq, Eq)]
pub struct StreamFacts {
    pub id: Option<String>,
    pub video: bool,
    pub audio: bool,
    pub text: bool,
    pub language_name: Option<String>,
    pub language_code: Option<String>,
    pub title: Option<String>,
    /// The media type its caps name, such as `audio/x-eac3`.
    pub media: Option<String>,
    pub channels: Option<i32>,
    pub rate: Option<i32>,
    pub bitrate: Option<u32>,
    pub nominal_bitrate: Option<u32>,
}

impl StreamFacts {
    /// The bitrate, or the nominal one where no other is known.
    pub open spec fn best_bitrate(self) -> Option<u32> {
        if self.bitrate is Some {
            self.bitrate
        } else {
            self.nominal_bitrate
        }
    }

    /// The language tag, or failing that the title.
    pub open spec fn tag(self) -> Option<Seq<char>> {
        if self.language_name is Some {
            Some(self.language_name->0@)
        } else if self.language_code is Some {
            Some(self.language_code->0@)
        } else if self.title is Some {
            Some(self.title->0@)
        } else {
            None
        }
    }
}

/// The language that a lowercase ISO 639 code stands for.
pub open spec fn known_language(code: Seq<char>) -> Option<Seq<char>> {
    if code == "en"@ || code == "eng"@ {
        Some("English"@)
    } else if code == "hi"@ || code == "hin"@ {
        Some("Hindi"@)
    } else if code == "te"@ || code == "tel"@ {
        Some("Telugu"@)
    } else if code == "ta"@ || code == "tam"@ {
        Some("Tamil"@)
    } else if code == "kn"@ || code == "kan"@ {
        Some("Kannada"@)
    } else if code == "ml"@ || code == "mal"@ {
        Some("Malayalam"@)
    } else if code == "mr"@ || code == "mar"@ {
        Some("Marathi"@)
    } else if code == "bn"@ || code == "ben"@ {
        Some("Bengali"@)
    } else if code == "gu"@ || code == "guj"@ {
        Some("Gujarati"@)
    } else if code == "pa"@ || code == "pan"@ {
        Some("Punjabi"@)
    } else if code == "ur"@ || code == "urd"@ {
        Some("Urdu"@)
    } else if code == "es"@ || code == "spa"@ {
        Some("Spanish"@)
    } else if code == "fr"@ || code == "fra"@ || code == "fre"@ {
        Some("French"@)
    } else if code == "de"@ || code == "deu"@ || code == "ger"@ {
        Some("German"@)
    } else if code == "it"@ || code == "ita"@ {
        Some("Italian"@)
    } else if code == "pt"@ || code == "por"@ {
        Some("Portuguese"@)
    } else if code == "ru"@ || code == "rus"@ {
        Some("Russian"@)
    } else if code == "ja"@ || code == "jpn"@ {
        Some("Japanese"@)
    } else if code == "ko"@ || code == "kor"@ {
        Some("Korean"@)
    } else if code == "zh"@ || code == "zho"@ || code == "chi"@ {
        Some("Chinese"@)
    } else if code == "ar"@ || code == "ara"@ {
        Some("Arabic"@)
    } else if code == "nl"@ || code == "nld"@ || code == "dut"@ {
        Some("Dutch"@)
    } else if code == "sv"@ || code == "swe"@ {
        Some("Swedish"@)
    } else if code == "no"@ || code == "nor"@ {
        Some("Norwegian"@)
    } else if code == "da"@ || code == "dan"@ {
        Some("Danish"@)
    } else if code == "fi"@ || code == "fin"@ {
        Some("Finnish"@)
    } else if code == "pl"@ || code == "pol"@ {
        Some("Polish"@)
    } else if code == "tr"@ || code == "tur"@ {
        Some("Turkish"@)
    } else if code == "th"@ || code == "tha"@ {
        Some("Thai"@)
    } else if code == "vi"@ || code == "vie"@ {
        Some("Vietnamese"@)
    } else if code == "id"@ || code == "ind"@ {
        Some("Indonesian"@)
    } else if code == "he"@ || code == "heb"@ {
        Some("Hebrew"@)
    } else if code == "el"@ || code == "ell"@ || code == "gre"@ {
        Some("Greek"@)
    } else if code == "cs"@ || code == "ces"@ || code == "cze"@ {
        Some("Czech"@)
    } else if code == "hu"@ || code == "hun"@ {
        Some("Hungarian"@)
    } else if code == "ro"@ || code == "ron"@ || code == "rum"@ {
        Some("Romanian"@)
    } else if code == "uk"@ || code == "ukr"@ {
        Some("Ukrainian"@)
    } else if code == "fa"@ || code == "fas"@ || code == "per"@ {
        Some("Persian"@)
    } else if code == "und"@ {
        Some("Undetermined"@)
    } else {
        None
    }
}

/// The language that a lowercase ISO 639 code stands for.
pub fn find_language(code: &str) -> (r: Option<&'static str>)
    ensures
        r is Some <==> known_language(code@) is Some,
        r is Some ==> r->0@ == known_language(code@)->0,
{
    if same(code, "en") || same(code, "eng") {
        Some("English")
    } else if same(code, "hi") || same(code, "hin") {
        Some("Hindi")
    } else if same(code, "te") || same(code, "tel") {
        Some("Telugu")
    } else if same(code, "ta") || same(code, "tam") {
        Some("Tamil")
    } else if same(code, "kn") || same(code, "kan") {
        Some("Kannada")
    } else if same(code, "ml") || same(code, "mal") {
        Some("Malayalam")
    } else if same(code, "mr") || same(code, "mar") {
        Some("Marathi")
    } else if same(code, "bn") || same(code, "ben") {
        Some("Bengali")
    } else if same(code, "gu") || same(code, "guj") {
        Some("Gujarati")
    } else if same(code, "pa") || same(code, "pan") {
        Some("Punjabi")
    } else if same(code, "ur") || same(code, "urd") {
        Some("Urdu")
    } else if same(code, "es") || same(code, "spa") {
        Some("Spanish")
    } else if same(code, "fr") || same(code, "fra") || same(code, "fre") {
        Some("French")
    } else if same(code, "de") || same(code, "deu") || same(code, "ger") {
        Some("German")
    } else if same(code, "it") || same(code, "ita") {
        Some("Italian")
    } else if same(code, "pt") || same(code, "por") {
        Some("Portuguese")
    } else if same(code, "ru") || same(code, "rus") {
        Some("Russian")
    } else if same(code, "ja") || same(code, "jpn") {
        Some("Japanese")
    } else if same(code, "ko") || same(code, "kor") {
        Some("Korean")
    } else if same(code, "zh") || same(code, "zho") || same(code, "chi") {
        Some("Chinese")
    } else if same(code, "ar") || same(code, "ara") {
        Some("Arabic")
    } else if same(code, "nl") || same(code, "nld") || same(code, "dut") {
        Some("Dutch")
    } else if same(code, "sv") || same(code, "swe") {
        Some("Swedish")
    } else if same(code, "no") || same(code, "nor") {
        Some("Norwegian")
    } else if same(code, "da") || same(code, "dan") {
        Some("Danish")
    } else if same(code, "fi") || same(code, "fin") {
        Some("Finnish")
    } else if same(code, "pl") || same(code, "pol") {
        Some("Polish")
    } else if same(code, "tr") || same(code, "tur") {
        Some("Turkish")
    } else if same(code, "th") || same(code, "tha") {
        Some("Thai")
    } else if same(code, "vi") || same(code, "vie") {
        Some("Vietnamese")
    } else if same(code, "id") || same(code, "ind") {
        Some("Indonesian")
    } else if same(code, "he") || same(code, "heb") {
        Some("Hebrew")
    } else if same(code, "el") || same(code, "ell") || same(code, "gre") {
        Some("Greek")
    } else if same(code, "cs") || same(code, "ces") || same(code, "cze") {
        Some("Czech")
    } else if same(code, "hu") || same(code, "hun") {
        Some("Hungarian")
    } else if same(code, "ro") || same(code, "ron") || same(code, "rum") {
        Some("Romanian")
    } else if same(code, "uk") || same(code, "ukr") {
        Some("Ukrainian")
    } else if same(code, "fa") || same(code, "fas") || same(code, "per") {
        Some("Persian")
    } else if same(code, "und") {
        Some("Undetermined")
    } else {
        None
    }
}

/// What a language tag reads as, given its lowercase form: a code that is known by
/// the language's name, anything else as it is.
pub open spec fn language(code: Seq<char>, lower: Seq<char>) -> Seq<char> {
    if code.len() > 3 {
        code
    } else {
        match known_language(lower) {
            Some(name) => name,
            None => code,
        }
    }
}

/// What a language tag reads as, given its lowercase form.
pub fn language_in_lowercase(code: &str, lower: &str) -> (r: String)
    ensures
        r@ == language(code@, lower@),
{
    // Already a name rather than a code (some files tag it that way).
    if chars(code).len() > 3 {
        return code.to_owned();
    }
    match find_language(lower) {
        Some(name) => name.to_owned(),
        None => code.to_owned(),
    }
}

/// ISO 639 codes are not readable. This covers the languages that actually turn up
/// in media files and passes anything else through untouched: a code is a worse
/// label than a name, but a better one than a wrong name.
pub fn language_name(code: &str) -> (r: String)
    ensures
        r@ == language(code@, text::to_lowercase(code@)),
        vstd::utf8::is_ascii_chars(code@) ==> r@ == language(
            code@,
            code@.map_values(|c: char| text::ascii_lower(c)),
        ),
{
    let lower: String = lowercase(code);
    language_in_lowercase(code, lower.as_str())
}

/// The name that a codec goes by.
pub open spec fn known_codec(short: Seq<char>) -> Option<Seq<char>> {
    if short == "eac3"@ {
        Some("E-AC-3"@)
    } else if short == "ac3"@ {
        Some("AC-3"@)
    } else if short == "aac"@ || short == "mpeg"@ {
        Some("AAC"@)
    } else if short == "dts"@ {
        Some("DTS"@)
    } else if short == "opus"@ {
        Some("Opus"@)
    } else if short == "vorbis"@ {
        Some("Vorbis"@)
    } else if short == "flac"@ {
        Some("FLAC"@)
    } else if short == "h264"@ {
        Some("H.264"@)
    } else if short == "h265"@ {
        Some("HEVC"@)
    } else if short == "av1"@ {
        Some("AV1"@)
    } else if short == "vp9"@ {
        Some("VP9"@)
    } else if short == "raw"@ {
        Some("PCM"@)
    } else if short == "subrip"@ || short == "srt"@ {
        Some("SubRip"@)
    } else if short == "ssa"@ || short == "ass"@ {
        Some("ASS"@)
    } else if short == "pgs"@ {
        Some("PGS"@)
    } else {
        None
    }
}

fn find_codec(short: &str) -> (r: Option<&'static str>)
    ensures
        r is Some <==> known_codec(short@) is Some,
        r is Some ==> r->0@ == known_codec(short@)->0,
{
    if same(short, "eac3") {
        Some("E-AC-3")
    } else if same(short, "ac3") {
        Some("AC-3")
    } else if same(short, "aac") || same(short, "mpeg") {
        Some("AAC")
    } else if same(short, "dts") {
        Some("DTS")
    } else if same(short, "opus") {
        Some("Opus")
    } else if same(short, "vorbis") {
        Some("Vorbis")
    } else if same(short, "flac") {
        Some("FLAC")
    } else if same(short, "h264") {
        Some("H.264")
    } else if same(short, "h265") {
        Some("HEVC")
    } else if same(short, "av1") {
        Some("AV1")
    } else if same(short, "vp9") {
        Some("VP9")
    } else if same(short, "raw") {
        Some("PCM")
    } else if same(short, "subrip") || same(short, "srt") {
        Some("SubRip")
    } else if same(short, "ssa") || same(short, "ass") {
        Some("ASS")
    } else if same(short, "pgs") {
        Some("PGS")
    } else {
        None
    }
}

/// A codec by the name it goes by, or as it is where it has no other.
pub open spec fn codec(short: Seq<char>) -> Seq<char> {
    match known_codec(short) {
        Some(name) => name,
        None => short,
    }
}

pub fn codec_label(short: &str) -> (r: String)
    ensures
        r@ == codec(short@),
{
    match find_codec(short) {
        Some(name) => name.to_owned(),
        None => short.to_owned(),
    }
}

/// A text without the `x-` marks that it starts with.
pub open spec fn without_x(s: Seq<char>) -> Seq<char>
    decreases s.len(),
{
    if s.len() >= 2 && s[0] == 'x' && s[1] == '-' {
        without_x(s.skip(2))
    } else {
        s
    }
}

/// The short form of a media type: its last part, without an `x-` in front.
pub open spec fn short_media(media: Seq<char>) -> Seq<char> {
    without_x(text::after_last_slash(media))
}

/// A media type by the name its codec goes by.
pub open spec fn media_codec(media: Seq<char>) -> Seq<char> {
    if (text::begins(media, "text/"@) || text::begins(media, "subtitle/"@)) && short_media(media)
        == "raw"@ {
        "Text"@
    } else {
        codec(short_media(media))
    }
}

/// `audio/x-eac3` is not what anyone calls it.
pub fn codec_name(media: &str) -> (r: String)
    ensures
        r@ == media_codec(media@),
{
    let v: Vec<char> = chars(media);
    let mut at: usize = last_part(&v);
    while v.len() - at >= 2 && v[at] == 'x' && v[at + 1] == '-'
        invariant
            at <= v@.len(),
            v.len() == v@.len(),
            short_media(v@) == without_x(v@.skip(at as int)),
        decreases v@.len() - at,
    {
        proof {
            assert(v@.skip(at as int).skip(2) =~= v@.skip(at + 2));
        }
        at += 2;
    }
    let short: String = span(&v, at, v.len());
    proof {
        assert(v@.skip(at as int) =~= short@);
        assert(short@ == short_media(v@));
    }
    // `text/x-raw` and `audio/x-raw` both reduce to "raw", and calling a
    // subtitle track "PCM" is worse than saying nothing.
    if (starts_with(&v, "text/") || starts_with(&v, "subtitle/")) && same(short.as_str(), "raw") {
        return "Text".to_owned();
    }
    codec_label(short.as_str())
}

/// A channel count the way people judging an audio track say it.
pub open spec fn layout(channels: int) -> Seq<char> {
    if channels == 1 {
        "mono"@
    } else if channels == 2 {
        "stereo"@
    } else if channels == 6 {
        "5.1"@
    } else if channels == 8 {
        "7.1"@
    } else {
        text::signed_decimal(channels) + "ch"@
    }
}

/// `5.1` reads better than `6 channels` for anyone judging an audio track.
pub fn channel_layout(channels: i64) -> (r: String)
    ensures
        r@ == layout(channels as int),
{
    match channels {
        1 => "mono".to_owned(),
        2 => "stereo".to_owned(),
        6 => "5.1".to_owned(),
        8 => "7.1".to_owned(),
        n => {
            let mut r: String = String::new();
            push_signed(&mut r, n);
            r.append("ch");
            proof {
                assert(r@ =~= layout(channels as int));
            }
            r
        },
    }
}

/// Thousands, rounded towards nothing.
pub open spec fn thousands(n: int) -> int {
    if n < 0 {
        -((-n) / 1000)
    } else {
        n / 1000
    }
}

fn in_thousands(n: i32) -> (r: i64)
    ensures
        r == thousands(n as int),
{
    let wide: i64 = n as i64;
    if wide < 0 {
        -((-wide) / 1000)
    } else {
        wide / 1000
    }
}

/// The label of a stream: its language, or its number where none is known.
pub open spec fn stream_label(facts: StreamFacts, ordinal: nat) -> Seq<char> {
    match facts.tag() {
        Some(tag) if tag.len() > 0 => language(tag, text::to_lowercase(tag)),
        _ => "Track "@ + text::decimal(ordinal),
    }
}

/// What a stream is made of, before the white space around it goes.
pub open spec fn stream_parts(facts: StreamFacts) -> Seq<char> {
    let caps = match facts.media {
        Some(media) => {
            let named = media_codec(media@);
            let with_channels = match facts.channels {
                Some(channels) => named + " "@ + layout(channels as int),
                None => named,
            };
            match facts.rate {
                Some(rate) => with_channels + " \u{b7} "@ + text::signed_decimal(
                    thousands(rate as int),
                ) + " kHz"@,
                None => with_channels,
            }
        },
        None => Seq::empty(),
    };
    match facts.best_bitrate() {
        Some(bitrate) if bitrate >= 1000 => caps + " \u{b7} "@ + text::decimal(
            (bitrate / 1000) as nat,
        ) + " kb/s"@,
        _ => caps,
    }
}

/// What a stream is made of: codec, channels, rate and bitrate, as far as known.
pub open spec fn stream_detail(facts: StreamFacts) -> Seq<char> {
    text::trimmed(stream_parts(facts))
}

/// Human labels for a stream: what language it is, and what it actually is.
pub fn describe(facts: &StreamFacts, ordinal: usize) -> (r: (String, String))
    ensures
        r.0@ == stream_label(*facts, ordinal as nat),
        r.1@ == stream_detail(*facts),
{
    let tag: Option<&String> = if facts.language_name.is_some() {
        facts.language_name.as_ref()
    } else if facts.language_code.is_some() {
        facts.language_code.as_ref()
    } else {
        facts.title.as_ref()
    };
    let label: String = match tag {
        Some(tag) if !tag.as_str().is_empty() => language_name(tag.as_str()),
        _ => {
            let mut r: String = "Track ".to_owned();
            push_decimal(&mut r, ordinal as u128);
            r
        },
    };

    let mut detail: String = String::new();
    if let Some(media) = &facts.media {
        detail = codec_name(media.as_str());
        if let Some(channels) = facts.channels {
            detail.append(" ");
            detail.append(channel_layout(channels as i64).as_str());
        }
        if let Some(rate) = facts.rate {
            detail.append(" \u{b7} ");
            push_signed(&mut detail, in_thousands(rate));
            detail.append(" kHz");
        }
    }
    let bitrate: Option<u32> = if facts.bitrate.is_some() {
        facts.bitrate
    } else {
        facts.nominal_bitrate
    };
    if let Some(bitrate) = bitrate {
        if bitrate >= 1000 {
            detail.append(" \u{b7} ");
            push_decimal(&mut detail, (bitrate / 1000) as u128);
            detail.append(" kb/s");
        }
    }
    proof {
        assert(detail@ =~= stream_parts(*facts));
    }
    (label, trim(detail.as_str()))
}

/// Channels, rate and bitrate of an audio stream, each nothing where it is unknown.
pub fn audio_facts(facts: &StreamFacts) -> (r: (i32, i32, u32))
    ensures
        r.0 == (match facts.channels {
            Some(channels) => channels,
            None => 0,
        }),
        r.1 == (match facts.rate {
            Some(rate) => rate,
            None => 0,
        }),
        r.2 == (match facts.best_bitrate() {
            Some(bitrate) => bitrate,
            None => 0,
        }),
{
    let bitrate: Option<u32> = if facts.bitrate.is_some() {
        facts.bitrate
    } else {
        facts.nominal_bitrate
    };
    (facts.channels.unwrap_or(0), facts.rate.unwrap_or(0), bitrate.unwrap_or(0))
}

/// Every language goes by its two letters, its three letters and, where it has a second
/// set of three letters, by those: whichever a file uses, it reads the same.
#[verifier::spinoff_prover]
#[verifier::rlimit(100)]
pub proof fn lemma_languages_by_code()
    ensures
        known_language("en"@) == Some("English"@),
        known_language("eng"@) == Some("English"@),
        known_language("hi"@) == Some("Hindi"@),
        known_language("hin"@) == Some("Hindi"@),
        known_language("te"@) == Some("Telugu"@),
        known_language("tel"@) == Some("Telugu"@),
        known_language("ta"@) == Some("Tamil"@),
        known_language("tam"@) == Some("Tamil"@),
        known_language("kn"@) == Some("Kannada"@),
        known_language("kan"@) == Some("Kannada"@),
        known_language("ml"@) == Some("Malayalam"@),
        known_language("mal"@) == Some("Malayalam"@),
        known_language("mr"@) == Some("Marathi"@),
        known_language("mar"@) == Some("Marathi"@),
        known_language("bn"@) == Some("Bengali"@),
        known_language("ben"@) == Some("Bengali"@),
        known_language("gu"@) == Some("Gujarati"@),
        known_language("guj"@) == Some("Gujarati"@),
        known_language("pa"@) == Some("Punjabi"@),
        known_language("pan"@) == Some("Punjabi"@),
        known_language("ur"@) == Some("Urdu"@),
        known_language("urd"@) == Some("Urdu"@),
        known_language("es"@) == Some("Spanish"@),
        known_language("spa"@) == Some("Spanish"@),
        known_language("fr"@) == Some("French"@),
        known_language("fra"@) == Some("French"@),
        known_language("fre"@) == Some("French"@),
        known_language("de"@) == Some("German"@),
        known_language("deu"@) == Some("German"@),
        known_language("ger"@) == Some("German"@),
        known_language("it"@) == Some("Italian"@),
        known_language("ita"@) == Some("Italian"@),
        known_language("pt"@) == Some("Portuguese"@),
        known_language("por"@) == Some("Portuguese"@),
        known_language("ru"@) == Some("Russian"@),
        known_language("rus"@) == Some("Russian"@),
        known_language("ja"@) == Some("Japanese"@),
        known_language("jpn"@) == Some("Japanese"@),
        known_language("ko"@) == Some("Korean"@),
        known_language("kor"@) == Some("Korean"@),
        known_language("zh"@) == Some("Chinese"@),
        known_language("zho"@) == Some("Chinese"@),
        known_language("chi"@) == Some("Chinese"@),
        known_language("ar"@) == Some("Arabic"@),
        known_language("ara"@) == Some("Arabic"@),
        known_language("nl"@) == Some("Dutch"@),
        known_language("nld"@) == Some("Dutch"@),
        known_language("dut"@) == Some("Dutch"@),
        known_language("sv"@) == Some("Swedish"@),
        known_language("swe"@) == Some("Swedish"@),
        known_language("no"@) == Some("Norwegian"@),
        known_language("nor"@) == Some("Norwegian"@),
        known_language("da"@) == Some("Danish"@),
        known_language("dan"@) == Some("Danish"@),
        known_language("fi"@) == Some("Finnish"@),
        known_language("fin"@) == Some("Finnish"@),
        known_language("pl"@) == Some("Polish"@),
        known_language("pol"@) == Some("Polish"@),
        known_language("tr"@) == Some("Turkish"@),
        known_language("tur"@) == Some("Turkish"@),
        known_language("th"@) == Some("Thai"@),
        known_language("tha"@) == Some("Thai"@),
        known_language("vi"@) == Some("Vietnamese"@),
        known_language("vie"@) == Some("Vietnamese"@),
        known_language("id"@) == Some("Indonesian"@),
        known_language("ind"@) == Some("Indonesian"@),
        known_language("he"@) == Some("Hebrew"@),
        known_language("heb"@) == Some("Hebrew"@),
        known_language("el"@) == Some("Greek"@),
        known_language("ell"@) == Some("Greek"@),
        known_language("gre"@) == Some("Greek"@),
        known_language("cs"@) == Some("Czech"@),
        known_language("ces"@) == Some("Czech"@),
        known_language("cze"@) == Some("Czech"@),
        known_language("hu"@) == Some("Hungarian"@),
        known_language("hun"@) == Some("Hungarian"@),
        known_language("ro"@) == Some("Romanian"@),
        known_language("ron"@) == Some("Romanian"@),
        known_language("rum"@) == Some("Romanian"@),
        known_language("uk"@) == Some("Ukrainian"@),
        known_language("ukr"@) == Some("Ukrainian"@),
        known_language("fa"@) == Some("Persian"@),
        known_language("fas"@) == Some("Persian"@),
        known_language("per"@) == Some("Persian"@),
        known_language("und"@) == Some("Undetermined"@),
{
    reveal_strlit("en");
    assert("en"@[0] == 'e' && "en"@[1] == 'n');
    reveal_strlit("eng");
    assert("eng"@[0] == 'e' && "eng"@[1] == 'n' && "eng"@[2] == 'g');
    reveal_strlit("hi");
    assert("hi"@[0] == 'h' && "hi"@[1] == 'i');
    reveal_strlit("hin");
    assert("hin"@[0] == 'h' && "hin"@[1] == 'i' && "hin"@[2] == 'n');
    reveal_strlit("te");
    assert("te"@[0] == 't' && "te"@[1] == 'e');
    reveal_strlit("tel");
    assert("tel"@[0] == 't' && "tel"@[1] == 'e' && "tel"@[2] == 'l');
    reveal_strlit("ta");
    assert("ta"@[0] == 't' && "ta"@[1] == 'a');
    reveal_strlit("tam");
    assert("tam"@[0] == 't' && "tam"@[1] == 'a' && "tam"@[2] == 'm');
    reveal_strlit("kn");
    assert("kn"@[0] == 'k' && "kn"@[1] == 'n');
    reveal_strlit("kan");
    assert("kan"@[0] == 'k' && "kan"@[1] == 'a' && "kan"@[2] == 'n');
    reveal_strlit("ml");
    assert("ml"@[0] == 'm' && "ml"@[1] == 'l');
    reveal_strlit("mal");
    assert("mal"@[0] == 'm' && "mal"@[1] == 'a' && "mal"@[2] == 'l');
    reveal_strlit("mr");
    assert("mr"@[0] == 'm' && "mr"@[1] == 'r');
    reveal_strlit("mar");
    assert("mar"@[0] == 'm' && "mar"@[1] == 'a' && "mar"@[2] == 'r');
    reveal_strlit("bn");
    assert("bn"@[0] == 'b' && "bn"@[1] == 'n');
    reveal_strlit("ben");
    assert("ben"@[0] == 'b' && "ben"@[1] == 'e' && "ben"@[2] == 'n');
    reveal_strlit("gu");
    assert("gu"@[0] == 'g' && "gu"@[1] == 'u');
    reveal_strlit("guj");
    assert("guj"@[0] == 'g' && "guj"@[1] == 'u' && "guj"@[2] == 'j');
    reveal_strlit("pa");
    assert("pa"@[0] == 'p' && "pa"@[1] == 'a');
    reveal_strlit("pan");
    assert("pan"@[0] == 'p' && "pan"@[1] == 'a' && "pan"@[2] == 'n');
    reveal_strlit("ur");
    assert("ur"@[0] == 'u' && "ur"@[1] == 'r');
    reveal_strlit("urd");
    assert("urd"@[0] == 'u' && "urd"@[1] == 'r' && "urd"@[2] == 'd');
    reveal_strlit("es");
    assert("es"@[0] == 'e' && "es"@[1] == 's');
    reveal_strlit("spa");
    assert("spa"@[0] == 's' && "spa"@[1] == 'p' && "spa"@[2] == 'a');
    reveal_strlit("fr");
    assert("fr"@[0] == 'f' && "fr"@[1] == 'r');
    reveal_strlit("fra");
    assert("fra"@[0] == 'f' && "fra"@[1] == 'r' && "fra"@[2] == 'a');
    reveal_strlit("fre");
    assert("fre"@[0] == 'f' && "fre"@[1] == 'r' && "fre"@[2] == 'e');
    reveal_strlit("de");
    assert("de"@[0] == 'd' && "de"@[1] == 'e');
    reveal_strlit("deu");
    assert("deu"@[0] == 'd' && "deu"@[1] == 'e' && "deu"@[2] == 'u');
    reveal_strlit("ger");
    assert("ger"@[0] == 'g' && "ger"@[1] == 'e' && "ger"@[2] == 'r');
    reveal_strlit("it");
    assert("it"@[0] == 'i' && "it"@[1] == 't');
    reveal_strlit("ita");
    assert("ita"@[0] == 'i' && "ita"@[1] == 't' && "ita"@[2] == 'a');
    reveal_strlit("pt");
    assert("pt"@[0] == 'p' && "pt"@[1] == 't');
    reveal_strlit("por");
    assert("por"@[0] == 'p' && "por"@[1] == 'o' && "por"@[2] == 'r');
    reveal_strlit("ru");
    assert("ru"@[0] == 'r' && "ru"@[1] == 'u');
    reveal_strlit("rus");
    assert("rus"@[0] == 'r' && "rus"@[1] == 'u' && "rus"@[2] == 's');
    reveal_strlit("ja");
    assert("ja"@[0] == 'j' && "ja"@[1] == 'a');
    reveal_strlit("jpn");
    assert("jpn"@[0] == 'j' && "jpn"@[1] == 'p' && "jpn"@[2] == 'n');
    reveal_strlit("ko");
    assert("ko"@[0] == 'k' && "ko"@[1] == 'o');
    reveal_strlit("kor");
    assert("kor"@[0] == 'k' && "kor"@[1] == 'o' && "kor"@[2] == 'r');
    reveal_strlit("zh");
    assert("zh"@[0] == 'z' && "zh"@[1] == 'h');
    reveal_strlit("zho");
    assert("zho"@[0] == 'z' && "zho"@[1] == 'h' && "zho"@[2] == 'o');
    reveal_strlit("chi");
    assert("chi"@[0] == 'c' && "chi"@[1] == 'h' && "chi"@[2] == 'i');
    reveal_strlit("ar");
    assert("ar"@[0] == 'a' && "ar"@[1] == 'r');
    reveal_strlit("ara");
    assert("ara"@[0] == 'a' && "ara"@[1] == 'r' && "ara"@[2] == 'a');
    reveal_strlit("nl");
    assert("nl"@[0] == 'n' && "nl"@[1] == 'l');
    reveal_strlit("nld");
    assert("nld"@[0] == 'n' && "nld"@[1] == 'l' && "nld"@[2] == 'd');
    reveal_strlit("dut");
    assert("dut"@[0] == 'd' && "dut"@[1] == 'u' && "dut"@[2] == 't');
    reveal_strlit("sv");
    assert("sv"@[0] == 's' && "sv"@[1] == 'v');
    reveal_strlit("swe");
    assert("swe"@[0] == 's' && "swe"@[1] == 'w' && "swe"@[2] == 'e');
    reveal_strlit("no");
    assert("no"@[0] == 'n' && "no"@[1] == 'o');
    reveal_strlit("nor");
    assert("nor"@[0] == 'n' && "nor"@[1] == 'o' && "nor"@[2] == 'r');
    reveal_strlit("da");
    assert("da"@[0] == 'd' && "da"@[1] == 'a');
    reveal_strlit("dan");
    assert("dan"@[0] == 'd' && "dan"@[1] == 'a' && "dan"@[2] == 'n');
    reveal_strlit("fi");
    assert("fi"@[0] == 'f' && "fi"@[1] == 'i');
    reveal_strlit("fin");
    assert("fin"@[0] == 'f' && "fin"@[1] == 'i' && "fin"@[2] == 'n');
    reveal_strlit("pl");
    assert("pl"@[0] == 'p' && "pl"@[1] == 'l');
    reveal_strlit("pol");
    assert("pol"@[0] == 'p' && "pol"@[1] == 'o' && "pol"@[2] == 'l');
    reveal_strlit("tr");
    assert("tr"@[0] == 't' && "tr"@[1] == 'r');
    reveal_strlit("tur");
    assert("tur"@[0] == 't' && "tur"@[1] == 'u' && "tur"@[2] == 'r');
    reveal_strlit("th");
    assert("th"@[0] == 't' && "th"@[1] == 'h');
    reveal_strlit("tha");
    assert("tha"@[0] == 't' && "tha"@[1] == 'h' && "tha"@[2] == 'a');
    reveal_strlit("vi");
    assert("vi"@[0] == 'v' && "vi"@[1] == 'i');
    reveal_strlit("vie");
    assert("vie"@[0] == 'v' && "vie"@[1] == 'i' && "vie"@[2] == 'e');
    reveal_strlit("id");
    assert("id"@[0] == 'i' && "id"@[1] == 'd');
    reveal_strlit("ind");
    assert("ind"@[0] == 'i' && "ind"@[1] == 'n' && "ind"@[2] == 'd');
    reveal_strlit("he");
    assert("he"@[0] == 'h' && "he"@[1] == 'e');
    reveal_strlit("heb");
    assert("heb"@[0] == 'h' && "heb"@[1] == 'e' && "heb"@[2] == 'b');
    reveal_strlit("el");
    assert("el"@[0] == 'e' && "el"@[1] == 'l');
    reveal_strlit("ell");
    assert("ell"@[0] == 'e' && "ell"@[1] == 'l' && "ell"@[2] == 'l');
    reveal_strlit("gre");
    assert("gre"@[0] == 'g' && "gre"@[1] == 'r' && "gre"@[2] == 'e');
    reveal_strlit("cs");
    assert("cs"@[0] == 'c' && "cs"@[1] == 's');
    reveal_strlit("ces");
    assert("ces"@[0] == 'c' && "ces"@[1] == 'e' && "ces"@[2] == 's');
    reveal_strlit("cze");
    assert("cze"@[0] == 'c' && "cze"@[1] == 'z' && "cze"@[2] == 'e');
    reveal_strlit("hu");
    assert("hu"@[0] == 'h' && "hu"@[1] == 'u');
    reveal_strlit("hun");
    assert("hun"@[0] == 'h' && "hun"@[1] == 'u' && "hun"@[2] == 'n');
    reveal_strlit("ro");
    assert("ro"@[0] == 'r' && "ro"@[1] == 'o');
    reveal_strlit("ron");
    assert("ron"@[0] == 'r' && "ron"@[1] == 'o' && "ron"@[2] == 'n');
    reveal_strlit("rum");
    assert("rum"@[0] == 'r' && "rum"@[1] == 'u' && "rum"@[2] == 'm');
    reveal_strlit("uk");
    assert("uk"@[0] == 'u' && "uk"@[1] == 'k');
    reveal_strlit("ukr");
    assert("ukr"@[0] == 'u' && "ukr"@[1] == 'k' && "ukr"@[2] == 'r');
    reveal_strlit("fa");
    assert("fa"@[0] == 'f' && "fa"@[1] == 'a');
    reveal_strlit("fas");
    assert("fas"@[0] == 'f' && "fas"@[1] == 'a' && "fas"@[2] == 's');
    reveal_strlit("per");
    assert("per"@[0] == 'p' && "per"@[1] == 'e' && "per"@[2] == 'r');
    reveal_strlit("und");
    assert("und"@[0] == 'u' && "und"@[1] == 'n' && "und"@[2] == 'd');
    assert("ru"@.len() == 2 && "rum"@.len() == 3);
}

/// Only codes of two or three letters name a language.
#[verifier::spinoff_prover]
pub proof fn lemma_language_codes_are_short(code: Seq<char>)
    requires
        known_language(code) is Some,
    ensures
        2 <= code.len() <= 3,
{
    reveal_strlit("en");
    reveal_strlit("eng");
    reveal_strlit("hi");
    reveal_strlit("hin");
    reveal_strlit("te");
    reveal_strlit("tel");
    reveal_strlit("ta");
    reveal_strlit("tam");
    reveal_strlit("kn");
    reveal_strlit("kan");
    reveal_strlit("ml");
    reveal_strlit("mal");
    reveal_strlit("mr");
    reveal_strlit("mar");
    reveal_strlit("bn");
    reveal_strlit("ben");
    reveal_strlit("gu");
    reveal_strlit("guj");
    reveal_strlit("pa");
    reveal_strlit("pan");
    reveal_strlit("ur");
    reveal_strlit("urd");
    reveal_strlit("es");
    reveal_strlit("spa");
    reveal_strlit("fr");
    reveal_strlit("fra");
    reveal_strlit("fre");
    reveal_strlit("de");
    reveal_strlit("deu");
    reveal_strlit("ger");
    reveal_strlit("it");
    reveal_strlit("ita");
    reveal_strlit("pt");
    reveal_strlit("por");
    reveal_strlit("ru");
    reveal_strlit("rus");
    reveal_strlit("ja");
    reveal_strlit("jpn");
    reveal_strlit("ko");
    reveal_strlit("kor");
    reveal_strlit("zh");
    reveal_strlit("zho");
    reveal_strlit("chi");
    reveal_strlit("ar");
    reveal_strlit("ara");
    reveal_strlit("nl");
    reveal_strlit("nld");
    reveal_strlit("dut");
    reveal_strlit("sv");
    reveal_strlit("swe");
    reveal_strlit("no");
    reveal_strlit("nor");
    reveal_strlit("da");
    reveal_strlit("dan");
    reveal_strlit("fi");
    reveal_strlit("fin");
    reveal_strlit("pl");
    reveal_strlit("pol");
    reveal_strlit("tr");
    reveal_strlit("tur");
    reveal_strlit("th");
    reveal_strlit("tha");
    reveal_strlit("vi");
    reveal_strlit("vie");
    reveal_strlit("id");
    reveal_strlit("ind");
    reveal_strlit("he");
    reveal_strlit("heb");
    reveal_strlit("el");
    reveal_strlit("ell");
    reveal_strlit("gre");
    reveal_strlit("cs");
    reveal_strlit("ces");
    reveal_strlit("cze");
    reveal_strlit("hu");
    reveal_strlit("hun");
    reveal_strlit("ro");
    reveal_strlit("ron");
    reveal_strlit("rum");
    reveal_strlit("uk");
    reveal_strlit("ukr");
    reveal_strlit("fa");
    reveal_strlit("fas");
    reveal_strlit("per");
    reveal_strlit("und");
}

/// Every format has the name that people know it by, whichever of its names a file uses.
#[verifier::spinoff_prover]
pub proof fn lemma_codecs_by_name()
    ensures
        codec("eac3"@) == "E-AC-3"@,
        codec("ac3"@) == "AC-3"@,
        codec("aac"@) == "AAC"@,
        codec("mpeg"@) == "AAC"@,
        codec("dts"@) == "DTS"@,
        codec("opus"@) == "Opus"@,
        codec("vorbis"@) == "Vorbis"@,
        codec("flac"@) == "FLAC"@,
        codec("h264"@) == "H.264"@,
        codec("h265"@) == "HEVC"@,
        codec("av1"@) == "AV1"@,
        codec("vp9"@) == "VP9"@,
        codec("raw"@) == "PCM"@,
        codec("subrip"@) == "SubRip"@,
        codec("srt"@) == "SubRip"@,
        codec("ssa"@) == "ASS"@,
        codec("ass"@) == "ASS"@,
        codec("pgs"@) == "PGS"@,
{
    reveal_strlit("eac3");
    assert("eac3"@[0] == 'e' && "eac3"@[1] == 'a' && "eac3"@[2] == 'c' && "eac3"@[3] == '3');
    reveal_strlit("ac3");
    assert("ac3"@[0] == 'a' && "ac3"@[1] == 'c' && "ac3"@[2] == '3');
    reveal_strlit("aac");
    assert("aac"@[0] == 'a' && "aac"@[1] == 'a' && "aac"@[2] == 'c');
    reveal_strlit("mpeg");
    assert("mpeg"@[0] == 'm' && "mpeg"@[1] == 'p' && "mpeg"@[2] == 'e' && "mpeg"@[3] == 'g');
    reveal_strlit("dts");
    assert("dts"@[0] == 'd' && "dts"@[1] == 't' && "dts"@[2] == 's');
    reveal_strlit("opus");
    assert("opus"@[0] == 'o' && "opus"@[1] == 'p' && "opus"@[2] == 'u' && "opus"@[3] == 's');
    reveal_strlit("vorbis");
    assert("vorbis"@[0] == 'v' && "vorbis"@[1] == 'o' && "vorbis"@[2] == 'r' && "vorbis"@[3] == 'b' && "vorbis"@[4] == 'i' && "vorbis"@[5] == 's');
    reveal_strlit("flac");
    assert("flac"@[0] == 'f' && "flac"@[1] == 'l' && "flac"@[2] == 'a' && "flac"@[3] == 'c');
    reveal_strlit("h264");
    assert("h264"@[0] == 'h' && "h264"@[1] == '2' && "h264"@[2] == '6' && "h264"@[3] == '4');
    reveal_strlit("h265");
    assert("h265"@[0] == 'h' && "h265"@[1] == '2' && "h265"@[2] == '6' && "h265"@[3] == '5');
    reveal_strlit("av1");
    assert("av1"@[0] == 'a' && "av1"@[1] == 'v' && "av1"@[2] == '1');
    reveal_strlit("vp9");
    assert("vp9"@[0] == 'v' && "vp9"@[1] == 'p' && "vp9"@[2] == '9');
    reveal_strlit("raw");
    assert("raw"@[0] == 'r' && "raw"@[1] == 'a' && "raw"@[2] == 'w');
    reveal_strlit("subrip");
    assert("subrip"@[0] == 's' && "subrip"@[1] == 'u' && "subrip"@[2] == 'b' && "subrip"@[3] == 'r' && "subrip"@[4] == 'i' && "subrip"@[5] == 'p');
    reveal_strlit("srt");
    assert("srt"@[0] == 's' && "srt"@[1] == 'r' && "srt"@[2] == 't');
    reveal_strlit("ssa");
    assert("ssa"@[0] == 's' && "ssa"@[1] == 's' && "ssa"@[2] == 'a');
    reveal_strlit("ass");
    assert("ass"@[0] == 'a' && "ass"@[1] == 's' && "ass"@[2] == 's');
    reveal_strlit("pgs");
    assert("pgs"@[0] == 'p' && "pgs"@[1] == 'g' && "pgs"@[2] == 's');
}

/// A code in any case names its language, where it is one; anything longer than a code,
/// and any code that is none, stands for itself.
pub proof fn lemma_a_language_is_named(code: Seq<char>, lower: Seq<char>)
    ensures
        code.len() > 3 ==> language(code, lower) == code,
        known_language(lower) is None ==> language(code, lower) == code,
        code.len() <= 3 && known_language(lower) is Some ==> Some(language(code, lower))
            == known_language(lower),
{
}

/// A track is labelled by the name of its language, or failing that by its language's
/// code, or failing that by its title; one with none of these, or with nothing in it, by
/// its number.
pub proof fn lemma_a_track_is_labelled(facts: StreamFacts, ordinal: nat)
    ensures
        ({
            let said: Option<String> = if facts.language_name is Some {
                facts.language_name
            } else if facts.language_code is Some {
                facts.language_code
            } else {
                facts.title
            };
            &&& said is None || said->0@.len() == 0 ==> stream_label(facts, ordinal) == "Track "@
                + text::decimal(ordinal)
            &&& said is Some && said->0@.len() > 0 ==> stream_label(facts, ordinal) == language(
                said->0@,
                text::to_lowercase(said->0@),
            )
        }),
{
}

/// Channels read as people name them: mono, stereo, 5.1 and 7.1, and by their number where
/// they have no such name.
pub proof fn lemma_channels_in_words(channels: int)
    ensures
        channels == 1 ==> layout(channels) == "mono"@,
        channels == 2 ==> layout(channels) == "stereo"@,
        channels == 6 ==> layout(channels) == "5.1"@,
        channels == 8 ==> layout(channels) == "7.1"@,
        channels != 1 && channels != 2 && channels != 6 && channels != 8 ==> layout(channels)
            == text::signed_decimal(channels) + "ch"@,
{
}

/// A format's name is what stands behind the last slash of its media type, without what
/// marks it as unregistered. Raw text is text, and any other raw media is samples.
pub proof fn lemma_a_format_is_named(sort: Seq<char>, name: Seq<char>)
    requires
        forall|i: int| 0 <= i < name.len() ==> #[trigger] name[i] != '/',
        name.len() < 2 || name[0] != 'x' || name[1] != '-',
    ensures
        short_media(sort + seq!['/'] + name) == name,
        short_media(sort + seq!['/', 'x', '-'] + name) == name,
        short_media(name) == name,
{
    let plain = sort + seq!['/'] + name;
    let marked = sort + seq!['/', 'x', '-'] + name;
    let tail = seq!['x', '-'] + name;
    lemma_behind_the_slash(sort + seq!['/'], name);
    assert forall|i: int| 0 <= i < tail.len() implies #[trigger] tail[i] != '/' by {
        if i >= 2 {
            assert(tail[i] == name[i - 2]);
        }
    }
    lemma_behind_the_slash(sort + seq!['/'], tail);
    assert(marked =~= sort + seq!['/'] + tail);
    lemma_behind_the_slash(Seq::empty(), name);
    assert(Seq::<char>::empty() + name =~= name);
    assert(tail.skip(2) =~= name);
    assert(without_x(tail) == without_x(name));
}

proof fn lemma_behind_the_slash(before: Seq<char>, name: Seq<char>)
    requires
        before.len() == 0 || before.last() == '/',
        forall|i: int| 0 <= i < name.len() ==> #[trigger] name[i] != '/',
    ensures
        text::after_last_slash(before + name) == name,
    decreases name.len(),
{
    let whole = before + name;
    if name.len() == 0 {
        assert(whole =~= before);
        assert(name =~= Seq::empty());
    } else {
        let rest = name.drop_last();
        assert forall|i: int| 0 <= i < rest.len() implies #[trigger] rest[i] != '/' by {
            assert(rest[i] == name[i]);
        }
        lemma_behind_the_slash(before, rest);
        assert(whole.last() == name[name.len() - 1]);
        assert(whole.drop_last() =~= before + rest);
        assert(rest.push(name.last()) =~= name);
    }
}

/// Raw text reads as text, and raw media of any other sort as samples.
pub proof fn lemma_raw_media(media: Seq<char>)
    requires
        short_media(media) == "raw"@,
    ensures
        text::begins(media, "text/"@) || text::begins(media, "subtitle/"@) ==> media_codec(media)
            == "Text"@,
        !text::begins(media, "text/"@) && !text::begins(media, "subtitle/"@) ==> media_codec(media)
            == "PCM"@,
{
    lemma_codecs_by_name();
}

/// What a stream is made of is said in this order: its format, its channels, its rate in
/// whole kilohertz and its bitrate in whole kilobits. What is not known is left out, and
/// so is a bitrate below one kilobit; channels and rate come only with a format.
pub proof fn lemma_what_a_stream_is_made_of(facts: StreamFacts)
    ensures
        ({
            let format = if facts.media is Some {
                media_codec(facts.media->0@)
            } else {
                ""@
            };
            let channels = if facts.media is Some && facts.channels is Some {
                " "@ + layout(facts.channels->0 as int)
            } else {
                ""@
            };
            let rate = if facts.media is Some && facts.rate is Some {
                " \u{b7} "@ + text::signed_decimal(
                    if facts.rate->0 >= 0 {
                        facts.rate->0 as int / 1000
                    } else {
                        -(-(facts.rate->0 as int) / 1000)
                    },
                ) + " kHz"@
            } else {
                ""@
            };
            let bits = if facts.bitrate is Some {
                facts.bitrate
            } else {
                facts.nominal_bitrate
            };
            let bitrate = if bits is Some && bits->0 >= 1000 {
                " \u{b7} "@ + text::decimal((bits->0 as int / 1000) as nat) + " kb/s"@
            } else {
                ""@
            };
            stream_detail(facts) == text::trimmed(format + channels + rate + bitrate)
        }),
{
    reveal_strlit("");
    let format = if facts.media is Some {
        media_codec(facts.media->0@)
    } else {
        ""@
    };
    let channels = if facts.media is Some && facts.channels is Some {
        " "@ + layout(facts.channels->0 as int)
    } else {
        ""@
    };
    let rate = if facts.media is Some && facts.rate is Some {
        " \u{b7} "@ + text::signed_decimal(thousands(facts.rate->0 as int)) + " kHz"@
    } else {
        ""@
    };
    let bits = facts.best_bitrate();
    let bitrate = if bits is Some && bits->0 >= 1000 {
        " \u{b7} "@ + text::decimal((bits->0 / 1000) as nat) + " kb/s"@
    } else {
        ""@
    };
    assert(stream_parts(facts) =~= format + channels + rate + bitrate);
}

} // verus!
