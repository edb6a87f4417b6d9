//! Playback engine: what the player and whatever decodes for it say to each other.

pub mod cue;
pub mod dsp;
pub mod export;
pub mod frame;
pub mod gst;
pub mod labels;
pub mod laws;
pub mod pipeline;
pub mod process_laws;
pub mod protocol;
pub mod remote;
pub mod sandbox;
pub mod seek;
pub mod shm;
pub mod time;
pub mod tracks;
pub mod worker;

use vstd::prelude::*;

use crate::text;
use crate::text::{chars, starts_with, trim};

pub use crate::engine::time::{format_time, Duration};

verus! {

#[derive(Debug, Clone, Copy, PartialEq, Eq, Structural)]
pub enum State {
    Idle,
    Playing,
    Paused,
    Ended,
}

impl State {
    pub fn is_playing(self) -> (r: bool)
        ensures
            r == (self == State::Playing),
    {
        matches!(self, State::Playing)
    }
}

/// What the container and codecs actually turned out to be: read from pad caps
/// and stream tags, never guessed from the filename.
#[derive(Debug, PartialEq, Eq)]
pub struct MediaInfo {
    pub title: String,
    pub width: u32,
    pub height: u32,
    pub video_codec: String,
    pub audio_codec: String,
    pub audio_channels: u32,
    pub audio_rate: u32,
    pub audio_bitrate: u32,
    pub container: String,
    pub hardware: bool,
}

impl MediaInfo {
    /// Nothing known.
    pub open spec fn blank(self) -> bool {
        &&& self.title@.len() == 0
        &&& self.width == 0
        &&& self.height == 0
        &&& self.video_codec@.len() == 0
        &&& self.audio_codec@.len() == 0
        &&& self.audio_channels == 0
        &&& self.audio_rate == 0
        &&& self.audio_bitrate == 0
        &&& self.container@.len() == 0
        &&& !self.hardware
    }
}

impl Default for MediaInfo {
    fn default() -> (r: Self)
        ensures
            r.blank(),
    {
        MediaInfo {
            title: String::new(),
            width: 0,
            height: 0,
            video_codec: String::new(),
            audio_codec: String::new(),
            audio_channels: 0,
            audio_rate: 0,
            audio_bitrate: 0,
            container: String::new(),
            hardware: false,
        }
    }
}

impl Clone for MediaInfo {
    fn clone(&self) -> (r: Self)
        ensures
            r == *self,
    {
        MediaInfo {
            title: self.title.clone(),
            width: self.width,
            height: self.height,
            video_codec: self.video_codec.clone(),
            audio_codec: self.audio_codec.clone(),
            audio_channels: self.audio_channels,
            audio_rate: self.audio_rate,
            audio_bitrate: self.audio_bitrate,
            container: self.container.clone(),
            hardware: self.hardware,
        }
    }
}

#[derive(Debug, Clone, Copy, PartialEq, Eq, Structural)]
pub enum TrackKind {
    Audio,
    Text,
}

/// One selectable stream, described the way someone choosing between them needs
/// to see it: the codec and channel count, not just the language.
#[derive(Debug, PartialEq, Eq)]
pub struct Track {
    pub id: String,
    pub kind: TrackKind,
    pub label: String,
    pub detail: String,
    pub selected: bool,
}

impl Clone for Track {
    fn clone(&self) -> (r: Self)
        ensures
            r == *self,
    {
        Track {
            id: self.id.clone(),
            kind: self.kind,
            label: self.label.clone(),
            detail: self.detail.clone(),
            selected: self.selected,
        }
    }
}

/// Optional sound processing. Both off means the audio is left untouched.
#[derive(Debug, Clone, Copy, PartialEq, Eq, Structural)]
pub struct AudioEffects {
    /// Lift the centre channel of surround tracks, where the voices are.
    pub dialogue: bool,
    /// Compress the dynamic range so quiet and loud scenes sit closer together.
    pub night: bool,
}

impl Default for AudioEffects {
    fn default() -> (r: Self)
        ensures
            r == (AudioEffects { dialogue: false, night: false }),
    {
        AudioEffects { dialogue: false, night: false }
    }
}

/// Full volume, in percent. Anything above it is gain applied ahead of a limiter,
/// so it cannot clip.
pub const FULL_VOLUME: u32 = 100;

/// The highest volume the player offers, in percent.
pub const MAX_VOLUME: u32 = 150;

/// Into how many parts a share of a whole is counted: a place on the scrub bar, or
/// how much of a clip is written.
pub const PARTS: u32 = 1_000_000_000;

/// What a clip export should produce.
#[derive(Debug, Clone, PartialEq, Eq)]
pub struct ClipRequest {
    pub start: Duration,
    pub end: Duration,
    pub output: String,
    pub container: Container,
}

#[derive(Debug, Clone, Copy, PartialEq, Eq, Structural)]
pub enum Container {
    Matroska,
    Mp4,
}

impl Container {
    pub open spec fn spec_extension(self) -> Seq<char> {
        match self {
            Container::Matroska => "mkv"@,
            Container::Mp4 => "mp4"@,
        }
    }

    pub open spec fn spec_label(self) -> Seq<char> {
        match self {
            Container::Matroska => "MKV"@,
            Container::Mp4 => "MP4"@,
        }
    }

    pub fn extension(self) -> (r: &'static str)
        ensures
            r@ == self.spec_extension(),
    {
        match self {
            Container::Matroska => "mkv",
            Container::Mp4 => "mp4",
        }
    }

    pub fn label(self) -> (r: &'static str)
        ensures
            r@ == self.spec_label(),
    {
        match self {
            Container::Matroska => "MKV",
            Container::Mp4 => "MP4",
        }
    }
}

#[derive(Debug, Clone, PartialEq, Eq)]
pub enum Export {
    /// How much is written, out of [`PARTS`].
    Progress(u32),
    /// Where the finished clip is.
    Done(String),
    Failed(String),
}

/// Events flowing up from the engine to the player.
#[derive(Debug, Clone, PartialEq, Eq)]
pub enum Event {
    /// First event: the engine is live and the player may start driving it.
    Ready,
    Loaded(MediaInfo),
    State(State),
    Duration(Duration),
    Buffering(u8),
    /// A new frame is in the slot, at this resolution.
    Frame(u32, u32),
    /// The selectable audio and subtitle streams of the current file.
    Tracks(Vec<Track>),
    /// Progress of a clip export.
    Export(Export),
    /// A subtitle cue and the media interval it belongs to.
    Subtitle { text: Option<String>, start: Duration, end: Duration },
    Eos,
    Error(String),
}

/// What a typed or dropped location turned out to name.
#[derive(Debug, Clone, PartialEq, Eq)]
pub enum Location {
    /// A location with a scheme the engine opens as it stands.
    Uri(String),
    /// A file, by its path; a path that is not absolute is taken from the current
    /// directory.
    File { path: String, absolute: bool },
}

/// Why a location cannot be opened.
#[derive(Debug, Clone, PartialEq, Eq)]
pub enum LocationError {
    Empty,
    NoSuchFile(String),
    /// The path has no URI, for the given reason.
    NoUri(String),
}

impl LocationError {
    /// The error, in words.
    pub open spec fn spec_message(self) -> Seq<char> {
        match self {
            LocationError::Empty => "empty location"@,
            LocationError::NoSuchFile(path) => "no such file: "@ + path@,
            LocationError::NoUri(why) => why@,
        }
    }

    pub fn message(&self) -> (r: String)
        ensures
            r@ == self.spec_message(),
    {
        match self {
            LocationError::Empty => "empty location".to_owned(),
            LocationError::NoSuchFile(path) => {
                let mut r: String = "no such file: ".to_owned();
                r.append(path.as_str());
                r
            },
            LocationError::NoUri(why) => why.clone(),
        }
    }
}

/// Whether a location starts with a scheme that the engine opens as it stands.
pub open spec fn has_known_scheme(s: Seq<char>) -> bool {
    ||| text::begins(s, "http://"@)
    ||| text::begins(s, "https://"@)
    ||| text::begins(s, "file://"@)
    ||| text::begins(s, "rtsp://"@)
    ||| text::begins(s, "rtmp://"@)
    ||| text::begins(s, "udp://"@)
    ||| text::begins(s, "srt://"@)
    ||| text::begins(s, "hls://"@)
}

/// What a location converts to: an error where there is nothing but white space, a URI
/// where it has a scheme that is known, and otherwise a file to be found.
pub open spec fn converts(input: Seq<char>, r: Result<Location, LocationError>) -> bool {
    let place = text::trimmed(input);
    if place.len() == 0 {
        r == Err::<Location, LocationError>(LocationError::Empty)
    } else if has_known_scheme(place) {
        r matches Ok(Location::Uri(uri)) && uri@ == place
    } else {
        r matches Ok(Location::File { path, absolute }) && path@ == place && absolute == (place[0]
            == '/')
    }
}

/// A location once converted converts to itself: to a URI that starts with a scheme that
/// is known and has no white space around it. Of a file's URI that much is up to what
/// converts its path; wherever it holds, the file's URI converts to itself too.
pub proof fn lemma_converted_stays_converted(
    input: Seq<char>,
    first: Result<Location, LocationError>,
    uri: Seq<char>,
    again: Result<Location, LocationError>,
)
    requires
        converts(uri, again),
        (converts(input, first) && (first matches Ok(Location::Uri(u)) && u@ == uri)) || (
        has_known_scheme(uri) && text::trimmed(uri) == uri),
    ensures
        has_known_scheme(uri),
        text::trimmed(uri) == uri,
        again matches Ok(Location::Uri(u)) && u@ == uri,
{
    text::lemma_trimmed_twice(input);
    reveal_strlit("http://");
    reveal_strlit("https://");
    reveal_strlit("file://");
    reveal_strlit("rtsp://");
    reveal_strlit("rtmp://");
    reveal_strlit("udp://");
    reveal_strlit("srt://");
    reveal_strlit("hls://");
}

/// Turn a path or a user-typed location into something the engine can open, or
/// into the path of a file that has yet to be found.
pub fn to_uri(input: &str) -> (r: Result<Location, LocationError>)
    ensures
        converts(input@, r),
{
    let place: String = trim(input);
    let v: Vec<char> = chars(place.as_str());
    if v.len() == 0 {
        return Err(LocationError::Empty);
    }
    // Anything with a scheme we recognise passes through untouched.
    if starts_with(&v, "http://") || starts_with(&v, "https://") || starts_with(&v, "file://")
        || starts_with(&v, "rtsp://") || starts_with(&v, "rtmp://") || starts_with(&v, "udp://")
        || starts_with(&v, "srt://") || starts_with(&v, "hls://") {
        return Ok(Location::Uri(place));
    }
    let absolute: bool = v[0] == '/';
    Ok(Location::File { path: place, absolute })
}

/// The URI of a file, once it is known where the file would be, whether anything is
/// there, and what URI its path converts to.
pub fn file_uri(path: String, found: bool, uri: Result<String, String>) -> (r: Result<
    String,
    LocationError,
>)
    ensures
        r == (if !found {
            Err(LocationError::NoSuchFile(path))
        } else {
            match uri {
                Ok(uri) => Ok(uri),
                Err(why) => Err(LocationError::NoUri(why)),
            }
        }),
{
    if !found {
        return Err(LocationError::NoSuchFile(path));
    }
    match uri {
        Ok(uri) => Ok(uri),
        Err(why) => Err(LocationError::NoUri(why)),
    }
}

/// The schemes that are opened as they stand are these, whatever follows them, and no
/// others.
pub proof fn lemma_the_schemes(s: Seq<char>)
    ensures
        has_known_scheme(s) <==> (s.len() >= 6 && (s.take(6) == "udp://"@ || s.take(6) == "srt://"@
            || s.take(6) == "hls://"@)) || (s.len() >= 7 && (s.take(7) == "http://"@ || s.take(7)
            == "file://"@ || s.take(7) == "rtsp://"@ || s.take(7) == "rtmp://"@)) || (s.len() >= 8
            && s.take(8) == "https://"@),
{
    reveal_strlit("http://");
    reveal_strlit("https://");
    reveal_strlit("file://");
    reveal_strlit("rtsp://");
    reveal_strlit("rtmp://");
    reveal_strlit("udp://");
    reveal_strlit("srt://");
    reveal_strlit("hls://");
    if s.len() >= 6 {
        assert(s.take(6) =~= s.subrange(0, 6));
    }
    if s.len() >= 7 {
        assert(s.take(7) =~= s.subrange(0, 7));
    }
    if s.len() >= 8 {
        assert(s.take(8) =~= s.subrange(0, 8));
    }
}

/// What is typed is opened as a URI where it has one of the schemes, and otherwise looked
/// for as a file, without the white space around it and otherwise as it was typed.
pub proof fn lemma_a_location_is_kept_as_typed(input: Seq<char>, r: Result<Location, LocationError>)
    requires
        converts(input, r),
    ensures
        r matches Ok(Location::Uri(uri)) ==> has_known_scheme(uri@) && uri@ == text::trimmed(input),
        r matches Ok(Location::File { path, absolute }) ==> {
            &&& !has_known_scheme(path@)
            &&& path@ == text::trimmed(input)
            &&& path@.len() > 0
            &&& absolute <==> path@[0] == '/'
        },
        r matches Err(why) ==> why == LocationError::Empty,
        r is Err <==> text::trimmed(input).len() == 0,
{
}

/// Each container has its own extension, and its label is that in capitals.
pub proof fn lemma_containers_are_told_apart()
    ensures
        Container::Matroska.spec_extension() == seq!['m', 'k', 'v'],
        Container::Mp4.spec_extension() == seq!['m', 'p', '4'],
        Container::Matroska.spec_label() == seq!['M', 'K', 'V'],
        Container::Mp4.spec_label() == seq!['M', 'P', '4'],
{
    reveal_strlit("mkv");
    reveal_strlit("mp4");
    reveal_strlit("MKV");
    reveal_strlit("MP4");
    assert("mkv"@ =~= seq!['m', 'k', 'v']);
    assert("mp4"@ =~= seq!['m', 'p', '4']);
    assert("MKV"@ =~= seq!['M', 'K', 'V']);
    assert("MP4"@ =~= seq!['M', 'P', '4']);
}

} // verus!
