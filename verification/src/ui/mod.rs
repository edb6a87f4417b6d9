//! The player's own state: what each input and each report from the engine does to
//! it, and what the engine and the window are asked for in return.

pub mod clip;
pub mod feed;
pub mod icons;
pub mod keys;
pub mod laws;
pub mod view;
pub mod view_laws;

use vstd::prelude::*;

use crate::engine;
use crate::engine::{
    file_uri, to_uri, AudioEffects, ClipRequest, Container, Duration, Event, Export, Location,
    LocationError, MediaInfo, State, Track, TrackKind, FULL_VOLUME, MAX_VOLUME, PARTS,
};
use crate::engine::time;
use crate::text;
use crate::text::{same, trim};
use crate::ui::clip::clip_path;
use crate::ui::keys::{chord, Key, KeyEvent, Modifiers, Named};

verus! {

/// How long the pointer must sit still before the chrome retreats, in milliseconds.
pub const IDLE_MILLIS: u64 = 2400;

/// How far a long skip goes, in seconds.
pub const SKIP: i64 = 10;

/// How far a short skip goes, in seconds.
pub const NUDGE: i64 = 5;

/// How far the volume keys go, in percent.
pub const VOLUME_STEP: i64 = 5;

/// Normal speed, in hundredths.
pub const NORMAL_RATE: u32 = 100;

/// How many speeds there are to step through.
pub const RATES: usize = 8;

/// The speeds to step through, in hundredths.
pub open spec fn rates() -> Seq<u32> {
    seq![25u32, 50, 75, 100, 125, 150, 175, 200]
}

/// One of the speeds to step through.
pub fn rate_at(index: usize) -> (r: u32)
    requires
        index < RATES,
    ensures
        r == rates()[index as int],
{
    match index {
        0 => 25,
        1 => 50,
        2 => 75,
        3 => 100,
        4 => 125,
        5 => 150,
        6 => 175,
        _ => 200,
    }
}

/// How far two speeds are apart.
pub open spec fn apart(a: int, b: int) -> int {
    if a < b {
        b - a
    } else {
        a - b
    }
}

/// Whether one of the speeds to step through is the one nearest to a speed.
pub open spec fn is_nearest(rate: u32, k: int) -> bool {
    &&& 0 <= k < RATES
    &&& forall|j: int|
        0 <= j < RATES ==> apart(rates()[k] as int, rate as int) <= apart(
            #[trigger] rates()[j] as int,
            rate as int,
        )
}

/// Where a speed stands among those to step through, which are a quarter apart: at the
/// one nearest to it.
pub open spec fn rate_index(rate: u32) -> int {
    if rate < 25 {
        0
    } else if rate > 200 {
        RATES - 1
    } else {
        (rate - 25 + 12) / 25
    }
}

/// A speed stands at the one nearest to it among those to step through, and there is no
/// other as near: no whole number of hundredths is halfway between two of them.
pub proof fn lemma_speeds_snap_to_the_nearest(rate: u32, k: int)
    ensures
        is_nearest(rate, k) <==> k == rate_index(rate),
{
    let at = rate_index(rate);
    assert forall|j: int| 0 <= j < RATES implies #[trigger] rates()[j] == 25 + 25 * j by {}
    assert(is_nearest(rate, at));
    if is_nearest(rate, k) {
        assert(apart(rates()[k] as int, rate as int) <= apart(rates()[at] as int, rate as int));
        assert(apart(rates()[at] as int, rate as int) <= apart(rates()[k] as int, rate as int));
    }
}

fn find_rate(rate: u32) -> (r: usize)
    ensures
        r == rate_index(rate),
        r < RATES,
{
    let mut best: usize = 0;
    let mut i: usize = 1;
    while i < RATES
        invariant
            1 <= i <= RATES,
            best < i,
            forall|j: int|
                0 <= j < i ==> apart(rates()[best as int] as int, rate as int) <= apart(
                    #[trigger] rates()[j] as int,
                    rate as int,
                ),
        decreases RATES - i,
    {
        if distance(rate_at(i), rate) < distance(rate_at(best), rate) {
            best = i;
        }
        i += 1;
    }
    proof {
        lemma_speeds_snap_to_the_nearest(rate, best as int);
    }
    best
}

fn distance(a: u32, b: u32) -> (r: u32)
    ensures
        r == apart(a as int, b as int),
{
    if a < b {
        b - a
    } else {
        a - b
    }
}

/// The speed some steps away, no further than the last.
pub open spec fn rate_after(rate: u32, direction: int) -> u32 {
    let at = rate_index(rate) + direction;
    rates()[if at < 0 {
        0
    } else if at >= RATES {
        RATES - 1
    } else {
        at
    }]
}

/// The speed some steps away, no further than the last.
fn step_rate(rate: u32, direction: i32) -> (r: u32)
    ensures
        r == rate_after(rate, direction as int),
{
    let at: i64 = find_rate(rate) as i64 + direction as i64;
    if at < 0 {
        rate_at(0)
    } else if at >= RATES as i64 {
        rate_at(RATES - 1)
    } else {
        rate_at(at as usize)
    }
}

/// A step up and a step down cancel out, between the slowest speed and the fastest.
pub proof fn lemma_rate_steps_cancel(rate: u32)
    requires
        rates().contains(rate),
    ensures
        rate < 200 ==> rate_after(rate_after(rate, 1), -1) == rate,
        rate > 25 ==> rate_after(rate_after(rate, -1), 1) == rate,
        rate == 200 ==> rate_after(rate, 1) == rate,
        rate == 25 ==> rate_after(rate, -1) == rate,
{
    let at = rates().index_of(rate);
    assert(0 <= at < 8 && rates()[at] == rate);
}

/// Something to show on the error chip.
#[derive(Debug, Clone, PartialEq, Eq)]
pub enum Problem {
    /// In the engine's words.
    Playback(String),
    /// The location cannot be opened.
    Location(LocationError),
    /// A clip could not be written.
    Export(String),
    /// The out point is not after the in point.
    Backwards,
    /// There is no range to export.
    NoRange,
    /// There is no local file to export from.
    NotLocal,
}

impl Problem {
    /// The problem, in words.
    pub open spec fn spec_message(&self) -> Seq<char> {
        match self {
            Problem::Playback(words) => words@,
            Problem::Location(error) => error.spec_message(),
            Problem::Export(why) => "clip export failed: "@ + why@,
            Problem::Backwards => "the out point must come after the in point"@,
            Problem::NoRange => "set an in and an out point first"@,
            Problem::NotLocal => "clip export needs a local file"@,
        }
    }

    pub fn message(&self) -> (r: String)
        ensures
            r@ == self.spec_message(),
    {
        match self {
            Problem::Playback(words) => words.clone(),
            Problem::Location(error) => error.message(),
            Problem::Export(why) => {
                let mut r: String = "clip export failed: ".to_owned();
                r.append(why.as_str());
                r
            },
            Problem::Backwards => "the out point must come after the in point".to_owned(),
            Problem::NoRange => "set an in and an out point first".to_owned(),
            Problem::NotLocal => "clip export needs a local file".to_owned(),
        }
    }
}

/// What happens to the player.
#[derive(Debug, Clone, PartialEq, Eq)]
pub enum Message {
    Engine(Event),
    /// Time has passed. The engine's position and length come with it, as far as it
    /// knows them.
    Tick { position: Option<Duration>, duration: Option<Duration> },
    Key(KeyEvent),
    Activity,
    TogglePlay,
    /// Skip so many seconds, backwards where negative.
    Skip(i64),
    /// Seek to a place on the scrub bar, out of [`PARTS`].
    SeekFraction(u32),
    /// Set the volume, in percent; it is kept in range.
    SetVolume(i64),
    ToggleMute,
    SetAudioEffects(AudioEffects),
    StepRate(i32),
    OpenDialog,
    Picked(Option<String>),
    ToggleFullscreen,
    TogglePanel,
    Dropped(String),
    DragOver(bool),
    SelectTrack(TrackKind, Option<String>),
    /// Set the speed, in hundredths.
    SetRate(u32),
    MarkIn,
    MarkOut,
    ClearClip,
    SetContainer(Container),
    ExportClip,
    ShowUrlPrompt,
    UrlInput(String),
    SubmitUrl,
    CloseUrlPrompt,
    CopyError,
    DismissError,
}

/// What the player asks for.
#[derive(Debug, PartialEq, Eq)]
pub enum Command {
    Play,
    Pause,
    Seek(Duration),
    SetVolume(u32),
    SetAudioEffects(AudioEffects),
    SetRate(u32),
    SelectTrack(TrackKind, Option<String>),
    ExportClip(ClipRequest),
    /// Look for a file, from the current directory where its path is not absolute.
    Find { path: String, absolute: bool },
    /// Open a source in the engine.
    Open(String),
    /// Show the frames that the engine hands over.
    UseFrames,
    PickFile,
    SetFullscreen(bool),
    FocusUrlField,
    CopyText(String),
}

/// What the player knows.
#[derive(Debug, PartialEq, Eq)]
pub struct Myvid {
    /// The engine is live.
    pub engine: bool,
    pub state: State,
    pub info: MediaInfo,
    pub source: Option<String>,
    /// Path of the source, if it is a local file.
    pub local: Option<String>,
    pub position: Duration,
    pub duration: Option<Duration>,
    /// In percent.
    pub volume: u32,
    pub muted: bool,
    pub effects: AudioEffects,
    /// In hundredths.
    pub rate: u32,
    pub buffering: Option<u8>,
    pub subtitle: Option<String>,
    /// Media position at which the current cue stops being shown.
    pub subtitle_end: Option<Duration>,
    pub tracks: Vec<Track>,
    pub panel: bool,
    pub clip_in: Option<Duration>,
    pub clip_out: Option<Duration>,
    pub container: Container,
    pub export: Option<Export>,
    pub error: Option<Problem>,
    pub chrome: bool,
    /// When something was last touched.
    pub last_activity: Duration,
    pub fullscreen: bool,
    /// A file is being dragged over the window.
    pub hovering: bool,
    /// Contents of the URL prompt while it is open.
    pub url_prompt: Option<String>,
    /// A file named on the command line, held until the engine exists.
    pub pending: Option<String>,
}

/// One command, where there is an engine to give it to.
pub open spec fn told(engine: bool, command: Command) -> Seq<Command> {
    if engine {
        seq![command]
    } else {
        Seq::empty()
    }
}

/// Where a skip of so many seconds goes, in media of a length.
pub open spec fn skip_target(position: int, total: int, seconds: int) -> int {
    let to = position + seconds * time::SECOND;
    if seconds < 0 {
        if to < 0 {
            0
        } else {
            to
        }
    } else if to > total {
        total
    } else {
        to
    }
}

/// A place on the scrub bar as a time, in media of a length.
pub open spec fn scrub_target(total: int, parts: int) -> int {
    if parts >= PARTS {
        total
    } else {
        total * parts / PARTS as int
    }
}

/// A volume, kept in range.
pub open spec fn in_volume_range(volume: int) -> u32 {
    if volume < 0 {
        0
    } else if volume > MAX_VOLUME {
        MAX_VOLUME
    } else {
        volume as u32
    }
}

impl Myvid {
    /// What holds of every state of the player: the volume is in range, a clip ends
    /// after it starts, and buffering that is done is not shown.
    pub open spec fn sound(&self) -> bool {
        &&& self.volume <= MAX_VOLUME
        &&& self.clip_in matches Some(start) ==> (self.clip_out matches Some(end) ==> start.nanos
            < end.nanos)
        &&& self.buffering matches Some(percent) ==> percent < 100
    }

    /// Something was touched.
    pub open spec fn woken(self, now: Duration) -> Myvid {
        Myvid { last_activity: now, chrome: true, ..self }
    }

    /// Time has passed: the position is the engine's, the length too where it was not
    /// known, a cue whose time is over is gone, and the chrome hides once nothing has
    /// been touched for a while and something is actually playing.
    pub open spec fn ticked(
        self,
        now: Duration,
        position: Option<Duration>,
        duration: Option<Duration>,
    ) -> Myvid {
        let at = if self.engine && position is Some {
            position->0
        } else {
            self.position
        };
        let over = self.subtitle_end matches Some(end) && at.nanos > end.nanos;
        let idle = now.nanos > self.last_activity.nanos + IDLE_MILLIS * time::MILLISECOND;
        Myvid {
            position: at,
            duration: if self.engine && self.duration is None {
                duration
            } else {
                self.duration
            },
            subtitle: if over {
                None
            } else {
                self.subtitle
            },
            subtitle_end: if over {
                None
            } else {
                self.subtitle_end
            },
            chrome: !(idle && self.state == State::Playing && self.buffering is None),
            ..self
        }
    }

    /// Moved to another position, which no cue is known of.
    pub open spec fn moved(self, to: int) -> Myvid {
        Myvid { position: Duration { nanos: to as u128 }, subtitle: None, ..self }
    }
}

/// What starting on a source does: everything known of the one before is dropped.
pub open spec fn starting(before: Myvid, uri: Seq<char>, after: Myvid, asked: Seq<Command>) -> bool {
    &&& after == (Myvid {
        info: after.info,
        position: Duration { nanos: 0 },
        duration: None,
        rate: NORMAL_RATE,
        subtitle: None,
        subtitle_end: None,
        tracks: after.tracks,
        clip_in: None,
        clip_out: None,
        export: None,
        error: None,
        source: after.source,
        local: None,
        ..before
    })
    &&& after.info.blank()
    &&& after.tracks@.len() == 0
    &&& after.source matches Some(source) && source@ == uri && asked == seq![Command::Open(source)]
}

/// What opening a location does. Before there is an engine it waits; a location with
/// a known scheme is started on at once; anything else is a file to be found first.
pub open spec fn opening(
    before: Myvid,
    location: Seq<char>,
    after: Myvid,
    asked: Seq<Command>,
) -> bool {
    let place = text::trimmed(location);
    if !before.engine {
        &&& after == (Myvid { pending: after.pending, ..before })
        &&& after.pending matches Some(pending) && pending@ == location
        &&& asked.len() == 0
    } else if place.len() == 0 {
        &&& after == (Myvid { error: Some(Problem::Location(LocationError::Empty)), ..before })
        &&& asked.len() == 0
    } else if engine::has_known_scheme(place) {
        starting(before, place, after, asked)
    } else {
        &&& after == before
        &&& asked.len() == 1
        &&& asked[0] matches Command::Find { path, absolute } && path@ == place && absolute == (
        place[0] == '/')
    }
}

/// What is known of the media once the engine has reported some of it. Tags arrive
/// piecemeal, so what is already known is kept where the report says nothing.
pub open spec fn merged(known: MediaInfo, info: MediaInfo) -> MediaInfo {
    MediaInfo {
        title: if info.title@.len() > 0 {
            info.title
        } else {
            known.title
        },
        video_codec: if info.video_codec@.len() > 0 {
            info.video_codec
        } else {
            known.video_codec
        },
        audio_codec: if info.audio_codec@.len() > 0 {
            info.audio_codec
        } else {
            known.audio_codec
        },
        container: if info.container@.len() > 0 {
            info.container
        } else {
            known.container
        },
        audio_channels: if info.audio_channels > 0 {
            info.audio_channels
        } else {
            known.audio_channels
        },
        audio_rate: if info.audio_channels > 0 {
            info.audio_rate
        } else {
            known.audio_rate
        },
        audio_bitrate: if info.audio_channels > 0 {
            info.audio_bitrate
        } else {
            known.audio_bitrate
        },
        hardware: info.hardware,
        ..known
    }
}

/// What a report from the engine does.
pub open spec fn reported(before: Myvid, event: Event, after: Myvid, asked: Seq<Command>) -> bool {
    match event {
        Event::Ready => {
            let ready = Myvid { engine: true, pending: None, ..before };
            let first = seq![
                Command::UseFrames,
                Command::SetVolume(before.volume),
                Command::SetAudioEffects(before.effects),
            ];
            match before.pending {
                None => after == ready && asked == first,
                Some(pending) => {
                    &&& first.is_prefix_of(asked)
                    &&& opening(ready, pending@, after, asked.skip(3))
                },
            }
        },
        Event::Loaded(info) => after == (Myvid { info: merged(before.info, info), ..before })
            && asked.len() == 0,
        Event::State(state) => {
            &&& after == (Myvid {
                state,
                buffering: if state == State::Playing {
                    None
                } else {
                    before.buffering
                },
                chrome: before.chrome || state != before.state,
                ..before
            })
            &&& asked.len() == 0
        },
        Event::Duration(duration) => after == (Myvid { duration: Some(duration), ..before })
            && asked.len() == 0,
        Event::Buffering(percent) => {
            &&& after == (Myvid {
                buffering: if percent < 100 {
                    Some(percent)
                } else {
                    None
                },
                ..before
            })
            &&& asked.len() == 0
        },
        Event::Frame(width, height) => {
            &&& after == (Myvid { info: MediaInfo { width, height, ..before.info }, ..before })
            &&& asked.len() == 0
        },
        Event::Subtitle { text, start, end } => {
            &&& after == (Myvid {
                subtitle_end: if text is Some {
                    Some(end)
                } else {
                    None
                },
                position: if text is Some && start.nanos > before.position.nanos {
                    start
                } else {
                    before.position
                },
                subtitle: text,
                ..before
            })
            &&& asked.len() == 0
        },
        Event::Tracks(tracks) => after == (Myvid { tracks, ..before }) && asked.len() == 0,
        Event::Export(export) => {
            &&& after == (Myvid {
                error: match export {
                    Export::Failed(why) => Some(Problem::Export(why)),
                    _ => before.error,
                },
                export: Some(export),
                ..before
            })
            &&& asked.len() == 0
        },
        Event::Eos => after == (Myvid { state: State::Ended, chrome: true, ..before })
            && asked.len() == 0,
        Event::Error(words) => {
            &&& after == (Myvid { error: Some(Problem::Playback(words)), chrome: true, ..before })
            &&& asked.len() == 0
        },
    }
}

/// What exporting the marked clip does.
pub open spec fn exporting(before: Myvid, after: Myvid, asked: Seq<Command>) -> bool {
    if before.clip_in is None || before.clip_out is None {
        after == (Myvid { error: Some(Problem::NoRange), ..before }) && asked.len() == 0
    } else {
        let start = before.clip_in->0;
        let end = before.clip_out->0;
        let output = match before.local {
            Some(path) => clip::clip_output(path@, start, end, before.container),
            None => None,
        };
        if output is None {
            after == (Myvid { error: Some(Problem::NotLocal), ..before }) && asked.len() == 0
        } else if before.engine {
            &&& after == (Myvid { export: Some(Export::Progress(0)), ..before })
            &&& asked.len() == 1
            &&& asked[0] matches Command::ExportClip(request) && request.start == start
                && request.end == end && request.container == before.container
                && request.output@ == output->0
        } else {
            after == before && asked.len() == 0
        }
    }
}

/// What submitting the URL prompt does.
pub open spec fn submitting(before: Myvid, after: Myvid, asked: Seq<Command>) -> bool {
    let closed = Myvid { url_prompt: None, ..before };
    match before.url_prompt {
        Some(value) if text::trimmed(value@).len() > 0 => opening(
            closed,
            text::trimmed(value@),
            after,
            asked,
        ),
        _ => after == closed && asked.len() == 0,
    }
}

/// What finding a file, or not, does.
pub open spec fn locating(
    before: Myvid,
    path: String,
    found: bool,
    uri: Result<String, String>,
    after: Myvid,
    asked: Seq<Command>,
) -> bool {
    let failed = |error: LocationError|
        {
            &&& after == (Myvid { error: Some(Problem::Location(error)), ..before })
            &&& asked.len() == 0
        };
    if !found {
        failed(LocationError::NoSuchFile(path))
    } else {
        match uri {
            Ok(uri) => starting(before, uri@, after, asked),
            Err(why) => failed(LocationError::NoUri(why)),
        }
    }
}

/// What opening the source, or failing to, does: what opens is played.
pub open spec fn settling(
    before: Myvid,
    path: Option<String>,
    result: Result<(), String>,
    after: Myvid,
    asked: Seq<Command>,
) -> bool {
    match result {
        Ok(_) => after == (Myvid { local: path, ..before }) && asked == seq![Command::Play],
        Err(why) => {
            &&& after == (Myvid { local: path, error: Some(Problem::Playback(why)), ..before })
            &&& asked.len() == 0
        },
    }
}

/// What one message does, other than a key press and a report from the engine.
pub open spec fn acted(
    before: Myvid,
    now: Duration,
    message: Message,
    after: Myvid,
    asked: Seq<Command>,
) -> bool {
    let woken = before.woken(now);
    match message {
        Message::Tick { position, duration } => {
            &&& after == before.ticked(now, position, duration)
            &&& asked.len() == 0
        },
        Message::Activity => after == woken && asked.len() == 0,
        Message::TogglePlay => after == woken && asked == told(before.engine, 
            if before.state == State::Playing {
                Command::Pause
            } else {
                Command::Play
            },
        ),
        Message::Skip(seconds) => if before.source is None || before.duration is None
            || !before.engine {
            after == woken && asked.len() == 0
        } else {
            let to = skip_target(
                before.position.nanos as int,
                before.duration->0.nanos as int,
                seconds as int,
            );
            &&& after == woken.moved(to)
            &&& asked == seq![Command::Seek(Duration { nanos: to as u128 })]
        },
        Message::SeekFraction(parts) => if before.duration is None || !before.engine {
            after == woken && asked.len() == 0
        } else {
            let to = scrub_target(before.duration->0.nanos as int, parts as int);
            &&& after == woken.moved(to)
            &&& asked == seq![Command::Seek(Duration { nanos: to as u128 })]
        },
        Message::SetVolume(volume) => {
            let kept = in_volume_range(volume as int);
            &&& after == (Myvid { volume: kept, muted: kept == 0, ..woken })
            &&& asked == told(before.engine, Command::SetVolume(kept))
        },
        Message::ToggleMute => {
            &&& after == (Myvid { muted: !before.muted, ..woken })
            &&& asked == told(before.engine, 
                Command::SetVolume(
                    if before.muted {
                        before.volume
                    } else {
                        0
                    },
                ),
            )
        },
        Message::SetAudioEffects(effects) => {
            &&& after == (Myvid { effects, ..before })
            &&& asked == told(before.engine, Command::SetAudioEffects(effects))
        },
        Message::StepRate(direction) => {
            let rate = rate_after(before.rate, direction as int);
            &&& after == (Myvid { rate, ..woken })
            &&& asked == told(before.engine, Command::SetRate(rate))
        },
        Message::OpenDialog => after == woken && asked == seq![Command::PickFile],
        Message::Picked(Some(path)) => opening(before, path@, after, asked),
        Message::Picked(None) => after == before && asked.len() == 0,
        Message::ToggleFullscreen => {
            &&& after == (Myvid { fullscreen: !before.fullscreen, ..woken })
            &&& asked == seq![Command::SetFullscreen(!before.fullscreen)]
        },
        Message::TogglePanel => after == (Myvid { panel: !before.panel, ..woken })
            && asked.len() == 0,
        Message::Dropped(path) => opening(
            Myvid { hovering: false, ..woken },
            path@,
            after,
            asked,
        ),
        Message::DragOver(hovering) => {
            &&& after == (Myvid {
                hovering,
                ..if hovering {
                    woken
                } else {
                    before
                }
            })
            &&& asked.len() == 0
        },
        Message::SelectTrack(kind, id) => {
            let off = kind == TrackKind::Text && id is None;
            &&& after == (Myvid {
                subtitle: if off {
                    None
                } else {
                    before.subtitle
                },
                subtitle_end: if off {
                    None
                } else {
                    before.subtitle_end
                },
                ..woken
            })
            &&& asked == told(before.engine, Command::SelectTrack(kind, id))
        },
        Message::SetRate(rate) => {
            &&& after == (Myvid { rate, ..woken })
            &&& asked == told(before.engine, Command::SetRate(rate))
        },
        Message::MarkIn => {
            let past = before.clip_out matches Some(out) && out.nanos <= before.position.nanos;
            &&& after == (Myvid {
                clip_in: Some(before.position),
                clip_out: if past {
                    None
                } else {
                    before.clip_out
                },
                export: None,
                ..woken
            })
            &&& asked.len() == 0
        },
        Message::MarkOut => {
            let fits = before.clip_in matches Some(start) ==> start.nanos < before.position.nanos;
            &&& after == (if fits {
                Myvid { clip_out: Some(before.position), export: None, ..woken }
            } else {
                Myvid { error: Some(Problem::Backwards), ..woken }
            })
            &&& asked.len() == 0
        },
        Message::ClearClip => {
            &&& after == (Myvid { clip_in: None, clip_out: None, export: None, ..woken })
            &&& asked.len() == 0
        },
        Message::SetContainer(container) => after == (Myvid { container, ..woken })
            && asked.len() == 0,
        Message::ExportClip => exporting(woken, after, asked),
        Message::ShowUrlPrompt => {
            &&& after == (Myvid { url_prompt: after.url_prompt, ..woken })
            &&& after.url_prompt matches Some(value) && value@.len() == 0
            &&& asked == seq![Command::FocusUrlField]
        },
        Message::UrlInput(value) => after == (Myvid { url_prompt: Some(value), ..before })
            && asked.len() == 0,
        Message::SubmitUrl => submitting(before, after, asked),
        Message::CloseUrlPrompt => after == (Myvid { url_prompt: None, ..before })
            && asked.len() == 0,
        Message::CopyError => {
            &&& after == before
            &&& match before.error {
                None => asked.len() == 0,
                Some(problem) => asked.len() == 1 && (asked[0] matches Command::CopyText(words)
                    && words@ == problem.spec_message()),
            }
        },
        Message::DismissError => after == (Myvid { error: None, ..before }) && asked.len() == 0,
        Message::Engine(_) | Message::Key(_) => after == before && asked.len() == 0,
    }
}

/// What a key press means to the player. While the prompt is open only Escape is a
/// shortcut; everything else is someone typing a URL. Ctrl chords are their own
/// namespace.
pub open spec fn meaning(player: Myvid, key: Key, modifiers: Modifiers) -> Option<Message> {
    let letter = keys::letter(key);
    if player.url_prompt is Some {
        if key == Key::Named(Named::Escape) {
            Some(Message::CloseUrlPrompt)
        } else {
            None
        }
    } else if keys::is_chord(key, modifiers) {
        if letter == Some(seq!['l']) {
            Some(Message::ShowUrlPrompt)
        } else if letter == Some(seq!['o']) {
            Some(Message::OpenDialog)
        } else {
            None
        }
    } else {
        match key {
            Key::Named(Named::Space) => Some(Message::TogglePlay),
            Key::Named(Named::ArrowLeft) => Some(Message::Skip((-NUDGE) as i64)),
            Key::Named(Named::ArrowRight) => Some(Message::Skip(NUDGE)),
            Key::Named(Named::ArrowUp) => Some(
                Message::SetVolume((player.volume + VOLUME_STEP) as i64),
            ),
            Key::Named(Named::ArrowDown) => Some(
                Message::SetVolume((player.volume - VOLUME_STEP) as i64),
            ),
            Key::Named(Named::Escape) => if player.fullscreen {
                Some(Message::ToggleFullscreen)
            } else {
                None
            },
            Key::Character(_) => if letter == Some(seq!['j']) {
                Some(Message::Skip((-SKIP) as i64))
            } else if letter == Some(seq!['l']) {
                Some(Message::Skip(SKIP))
            } else if letter == Some(seq!['k']) {
                Some(Message::TogglePlay)
            } else if letter == Some(seq!['f']) {
                Some(Message::ToggleFullscreen)
            } else if letter == Some(seq!['m']) {
                Some(Message::ToggleMute)
            } else if letter == Some(seq!['o']) {
                Some(Message::MarkOut)
            } else if letter == Some(seq!['i']) {
                Some(Message::MarkIn)
            } else if letter == Some(seq!['t']) {
                Some(Message::TogglePanel)
            } else if letter == Some(seq!['e']) && player.clip_in is Some {
                Some(Message::ExportClip)
            } else if letter == Some(seq!['[']) {
                Some(Message::StepRate((-1) as i32))
            } else if letter == Some(seq![']']) {
                Some(Message::StepRate(1))
            } else {
                None
            },
            _ => None,
        }
    }
}

/// What one message does.
pub open spec fn updated(
    before: Myvid,
    now: Duration,
    message: Message,
    after: Myvid,
    asked: Seq<Command>,
) -> bool {
    match message {
        Message::Engine(event) => reported(before, event, after, asked),
        Message::Key(KeyEvent::Pressed { key, modifiers }) => {
            let woken = before.woken(now);
            match meaning(woken, key, modifiers) {
                Some(meant) => acted(woken, now, meant, after, asked),
                None => after == woken && asked.len() == 0,
            }
        },
        Message::Key(KeyEvent::Other) => after == before && asked.len() == 0,
        _ => acted(before, now, message, after, asked),
    }
}

impl Myvid {
    /// The player as it starts, with a location named on the command line if there is
    /// one.
    pub fn boot(now: Duration, pending: Option<String>) -> (r: Myvid)
        ensures
            r == (Myvid {
                engine: false,
                state: State::Idle,
                info: r.info,
                source: None,
                local: None,
                position: Duration { nanos: 0 },
                duration: None,
                volume: FULL_VOLUME,
                muted: false,
                effects: AudioEffects { dialogue: false, night: false },
                rate: NORMAL_RATE,
                buffering: None,
                subtitle: None,
                subtitle_end: None,
                tracks: r.tracks,
                panel: false,
                clip_in: None,
                clip_out: None,
                container: Container::Matroska,
                export: None,
                error: None,
                chrome: true,
                last_activity: now,
                fullscreen: false,
                hovering: false,
                url_prompt: None,
                pending,
            }),
            r.info.blank(),
            r.tracks@.len() == 0,
            r.sound(),
    {
        Myvid {
            engine: false,
            state: State::Idle,
            info: MediaInfo::default(),
            source: None,
            local: None,
            position: Duration::zero(),
            duration: None,
            volume: FULL_VOLUME,
            muted: false,
            effects: AudioEffects::default(),
            rate: NORMAL_RATE,
            buffering: None,
            subtitle: None,
            subtitle_end: None,
            tracks: Vec::new(),
            panel: false,
            clip_in: None,
            clip_out: None,
            container: Container::Matroska,
            export: None,
            error: None,
            chrome: true,
            last_activity: now,
            fullscreen: false,
            hovering: false,
            url_prompt: None,
            pending,
        }
    }

    fn wake(&mut self, now: Duration)
        ensures
            *final(self) == old(self).woken(now),
    {
        self.last_activity = now;
        self.chrome = true;
    }

    /// One command, where there is an engine to give it to.
    fn tell(&self, command: Command) -> (r: Vec<Command>)
        ensures
            r@ == told(self.engine, command),
    {
        let mut r: Vec<Command> = Vec::new();
        if self.engine {
            r.push(command);
        }
        proof {
            assert(r@ =~= told(self.engine, command));
        }
        r
    }

    /// Start on a source: everything known of the one before is dropped.
    fn start(&mut self, uri: String) -> (r: Vec<Command>)
        ensures
            starting(*old(self), uri@, *final(self), r@),
    {
        self.info = MediaInfo::default();
        self.position = Duration::zero();
        self.duration = None;
        self.rate = NORMAL_RATE;
        self.subtitle = None;
        self.subtitle_end = None;
        self.tracks = Vec::new();
        self.clip_in = None;
        self.clip_out = None;
        self.export = None;
        self.error = None;
        self.local = None;
        self.source = Some(uri.clone());
        let mut r: Vec<Command> = Vec::new();
        r.push(Command::Open(uri));
        proof {
            assert(r@ =~= seq![Command::Open(uri)]);
        }
        r
    }

    /// Open a location: a path, or something typed.
    fn open(&mut self, location: &str) -> (r: Vec<Command>)
        ensures
            opening(*old(self), location@, *final(self), r@),
    {
        if !self.engine {
            self.pending = Some(location.to_owned());
            return Vec::new();
        }
        match to_uri(location) {
            Err(error) => {
                self.error = Some(Problem::Location(error));
                Vec::new()
            },
            Ok(Location::Uri(uri)) => self.start(uri),
            Ok(Location::File { path, absolute }) => {
                let mut r: Vec<Command> = Vec::new();
                r.push(Command::Find { path, absolute });
                r
            },
        }
    }
}

/// Where a skip of so many seconds goes, in media of a length.
fn skip_to(position: Duration, total: Duration, seconds: i64) -> (r: Duration)
    ensures
        r.nanos == skip_target(position.nanos as int, total.nanos as int, seconds as int),
{
    if seconds < 0 {
        let back: u128 = (-(seconds as i128)) as u128 * time::SECOND;
        position.saturating_sub(Duration { nanos: back })
    } else {
        let ahead: u128 = seconds as u128 * time::SECOND;
        if position.nanos > total.nanos || ahead > total.nanos - position.nanos {
            total
        } else {
            Duration { nanos: position.nanos + ahead }
        }
    }
}

/// A place on the scrub bar as a time, in media of a length.
fn scrub_to(total: Duration, parts: u32) -> (r: Duration)
    ensures
        r.nanos == scrub_target(total.nanos as int, parts as int),
{
    if parts >= PARTS {
        return total;
    }
    let whole: u128 = PARTS as u128;
    let p: u128 = parts as u128;
    let q: u128 = total.nanos / whole;
    let rest: u128 = total.nanos % whole;
    proof {
        let t = total.nanos as int;
        assert(q == t / 1_000_000_000 && rest == t % 1_000_000_000);
        assert(q * p <= t) by (nonlinear_arith)
            requires
                q * 1_000_000_000 + rest == t,
                0 <= p < 1_000_000_000,
                0 <= q,
                0 <= rest,
        ;
        assert(0 <= rest * p < 1_000_000_000 * 1_000_000_000) by (nonlinear_arith)
            requires
                0 <= rest < 1_000_000_000,
                0 <= p < 1_000_000_000,
        ;
        assert(t * p == q * p * 1_000_000_000 + rest * p) by (nonlinear_arith)
            requires
                q * 1_000_000_000 + rest == t,
        ;
        assert(t * p / 1_000_000_000 == q * p + rest * p / 1_000_000_000) by (nonlinear_arith)
            requires
                t * p == q * p * 1_000_000_000 + rest * p,
                0 <= rest * p,
        ;
        assert(t * p / 1_000_000_000 <= t) by (nonlinear_arith)
            requires
                0 <= t,
                0 <= p < 1_000_000_000,
        ;
    }
    Duration { nanos: q * p + rest * p / whole }
}

/// Add a report to what is known of the media.
fn merge(known: &mut MediaInfo, info: MediaInfo)
    ensures
        *final(known) == merged(*old(known), info),
{
    if !info.title.as_str().is_empty() {
        known.title = info.title;
    }
    if !info.video_codec.as_str().is_empty() {
        known.video_codec = info.video_codec;
    }
    if !info.audio_codec.as_str().is_empty() {
        known.audio_codec = info.audio_codec;
    }
    if !info.container.as_str().is_empty() {
        known.container = info.container;
    }
    if info.audio_channels > 0 {
        known.audio_channels = info.audio_channels;
        known.audio_rate = info.audio_rate;
        known.audio_bitrate = info.audio_bitrate;
    }
    known.hardware = info.hardware;
}

impl Myvid {
    /// Take in a report from the engine.
    pub fn on_engine_event(&mut self, event: Event) -> (r: Vec<Command>)
        ensures
            reported(*old(self), event, *final(self), r@),
    {
        let mut r: Vec<Command> = Vec::new();
        match event {
            Event::Ready => {
                r.push(Command::UseFrames);
                r.push(Command::SetVolume(self.volume));
                r.push(Command::SetAudioEffects(self.effects));
                let ghost first = r@;
                self.engine = true;
                let pending: Option<String> = self.pending.take();
                if let Some(location) = pending {
                    let mut more: Vec<Command> = self.open(location.as_str());
                    let ghost rest = more@;
                    r.append(&mut more);
                    proof {
                        assert(r@.skip(3) =~= rest);
                        assert(first =~= r@.subrange(0, 3));
                    }
                }
                proof {
                    assert(first =~= seq![
                        Command::UseFrames,
                        Command::SetVolume(old(self).volume),
                        Command::SetAudioEffects(old(self).effects),
                    ]);
                }
            },
            Event::Loaded(info) => {
                merge(&mut self.info, info);
            },
            Event::State(state) => {
                // Any change of state brings the controls back.
                if state != self.state {
                    self.chrome = true;
                }
                self.state = state;
                if state.is_playing() {
                    self.buffering = None;
                }
            },
            Event::Duration(duration) => {
                self.duration = Some(duration);
            },
            Event::Buffering(percent) => {
                self.buffering = if percent < 100 {
                    Some(percent)
                } else {
                    None
                };
            },
            Event::Frame(width, height) => {
                // Carried on the event so no one takes the frame lock just to learn
                // the resolution.
                self.info.width = width;
                self.info.height = height;
            },
            Event::Subtitle { text, start, end } => {
                // The cue arrives at its presentation time, but the position is
                // polled: trust the cue's own timestamps over that sample.
                if text.is_some() {
                    self.subtitle_end = Some(end);
                    self.position = self.position.max(start);
                } else {
                    self.subtitle_end = None;
                }
                self.subtitle = text;
            },
            Event::Tracks(tracks) => {
                self.tracks = tracks;
            },
            Event::Export(export) => {
                if let Export::Failed(why) = &export {
                    self.error = Some(Problem::Export(why.clone()));
                }
                self.export = Some(export);
            },
            Event::Eos => {
                self.state = State::Ended;
                self.chrome = true;
            },
            Event::Error(words) => {
                self.error = Some(Problem::Playback(words));
                self.chrome = true;
            },
        }
        r
    }
}

impl Myvid {
    /// Time has passed.
    fn tick(&mut self, now: Duration, position: Option<Duration>, duration: Option<Duration>)
        ensures
            *final(self) == old(self).ticked(now, position, duration),
    {
        if self.engine {
            if let Some(position) = position {
                self.position = position;
            }
            if self.duration.is_none() {
                self.duration = duration;
            }
        }
        if let Some(end) = self.subtitle_end {
            if self.position.nanos > end.nanos {
                self.subtitle = None;
                self.subtitle_end = None;
            }
        }
        // Chrome only hides while something is actually playing.
        let still: Duration = now.saturating_sub(self.last_activity);
        let idle: bool = still.nanos > Duration::from_millis(IDLE_MILLIS).nanos;
        self.chrome = !(idle && self.state.is_playing() && self.buffering.is_none());
    }

    /// Export the marked clip.
    fn export_clip(&mut self) -> (r: Vec<Command>)
        ensures
            exporting(*old(self), *final(self), r@),
    {
        let (start, end) = match (self.clip_in, self.clip_out) {
            (Some(start), Some(end)) => (start, end),
            _ => {
                self.error = Some(Problem::NoRange);
                return Vec::new();
            },
        };
        let output: Option<String> = match &self.local {
            Some(path) => clip_path(path.as_str(), start, end, self.container),
            None => None,
        };
        let mut r: Vec<Command> = Vec::new();
        match output {
            None => {
                self.error = Some(Problem::NotLocal);
            },
            Some(output) => {
                if self.engine {
                    self.export = Some(Export::Progress(0));
                    r.push(
                        Command::ExportClip(
                            ClipRequest { start, end, output, container: self.container },
                        ),
                    );
                }
            },
        }
        r
    }

    /// Submit what the URL prompt holds.
    fn submit_url(&mut self) -> (r: Vec<Command>)
        ensures
            submitting(*old(self), *final(self), r@),
    {
        match self.url_prompt.take() {
            None => Vec::new(),
            Some(value) => {
                let url: String = trim(value.as_str());
                if url.as_str().is_empty() {
                    return Vec::new();
                }
                self.open(url.as_str())
            },
        }
    }

    /// Play, or pause.
    fn toggle_play(&mut self, now: Duration) -> (r: Vec<Command>)
        ensures
            acted(*old(self), now, Message::TogglePlay, *final(self), r@),
    {
        self.wake(now);
        if self.state.is_playing() {
            self.tell(Command::Pause)
        } else {
            self.tell(Command::Play)
        }
    }

    /// Skip so many seconds.
    fn skip(&mut self, now: Duration, seconds: i64) -> (r: Vec<Command>)
        ensures
            acted(*old(self), now, Message::Skip(seconds), *final(self), r@),
    {
        self.wake(now);
        // Nothing open, or a live source with no duration, cannot be seeked. Saying
        // nothing beats reporting a failure the user did not cause.
        if self.source.is_none() || !self.engine {
            return Vec::new();
        }
        match self.duration {
            None => Vec::new(),
            Some(total) => {
                let target: Duration = skip_to(self.position, total, seconds);
                self.position = target;
                self.subtitle = None;
                one(Command::Seek(target))
            },
        }
    }

    /// Seek to a place on the scrub bar.
    fn seek_fraction(&mut self, now: Duration, parts: u32) -> (r: Vec<Command>)
        ensures
            acted(*old(self), now, Message::SeekFraction(parts), *final(self), r@),
    {
        self.wake(now);
        if !self.engine {
            return Vec::new();
        }
        match self.duration {
            None => Vec::new(),
            Some(total) => {
                let target: Duration = scrub_to(total, parts);
                self.position = target;
                self.subtitle = None;
                one(Command::Seek(target))
            },
        }
    }

    /// Set the volume, kept in range.
    fn set_volume(&mut self, now: Duration, volume: i64) -> (r: Vec<Command>)
        ensures
            acted(*old(self), now, Message::SetVolume(volume), *final(self), r@),
    {
        self.wake(now);
        self.volume = if volume < 0 {
            0
        } else if volume > MAX_VOLUME as i64 {
            MAX_VOLUME
        } else {
            volume as u32
        };
        self.muted = self.volume == 0;
        self.tell(Command::SetVolume(self.volume))
    }

    /// Mute, or unmute.
    fn toggle_mute(&mut self, now: Duration) -> (r: Vec<Command>)
        ensures
            acted(*old(self), now, Message::ToggleMute, *final(self), r@),
    {
        self.wake(now);
        self.muted = !self.muted;
        let volume: u32 = if self.muted {
            0
        } else {
            self.volume
        };
        self.tell(Command::SetVolume(volume))
    }

    /// Set the speed.
    fn set_rate(&mut self, now: Duration, rate: u32) -> (r: Vec<Command>)
        ensures
            acted(*old(self), now, Message::SetRate(rate), *final(self), r@),
    {
        self.wake(now);
        self.rate = rate;
        self.tell(Command::SetRate(rate))
    }

    /// Switch a track. Turning subtitles off clears the one on screen.
    fn select_track(&mut self, now: Duration, kind: TrackKind, id: Option<String>) -> (r: Vec<Command>)
        ensures
            acted(*old(self), now, Message::SelectTrack(kind, id), *final(self), r@),
    {
        self.wake(now);
        if kind == TrackKind::Text && id.is_none() {
            self.subtitle = None;
            self.subtitle_end = None;
        }
        self.tell(Command::SelectTrack(kind, id))
    }

    /// Mark where a clip starts.
    fn mark_in(&mut self, now: Duration) -> (r: Vec<Command>)
        ensures
            acted(*old(self), now, Message::MarkIn, *final(self), r@),
    {
        self.wake(now);
        self.clip_in = Some(self.position);
        // An in point past the out point is meaningless; drop the out.
        if let Some(out) = self.clip_out {
            if out.nanos <= self.position.nanos {
                self.clip_out = None;
            }
        }
        self.export = None;
        Vec::new()
    }

    /// Mark where a clip ends.
    fn mark_out(&mut self, now: Duration) -> (r: Vec<Command>)
        ensures
            acted(*old(self), now, Message::MarkOut, *final(self), r@),
    {
        self.wake(now);
        let fits: bool = match self.clip_in {
            Some(start) => start.nanos < self.position.nanos,
            None => true,
        };
        if fits {
            self.clip_out = Some(self.position);
            self.export = None;
        } else {
            self.error = Some(Problem::Backwards);
        }
        Vec::new()
    }

    /// A file is over the window, or no longer.
    fn drag_over(&mut self, now: Duration, hovering: bool) -> (r: Vec<Command>)
        ensures
            acted(*old(self), now, Message::DragOver(hovering), *final(self), r@),
    {
        self.hovering = hovering;
        if hovering {
            self.wake(now);
        }
        Vec::new()
    }

    /// A file was looked for: where, whether it is there, and its URI.
    pub fn located(&mut self, path: String, found: bool, uri: Result<String, String>) -> (r: Vec<
        Command,
    >)
        ensures
            locating(*old(self), path, found, uri, *final(self), r@),
            old(self).sound() ==> final(self).sound(),
    {
        match file_uri(path, found, uri) {
            Ok(uri) => self.start(uri),
            Err(error) => {
                self.error = Some(Problem::Location(error));
                Vec::new()
            },
        }
    }

    /// The engine was told to open the source: the source's path, if it is a local file,
    /// and how the opening went.
    pub fn opened(&mut self, path: Option<String>, result: Result<(), String>) -> (r: Vec<Command>)
        ensures
            settling(*old(self), path, result, *final(self), r@),
            old(self).sound() ==> final(self).sound(),
    {
        self.local = path;
        match result {
            Ok(_) => one(Command::Play),
            Err(why) => {
                self.error = Some(Problem::Playback(why));
                Vec::new()
            },
        }
    }

    /// Act on a message, other than a key press and a report from the engine.
    fn act(&mut self, now: Duration, message: Message) -> (r: Vec<Command>)
        ensures
            acted(*old(self), now, message, *final(self), r@),
    {
        match message {
            Message::Tick { position, duration } => {
                self.tick(now, position, duration);
                Vec::new()
            },
            Message::Activity => {
                self.wake(now);
                Vec::new()
            },
            Message::TogglePlay => self.toggle_play(now),
            Message::Skip(seconds) => self.skip(now, seconds),
            Message::SeekFraction(parts) => self.seek_fraction(now, parts),
            Message::SetVolume(volume) => self.set_volume(now, volume),
            Message::ToggleMute => self.toggle_mute(now),
            Message::SetAudioEffects(effects) => {
                self.effects = effects;
                self.tell(Command::SetAudioEffects(effects))
            },
            Message::StepRate(direction) => {
                let rate: u32 = step_rate(self.rate, direction);
                self.set_rate(now, rate)
            },
            Message::OpenDialog => {
                self.wake(now);
                one(Command::PickFile)
            },
            Message::Picked(path) => match path {
                Some(path) => self.open(path.as_str()),
                None => Vec::new(),
            },
            Message::ToggleFullscreen => {
                self.wake(now);
                self.fullscreen = !self.fullscreen;
                one(Command::SetFullscreen(self.fullscreen))
            },
            Message::Dropped(path) => {
                self.hovering = false;
                self.wake(now);
                self.open(path.as_str())
            },
            Message::DragOver(hovering) => self.drag_over(now, hovering),
            Message::TogglePanel => {
                self.wake(now);
                self.panel = !self.panel;
                Vec::new()
            },
            Message::SelectTrack(kind, id) => self.select_track(now, kind, id),
            Message::SetRate(rate) => self.set_rate(now, rate),
            Message::MarkIn => self.mark_in(now),
            Message::MarkOut => self.mark_out(now),
            Message::ClearClip => {
                self.wake(now);
                self.clip_in = None;
                self.clip_out = None;
                self.export = None;
                Vec::new()
            },
            Message::SetContainer(container) => {
                self.wake(now);
                self.container = container;
                Vec::new()
            },
            Message::ExportClip => {
                self.wake(now);
                self.export_clip()
            },
            Message::ShowUrlPrompt => {
                self.wake(now);
                self.url_prompt = Some(String::new());
                one(Command::FocusUrlField)
            },
            Message::UrlInput(value) => {
                self.url_prompt = Some(value);
                Vec::new()
            },
            Message::SubmitUrl => self.submit_url(),
            Message::CloseUrlPrompt => {
                self.url_prompt = None;
                Vec::new()
            },
            Message::CopyError => match &self.error {
                Some(problem) => one(Command::CopyText(problem.message())),
                None => Vec::new(),
            },
            Message::DismissError => {
                self.error = None;
                Vec::new()
            },
            Message::Engine(_) | Message::Key(_) => Vec::new(),
        }
    }

    /// What a key press means.
    fn key_message(&self, key: &Key, modifiers: Modifiers) -> (r: Option<Message>)
        ensures
            r == meaning(*self, *key, modifiers),
    {
        if self.url_prompt.is_some() {
            return match key {
                Key::Named(Named::Escape) => Some(Message::CloseUrlPrompt),
                _ => None,
            };
        }
        let (letter, ctrl) = chord(key, modifiers);
        if ctrl {
            let letter: String = match letter {
                Some(letter) => letter,
                None => {
                    return None;
                },
            };
            if is_letter(letter.as_str(), 'l') {
                return Some(Message::ShowUrlPrompt);
            }
            if is_letter(letter.as_str(), 'o') {
                return Some(Message::OpenDialog);
            }
            return None;
        }
        match key {
            Key::Named(named) => match named {
                Named::Space => Some(Message::TogglePlay),
                Named::ArrowLeft => Some(Message::Skip(-NUDGE)),
                Named::ArrowRight => Some(Message::Skip(NUDGE)),
                Named::ArrowUp => Some(Message::SetVolume(self.volume as i64 + VOLUME_STEP)),
                Named::ArrowDown => Some(Message::SetVolume(self.volume as i64 - VOLUME_STEP)),
                Named::Escape => {
                    if self.fullscreen {
                        Some(Message::ToggleFullscreen)
                    } else {
                        None
                    }
                },
                Named::Other => None,
            },
            Key::Unidentified => None,
            Key::Character(_) => {
                let letter: String = match letter {
                    Some(letter) => letter,
                    None => {
                        return None;
                    },
                };
                let l: &str = letter.as_str();
                if is_letter(l, 'j') {
                    Some(Message::Skip(-SKIP))
                } else if is_letter(l, 'l') {
                    Some(Message::Skip(SKIP))
                } else if is_letter(l, 'k') {
                    Some(Message::TogglePlay)
                } else if is_letter(l, 'f') {
                    Some(Message::ToggleFullscreen)
                } else if is_letter(l, 'm') {
                    Some(Message::ToggleMute)
                } else if is_letter(l, 'o') {
                    Some(Message::MarkOut)
                } else if is_letter(l, 'i') {
                    Some(Message::MarkIn)
                } else if is_letter(l, 't') {
                    Some(Message::TogglePanel)
                } else if is_letter(l, 'e') && self.clip_in.is_some() {
                    Some(Message::ExportClip)
                } else if is_letter(l, '[') {
                    Some(Message::StepRate(-1))
                } else if is_letter(l, ']') {
                    Some(Message::StepRate(1))
                } else {
                    None
                }
            },
        }
    }

    /// Act on a key press.
    pub fn on_key(&mut self, now: Duration, event: KeyEvent) -> (r: Vec<Command>)
        ensures
            updated(*old(self), now, Message::Key(event), *final(self), r@),
    {
        match event {
            KeyEvent::Pressed { key, modifiers } => {
                self.wake(now);
                match self.key_message(&key, modifiers) {
                    Some(message) => self.act(now, message),
                    None => Vec::new(),
                }
            },
            KeyEvent::Other => Vec::new(),
        }
    }

    /// Act on a message.
    pub fn update(&mut self, now: Duration, message: Message) -> (r: Vec<Command>)
        ensures
            updated(*old(self), now, message, *final(self), r@),
    {
        match message {
            Message::Engine(event) => self.on_engine_event(event),
            Message::Key(event) => self.on_key(now, event),
            other => self.act(now, other),
        }
    }
}

/// One command.
fn one(command: Command) -> (r: Vec<Command>)
    ensures
        r@ == seq![command],
{
    let mut r: Vec<Command> = Vec::new();
    r.push(command);
    proof {
        assert(r@ =~= seq![command]);
    }
    r
}

/// Whether a text is one letter.
fn is_letter(s: &str, c: char) -> (r: bool)
    ensures
        r == (s@ == seq![c]),
{
    let mut t: String = String::new();
    t.push(c);
    proof {
        assert(t@ =~= seq![c]);
    }
    same(s, t.as_str())
}

proof fn lemma_opening_stays_sound(
    before: Myvid,
    location: Seq<char>,
    after: Myvid,
    asked: Seq<Command>,
)
    requires
        before.sound(),
        opening(before, location, after, asked),
    ensures
        after.sound(),
{
}

proof fn lemma_report_stays_sound(before: Myvid, event: Event, after: Myvid, asked: Seq<Command>)
    requires
        before.sound(),
        reported(before, event, after, asked),
    ensures
        after.sound(),
{
    if event is Ready && before.pending is Some {
        let ready = Myvid { engine: true, pending: None, ..before };
        lemma_opening_stays_sound(ready, before.pending->0@, after, asked.skip(3));
    }
}

proof fn lemma_act_stays_sound(
    before: Myvid,
    now: Duration,
    message: Message,
    after: Myvid,
    asked: Seq<Command>,
)
    requires
        before.sound(),
        acted(before, now, message, after, asked),
    ensures
        after.sound(),
{
    match message {
        Message::Picked(Some(path)) => {
            lemma_opening_stays_sound(before, path@, after, asked);
        },
        Message::Dropped(path) => {
            let woken = Myvid { hovering: false, ..before.woken(now) };
            lemma_opening_stays_sound(woken, path@, after, asked);
        },
        Message::SubmitUrl => {
            let closed = Myvid { url_prompt: None, ..before };
            if let Some(value) = before.url_prompt {
                if text::trimmed(value@).len() > 0 {
                    lemma_opening_stays_sound(closed, text::trimmed(value@), after, asked);
                }
            }
        },
        Message::Tick { .. } => {
            assert(after.sound());
        },
        Message::Activity => {
            assert(after.sound());
        },
        Message::TogglePlay => {
            assert(after.sound());
        },
        Message::Skip(_) => {
            assert(after.sound());
        },
        Message::SeekFraction(_) => {
            assert(after.sound());
        },
        Message::SetVolume(_) => {
            assert(after.sound());
        },
        Message::ToggleMute => {
            assert(after.sound());
        },
        Message::MarkIn => {
            assert(after.sound());
        },
        Message::MarkOut => {
            assert(after.sound());
        },
        Message::ClearClip => {
            assert(after.sound());
        },
        Message::ExportClip => {
            assert(exporting(before.woken(now), after, asked));
            assert(after.sound());
        },
        _ => {
            assert(after.sound());
        },
    }
}

/// Whatever happens, the volume stays in range, a clip ends after it starts, and
/// buffering that is done is not shown.
pub proof fn lemma_player_stays_sound(
    before: Myvid,
    now: Duration,
    message: Message,
    after: Myvid,
    asked: Seq<Command>,
)
    requires
        before.sound(),
        updated(before, now, message, after, asked),
    ensures
        after.sound(),
{
    match message {
        Message::Engine(event) => {
            lemma_report_stays_sound(before, event, after, asked);
        },
        Message::Key(KeyEvent::Pressed { key, modifiers }) => {
            let woken = before.woken(now);
            if let Some(meant) = meaning(woken, key, modifiers) {
                lemma_act_stays_sound(woken, now, meant, after, asked);
            }
        },
        Message::Key(KeyEvent::Other) => {},
        _ => {
            lemma_act_stays_sound(before, now, message, after, asked);
        },
    }
}

/// Ctrl chords are their own namespace: with Ctrl held, by either spelling, a key
/// opens the URL prompt or the file dialog or does nothing. It never seeks, and never
/// marks a clip.
pub proof fn lemma_chords_are_their_own(player: Myvid, key: Key, modifiers: Modifiers)
    requires
        player.url_prompt is None,
        keys::is_chord(key, modifiers),
    ensures
        match meaning(player, key, modifiers) {
            Some(Message::ShowUrlPrompt) => keys::letter(key) == Some(seq!['l']),
            Some(Message::OpenDialog) => keys::letter(key) == Some(seq!['o']),
            Some(_) => false,
            None => keys::letter(key) != Some(seq!['l']) && keys::letter(key) != Some(seq!['o']),
        },
{
    assert(seq!['l'][0] != seq!['o'][0]);
}

/// While the URL prompt is open, no key but Escape is a shortcut, and Escape closes
/// it.
pub proof fn lemma_typing_is_not_a_shortcut(
    before: Myvid,
    now: Duration,
    key: Key,
    modifiers: Modifiers,
    after: Myvid,
    asked: Seq<Command>,
)
    requires
        before.url_prompt is Some,
        updated(
            before,
            now,
            Message::Key(KeyEvent::Pressed { key, modifiers }),
            after,
            asked,
        ),
    ensures
        asked.len() == 0,
        after == (Myvid {
            url_prompt: if key == Key::Named(Named::Escape) {
                None
            } else {
                before.url_prompt
            },
            ..before.woken(now)
        }),
{
}

/// Whether a command is one that an engine carries out.
pub open spec fn for_engine(command: Command) -> bool {
    match command {
        Command::PickFile | Command::SetFullscreen(_) | Command::FocusUrlField
        | Command::CopyText(_) => false,
        _ => true,
    }
}

/// Nothing is asked of an engine before there is one.
pub proof fn lemma_no_engine_no_commands(
    before: Myvid,
    now: Duration,
    message: Message,
    after: Myvid,
    asked: Seq<Command>,
)
    requires
        !before.engine,
        updated(before, now, message, after, asked),
        message != Message::Engine(Event::Ready),
    ensures
        forall|i: int| 0 <= i < asked.len() ==> !for_engine(#[trigger] asked[i]),
{
}

/// A skip lands inside the media: not before its start, and no further than the later
/// of its end and where playback already was.
pub proof fn lemma_skips_land_inside(position: int, total: int, seconds: int)
    requires
        0 <= position,
        0 <= total,
    ensures
        0 <= skip_target(position, total, seconds),
        skip_target(position, total, seconds) <= position || skip_target(position, total, seconds)
            <= total,
        seconds >= 0 ==> skip_target(position, total, seconds) <= total,
{
}

/// A place on the scrub bar is a place in the media, further along where the place on
/// the bar is; its two ends are the start and the end.
pub proof fn lemma_scrubbing_covers_the_media(total: int, a: int, b: int)
    requires
        0 <= total,
        0 <= a <= b,
    ensures
        0 <= scrub_target(total, a) <= scrub_target(total, b) <= total,
        scrub_target(total, 0) == 0,
        scrub_target(total, PARTS as int) == total,
{
    let whole = PARTS as int;
    assert(total * 0 / whole == 0) by (nonlinear_arith)
        requires
            whole == 1_000_000_000,
    ;
    if a < whole {
        assert(0 <= total * a / whole <= total) by (nonlinear_arith)
            requires
                0 <= total,
                0 <= a < whole,
                whole == 1_000_000_000,
        ;
        if b < whole {
            assert(total * a / whole <= total * b / whole <= total) by (nonlinear_arith)
                requires
                    0 <= total,
                    0 <= a <= b < whole,
                    whole == 1_000_000_000,
            ;
        }
    }
}

/// The controls hide only while something is playing that is not buffering, and only
/// once nothing has been touched for a while.
pub proof fn lemma_controls_hide_only_while_playing(
    before: Myvid,
    now: Duration,
    message: Message,
    after: Myvid,
    asked: Seq<Command>,
)
    requires
        updated(before, now, message, after, asked),
        before.chrome,
        !after.chrome,
    ensures
        message is Tick,
        before.state == State::Playing,
        before.buffering is None,
        now.nanos > before.last_activity.nanos + IDLE_MILLIS * time::MILLISECOND,
{
    lemma_only_a_tick_hides(before, now, message, after, asked);
}

proof fn lemma_only_a_tick_hides(
    before: Myvid,
    now: Duration,
    message: Message,
    after: Myvid,
    asked: Seq<Command>,
)
    requires
        updated(before, now, message, after, asked),
        before.chrome,
        !after.chrome,
    ensures
        message is Tick,
{
    match message {
        Message::Engine(event) => {
            if event is Ready && before.pending is Some {
                let ready = Myvid { engine: true, pending: None, ..before };
                assert(opening(ready, before.pending->0@, after, asked.skip(3)));
            }
        },
        Message::Key(KeyEvent::Pressed { key, modifiers }) => {
            lemma_a_key_brings_the_controls_back(before, now, key, modifiers, after, asked);
        },
        Message::Key(KeyEvent::Other) => {},
        Message::Tick { .. } => {},
        _ => {
            lemma_acting_keeps_the_controls(before, now, message, after, asked);
        },
    }
}

proof fn lemma_acting_keeps_the_controls(
    before: Myvid,
    now: Duration,
    message: Message,
    after: Myvid,
    asked: Seq<Command>,
)
    requires
        acted(before, now, message, after, asked),
        before.chrome,
        !(message is Tick),
    ensures
        after.chrome,
{
    match message {
        Message::Skip(_) => {},
        Message::SeekFraction(_) => {},
        Message::ExportClip => {
            assert(exporting(before.woken(now), after, asked));
        },
        Message::SubmitUrl => {
            assert(submitting(before, after, asked));
        },
        _ => {},
    }
}

proof fn lemma_a_key_brings_the_controls_back(
    before: Myvid,
    now: Duration,
    key: Key,
    modifiers: Modifiers,
    after: Myvid,
    asked: Seq<Command>,
)
    requires
        updated(before, now, Message::Key(KeyEvent::Pressed { key, modifiers }), after, asked),
    ensures
        after.chrome,
{
    let woken = before.woken(now);
    if let Some(meant) = meaning(woken, key, modifiers) {
        lemma_acting_keeps_the_controls(woken, now, meant, after, asked);
    }
}

/// Any movement, any key press and any change of state bring the controls back.
pub proof fn lemma_controls_come_back(
    before: Myvid,
    now: Duration,
    message: Message,
    after: Myvid,
    asked: Seq<Command>,
)
    requires
        updated(before, now, message, after, asked),
    ensures
        message is Activity ==> after.chrome,
        message matches Message::Key(event) ==> (event is Pressed ==> after.chrome),
        after.state != before.state ==> after.chrome,
        message == Message::Engine(Event::Eos) ==> after.chrome,
{
    match message {
        Message::Key(KeyEvent::Pressed { key, modifiers }) => {
            lemma_a_key_brings_the_controls_back(before, now, key, modifiers, after, asked);
        },
        Message::Engine(event) => {
            if event is Ready && before.pending is Some {
                let ready = Myvid { engine: true, pending: None, ..before };
                assert(opening(ready, before.pending->0@, after, asked.skip(3)));
            }
        },
        Message::Key(KeyEvent::Other) => {},
        _ => {
            lemma_acting_keeps_the_state(before, now, message, after, asked);
        },
    }
}

proof fn lemma_acting_keeps_the_state(
    before: Myvid,
    now: Duration,
    message: Message,
    after: Myvid,
    asked: Seq<Command>,
)
    requires
        acted(before, now, message, after, asked),
    ensures
        after.state == before.state,
{
    match message {
        Message::Skip(_) => {},
        Message::SeekFraction(_) => {},
        Message::ExportClip => {
            assert(exporting(before.woken(now), after, asked));
        },
        Message::SubmitUrl => {
            assert(submitting(before, after, asked));
        },
        _ => {},
    }
}

/// Muting and unmuting gives the volume back, and unmuting and muting the silence.
pub proof fn lemma_unmuting_restores_the_volume(
    before: Myvid,
    now: Duration,
    between: Myvid,
    after: Myvid,
    first: Seq<Command>,
    second: Seq<Command>,
)
    requires
        before.engine,
        updated(before, now, Message::ToggleMute, between, first),
        updated(between, now, Message::ToggleMute, after, second),
    ensures
        first == seq![Command::SetVolume(if before.muted { before.volume } else { 0 })],
        second == seq![Command::SetVolume(if before.muted { 0 } else { before.volume })],
        after.volume == before.volume && after.muted == before.muted,
{
}

} // verus!
