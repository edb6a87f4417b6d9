//! The decoding engine's decisions: what each bus message means, where a seek goes,
//! which streams play, how loud.

use vstd::prelude::*;

use crate::engine::export;
use crate::engine::export::{begin_export, ExportRefusal};
use crate::engine::labels::StreamFacts;
use crate::engine::seek;
use crate::engine::seek::{known_duration, Seeks};
use crate::engine::tracks;
use crate::engine::tracks::{adopt_collection, publish_tracks, refresh_labels, Selection};
use crate::engine::{Duration, Event, MediaInfo, State, Track, TrackKind, FULL_VOLUME};

verus! {

/// The states that a pipeline goes through.
#[derive(Debug, Clone, Copy, PartialEq, Eq, Structural)]
pub enum PipelineState {
    Null,
    Ready,
    Paused,
    Playing,
    /// Between two of the others.
    Pending,
}

/// What a pipeline state means to the player, if anything.
pub open spec fn player_state(state: PipelineState) -> Option<State> {
    match state {
        PipelineState::Playing => Some(State::Playing),
        PipelineState::Paused => Some(State::Paused),
        PipelineState::Ready | PipelineState::Null => Some(State::Idle),
        PipelineState::Pending => None,
    }
}

/// The tags that one message carries.
#[derive(Debug, Clone, PartialEq, Eq)]
pub struct Tags {
    pub title: Option<String>,
    pub video_codec: Option<String>,
    pub audio_codec: Option<String>,
    pub container: Option<String>,
}

impl Tags {
    /// Whether there is anything in them.
    pub open spec fn any(self) -> bool {
        self.title is Some || self.video_codec is Some || self.audio_codec is Some
            || self.container is Some
    }

    /// What is known of the media once these are.
    pub open spec fn added_to(self, info: MediaInfo) -> MediaInfo {
        MediaInfo {
            title: or_else(self.title, info.title),
            video_codec: or_else(self.video_codec, info.video_codec),
            audio_codec: or_else(self.audio_codec, info.audio_codec),
            container: or_else(self.container, info.container),
            ..info
        }
    }
}

/// A text, or another where there is none.
pub open spec fn or_else(text: Option<String>, other: String) -> String {
    match text {
        Some(text) => text,
        None => other,
    }
}

/// A message from the pipeline's bus, with what the pipeline answered when asked
/// about it.
#[derive(Debug, Clone, PartialEq, Eq)]
pub enum BusMessage {
    Eos,
    Error { source: Option<String>, error: String, detail: Option<String> },
    Buffering(i32),
    /// A seek has completed.
    AsyncDone,
    /// The length is another, in nanoseconds as far as known.
    DurationChanged(Option<u64>),
    /// Tags arrived. `streams` is the current collection, if there is one.
    Tag { tags: Tags, hardware: bool, streams: Option<Vec<StreamFacts>> },
    StreamCollection(Vec<StreamFacts>),
    /// An element changed state; only the pipeline's `own` transitions matter.
    StateChanged {
        own: bool,
        current: PipelineState,
        duration: Option<u64>,
        hardware: bool,
        streams: Option<Vec<StreamFacts>>,
    },
    /// Tags of one stream arrived after its collection did.
    StreamTags(Option<Vec<StreamFacts>>),
    Other,
}

/// What to do about a bus message.
#[derive(Debug, Clone, PartialEq, Eq)]
pub enum BusAction {
    /// Tell the player.
    Emit(Event),
    /// Send this seek to the pipeline.
    Seek(Duration),
    /// Ask the pipeline for these streams.
    SelectStreams(Vec<String>),
    /// Watch every stream of the collection for tags that arrive late.
    WatchTags,
}

/// How an error reads: where it came from, what it is, and any detail.
pub open spec fn error_text(source: Option<String>, error: String, detail: Option<String>) -> Seq<
    char,
> {
    let from = match source {
        Some(source) => source@,
        None => "pipeline"@,
    };
    let more = match detail {
        Some(detail) if detail@.len() > 0 => " ("@ + detail@ + ")"@,
        _ => Seq::empty(),
    };
    from + ": "@ + error@ + more
}

/// A percentage, kept between nothing and all.
pub open spec fn percent(n: int) -> int {
    if n < 0 {
        0
    } else if n > 100 {
        100
    } else {
        n
    }
}

/// The tracks, each marked as live or not.
pub open spec fn published(tracks: Seq<Track>, selection: Selection) -> Seq<Track> {
    tracks.map_values(
        |track: Track| Track { selected: tracks::is_live(track, selection), ..track },
    )
}

/// Whether an action tells the player of these tracks.
pub open spec fn tells_tracks(action: BusAction, tracks: Seq<Track>) -> bool {
    action matches BusAction::Emit(Event::Tracks(told)) && told@ == tracks
}

/// The volume in two parts: what the pipeline's own volume does, and the gain ahead
/// of the limiter. Both are in percent.
pub fn split_volume(volume: u32) -> (r: (u32, u32))
    ensures
        r.0 == (if volume < FULL_VOLUME {
            volume
        } else {
            FULL_VOLUME
        }),
        r.1 == (if volume > FULL_VOLUME {
            volume
        } else {
            FULL_VOLUME
        }),
        r.0 * r.1 == volume * FULL_VOLUME,
        r.0 + r.1 == volume + 100,
        r.0 <= 100 && r.1 >= 100,
{
    if volume < FULL_VOLUME {
        (volume, FULL_VOLUME)
    } else {
        (FULL_VOLUME, volume)
    }
}

/// A pipeline state by its name.
pub open spec fn state_name(state: PipelineState) -> Seq<char> {
    match state {
        PipelineState::Null => "Null"@,
        PipelineState::Ready => "Ready"@,
        PipelineState::Paused => "Paused"@,
        PipelineState::Playing => "Playing"@,
        PipelineState::Pending => "VoidPending"@,
    }
}

/// What to say when the pipeline could not enter a state.
pub fn enter_failure(state: PipelineState, why: &str) -> (r: Event)
    ensures
        r matches Event::Error(words) && words@ == "could not enter "@ + state_name(state) + ": "@
            + why@,
{
    let mut words: String = "could not enter ".to_owned();
    words.append(
        match state {
            PipelineState::Null => "Null",
            PipelineState::Ready => "Ready",
            PipelineState::Paused => "Paused",
            PipelineState::Playing => "Playing",
            PipelineState::Pending => "VoidPending",
        },
    );
    words.append(": ");
    words.append(why);
    Event::Error(words)
}

/// What to say when the pipeline refused another speed.
pub fn rate_refused() -> (r: Event)
    ensures
        r matches Event::Error(words) && words@ == "playback rate change rejected"@,
{
    Event::Error("playback rate change rejected".to_owned())
}

/// The position to restart from at another speed, or nothing where the speed is
/// none at all. The speed is in hundredths, the position in nanoseconds.
pub fn rate_seek(rate: u32, position: Option<u64>) -> (r: Option<u64>)
    ensures
        r == (if rate > 0 {
            Some(
                match position {
                    Some(position) => position,
                    None => 0,
                },
            )
        } else {
            None
        }),
{
    if rate > 0 {
        Some(position.unwrap_or(0))
    } else {
        None
    }
}

/// What one decoding engine knows.
#[derive(Debug, PartialEq, Eq)]
pub struct GstEngine {
    pub info: MediaInfo,
    /// A stream collection has been adopted, and its streams selected.
    pub selected_streams: bool,
    pub selection: Selection,
    pub tracks: Vec<Track>,
    pub seeks: Seeks,
    /// Source of the current file, needed to export a clip from it.
    pub source: Option<String>,
    pub exporting: bool,
    /// Presentation time of the newest frame, in nanoseconds.
    pub last_frame_ns: u64,
}

/// What opening a file does: nothing is known of it yet, nothing is selected and nothing
/// waits.
pub open spec fn opened(pre: GstEngine, uri: String, post: GstEngine) -> bool {
    &&& post == (GstEngine {
        info: post.info,
        selected_streams: false,
        selection: Selection { video: None, audio: None, text: None },
        tracks: post.tracks,
        seeks: Seeks { seeking: false, pending: None },
        source: Some(uri),
        ..pre
    })
    &&& post.info.blank()
    &&& post.tracks@.len() == 0
}

/// What a tag message does: the tags are added to what is known and the whole is
/// told, then the tracks are told if their words changed.
pub open spec fn tag_step(
    pre: GstEngine,
    tags: Tags,
    hardware: bool,
    streams: Option<Vec<StreamFacts>>,
    post: GstEngine,
    actions: Seq<BusAction>,
) -> bool {
    let known = tags.added_to(pre.info);
    let told = if tags.any() {
        seq![BusAction::Emit(Event::Loaded(MediaInfo { hardware, ..known }))]
    } else {
        Seq::empty()
    };
    &&& post == (GstEngine { info: known, tracks: post.tracks, ..pre })
    &&& told.is_prefix_of(actions)
    &&& relabel_step(pre, streams, post, actions.skip(told.len() as int))
}

/// What re-describing the tracks does: every track gets the words that the
/// collection now has for it, and if any changed the tracks are told.
pub open spec fn relabel_step(
    pre: GstEngine,
    streams: Option<Vec<StreamFacts>>,
    post: GstEngine,
    actions: Seq<BusAction>,
) -> bool {
    match streams {
        None => post.tracks == pre.tracks && actions.len() == 0,
        Some(streams) => {
            &&& post.tracks.deep_view() == pre.tracks@.map_values(
                |track: Track| tracks::relabelled(track, streams@),
            )
            &&& if post.tracks.deep_view() == pre.tracks.deep_view() {
                actions.len() == 0
            } else {
                actions.len() == 1 && tells_tracks(
                    actions[0],
                    published(post.tracks@, pre.selection),
                )
            }
        },
    }
}

/// Whether a collection has anything to play.
pub open spec fn playable(streams: Seq<StreamFacts>) -> bool {
    tracks::first_id(streams, |f: StreamFacts| tracks::is_picture(f)) is Some || tracks::listed(
        streams,
    ).len() > 0
}

/// What a stream collection does: the first one of a file with anything to play is adopted,
/// its tracks told, its streams asked for, and what is known of the media told.
pub open spec fn collection_step(
    pre: GstEngine,
    streams: Seq<StreamFacts>,
    post: GstEngine,
    actions: Seq<BusAction>,
) -> bool {
    let selection = tracks::initial_selection(streams);
    if pre.selected_streams {
        post == pre && actions.len() == 0
    } else if !playable(streams) {
        post == pre && actions.len() == 0
    } else {
        &&& post == (GstEngine {
            info: tracks::with_audio(pre.info, streams),
            selected_streams: true,
            selection,
            tracks: post.tracks,
            ..pre
        })
        &&& post.tracks.deep_view() == tracks::listed(streams)
        &&& actions.len() == 4
        &&& actions[0] == BusAction::WatchTags
        &&& tells_tracks(actions[1], published(post.tracks@, selection))
        &&& actions[2] matches BusAction::SelectStreams(ids) && ids@ == selection.spec_ids()
        &&& actions[3] == BusAction::Emit(Event::Loaded(post.info))
    }
}

/// What a state change does: it is told, and on starting to play so are the length,
/// what is known of the media, and the tracks if their words changed.
pub open spec fn state_step(
    pre: GstEngine,
    current: PipelineState,
    duration: Option<u64>,
    hardware: bool,
    streams: Option<Vec<StreamFacts>>,
    post: GstEngine,
    actions: Seq<BusAction>,
) -> bool {
    match player_state(current) {
        None => post == pre && actions.len() == 0,
        Some(state) => {
            let told = seq![BusAction::Emit(Event::State(state))];
            if state == State::Playing {
                let loaded = told + tell_duration(duration) + seq![
                    BusAction::Emit(Event::Loaded(MediaInfo { hardware, ..pre.info })),
                ];
                &&& post == (GstEngine { tracks: post.tracks, ..pre })
                &&& loaded.is_prefix_of(actions)
                &&& relabel_step(pre, streams, post, actions.skip(loaded.len() as int))
            } else {
                post == pre && actions == told
            }
        },
    }
}

/// Tell the player of a length, if it is known.
pub open spec fn tell_duration(nanos: Option<u64>) -> Seq<BusAction> {
    match nanos {
        Some(n) if n > 0 => seq![
            BusAction::Emit(Event::Duration(Duration { nanos: n as u128 })),
        ],
        _ => Seq::empty(),
    }
}

/// What one bus message does to an engine.
pub open spec fn bus_step(
    pre: GstEngine,
    message: BusMessage,
    post: GstEngine,
    actions: Seq<BusAction>,
) -> bool {
    match message {
        BusMessage::Eos => post == pre && actions == seq![
            BusAction::Emit(Event::State(State::Ended)),
            BusAction::Emit(Event::Eos),
        ],
        BusMessage::Error { source, error, detail } => {
            &&& post == pre
            &&& actions.len() == 1
            &&& actions[0] matches BusAction::Emit(Event::Error(words)) && words@ == error_text(
                source,
                error,
                detail,
            )
        },
        BusMessage::Buffering(n) => post == pre && actions == seq![
            BusAction::Emit(Event::Buffering(percent(n as int) as u8)),
        ],
        BusMessage::AsyncDone => {
            let next = pre.seeks.pending;
            &&& post == (GstEngine { seeks: Seeks { seeking: next is Some, pending: None }, ..pre })
            &&& actions == (match next {
                Some(to) => seq![BusAction::Seek(to)],
                None => Seq::empty(),
            })
        },
        BusMessage::DurationChanged(nanos) => post == pre && actions == tell_duration(nanos),
        BusMessage::Tag { tags, hardware, streams } => tag_step(
            pre,
            tags,
            hardware,
            streams,
            post,
            actions,
        ),
        BusMessage::StreamCollection(streams) => collection_step(pre, streams@, post, actions),
        BusMessage::StateChanged { own, current, duration, hardware, streams } => if own {
            state_step(pre, current, duration, hardware, streams, post, actions)
        } else {
            post == pre && actions.len() == 0
        },
        BusMessage::StreamTags(streams) => {
            &&& post == (GstEngine { tracks: post.tracks, ..pre })
            &&& relabel_step(pre, streams, post, actions)
        },
        BusMessage::Other => post == pre && actions.len() == 0,
    }
}

/// The text of an error, in a form that can be copied out of the window.
fn write_error(source: &Option<String>, error: &String, detail: &Option<String>) -> (r: String)
    ensures
        r@ == error_text(*source, *error, *detail),
{
    let mut r: String = match source {
        Some(source) => source.clone(),
        None => "pipeline".to_owned(),
    };
    r.append(": ");
    r.append(error.as_str());
    if let Some(detail) = detail {
        if !detail.as_str().is_empty() {
            r.append(" (");
            r.append(detail.as_str());
            r.append(")");
        }
    }
    proof {
        assert(r@ =~= error_text(*source, *error, *detail));
    }
    r
}

impl GstEngine {
    /// Nothing open.
    pub fn new() -> (r: GstEngine)
        ensures
            r.info.blank(),
            !r.selected_streams,
            r.selection == (Selection { video: None, audio: None, text: None }),
            r.tracks@.len() == 0,
            r.seeks == (Seeks { seeking: false, pending: None }),
            r.source is None,
            !r.exporting,
            r.last_frame_ns == 0,
    {
        GstEngine {
            info: MediaInfo::default(),
            selected_streams: false,
            selection: Selection::none(),
            tracks: Vec::new(),
            seeks: Seeks::idle(),
            source: None,
            exporting: false,
            last_frame_ns: 0,
        }
    }

    /// A file is being opened: whatever was known of the last one, or waited for it, is
    /// dropped, and the next stream collection is the file's own.
    pub fn open(&mut self, uri: String)
        ensures
            opened(*old(self), uri, *final(self)),
    {
        self.info = MediaInfo::default();
        self.selected_streams = false;
        self.seeks = Seeks::idle();
        self.source = Some(uri);
        self.tracks = Vec::new();
        self.selection = Selection::none();
    }

    /// A decoded frame is in the slot, presented at a time if it carries one.
    pub fn new_frame(&mut self, pts: Option<u64>, width: u32, height: u32) -> (r: Event)
        ensures
            *final(self) == (GstEngine {
                last_frame_ns: match pts {
                    Some(pts) => pts,
                    None => old(self).last_frame_ns,
                },
                ..*old(self)
            }),
            r == Event::Frame(width, height),
    {
        if let Some(pts) = pts {
            self.last_frame_ns = pts;
        }
        Event::Frame(width, height)
    }

    /// Presentation time of the newest frame, for measuring how far picture and
    /// sound are apart.
    pub fn last_frame(&self) -> (r: Duration)
        ensures
            r.nanos == self.last_frame_ns,
    {
        Duration::from_nanos(self.last_frame_ns)
    }

    /// Switch the active audio or subtitle stream: the pipeline is asked for the new
    /// selection, and the player is told. Sound cannot be turned off: asked to, the
    /// pipeline is left alone and the player is told what still plays.
    pub fn select_track(&mut self, kind: TrackKind, id: Option<String>) -> (r: Vec<BusAction>)
        ensures
            ({
                let selection = old(self).selection.switched(kind, id);
                let ignored = kind == TrackKind::Audio && id is None;
                let asked: nat = if !ignored && selection.spec_ids().len() > 0 {
                    1
                } else {
                    0
                };
                let cleared: nat = if kind == TrackKind::Text && id is None {
                    1
                } else {
                    0
                };
                &&& *final(self) == (GstEngine { selection, ..*old(self) })
                &&& r@.len() == asked + 1 + cleared
                &&& asked == 1 ==> (r@[0] matches BusAction::SelectStreams(ids) && ids@
                    == selection.spec_ids())
                &&& tells_tracks(r@[asked as int], published(old(self).tracks@, selection))
                &&& cleared == 1 ==> r@[asked as int + 1] == BusAction::Emit(
                    Event::Subtitle {
                        text: None,
                        start: Duration { nanos: 0 },
                        end: Duration { nanos: 0 },
                    },
                )
            }),
    {
        let ignored: bool = kind == TrackKind::Audio && id.is_none();
        let clear: Option<Event> = self.selection.select_track(kind, id);
        let mut r: Vec<BusAction> = Vec::new();
        if !ignored {
            if let Some(ids) = self.selection.apply_selection() {
                r.push(BusAction::SelectStreams(ids));
            }
        }
        let told: Vec<Track> = publish_tracks(&self.tracks, &self.selection);
        r.push(BusAction::Emit(Event::Tracks(told)));
        if let Some(event) = clear {
            r.push(BusAction::Emit(event));
        }
        r
    }

    /// Seek, in media of a length if it is known. What is returned goes to the pipeline
    /// now; the rest waits for it to settle.
    pub fn seek(&mut self, to: Duration, total: Option<Duration>) -> (r: Option<Duration>)
        ensures
            *final(self) == (GstEngine { seeks: old(self).seeks.after_seek(to, total), ..*old(
                self,
            ) }),
            r is Some <==> !old(self).seeks.seeking,
            r is Some ==> r->0.nanos == seek::clamped(to.nanos as int, total),
    {
        self.seeks.seek(to, total)
    }

    /// The pipeline refused the seek that it was given.
    pub fn seek_refused(&mut self)
        ensures
            *final(self) == (GstEngine {
                seeks: Seeks { seeking: false, ..old(self).seeks },
                ..*old(self)
            }),
    {
        self.seeks.seek_refused();
    }

    /// Start writing a clip of what is open.
    pub fn export_clip(&mut self) -> (r: Result<String, ExportRefusal>)
        ensures
            r == export::admitted(old(self).source, old(self).exporting),
            *final(self) == (GstEngine {
                exporting: old(self).exporting || r is Ok,
                ..*old(self)
            }),
    {
        begin_export(&self.source, &mut self.exporting)
    }

    /// Re-describe the tracks, and tell the player if any reads differently now.
    fn relabel(&mut self, streams: Option<Vec<StreamFacts>>) -> (r: Vec<BusAction>)
        ensures
            *final(self) == (GstEngine { tracks: final(self).tracks, ..*old(self) }),
            relabel_step(*old(self), streams, *final(self), r@),
    {
        let mut r: Vec<BusAction> = Vec::new();
        if let Some(streams) = streams {
            if refresh_labels(&mut self.tracks, &streams) {
                let told: Vec<Track> = publish_tracks(&self.tracks, &self.selection);
                r.push(BusAction::Emit(Event::Tracks(told)));
            }
        }
        r
    }

    fn on_tag(&mut self, tags: Tags, hardware: bool, streams: Option<Vec<StreamFacts>>) -> (r: Vec<
        BusAction,
    >)
        ensures
            tag_step(*old(self), tags, hardware, streams, *final(self), r@),
    {
        let mut r: Vec<BusAction> = Vec::new();
        let mut changed: bool = false;
        if let Some(title) = tags.title {
            self.info.title = title;
            changed = true;
        }
        if let Some(codec) = tags.video_codec {
            self.info.video_codec = codec;
            changed = true;
        }
        if let Some(codec) = tags.audio_codec {
            self.info.audio_codec = codec;
            changed = true;
        }
        if let Some(container) = tags.container {
            self.info.container = container;
            changed = true;
        }
        if changed {
            let mut merged: MediaInfo = self.info.clone();
            merged.hardware = hardware;
            r.push(BusAction::Emit(Event::Loaded(merged)));
        }
        let ghost told = r@;
        let mut more: Vec<BusAction> = self.relabel(streams);
        let ghost rest = more@;
        r.append(&mut more);
        proof {
            assert(r@ =~= told + rest);
            assert(r@.skip(told.len() as int) =~= rest);
            assert(told =~= r@.subrange(0, told.len() as int));
        }
        r
    }

    fn on_collection(&mut self, streams: Vec<StreamFacts>) -> (r: Vec<BusAction>)
        ensures
            collection_step(*old(self), streams@, *final(self), r@),
    {
        let mut r: Vec<BusAction> = Vec::new();
        // The pipeline defaults to the first track of each kind; prefer the best.
        if self.selected_streams {
            return r;
        }
        let mut info: MediaInfo = self.info.clone();
        match adopt_collection(&streams, &mut info) {
            None => {},
            Some(adopted) => {
                proof {
                    if tracks::listed(streams@).len() > 0 {
                        lemma_adopted_selects(streams@);
                    }
                }
                self.info = info;
                self.selected_streams = true;
                self.selection = adopted.selection;
                self.tracks = adopted.tracks;
                r.push(BusAction::WatchTags);
                let told: Vec<Track> = publish_tracks(&self.tracks, &self.selection);
                r.push(BusAction::Emit(Event::Tracks(told)));
                let ids: Vec<String> = self.selection.ids();
                r.push(BusAction::SelectStreams(ids));
                r.push(BusAction::Emit(Event::Loaded(self.info.clone())));
            },
        }
        r
    }

    fn on_state(
        &mut self,
        current: PipelineState,
        duration: Option<u64>,
        hardware: bool,
        streams: Option<Vec<StreamFacts>>,
    ) -> (r: Vec<BusAction>)
        ensures
            state_step(*old(self), current, duration, hardware, streams, *final(self), r@),
    {
        let mut r: Vec<BusAction> = Vec::new();
        let state: State = match current {
            PipelineState::Playing => State::Playing,
            PipelineState::Paused => State::Paused,
            PipelineState::Ready | PipelineState::Null => State::Idle,
            PipelineState::Pending => {
                return r;
            },
        };
        r.push(BusAction::Emit(Event::State(state)));
        if state == State::Playing {
            if let Some(known) = known_duration(duration) {
                r.push(BusAction::Emit(Event::Duration(known)));
            }
            let mut merged: MediaInfo = self.info.clone();
            merged.hardware = hardware;
            r.push(BusAction::Emit(Event::Loaded(merged)));
            let ghost told = r@;
            let mut more: Vec<BusAction> = self.relabel(streams);
            let ghost rest = more@;
            r.append(&mut more);
            proof {
                assert(r@ =~= told + rest);
                assert(r@.skip(told.len() as int) =~= rest);
                assert(told =~= r@.subrange(0, told.len() as int));
                assert(told =~= seq![BusAction::Emit(Event::State(state))] + tell_duration(duration)
                    + seq![
                    BusAction::Emit(Event::Loaded(MediaInfo { hardware, ..old(self).info })),
                ]);
            }
        }
        r
    }

    /// Act on one bus message.
    pub fn on_message(&mut self, message: BusMessage) -> (r: Vec<BusAction>)
        ensures
            bus_step(*old(self), message, *final(self), r@),
    {
        let mut r: Vec<BusAction> = Vec::new();
        match message {
            BusMessage::Eos => {
                r.push(BusAction::Emit(Event::State(State::Ended)));
                r.push(BusAction::Emit(Event::Eos));
                proof {
                    assert(r@ =~= seq![
                        BusAction::Emit(Event::State(State::Ended)),
                        BusAction::Emit(Event::Eos),
                    ]);
                }
            },
            BusMessage::Error { source, error, detail } => {
                r.push(BusAction::Emit(Event::Error(write_error(&source, &error, &detail))));
            },
            BusMessage::Buffering(n) => {
                let shown: u8 = if n < 0 {
                    0
                } else if n > 100 {
                    100
                } else {
                    n as u8
                };
                r.push(BusAction::Emit(Event::Buffering(shown)));
                proof {
                    assert(r@ =~= seq![BusAction::Emit(Event::Buffering(shown))]);
                }
            },
            BusMessage::AsyncDone => {
                if let Some(to) = self.seeks.seek_settled() {
                    r.push(BusAction::Seek(to));
                    proof {
                        assert(r@ =~= seq![BusAction::Seek(to)]);
                    }
                }
            },
            BusMessage::DurationChanged(nanos) => {
                if let Some(known) = known_duration(nanos) {
                    r.push(BusAction::Emit(Event::Duration(known)));
                }
                proof {
                    assert(r@ =~= tell_duration(nanos));
                }
            },
            BusMessage::Tag { tags, hardware, streams } => {
                r = self.on_tag(tags, hardware, streams);
            },
            BusMessage::StreamCollection(streams) => {
                r = self.on_collection(streams);
            },
            BusMessage::StateChanged { own, current, duration, hardware, streams } => {
                if own {
                    r = self.on_state(current, duration, hardware, streams);
                }
            },
            BusMessage::StreamTags(streams) => {
                r = self.relabel(streams);
            },
            BusMessage::Other => {},
        }
        r
    }
}

/// On every load, the best audio is chosen: once a file has been opened, whatever else
/// the pipeline says first, its stream collection is adopted as soon as it has anything
/// to play. Its tracks are told, its best sound is selected and asked for, and what is
/// known of it is told.
pub proof fn lemma_every_load_is_adopted(
    pre: GstEngine,
    uri: String,
    states: Seq<GstEngine>,
    messages: Seq<BusMessage>,
    said: Seq<Seq<BusAction>>,
    streams: Vec<StreamFacts>,
    post: GstEngine,
    actions: Seq<BusAction>,
)
    requires
        states.len() == messages.len() + 1,
        said.len() == messages.len(),
        opened(pre, uri, states[0]),
        forall|i: int|
            0 <= i < messages.len() ==> !(#[trigger] messages[i] is StreamCollection) && bus_step(
                states[i],
                messages[i],
                states[i + 1],
                said[i],
            ),
        playable(streams@),
        bus_step(states.last(), BusMessage::StreamCollection(streams), post, actions),
    ensures
        post.selected_streams,
        post.selection == tracks::initial_selection(streams@),
        post.tracks.deep_view() == tracks::listed(streams@),
        actions.len() == 4,
        tells_tracks(actions[1], published(post.tracks@, post.selection)),
        actions[2] matches BusAction::SelectStreams(ids) && ids@ == post.selection.spec_ids(),
        actions[3] == BusAction::Emit(Event::Loaded(post.info)),
{
    lemma_nothing_is_adopted_yet(states, messages, said);
}

proof fn lemma_nothing_is_adopted_yet(
    states: Seq<GstEngine>,
    messages: Seq<BusMessage>,
    said: Seq<Seq<BusAction>>,
)
    requires
        states.len() == messages.len() + 1,
        said.len() == messages.len(),
        !states[0].selected_streams,
        forall|i: int|
            0 <= i < messages.len() ==> !(#[trigger] messages[i] is StreamCollection) && bus_step(
                states[i],
                messages[i],
                states[i + 1],
                said[i],
            ),
    ensures
        !states.last().selected_streams,
    decreases messages.len(),
{
    if messages.len() > 0 {
        let n = messages.len() - 1;
        assert forall|i: int| 0 <= i < messages.drop_last().len() implies !(
        #[trigger] messages.drop_last()[i] is StreamCollection) && bus_step(
            states.drop_last()[i],
            messages.drop_last()[i],
            states.drop_last()[i + 1],
            said.drop_last()[i],
        ) by {
            assert(messages[i] == messages.drop_last()[i]);
        }
        lemma_nothing_is_adopted_yet(states.drop_last(), messages.drop_last(), said.drop_last());
        assert(!(messages[n] is StreamCollection));
        assert(bus_step(states[n], messages[n], states[n + 1], said[n]));
    }
}

/// A collection that lists any track has sound or subtitles to select.
proof fn lemma_adopted_selects(streams: Seq<StreamFacts>)
    requires
        tracks::listed(streams).len() > 0,
    ensures
        tracks::initial_selection(streams).audio is Some || tracks::initial_selection(
            streams,
        ).text is Some,
    decreases streams.len(),
{
    tracks::lemma_best_audio_is_chosen(streams);
    let before = streams.drop_last();
    tracks::lemma_best_audio_is_chosen(before);
    if !tracks::is_listed(streams.last()) {
        lemma_adopted_selects(before);
        if let Some(k) = tracks::best_audio(before) {
            assert(before[k] == streams[k]);
        }
    }
}

} // verus!
