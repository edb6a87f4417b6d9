//! The decode process.
//!
//! It owns the pipeline and nothing else: no window, no GPU, no access to the user's
//! files. It is told the one film to play, writes frames into a shared buffer, and
//! talks to the player over one socket.
//!
//! The order here is the whole point. The pipeline is built first, all of which reads
//! widely, and only then is the process confined. Everything after that parses
//! untrusted input with nothing worth stealing in reach.

use vstd::prelude::*;

use crate::engine::protocol;
use crate::engine::protocol::{Layout, Notice, Request};
use crate::engine::sandbox::Confinement;
use crate::engine::shm;
use crate::engine::shm::SLOTS;
use crate::engine::{AudioEffects, Duration, Event, TrackKind};

verus! {

/// What there is to play.
#[derive(Debug, PartialEq, Eq)]
pub enum Source {
    /// A local file.
    Path(String),
    /// A network source, which needs no file at all.
    Uri(String),
}

impl Source {
    /// The file that the decoder has to be able to read.
    pub fn film(&self) -> (r: Option<String>)
        ensures
            r == (match *self {
                Source::Path(path) => Some(path),
                Source::Uri(_) => None,
            }),
    {
        match self {
            Source::Path(path) => Some(path.clone()),
            Source::Uri(_) => None,
        }
    }
}

/// What arrives in the decode process.
#[derive(Debug, PartialEq, Eq)]
pub enum Incoming {
    Engine(Event),
    Peer(Request),
    PeerGone,
    /// Time to report the position, as far as it is known: nothing announces it.
    Tick(Option<Duration>),
}

/// What the decode process does about it.
#[derive(Debug, PartialEq, Eq)]
pub enum Action {
    /// Tell the player, waiting for room if the socket is full.
    Send(Notice),
    /// Tell the player only if it can go immediately: a stalled player must not be
    /// able to wedge the decode loop, and the next notice supersedes this one.
    TrySend(Notice),
    /// Confine this process to what the source needs.
    Confine(Source),
    /// Open the source in the pipeline.
    Open(Source),
    Play,
    Pause,
    Seek(Duration),
    SetVolume(u32),
    SetAudioEffects(AudioEffects),
    SetRate(u32),
    SelectTrack { kind: TrackKind, id: Option<String> },
    /// Copy the newest frame, of this size, into the shared buffer.
    Publish(u32, u32),
    /// Leave.
    Stop,
}

/// What to do with a decoded frame.
#[derive(Debug, Clone, Copy, PartialEq, Eq, Structural)]
pub enum FrameStep {
    /// It has no planes to copy.
    Skip,
    /// It needs a new buffer, of this layout.
    Create(Layout),
    /// It goes to this slot of the buffer there is.
    Write(u32),
}

/// What a decode process knows.
#[derive(Debug, Clone, Copy, PartialEq, Eq, Structural)]
pub struct Worker {
    /// The process is confined, and can never be widened.
    pub confined: bool,
    /// The layout of the shared buffer, once there is one.
    pub surface: Option<Layout>,
    /// How many frames the buffer has been given.
    pub generation: u64,
}

/// What one arrival does: to the state, nothing.
pub open spec fn reaction(worker: Worker, incoming: Incoming, actions: Seq<Action>) -> bool {
    match incoming {
        Incoming::Peer(Request::PlayPath(path)) => if worker.confined {
            &&& actions.len() == 1
            &&& actions[0] matches Action::Send(Notice::Failed(why)) && why@
                == "this decoder is already confined to another file"@
        } else {
            actions == seq![Action::Confine(Source::Path(path))]
        },
        Incoming::Peer(Request::PlayUri(uri)) => if worker.confined {
            actions == seq![Action::Open(Source::Uri(uri))]
        } else {
            actions == seq![Action::Confine(Source::Uri(uri))]
        },
        Incoming::Peer(Request::Resume) => actions == seq![Action::Play],
        Incoming::Peer(Request::Pause) => actions == seq![Action::Pause],
        Incoming::Peer(Request::Seek(ns)) => actions == seq![
            Action::Seek(Duration { nanos: ns as u128 }),
        ],
        Incoming::Peer(Request::Volume(v)) => actions == seq![Action::SetVolume(v)],
        Incoming::Peer(Request::AudioEffects(effects)) => actions == seq![
            Action::SetAudioEffects(effects),
        ],
        Incoming::Peer(Request::Rate(rate)) => actions == seq![Action::SetRate(rate)],
        Incoming::Peer(Request::SelectTrack { kind, id }) => actions == seq![
            Action::SelectTrack { kind, id },
        ],
        Incoming::Peer(Request::Shutdown) | Incoming::PeerGone => actions == seq![Action::Stop],
        Incoming::Tick(Some(position)) => actions == seq![
            Action::TrySend(Notice::Position(wire(position))),
        ],
        Incoming::Tick(None) => actions.len() == 0,
        Incoming::Engine(Event::Frame(width, height)) => actions == seq![
            Action::Publish(width, height),
        ],
        Incoming::Engine(event) => actions == (match translated(event) {
            Some(notice) => seq![Action::Send(notice)],
            None => Seq::empty(),
        }),
    }
}

/// A span of time as messages carry it.
pub open spec fn wire(d: Duration) -> u64 {
    (d.nanos % 0x1_0000_0000_0000_0000) as u64
}

/// The notice that an event becomes. That the engine is ready concerns no one else,
/// frames have their own notices, and clips are exported by the player, which is the
/// process that has a path to write to.
pub open spec fn translated(event: Event) -> Option<Notice> {
    match event {
        Event::Ready | Event::Frame(..) | Event::Export(_) => None,
        Event::Loaded(info) => Some(Notice::Loaded(info)),
        Event::State(state) => Some(Notice::State(state)),
        Event::Duration(d) => Some(Notice::Duration(wire(d))),
        Event::Buffering(percent) => Some(Notice::Buffering(percent)),
        Event::Tracks(tracks) => Some(Notice::Tracks(tracks)),
        Event::Subtitle { text, start, end } => Some(
            Notice::Subtitle { text, start: wire(start), end: wire(end) },
        ),
        Event::Eos => Some(Notice::Eos),
        Event::Error(message) => Some(Notice::Failed(message)),
    }
}

/// The notice that an event becomes, if it becomes one.
pub fn translate(event: Event) -> (r: Option<Notice>)
    ensures
        r == translated(event),
{
    match event {
        Event::Ready | Event::Frame(..) | Event::Export(_) => None,
        Event::Loaded(info) => Some(Notice::Loaded(info)),
        Event::State(state) => Some(Notice::State(state)),
        Event::Duration(d) => Some(Notice::Duration(d.wire_nanos())),
        Event::Buffering(percent) => Some(Notice::Buffering(percent)),
        Event::Tracks(tracks) => Some(Notice::Tracks(tracks)),
        Event::Subtitle { text, start, end } => Some(
            Notice::Subtitle { text, start: start.wire_nanos(), end: end.wire_nanos() },
        ),
        Event::Eos => Some(Notice::Eos),
        Event::Error(message) => Some(Notice::Failed(message)),
    }
}

/// The layout that a frame of this size and these strides has in a shared buffer.
pub open spec fn frame_layout(width: u32, height: u32, y_stride: u32, uv_stride: u32) -> Layout {
    Layout {
        width,
        height,
        y_stride,
        uv_stride,
        slot_bytes: (protocol::luma_size(y_stride, height) + protocol::chroma_size(
            uv_stride,
            height,
        )) as u64,
        slots: SLOTS,
    }
}

/// What the player is told of a frame that has been copied to a slot: the buffer ahead
/// of it, where the player has yet to be handed that.
pub open spec fn frame_notices(
    slot: u32,
    fresh: Option<Layout>,
    generation: u64,
    sent_ns: u64,
) -> Seq<Action> {
    (match fresh {
        Some(layout) => seq![Action::Send(Notice::Surface(layout))],
        None => Seq::empty(),
    }) + seq![Action::TrySend(Notice::Frame { slot, generation, sent_ns })]
}

impl Worker {
    /// A process that is not confined yet and has published nothing.
    pub fn new() -> (r: Worker)
        ensures
            r == (Worker { confined: false, surface: None, generation: 0 }),
    {
        Worker { confined: false, surface: None, generation: 0 }
    }

    /// What the player is told first. Confinement waits for the first file: nothing
    /// untrusted has been parsed yet, and knowing the file lets the policy name it.
    pub fn greeting() -> (r: Notice)
        ensures
            r matches Notice::Ready { confinement } && confinement@ == "awaiting media"@,
    {
        Notice::Ready { confinement: "awaiting media".to_owned() }
    }

    /// Decide about one arrival.
    pub fn serve(&self, incoming: Incoming) -> (r: Vec<Action>)
        ensures
            reaction(*self, incoming, r@),
    {
        let mut r: Vec<Action> = Vec::new();
        match incoming {
            Incoming::Peer(request) => match request {
                Request::PlayPath(path) => {
                    if self.confined {
                        r.push(
                            Action::Send(
                                Notice::Failed(
                                    "this decoder is already confined to another file".to_owned(),
                                ),
                            ),
                        );
                    } else {
                        r.push(Action::Confine(Source::Path(path)));
                    }
                },
                Request::PlayUri(uri) => {
                    if self.confined {
                        r.push(Action::Open(Source::Uri(uri)));
                    } else {
                        r.push(Action::Confine(Source::Uri(uri)));
                    }
                },
                Request::Resume => {
                    r.push(Action::Play);
                },
                Request::Pause => {
                    r.push(Action::Pause);
                },
                Request::Seek(ns) => {
                    r.push(Action::Seek(Duration::from_nanos(ns)));
                },
                Request::Volume(volume) => {
                    r.push(Action::SetVolume(volume));
                },
                Request::AudioEffects(effects) => {
                    r.push(Action::SetAudioEffects(effects));
                },
                Request::Rate(rate) => {
                    r.push(Action::SetRate(rate));
                },
                Request::SelectTrack { kind, id } => {
                    r.push(Action::SelectTrack { kind, id });
                },
                Request::Shutdown => {
                    r.push(Action::Stop);
                },
            },
            Incoming::Tick(position) => {
                if let Some(position) = position {
                    r.push(Action::TrySend(Notice::Position(position.wire_nanos())));
                }
            },
            Incoming::Engine(event) => match event {
                Event::Frame(width, height) => {
                    r.push(Action::Publish(width, height));
                },
                other => {
                    if let Some(notice) = translate(other) {
                        r.push(Action::Send(notice));
                    }
                },
            },
            Incoming::PeerGone => {
                r.push(Action::Stop);
            },
        }
        proof {
            if r@.len() == 1 {
                assert(r@ =~= seq![r@[0]]);
            } else {
                assert(r@ =~= Seq::empty());
            }
        }
        r
    }

    /// The process has been confined, as well as it could be: the player is told, and
    /// the source can be opened.
    pub fn confined_to(&mut self, source: Source, confinement: &Confinement) -> (r: Vec<Action>)
        ensures
            *final(self) == (Worker { confined: true, ..*old(self) }),
            r@.len() == 2,
            r@[0] matches Action::Send(Notice::Ready { confinement: words }) && words@
                == confinement.spec_describe(),
            r@[1] == Action::Open(source),
    {
        self.confined = true;
        let mut r: Vec<Action> = Vec::new();
        r.push(Action::Send(Notice::Ready { confinement: confinement.describe() }));
        r.push(Action::Open(source));
        r
    }

    /// The source has been opened, or not. What opens is played.
    pub fn opened(&self, result: Result<(), String>) -> (r: Action)
        ensures
            r == (match result {
                Ok(_) => Action::Play,
                Err(why) => Action::Send(Notice::Failed(why)),
            }),
    {
        match result {
            Ok(_) => Action::Play,
            Err(why) => Action::Send(Notice::Failed(why)),
        }
    }

    /// What to do with a decoded frame of a size, whose planes have these strides if
    /// it has both planes.
    ///
    /// A resolution change means a new buffer, which the player has to be handed
    /// before any frame in it makes sense.
    pub fn publish_frame(&self, width: u32, height: u32, strides: Option<(u32, u32)>) -> (r:
        FrameStep)
        requires
            strides matches Some((y, uv)) ==> protocol::luma_size(y, height)
                + protocol::chroma_size(uv, height) <= u64::MAX,
        ensures
            r == (match strides {
                None => FrameStep::Skip,
                Some((y, uv)) => if self.surface == Some(frame_layout(width, height, y, uv)) {
                    FrameStep::Write(shm::slot_for(self.generation as int) as u32)
                } else {
                    FrameStep::Create(frame_layout(width, height, y, uv))
                },
            }),
    {
        match strides {
            None => FrameStep::Skip,
            Some((y_stride, uv_stride)) => {
                let layout: Layout = Layout::new(width, height, y_stride, uv_stride, SLOTS);
                let current: bool = match self.surface {
                    Some(surface) => surface == layout,
                    None => false,
                };
                if current {
                    FrameStep::Write(self.next_slot())
                } else {
                    FrameStep::Create(layout)
                }
            },
        }
    }

    fn next_slot(&self) -> (r: u32)
        ensures
            r == shm::slot_for(self.generation as int),
    {
        (self.generation % SLOTS as u64) as u32
    }

    /// A buffer of a layout has been made. The frame that needed it goes to its first
    /// slot.
    pub fn surface_created(&mut self, layout: Layout) -> (slot: u32)
        ensures
            *final(self) == (Worker { surface: Some(layout), generation: 0, ..*old(self) }),
            slot == 0,
    {
        self.surface = Some(layout);
        self.generation = 0;
        self.next_slot()
    }

    /// A frame has been copied to a slot, of a buffer that is `fresh` if the player
    /// has yet to be handed it. What to tell the player, in this order: the buffer
    /// ahead of the frame in it.
    pub fn frame_written(&mut self, slot: u32, fresh: Option<Layout>, sent_ns: u64) -> (r: Vec<
        Action,
    >)
        requires
            old(self).generation < u64::MAX,
        ensures
            *final(self) == (Worker { generation: (old(self).generation + 1) as u64, ..*old(self) }),
            r@ == frame_notices(slot, fresh, final(self).generation, sent_ns),
    {
        self.generation = self.generation + 1;
        let mut r: Vec<Action> = Vec::new();
        if let Some(layout) = fresh {
            r.push(Action::Send(Notice::Surface(layout)));
        }
        r.push(Action::TrySend(Notice::Frame { slot, generation: self.generation, sent_ns }));
        proof {
            assert(r@ =~= frame_notices(slot, fresh, self.generation, sent_ns));
        }
        r
    }
}

/// Nothing is opened before the process is confined, and a process is confined only
/// once: whatever arrives afterwards, it is not confined again, and no file is opened
/// but the one it was confined to.
pub proof fn lemma_confined_before_opening(worker: Worker, incoming: Incoming, actions: Seq<Action>)
    requires
        reaction(worker, incoming, actions),
    ensures
        forall|i: int|
            0 <= i < actions.len() ==> match #[trigger] actions[i] {
                Action::Open(source) => worker.confined && source is Uri,
                Action::Confine(_) => !worker.confined,
                _ => true,
            },
{
}

/// What a full socket can drop is only what the next notice supersedes: a position or
/// a frame. Everything else, the buffer that frames come in among it, waits for room.
pub proof fn lemma_only_superseded_notices_are_dropped(
    worker: Worker,
    incoming: Incoming,
    actions: Seq<Action>,
    slot: u32,
    fresh: Option<Layout>,
    generation: u64,
    sent_ns: u64,
)
    requires
        reaction(worker, incoming, actions),
    ensures
        forall|i: int|
            0 <= i < actions.len() ==> (#[trigger] actions[i] matches Action::TrySend(notice)
                ==> notice is Position),
        forall|i: int|
            0 <= i < frame_notices(slot, fresh, generation, sent_ns).len() ==> (
            #[trigger] frame_notices(slot, fresh, generation, sent_ns)[i] matches Action::TrySend(
                notice,
            ) ==> notice is Frame),
{
}

} // verus!
