//! The player's handle on its decode process.
//!
//! Every file gets a decode process of its own, because the sandbox names the file it
//! may read and can only ever be narrowed: a decoder confined for one film can never
//! be widened to another.

use vstd::prelude::*;

use crate::engine::export;
use crate::engine::export::{begin_export, ExportRefusal};
use crate::engine::protocol::{Layout, Notice, Request};
use crate::engine::worker;
use crate::engine::{AudioEffects, Duration, Event, State, TrackKind, FULL_VOLUME};

verus! {

/// What the player knows of its decoder.
#[derive(Debug, PartialEq, Eq)]
pub struct RemoteEngine {
    /// Reported by the decoder rather than queried, in nanoseconds.
    pub position: u64,
    /// In nanoseconds; none where it is not known.
    pub duration: u64,
    pub source: Option<String>,
    /// Bumped on every restart, so a listener for a decoder that has been replaced
    /// knows its silence is expected rather than a crash.
    pub epoch: u64,
    pub exporting: bool,
    /// The current decoder has been given something to play, and so is confined to
    /// it. The next open needs a new one.
    pub spent: bool,
    /// What the player last asked for, so a fresh decoder sounds the same as the one
    /// it replaced. In percent.
    pub volume: u32,
    pub effects: AudioEffects,
}

impl RemoteEngine {
    /// The player's side, before there is a decoder.
    pub fn new() -> (r: RemoteEngine)
        ensures
            r == (RemoteEngine {
                position: 0,
                duration: 0,
                source: None,
                epoch: 0,
                exporting: false,
                spent: false,
                volume: FULL_VOLUME,
                effects: AudioEffects { dialogue: false, night: false },
            }),
    {
        RemoteEngine {
            position: 0,
            duration: 0,
            source: None,
            epoch: 0,
            exporting: false,
            spent: false,
            volume: FULL_VOLUME,
            effects: AudioEffects::default(),
        }
    }

    /// What there is once the decoder has been replaced.
    pub open spec fn after_restart(self) -> RemoteEngine {
        RemoteEngine { epoch: (self.epoch + 1) as u64, ..self }
    }

    /// A fresh decode process has taken the place of the one before, if there was
    /// one. A new decoder starts at its own defaults, so it is told what the player
    /// last asked for.
    pub fn restart(&mut self) -> (r: Vec<Request>)
        requires
            old(self).epoch < u64::MAX,
        ensures
            *final(self) == old(self).after_restart(),
            r@ == seq![Request::Volume(old(self).volume), Request::AudioEffects(old(self).effects)],
    {
        self.epoch = self.epoch + 1;
        let mut r: Vec<Request> = Vec::new();
        r.push(Request::Volume(self.volume));
        r.push(Request::AudioEffects(self.effects));
        proof {
            assert(r@ =~= seq![Request::Volume(self.volume), Request::AudioEffects(self.effects)]);
        }
        r
    }

    /// What there is once a source is being opened.
    pub open spec fn after_open(self, uri: String) -> RemoteEngine {
        RemoteEngine { position: 0, duration: 0, source: Some(uri), spent: true, ..self }
    }

    /// A source is being opened. Whether that needs a fresh decoder: whatever the
    /// present one was given, it can never read this.
    pub fn open(&mut self, uri: String) -> (restart: bool)
        ensures
            *final(self) == old(self).after_open(uri),
            restart == old(self).spent,
    {
        self.position = 0;
        self.duration = 0;
        self.source = Some(uri);
        let restart: bool = self.spent;
        self.spent = true;
        restart
    }

    /// What a decoder is told to play: a local file by its path, so that it can be
    /// confined to it, and anything else by its URI.
    pub fn play_request(uri: String, path: Option<String>) -> (r: Request)
        ensures
            r == (match path {
                Some(path) => Request::PlayPath(path),
                None => Request::PlayUri(uri),
            }),
    {
        match path {
            Some(path) => Request::PlayPath(path),
            None => Request::PlayUri(uri),
        }
    }

    pub fn play(&self) -> (r: Request)
        ensures
            r == Request::Resume,
    {
        Request::Resume
    }

    pub fn pause(&self) -> (r: Request)
        ensures
            r == Request::Pause,
    {
        Request::Pause
    }

    pub fn seek(&self, to: Duration) -> (r: Request)
        ensures
            r == Request::Seek(worker::wire(to)),
    {
        Request::Seek(to.wire_nanos())
    }

    pub fn position(&self) -> (r: Option<Duration>)
        ensures
            r == Some(Duration { nanos: self.position as u128 }),
    {
        Some(Duration::from_nanos(self.position))
    }

    pub fn duration(&self) -> (r: Option<Duration>)
        ensures
            r == (if self.duration > 0 {
                Some(Duration { nanos: self.duration as u128 })
            } else {
                None
            }),
    {
        if self.duration > 0 {
            Some(Duration::from_nanos(self.duration))
        } else {
            None
        }
    }

    pub fn set_volume(&mut self, volume: u32) -> (r: Request)
        ensures
            *final(self) == (RemoteEngine { volume, ..*old(self) }),
            r == Request::Volume(volume),
    {
        self.volume = volume;
        Request::Volume(volume)
    }

    pub fn set_audio_effects(&mut self, effects: AudioEffects) -> (r: Request)
        ensures
            *final(self) == (RemoteEngine { effects, ..*old(self) }),
            r == Request::AudioEffects(effects),
    {
        self.effects = effects;
        Request::AudioEffects(effects)
    }

    pub fn set_rate(&self, rate: u32) -> (r: Request)
        ensures
            r == Request::Rate(rate),
    {
        Request::Rate(rate)
    }

    pub fn select_track(&self, kind: TrackKind, id: Option<String>) -> (r: Request)
        ensures
            r == (Request::SelectTrack { kind, id }),
    {
        Request::SelectTrack { kind, id }
    }

    /// Start writing a clip of what is open. Deliberately not delegated to the
    /// decoder: it means reading a path and writing a new one, which is exactly the
    /// ability the sandbox exists to take away.
    pub fn export_clip(&mut self) -> (r: Result<String, ExportRefusal>)
        ensures
            r == export::admitted(old(self).source, old(self).exporting),
            *final(self) == (RemoteEngine {
                exporting: old(self).exporting || r is Ok,
                ..*old(self)
            }),
    {
        begin_export(&self.source, &mut self.exporting)
    }

    /// What to say when a request could not be sent.
    pub fn not_listening(why: &str) -> (r: Event)
        ensures
            r matches Event::Error(words) && words@ == "the decoder is not listening: "@ + why@,
    {
        let mut words: String = "the decoder is not listening: ".to_owned();
        words.append(why);
        Event::Error(words)
    }
}

/// What to say when there is no decode process. There is nothing to fall back to that
/// would be honest: decoding in the player would work, but silently without the
/// isolation the user was told they had.
pub fn spawn_failure(why: &str) -> (r: Event)
    ensures
        r matches Event::Error(words) && words@ == "could not start the decode process: "@ + why@,
{
    let mut words: String = "could not start the decode process: ".to_owned();
    words.append(why);
    Event::Error(words)
}

/// What a listener hears from the decoder it listens to.
#[derive(Debug, PartialEq, Eq)]
pub enum Heard {
    /// A notice, and whether a descriptor came with it.
    Notice(Notice, bool),
    /// The decoder has gone, or its words make no sense.
    Nothing,
}

/// What a listener does about it.
#[derive(Debug, PartialEq, Eq)]
pub enum Reply {
    /// Tell the player.
    Emit(Event),
    /// Put in the log how well the decoder is confined.
    Log(String),
    /// Map the buffer that came with the notice.
    Adopt(Layout),
    /// Put the frame in this slot of the buffer in the frame slot.
    Show(u32),
    /// Listen no longer.
    Stop,
}

/// One decoder's listener.
#[derive(Debug, Clone, Copy, PartialEq, Eq, Structural)]
pub struct Listener {
    /// The decoder that it listens to.
    pub epoch: u64,
    /// The layout of the buffer that is mapped, if one is.
    pub surface: Option<Layout>,
}

/// The event that a notice becomes, where it becomes one and nothing else.
pub open spec fn event_of(notice: Notice) -> Option<Event> {
    match notice {
        Notice::State(state) => Some(Event::State(state)),
        Notice::Duration(ns) => Some(Event::Duration(Duration { nanos: ns as u128 })),
        Notice::Buffering(percent) => Some(Event::Buffering(percent)),
        Notice::Loaded(info) => Some(Event::Loaded(info)),
        Notice::Tracks(tracks) => Some(Event::Tracks(tracks)),
        Notice::Subtitle { text, start, end } => Some(
            Event::Subtitle {
                text,
                start: Duration { nanos: start as u128 },
                end: Duration { nanos: end as u128 },
            },
        ),
        Notice::Eos => Some(Event::Eos),
        Notice::Failed(message) => Some(Event::Error(message)),
        _ => None,
    }
}

/// Whether an action tells the player that the buffer cannot be read.
pub open spec fn tells_unmapped(reply: Reply) -> bool {
    reply matches Reply::Emit(Event::Error(words)) && words@
        == "could not map the decoder's frame buffer"@
}

/// What the player knows after a notice from its decoder.
pub open spec fn informed(engine: RemoteEngine, notice: Notice) -> RemoteEngine {
    match notice {
        Notice::Position(ns) => RemoteEngine { position: ns, ..engine },
        Notice::Duration(ns) => RemoteEngine { duration: ns, ..engine },
        _ => engine,
    }
}

/// What hearing something from a decoder does.
pub open spec fn hearing(
    before: Listener,
    engine: RemoteEngine,
    heard: Heard,
    after: Listener,
    engine_after: RemoteEngine,
    replies: Seq<Reply>,
) -> bool {
    match heard {
        Heard::Nothing => {
            &&& after == before
            &&& engine_after == engine
            &&& if engine.epoch == before.epoch {
                &&& replies.len() == 3
                &&& replies[0] matches Reply::Emit(Event::Error(words)) && words@
                    == "the decode process stopped unexpectedly"@
                &&& replies[1] == Reply::Emit(Event::State(State::Idle))
                &&& replies[2] == Reply::Stop
            } else {
                replies == seq![Reply::Stop]
            }
        },
        Heard::Notice(notice, attached) => if engine.epoch != before.epoch {
            &&& after == before
            &&& engine_after == engine
            &&& replies == seq![Reply::Stop]
        } else {
            &&& engine_after == informed(engine, notice)
            &&& match notice {
                Notice::Ready { confinement } => after == before && replies == seq![
                    Reply::Log(confinement),
                ],
                Notice::Surface(layout) => if attached {
                    after == before && replies == seq![Reply::Adopt(layout)]
                } else {
                    &&& after == (Listener { surface: None, ..before })
                    &&& replies.len() == 1
                    &&& tells_unmapped(replies[0])
                },
                Notice::Frame { slot, .. } => after == before && replies == (
                match before.surface {
                    Some(layout) => seq![
                        Reply::Show(slot),
                        Reply::Emit(Event::Frame(layout.width, layout.height)),
                    ],
                    None => Seq::empty(),
                }),
                Notice::Position(_) => after == before && replies.len() == 0,
                _ => after == before && replies == seq![Reply::Emit(event_of(notice)->0)],
            }
        },
    }
}

fn unmapped() -> (r: Reply)
    ensures
        tells_unmapped(r),
{
    Reply::Emit(Event::Error("could not map the decoder's frame buffer".to_owned()))
}

impl Listener {
    /// A listener for the decoder that has just been started.
    pub fn new(epoch: u64) -> (r: Listener)
        ensures
            r == (Listener { epoch, surface: None }),
    {
        Listener { epoch, surface: None }
    }

    /// Act on what was heard.
    ///
    /// A decoder that was deliberately replaced going quiet is not news; only the
    /// current one dying is. Notices still queued from a decoder that has been
    /// replaced describe the previous file: delivering them would scribble over the
    /// new one.
    pub fn listen(&mut self, engine: &mut RemoteEngine, heard: Heard) -> (r: Vec<Reply>)
        ensures
            hearing(*old(self), *old(engine), heard, *final(self), *final(engine), r@),
    {
        let mut r: Vec<Reply> = Vec::new();
        let current: bool = engine.epoch == self.epoch;
        match heard {
            Heard::Nothing => {
                if current {
                    r.push(
                        Reply::Emit(
                            Event::Error("the decode process stopped unexpectedly".to_owned()),
                        ),
                    );
                    r.push(Reply::Emit(Event::State(State::Idle)));
                }
                r.push(Reply::Stop);
            },
            Heard::Notice(notice, attached) => {
                if !current {
                    r.push(Reply::Stop);
                } else {
                    match notice {
                        Notice::Ready { confinement } => {
                            r.push(Reply::Log(confinement));
                        },
                        Notice::Surface(layout) => {
                            if attached {
                                r.push(Reply::Adopt(layout));
                            } else {
                                self.surface = None;
                                r.push(unmapped());
                            }
                        },
                        Notice::Frame { slot, generation: _, sent_ns: _ } => {
                            if let Some(layout) = self.surface {
                                r.push(Reply::Show(slot));
                                r.push(Reply::Emit(Event::Frame(layout.width, layout.height)));
                            }
                        },
                        Notice::Position(ns) => {
                            engine.position = ns;
                        },
                        Notice::Duration(ns) => {
                            engine.duration = ns;
                            r.push(Reply::Emit(Event::Duration(Duration::from_nanos(ns))));
                        },
                        Notice::State(state) => {
                            r.push(Reply::Emit(Event::State(state)));
                        },
                        Notice::Buffering(percent) => {
                            r.push(Reply::Emit(Event::Buffering(percent)));
                        },
                        Notice::Loaded(info) => {
                            r.push(Reply::Emit(Event::Loaded(info)));
                        },
                        Notice::Tracks(tracks) => {
                            r.push(Reply::Emit(Event::Tracks(tracks)));
                        },
                        Notice::Subtitle { text, start, end } => {
                            r.push(
                                Reply::Emit(
                                    Event::Subtitle {
                                        text,
                                        start: Duration::from_nanos(start),
                                        end: Duration::from_nanos(end),
                                    },
                                ),
                            );
                        },
                        Notice::Eos => {
                            r.push(Reply::Emit(Event::Eos));
                        },
                        Notice::Failed(message) => {
                            r.push(Reply::Emit(Event::Error(message)));
                        },
                    }
                }
            },
        }
        proof {
            if r@.len() == 0 {
                assert(r@ =~= Seq::empty());
            } else if r@.len() == 1 {
                assert(r@ =~= seq![r@[0]]);
            } else if r@.len() == 2 {
                assert(r@ =~= seq![r@[0], r@[1]]);
            }
        }
        r
    }

    /// The buffer that came with a notice has been mapped, or could not be.
    pub fn mapped(&mut self, layout: Layout, success: bool) -> (r: Option<Reply>)
        ensures
            *final(self) == (Listener {
                surface: if success {
                    Some(layout)
                } else {
                    None
                },
                ..*old(self)
            }),
            success ==> r is None,
            !success ==> r is Some && tells_unmapped(r->0),
    {
        if success {
            self.surface = Some(layout);
            None
        } else {
            self.surface = None;
            Some(unmapped())
        }
    }
}

/// A decoder that has been replaced is not heard any more: nothing it says or fails
/// to say reaches the player, or changes what the player knows.
pub proof fn lemma_replaced_decoders_are_not_heard(
    before: Listener,
    engine: RemoteEngine,
    heard: Heard,
    after: Listener,
    engine_after: RemoteEngine,
    replies: Seq<Reply>,
)
    requires
        hearing(before, engine, heard, after, engine_after, replies),
        before.epoch != engine.epoch,
    ensures
        engine_after == engine,
        after == before,
        replies == seq![Reply::Stop],
{
}

/// The decoders that a run of opens plays on, each by its epoch.
pub open spec fn played_on(engine: RemoteEngine, uris: Seq<String>) -> Seq<int>
    decreases uris.len(),
{
    if uris.len() == 0 {
        Seq::empty()
    } else {
        let decoder = if engine.spent {
            engine.after_restart()
        } else {
            engine
        };
        seq![decoder.epoch as int] + played_on(decoder.after_open(uris[0]), uris.drop_first())
    }
}

/// No decoder is ever given two things to play: whatever is opened, one after another,
/// each plays on a decoder of its own.
pub proof fn lemma_one_film_per_decoder(engine: RemoteEngine, uris: Seq<String>)
    requires
        engine.epoch + uris.len() <= u64::MAX,
    ensures
        played_on(engine, uris).len() == uris.len(),
        forall|i: int, j: int|
            0 <= i < j < uris.len() ==> #[trigger] played_on(engine, uris)[i]
                < #[trigger] played_on(engine, uris)[j],
        forall|i: int|
            0 <= i < uris.len() ==> engine.epoch + (if engine.spent {
                1int
            } else {
                0
            }) <= #[trigger] played_on(engine, uris)[i],
    decreases uris.len(),
{
    if uris.len() > 0 {
        let decoder = if engine.spent {
            engine.after_restart()
        } else {
            engine
        };
        let rest = uris.drop_first();
        let next = decoder.after_open(uris[0]);
        lemma_one_film_per_decoder(next, rest);
        let all = played_on(engine, uris);
        let others = played_on(next, rest);
        assert(all =~= seq![decoder.epoch as int] + others);
        assert forall|i: int| 0 < i < all.len() implies #[trigger] all[i] == others[i - 1] by {}
    }
}

/// What the decoder's engine reports reaches the player as it was, as long as its
/// times fit in what a message carries.
pub proof fn lemma_events_survive_the_wire(event: Event)
    requires
        match event {
            Event::Duration(d) => d.nanos < 0x1_0000_0000_0000_0000,
            Event::Subtitle { start, end, .. } => start.nanos < 0x1_0000_0000_0000_0000 && end.nanos
                < 0x1_0000_0000_0000_0000,
            _ => true,
        },
    ensures
        worker::translated(event) matches Some(notice) ==> event_of(notice) == Some(event),
        worker::translated(event) is None ==> event is Ready || event is Frame || event is Export,
{
}

} // verus!
