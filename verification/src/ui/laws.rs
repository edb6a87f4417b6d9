//! What each message to the player is for, as laws: what it changes, what it asks for,
//! and what it leaves alone.

use vstd::prelude::*;

use crate::engine;
use crate::engine::gst;
use crate::engine::tracks::Selection;
use crate::engine::{
    AudioEffects, Container, Duration, Event, Export, LocationError, MediaInfo, State, Track,
    TrackKind,
};
use crate::text;
use crate::ui;
use crate::ui::keys::{Key, KeyEvent, Modifiers, Named};
use crate::ui::{Command, Message, Myvid, Problem};

verus! {

/// The cue that is reported is the cue on screen, whatever was on screen before, and it
/// stays for its own time. The position never runs back on its account, and is at least
/// where the cue starts.
pub proof fn lemma_a_cue_replaces_the_last(
    before: Myvid,
    now: Duration,
    text: Option<String>,
    start: Duration,
    end: Duration,
    after: Myvid,
    asked: Seq<Command>,
)
    requires
        ui::updated(
            before,
            now,
            Message::Engine(Event::Subtitle { text, start, end }),
            after,
            asked,
        ),
    ensures
        after.subtitle == text,
        text is Some ==> after.subtitle_end == Some(end),
        text is None ==> after.subtitle_end is None,
        text is Some ==> after.position.nanos >= start.nanos,
        after.position.nanos >= before.position.nanos,
        after.position == before.position || (text is Some && after.position == start),
        asked.len() == 0,
{
}

/// A cue stays on screen exactly until playback is past its end, and playback is where
/// the engine says it is.
pub proof fn lemma_a_cue_is_shown_for_its_time(
    before: Myvid,
    now: Duration,
    position: Duration,
    duration: Option<Duration>,
    after: Myvid,
    asked: Seq<Command>,
)
    requires
        before.engine,
        ui::updated(
            before,
            now,
            Message::Tick { position: Some(position), duration },
            after,
            asked,
        ),
    ensures
        after.position == position,
        before.subtitle_end matches Some(end) ==> {
            &&& position.nanos > end.nanos ==> after.subtitle is None && after.subtitle_end is None
            &&& position.nanos <= end.nanos ==> after.subtitle == before.subtitle
                && after.subtitle_end == before.subtitle_end
        },
        before.subtitle_end is None ==> after.subtitle == before.subtitle && after.subtitle_end
            is None,
        before.duration is Some ==> after.duration == before.duration,
        before.duration is None ==> after.duration == duration,
        asked.len() == 0,
{
}

/// Where the engine says nothing, or there is none, a tick leaves playback where it was,
/// and a cue goes by that.
pub proof fn lemma_a_silent_tick_keeps_the_place(
    before: Myvid,
    now: Duration,
    position: Option<Duration>,
    duration: Option<Duration>,
    after: Myvid,
    asked: Seq<Command>,
)
    requires
        !before.engine || position is None,
        ui::updated(before, now, Message::Tick { position, duration }, after, asked),
    ensures
        after.position == before.position,
        !before.engine ==> after.duration == before.duration,
        before.subtitle_end matches Some(end) ==> {
            &&& before.position.nanos > end.nanos ==> after.subtitle is None && after.subtitle_end
                is None
            &&& before.position.nanos <= end.nanos ==> after.subtitle == before.subtitle
                && after.subtitle_end == before.subtitle_end
        },
        before.subtitle_end is None ==> after.subtitle == before.subtitle && after.subtitle_end
            is None,
        asked.len() == 0,
{
}

/// The controls are hidden after a tick exactly where something plays without buffering
/// and nothing has been touched for more than 2.4 seconds.
pub proof fn lemma_the_controls_retreat(
    before: Myvid,
    now: Duration,
    position: Option<Duration>,
    duration: Option<Duration>,
    after: Myvid,
    asked: Seq<Command>,
)
    requires
        ui::updated(before, now, Message::Tick { position, duration }, after, asked),
    ensures
        !after.chrome <==> before.state == State::Playing && before.buffering is None && now.nanos
            > before.last_activity.nanos + 2_400_000_000,
{
}

/// With a source open, its length known and an engine live, a skip asks for exactly one
/// seek, whatever is playing or paused: as far ahead or back as was asked, but no further
/// ahead than the end and no further back than the start. Otherwise it asks for nothing
/// and moves nothing.
pub proof fn lemma_a_skip_asks_for_one_seek(
    before: Myvid,
    now: Duration,
    seconds: i64,
    after: Myvid,
    asked: Seq<Command>,
)
    requires
        ui::updated(before, now, Message::Skip(seconds), after, asked),
    ensures
        before.engine && before.source is Some && before.duration is Some ==> {
            let there = before.position.nanos + seconds * 1_000_000_000;
            let total = before.duration->0.nanos as int;
            &&& asked.len() == 1
            &&& asked[0] == Command::Seek(after.position)
            &&& seconds >= 0 && there <= total ==> after.position.nanos == there
            &&& seconds >= 0 && there > total ==> after.position.nanos == total
            &&& seconds < 0 && there >= 0 ==> after.position.nanos == there
            &&& seconds < 0 && there < 0 ==> after.position.nanos == 0
            &&& after.subtitle is None
        },
        !(before.engine && before.source is Some && before.duration is Some) ==> asked.len() == 0
            && after.position == before.position && after.subtitle == before.subtitle,
{
    if before.duration is Some {
        let to = ui::skip_target(
            before.position.nanos as int,
            before.duration->0.nanos as int,
            seconds as int,
        );
        assert(0 <= to <= u128::MAX);
    }
}

/// A place on the scrub bar asks for exactly one seek, to the same share of the media's
/// length, to the nanosecond; the end of the bar is the end of the media.
pub proof fn lemma_scrubbing_asks_for_one_seek(
    before: Myvid,
    now: Duration,
    parts: u32,
    after: Myvid,
    asked: Seq<Command>,
)
    requires
        ui::updated(before, now, Message::SeekFraction(parts), after, asked),
    ensures
        before.engine && before.duration is Some ==> {
            let total = before.duration->0.nanos as int;
            let to = after.position.nanos as int;
            &&& asked.len() == 1
            &&& asked[0] == Command::Seek(after.position)
            &&& parts >= 1_000_000_000 ==> to == total
            &&& parts < 1_000_000_000 ==> to * 1_000_000_000 <= total * parts < (to + 1)
                * 1_000_000_000
            &&& after.subtitle is None
        },
        !(before.engine && before.duration is Some) ==> asked.len() == 0 && after.position
            == before.position && after.subtitle == before.subtitle,
{
    if before.duration is Some {
        let total = before.duration->0.nanos as int;
        let p = parts as int;
        ui::lemma_scrubbing_covers_the_media(total, p, p);
        assert(0 <= ui::scrub_target(total, p) <= total);
        if p < 1_000_000_000 {
            let product = total * p;
            let to = product / 1_000_000_000;
            assert(to * 1_000_000_000 <= product < (to + 1) * 1_000_000_000);
            assert(ui::scrub_target(total, p) == to);
        }
    }
}

/// Picking a track asks the engine for exactly that kind and that id, and nothing else.
/// Only turning subtitles off takes the cue off the screen.
pub proof fn lemma_picking_a_track_asks_for_it(
    before: Myvid,
    now: Duration,
    kind: TrackKind,
    id: Option<String>,
    after: Myvid,
    asked: Seq<Command>,
)
    requires
        ui::updated(before, now, Message::SelectTrack(kind, id), after, asked),
    ensures
        before.engine ==> asked.len() == 1 && asked[0] == Command::SelectTrack(kind, id),
        !before.engine ==> asked.len() == 0,
        kind == TrackKind::Text && id is None ==> after.subtitle is None && after.subtitle_end
            is None,
        !(kind == TrackKind::Text && id is None) ==> after.subtitle == before.subtitle
            && after.subtitle_end == before.subtitle_end,
{
}

/// The play button plays what is not playing and pauses what is.
pub proof fn lemma_playing_and_pausing(
    before: Myvid,
    now: Duration,
    after: Myvid,
    asked: Seq<Command>,
)
    requires
        ui::updated(before, now, Message::TogglePlay, after, asked),
    ensures
        before.engine ==> asked.len() == 1,
        before.engine && before.state == State::Playing ==> asked[0] == Command::Pause,
        before.engine && before.state != State::Playing ==> asked[0] == Command::Play,
        !before.engine ==> asked.len() == 0,
{
}

/// The volume asked for is the volume set, kept between nothing and one and a half times
/// full; the engine is told the same, and no volume at all is silence.
pub proof fn lemma_the_volume_is_what_was_asked_for(
    before: Myvid,
    now: Duration,
    volume: i64,
    after: Myvid,
    asked: Seq<Command>,
)
    requires
        ui::updated(before, now, Message::SetVolume(volume), after, asked),
    ensures
        0 <= volume <= 150 ==> after.volume == volume,
        volume < 0 ==> after.volume == 0,
        volume > 150 ==> after.volume == 150,
        after.muted <==> after.volume == 0,
        before.engine ==> asked.len() == 1 && asked[0] == Command::SetVolume(after.volume),
        !before.engine ==> asked.len() == 0,
{
}

/// Muting silences the engine without forgetting the volume; unmuting tells it that
/// volume.
pub proof fn lemma_muting_keeps_the_volume(
    before: Myvid,
    now: Duration,
    after: Myvid,
    asked: Seq<Command>,
)
    requires
        ui::updated(before, now, Message::ToggleMute, after, asked),
    ensures
        after.volume == before.volume,
        after.muted != before.muted,
        before.engine ==> asked.len() == 1,
        before.engine && after.muted ==> asked[0] == Command::SetVolume(0),
        before.engine && !after.muted ==> asked[0] == Command::SetVolume(before.volume),
        !before.engine ==> asked.len() == 0,
{
}

/// The sound effects chosen are the ones in force, and the engine is told just those.
pub proof fn lemma_effects_are_what_was_chosen(
    before: Myvid,
    now: Duration,
    effects: AudioEffects,
    after: Myvid,
    asked: Seq<Command>,
)
    requires
        ui::updated(before, now, Message::SetAudioEffects(effects), after, asked),
    ensures
        after.effects == effects,
        before.engine ==> asked.len() == 1 && asked[0] == Command::SetAudioEffects(effects),
        !before.engine ==> asked.len() == 0,
{
}

/// The speed chosen is the speed set, and the engine is told the same.
pub proof fn lemma_the_speed_is_what_was_chosen(
    before: Myvid,
    now: Duration,
    rate: u32,
    after: Myvid,
    asked: Seq<Command>,
)
    requires
        ui::updated(before, now, Message::SetRate(rate), after, asked),
    ensures
        after.rate == rate,
        before.engine ==> asked.len() == 1 && asked[0] == Command::SetRate(rate),
        !before.engine ==> asked.len() == 0,
{
}

/// A step in speed is a quarter of normal speed from the nearest multiple of a quarter,
/// between a quarter and twice normal speed, and the engine is told where it ended.
pub proof fn lemma_speed_steps_by_quarters(
    before: Myvid,
    now: Duration,
    direction: i32,
    after: Myvid,
    asked: Seq<Command>,
    nearest: int,
)
    requires
        ui::updated(before, now, Message::StepRate(direction), after, asked),
        nearest % 25 == 0,
        25 <= nearest <= 200,
        -12 <= nearest - before.rate <= 12 || (nearest == 25 && before.rate < 25) || (nearest == 200
            && before.rate > 200),
    ensures
        25 <= nearest + 25 * direction <= 200 ==> after.rate == nearest + 25 * direction,
        nearest + 25 * direction < 25 ==> after.rate == 25,
        nearest + 25 * direction > 200 ==> after.rate == 200,
        before.engine ==> asked.len() == 1 && asked[0] == Command::SetRate(after.rate),
        !before.engine ==> asked.len() == 0,
{
    let at = ui::rate_index(before.rate);
    assert(25 + 25 * at == nearest);
    assert forall|k: int| 0 <= k < 8 implies #[trigger] ui::rates()[k] == 25 + 25 * k by {}
}

/// Marking an in point marks where playback is. An out point is kept exactly where it is
/// still after it.
pub proof fn lemma_marking_in(before: Myvid, now: Duration, after: Myvid, asked: Seq<Command>)
    requires
        ui::updated(before, now, Message::MarkIn, after, asked),
    ensures
        after.clip_in == Some(before.position),
        before.clip_out matches Some(out) ==> {
            &&& out.nanos > before.position.nanos ==> after.clip_out == Some(out)
            &&& out.nanos <= before.position.nanos ==> after.clip_out is None
        },
        before.clip_out is None ==> after.clip_out is None,
        after.export is None,
        after.error == before.error,
        asked.len() == 0,
{
}

/// Marking an out point marks where playback is, unless that is not after the in point:
/// then the marks stay as they are, and that is said.
pub proof fn lemma_marking_out(before: Myvid, now: Duration, after: Myvid, asked: Seq<Command>)
    requires
        ui::updated(before, now, Message::MarkOut, after, asked),
    ensures
        after.clip_in == before.clip_in,
        before.clip_in is None || before.clip_in->0.nanos < before.position.nanos ==> {
            &&& after.clip_out == Some(before.position)
            &&& after.export is None
            &&& after.error == before.error
        },
        before.clip_in is Some && before.clip_in->0.nanos >= before.position.nanos ==> {
            &&& after.clip_out == before.clip_out
            &&& after.export == before.export
            &&& after.error == Some(Problem::Backwards)
        },
        asked.len() == 0,
{
}

/// Clearing forgets both marks, and choosing a container chooses just that.
pub proof fn lemma_clearing_and_choosing(
    before: Myvid,
    now: Duration,
    container: Container,
    cleared: Myvid,
    chosen: Myvid,
    first: Seq<Command>,
    second: Seq<Command>,
)
    requires
        ui::updated(before, now, Message::ClearClip, cleared, first),
        ui::updated(before, now, Message::SetContainer(container), chosen, second),
    ensures
        cleared.clip_in is None && cleared.clip_out is None && cleared.export is None,
        chosen.container == container,
        chosen.clip_in == before.clip_in && chosen.clip_out == before.clip_out,
        first.len() == 0 && second.len() == 0,
{
}

/// Exporting asks for exactly the range that is marked, in the container that is chosen,
/// beside the source under a name that starts with the source's own and ends with the
/// container's extension. Without a range, or without a local file to name it after,
/// nothing is asked for and that is said.
pub proof fn lemma_exporting_asks_for_the_marked_range(
    before: Myvid,
    now: Duration,
    after: Myvid,
    asked: Seq<Command>,
)
    requires
        ui::updated(before, now, Message::ExportClip, after, asked),
    ensures
        before.clip_in is None || before.clip_out is None ==> asked.len() == 0 && after.error
            == Some(Problem::NoRange) && after.export == before.export,
        before.clip_in is Some && before.clip_out is Some && (before.local is None
            || ui::clip::file_stem(before.local->0@) is None) ==> asked.len() == 0 && after.error
            == Some(Problem::NotLocal) && after.export == before.export,
        before.engine && before.clip_in is Some && before.clip_out is Some && before.local is Some
            && ui::clip::file_stem(before.local->0@) is Some ==> {
            &&& asked.len() == 1
            &&& asked[0] matches Command::ExportClip(request) && request.start
                == before.clip_in->0 && request.end == before.clip_out->0 && request.container
                == before.container && request.output@ == ui::clip::with_file_name(
                before.local->0@,
                ui::clip::clip_name(
                    ui::clip::file_stem(before.local->0@)->0,
                    before.clip_in->0,
                    before.clip_out->0,
                    before.container,
                ),
            )
            &&& after.export == Some(Export::Progress(0))
            &&& after.error == before.error
        },
        after.clip_in == before.clip_in && after.clip_out == before.clip_out,
{
}

/// Fullscreen and the panel are each on where they were off, and off where they were on;
/// the window is told which.
pub proof fn lemma_switches_flip(
    before: Myvid,
    now: Duration,
    wide: Myvid,
    listed: Myvid,
    first: Seq<Command>,
    second: Seq<Command>,
)
    requires
        ui::updated(before, now, Message::ToggleFullscreen, wide, first),
        ui::updated(before, now, Message::TogglePanel, listed, second),
    ensures
        wide.fullscreen != before.fullscreen,
        first.len() == 1 && first[0] == Command::SetFullscreen(wide.fullscreen),
        listed.panel != before.panel,
        second.len() == 0,
        wide.panel == before.panel && listed.fullscreen == before.fullscreen,
{
}

/// A file dragged over the window is known to be there until it leaves or is dropped.
pub proof fn lemma_dragging_is_noticed(
    before: Myvid,
    now: Duration,
    hovering: bool,
    path: String,
    over: Myvid,
    dropped: Myvid,
    first: Seq<Command>,
    second: Seq<Command>,
)
    requires
        ui::updated(before, now, Message::DragOver(hovering), over, first),
        ui::updated(before, now, Message::Dropped(path), dropped, second),
    ensures
        over.hovering == hovering,
        first.len() == 0,
        !dropped.hovering,
{
}

/// The URL prompt opens empty and with the cursor in it, holds what is typed, and closes
/// when it is closed or submitted.
pub proof fn lemma_the_prompt_holds_what_is_typed(
    before: Myvid,
    now: Duration,
    value: String,
    open: Myvid,
    typed: Myvid,
    closed: Myvid,
    sent: Myvid,
    a: Seq<Command>,
    b: Seq<Command>,
    c: Seq<Command>,
    d: Seq<Command>,
)
    requires
        ui::updated(before, now, Message::ShowUrlPrompt, open, a),
        ui::updated(before, now, Message::UrlInput(value), typed, b),
        ui::updated(before, now, Message::CloseUrlPrompt, closed, c),
        ui::updated(before, now, Message::SubmitUrl, sent, d),
    ensures
        open.url_prompt matches Some(empty) && empty@.len() == 0,
        a.len() == 1 && a[0] == Command::FocusUrlField,
        typed.url_prompt == Some(value),
        b.len() == 0,
        closed.url_prompt is None,
        c.len() == 0,
        sent.url_prompt is None,
{
}

/// What is copied is what the error chip says, word for word; dismissing it leaves no
/// error.
pub proof fn lemma_an_error_can_be_copied(
    before: Myvid,
    now: Duration,
    copied: Myvid,
    dismissed: Myvid,
    asked: Seq<Command>,
    second: Seq<Command>,
)
    requires
        ui::updated(before, now, Message::CopyError, copied, asked),
        ui::updated(before, now, Message::DismissError, dismissed, second),
    ensures
        copied == before,
        before.error is None ==> asked.len() == 0,
        before.error matches Some(problem) ==> {
            &&& asked.len() == 1
            &&& asked[0] matches Command::CopyText(words) && words@ == (match problem {
                Problem::Playback(said) => said@,
                Problem::Location(LocationError::Empty) => "empty location"@,
                Problem::Location(LocationError::NoSuchFile(path)) => "no such file: "@ + path@,
                Problem::Location(LocationError::NoUri(why)) => why@,
                Problem::Export(why) => "clip export failed: "@ + why@,
                Problem::Backwards => "the out point must come after the in point"@,
                Problem::NoRange => "set an in and an out point first"@,
                Problem::NotLocal => "clip export needs a local file"@,
            })
        },
        dismissed.error is None,
        second.len() == 0,
{
}

/// The file dialog is asked for once, and an answer of nothing changes nothing.
pub proof fn lemma_the_dialog_is_asked_for(
    before: Myvid,
    now: Duration,
    after: Myvid,
    same: Myvid,
    asked: Seq<Command>,
    second: Seq<Command>,
)
    requires
        ui::updated(before, now, Message::OpenDialog, after, asked),
        ui::updated(before, now, Message::Picked(None), same, second),
    ensures
        asked.len() == 1 && asked[0] == Command::PickFile,
        same == before,
        second.len() == 0,
{
}

/// Each thing that the player knows changes only on account of what is about it. A source
/// is started on exactly where the last thing asked for is to open it, and that is what
/// drops what was known of the one before.
#[verifier::spinoff_prover]
#[verifier::rlimit(100)]
pub proof fn lemma_nothing_else_changes(
    before: Myvid,
    now: Duration,
    message: Message,
    after: Myvid,
    asked: Seq<Command>,
)
    requires
        !(message is Key),
        ui::updated(before, now, message, after, asked),
    ensures
        ({
            let opens = asked.len() > 0 && asked.last() is Open;
            let event = message->Engine_0;
            let told = message is Engine;
            &&& after.engine != before.engine ==> told && event is Ready && after.engine
            &&& after.state != before.state ==> told && (event is State || event is Eos)
            &&& after.info != before.info ==> told && (event is Loaded || event is Frame) || opens
            &&& after.source != before.source ==> opens
            &&& after.local != before.local ==> opens
            &&& after.position != before.position ==> told && event is Subtitle || message is Tick
                || message is Skip || message is SeekFraction || opens
            &&& after.duration != before.duration ==> told && event is Duration || message is Tick
                || opens
            &&& after.volume != before.volume ==> message is SetVolume
            &&& after.muted != before.muted ==> message is SetVolume || message is ToggleMute
            &&& after.effects != before.effects ==> message is SetAudioEffects
            &&& after.rate != before.rate ==> message is StepRate || message is SetRate || opens
            &&& after.buffering != before.buffering ==> told && (event is Buffering || event
                is State)
            &&& after.subtitle != before.subtitle ==> told && event is Subtitle || message is Tick
                || message is Skip || message is SeekFraction || message is SelectTrack || opens
            &&& after.subtitle_end != before.subtitle_end ==> told && event is Subtitle || message
                is Tick || message is SelectTrack || opens
            &&& after.tracks != before.tracks ==> told && event is Tracks || opens
            &&& after.panel != before.panel ==> message is TogglePanel
            &&& after.clip_in != before.clip_in ==> message is MarkIn || message is ClearClip
                || opens
            &&& after.clip_out != before.clip_out ==> message is MarkIn || message is MarkOut
                || message is ClearClip || opens
            &&& after.container != before.container ==> message is SetContainer
            &&& after.export != before.export ==> told && event is Export || message is MarkIn
                || message is MarkOut || message is ClearClip || message is ExportClip || opens
            &&& after.error != before.error ==> told && (event is Export || event is Error || event
                is Ready) || message is Picked || message is Dropped || message is SubmitUrl
                || message is MarkOut || message is ExportClip || message is DismissError || opens
            &&& after.fullscreen != before.fullscreen ==> message is ToggleFullscreen
            &&& after.hovering != before.hovering ==> message is DragOver || message is Dropped
            &&& after.url_prompt != before.url_prompt ==> message is ShowUrlPrompt || message
                is UrlInput || message is SubmitUrl || message is CloseUrlPrompt
            &&& after.pending != before.pending ==> told && event is Ready || message is Picked
                || message is Dropped || message is SubmitUrl
            &&& after.last_activity == before.last_activity || after.last_activity == now
        }),
{
    match message {
        Message::Engine(event) => match event {
            Event::Ready => {
                if before.pending is Some && asked.skip(3).len() > 0 {
                    assert(asked.skip(3).last() == asked.last());
                }
            },
            Event::Loaded(_) => {},
            Event::State(_) => {},
            Event::Duration(_) => {},
            Event::Buffering(_) => {},
            Event::Frame(_, _) => {},
            Event::Subtitle { text, start, end } => {},
            Event::Tracks(_) => {},
            Event::Export(_) => {},
            Event::Eos => {},
            Event::Error(_) => {},
        },
        Message::Tick { position, duration } => {},
        Message::Picked(_) => {},
        Message::Dropped(_) => {},
        Message::SubmitUrl => {},
        Message::ExportClip => {},
        _ => {},
    }
}

/// What a hand does to the player brings the controls up and counts as touching it, from
/// that moment on; what happens by itself, and what is typed or chosen elsewhere, does
/// not.
#[verifier::spinoff_prover]
#[verifier::rlimit(100)]
pub proof fn lemma_touching_brings_the_controls_up(
    before: Myvid,
    now: Duration,
    message: Message,
    after: Myvid,
    asked: Seq<Command>,
)
    requires
        !(message is Key),
        ui::updated(before, now, message, after, asked),
    ensures
        match message {
            Message::Activity
            | Message::TogglePlay
            | Message::Skip(_)
            | Message::SeekFraction(_)
            | Message::SetVolume(_)
            | Message::ToggleMute
            | Message::StepRate(_)
            | Message::OpenDialog
            | Message::ToggleFullscreen
            | Message::TogglePanel
            | Message::Dropped(_)
            | Message::DragOver(true)
            | Message::SelectTrack(_, _)
            | Message::SetRate(_)
            | Message::MarkIn
            | Message::MarkOut
            | Message::ClearClip
            | Message::SetContainer(_)
            | Message::ExportClip
            | Message::ShowUrlPrompt => after.last_activity == now && after.chrome,
            Message::Tick { position, duration } => after.last_activity == before.last_activity,
            Message::Engine(event) => {
                &&& after.last_activity == before.last_activity
                &&& after.chrome <==> before.chrome || event is Eos || event is Error || (event
                    matches Event::State(state) && state != before.state)
            },
            _ => after.last_activity == before.last_activity && after.chrome == before.chrome,
        },
{
    match message {
        Message::Engine(event) => match event {
            Event::Ready => {},
            Event::State(_) => {},
            Event::Eos => {},
            Event::Error(_) => {},
            _ => {},
        },
        Message::Picked(_) => {},
        Message::Dropped(_) => {},
        Message::SubmitUrl => {},
        Message::ExportClip => {},
        _ => {},
    }
}

/// Nothing is asked for but by what is about it, and there is nothing to ask the engine
/// for before it is live.
#[verifier::spinoff_prover]
#[verifier::rlimit(100)]
pub proof fn lemma_nothing_else_is_asked_for(
    before: Myvid,
    now: Duration,
    message: Message,
    after: Myvid,
    asked: Seq<Command>,
    i: int,
)
    requires
        !(message is Key),
        0 <= i < asked.len(),
        ui::updated(before, now, message, after, asked),
    ensures
        message matches Message::Engine(event) ==> event is Ready,
        !(message is Engine) ==> asked.len() == 1,
        match asked[i] {
            Command::Play | Command::Pause => before.engine && message is TogglePlay,
            Command::Seek(_) => before.engine && (message is Skip || message is SeekFraction),
            Command::SetVolume(_) => message is Engine || before.engine && (message is SetVolume
                || message is ToggleMute),
            Command::SetAudioEffects(_) => message is Engine || before.engine && message
                is SetAudioEffects,
            Command::SetRate(_) => before.engine && (message is StepRate || message is SetRate),
            Command::SelectTrack(_, _) => before.engine && message is SelectTrack,
            Command::ExportClip(_) => before.engine && message is ExportClip,
            Command::Find { path, absolute } => message is Engine || before.engine && (message
                is Picked || message is Dropped || message is SubmitUrl),
            Command::Open(_) => message is Engine || before.engine && (message is Picked || message
                is Dropped || message is SubmitUrl),
            Command::UseFrames => message is Engine,
            Command::PickFile => message is OpenDialog,
            Command::SetFullscreen(_) => message is ToggleFullscreen,
            Command::FocusUrlField => message is ShowUrlPrompt,
            Command::CopyText(_) => message is CopyError,
        },
{
    match message {
        Message::Engine(event) => match event {
            Event::Ready => {
                let first = seq![
                    Command::UseFrames,
                    Command::SetVolume(before.volume),
                    Command::SetAudioEffects(before.effects),
                ];
                assert(first[0] is UseFrames && first[1] is SetVolume && first[2]
                    is SetAudioEffects);
                if before.pending is Some {
                    assert(asked.subrange(0, 3) == first);
                    assert(asked.len() >= 3);
                    if i >= 3 {
                        let rest = asked.skip(3);
                        assert(rest.len() <= 1);
                        assert(asked[3] == rest[0]);
                    } else {
                        assert(asked.subrange(0, 3)[i] == asked[i]);
                    }
                }
            },
            _ => {},
        },
        Message::Picked(_) => {},
        Message::Dropped(_) => {},
        Message::SubmitUrl => {},
        Message::ExportClip => {},
        Message::CopyError => {},
        _ => {},
    }
}

/// A file picked or dropped is opened, whatever white space stands around its name: at
/// once where it names a scheme that is known, and otherwise once it has been found, from
/// the root where it starts with a slash. Before the engine is live it waits, and a name
/// with nothing in it is refused.
pub proof fn lemma_a_file_is_opened(
    before: Myvid,
    now: Duration,
    message: Message,
    path: String,
    after: Myvid,
    asked: Seq<Command>,
)
    requires
        message == Message::Picked(Some(path)) || message == Message::Dropped(path),
        ui::updated(before, now, message, after, asked),
    ensures
        ({
            let place = text::trimmed(path@);
            &&& !before.engine ==> asked.len() == 0 && (after.pending matches Some(pending)
                && pending@ == path@) && after.error == before.error
            &&& before.engine && place.len() == 0 ==> asked.len() == 0 && after.error == Some(
                Problem::Location(LocationError::Empty),
            )
            &&& before.engine && place.len() > 0 && engine::has_known_scheme(place)
                ==> asked.len() == 1 && (asked[0] matches Command::Open(uri) && uri@ == place)
            &&& before.engine && place.len() > 0 && !engine::has_known_scheme(place)
                ==> asked.len() == 1 && (asked[0] matches Command::Find { path, absolute } && path@
                == place && (absolute <==> place[0] == '/')) && after.error == before.error
        }),
{
}

/// What is submitted in the prompt is opened as a file of that name would be, and white
/// space alone is not submitted at all.
pub proof fn lemma_a_url_is_opened(
    before: Myvid,
    now: Duration,
    after: Myvid,
    asked: Seq<Command>,
)
    requires
        ui::updated(before, now, Message::SubmitUrl, after, asked),
    ensures
        before.url_prompt is None || text::trimmed(before.url_prompt->0@).len() == 0
            ==> asked.len() == 0 && after == (Myvid { url_prompt: None, ..before }),
        before.url_prompt matches Some(typed) && text::trimmed(typed@).len() > 0 ==> {
            let place = text::trimmed(before.url_prompt->0@);
            &&& !before.engine ==> asked.len() == 0 && (after.pending matches Some(pending)
                && pending@ == place)
            &&& before.engine && engine::has_known_scheme(place) ==> asked.len() == 1 && (
            asked[0] matches Command::Open(uri) && uri@ == place)
            &&& before.engine && !engine::has_known_scheme(place) ==> asked.len() == 1 && (
            asked[0] matches Command::Find { path, absolute } && path@ == place && (absolute
                <==> place[0] == '/'))
        },
{
    if before.url_prompt is Some {
        text::lemma_trimmed_twice(before.url_prompt->0@);
    }
}

/// Wherever a source is asked to be opened, the player is on that source from its start
/// at normal speed, and has forgotten what it knew of the one before: its length, its
/// tracks and its cue, the marks and the export made of it, what it was made of, and what
/// went wrong.
pub proof fn lemma_a_new_source_starts_afresh(
    before: Myvid,
    now: Duration,
    message: Message,
    after: Myvid,
    asked: Seq<Command>,
)
    requires
        !(message is Key),
        ui::updated(before, now, message, after, asked),
        asked.len() > 0,
    ensures
        asked.last() matches Command::Open(uri) ==> {
            &&& after.source == Some(uri)
            &&& after.local is None
            &&& after.position.nanos == 0
            &&& after.duration is None
            &&& after.rate == 100
            &&& after.subtitle is None && after.subtitle_end is None
            &&& after.tracks@.len() == 0
            &&& after.clip_in is None && after.clip_out is None && after.export is None
            &&& after.error is None
            &&& after.info.title@.len() == 0 && after.info.video_codec@.len() == 0
            &&& after.info.audio_codec@.len() == 0 && after.info.container@.len() == 0
            &&& after.info.width == 0 && after.info.height == 0
            &&& after.info.audio_channels == 0 && after.info.audio_rate == 0
                && after.info.audio_bitrate == 0
            &&& !after.info.hardware
        },
{
    match message {
        Message::Engine(event) => match event {
            Event::Ready => {
                if before.pending is Some {
                    let first = seq![
                        Command::UseFrames,
                        Command::SetVolume(before.volume),
                        Command::SetAudioEffects(before.effects),
                    ];
                    assert(asked.subrange(0, 3) == first);
                    let rest = asked.skip(3);
                    if rest.len() > 0 {
                        assert(rest.last() == asked.last());
                    } else {
                        assert(asked.last() == asked.subrange(0, 3)[2]);
                    }
                }
            },
            _ => {},
        },
        Message::Picked(_) => {},
        Message::Dropped(_) => {},
        Message::SubmitUrl => {},
        Message::ExportClip => {},
        Message::CopyError => {},
        _ => {},
    }
}

/// Once the engine is live its frames are shown, it is told the volume and the effects in
/// force, and then what was waiting is opened.
pub proof fn lemma_a_live_engine_is_set_up(
    before: Myvid,
    now: Duration,
    after: Myvid,
    asked: Seq<Command>,
)
    requires
        ui::updated(before, now, Message::Engine(Event::Ready), after, asked),
    ensures
        after.engine,
        after.pending is None,
        asked.len() >= 3,
        asked[0] == Command::UseFrames,
        asked[1] == Command::SetVolume(before.volume),
        asked[2] == Command::SetAudioEffects(before.effects),
        before.pending is None ==> asked.len() == 3,
        before.pending matches Some(location) ==> {
            let place = text::trimmed(location@);
            &&& place.len() == 0 ==> asked.len() == 3 && after.error == Some(
                Problem::Location(LocationError::Empty),
            )
            &&& place.len() > 0 && engine::has_known_scheme(place) ==> asked.len() == 4 && (
            asked[3] matches Command::Open(uri) && uri@ == place)
            &&& place.len() > 0 && !engine::has_known_scheme(place) ==> asked.len() == 4 && (
            asked[3] matches Command::Find { path, absolute } && path@ == place && (absolute
                <==> place[0] == '/'))
        },
{
    if before.pending is Some {
        let first = seq![
            Command::UseFrames,
            Command::SetVolume(before.volume),
            Command::SetAudioEffects(before.effects),
        ];
        assert(asked.subrange(0, 3) == first);
        assert(asked.subrange(0, 3)[0] == asked[0] && asked.subrange(0, 3)[1] == asked[1]
            && asked.subrange(0, 3)[2] == asked[2]);
        let rest = asked.skip(3);
        if rest.len() > 0 {
            assert(rest[0] == asked[3]);
        }
    }
}

/// What the engine reports of the media is what is known of it; where it says nothing,
/// what was known before stays. What is known of the sound comes as a whole.
pub proof fn lemma_what_is_loaded_is_known(
    before: Myvid,
    now: Duration,
    info: MediaInfo,
    after: Myvid,
    asked: Seq<Command>,
)
    requires
        ui::updated(before, now, Message::Engine(Event::Loaded(info)), after, asked),
    ensures
        info.title@.len() > 0 ==> after.info.title == info.title,
        info.title@.len() == 0 ==> after.info.title == before.info.title,
        info.video_codec@.len() > 0 ==> after.info.video_codec == info.video_codec,
        info.video_codec@.len() == 0 ==> after.info.video_codec == before.info.video_codec,
        info.audio_codec@.len() > 0 ==> after.info.audio_codec == info.audio_codec,
        info.audio_codec@.len() == 0 ==> after.info.audio_codec == before.info.audio_codec,
        info.container@.len() > 0 ==> after.info.container == info.container,
        info.container@.len() == 0 ==> after.info.container == before.info.container,
        info.audio_channels > 0 ==> after.info.audio_channels == info.audio_channels
            && after.info.audio_rate == info.audio_rate && after.info.audio_bitrate
            == info.audio_bitrate,
        info.audio_channels == 0 ==> after.info.audio_channels == before.info.audio_channels
            && after.info.audio_rate == before.info.audio_rate && after.info.audio_bitrate
            == before.info.audio_bitrate,
        after.info.hardware == info.hardware,
        after.info.width == before.info.width && after.info.height == before.info.height,
{
}

/// What the engine reports of playback is what the player knows: its state, its length,
/// how far it has buffered and the size of its picture. Buffering is shown only until it
/// is done or something plays.
pub proof fn lemma_what_is_reported_is_known(
    before: Myvid,
    now: Duration,
    event: Event,
    after: Myvid,
    asked: Seq<Command>,
)
    requires
        ui::updated(before, now, Message::Engine(event), after, asked),
    ensures
        match event {
            Event::State(state) => {
                &&& after.state == state
                &&& state == State::Playing ==> after.buffering is None
                &&& state != State::Playing ==> after.buffering == before.buffering
            },
            Event::Duration(duration) => after.duration == Some(duration),
            Event::Buffering(percent) => {
                &&& percent < 100 ==> after.buffering == Some(percent)
                &&& percent >= 100 ==> after.buffering is None
            },
            Event::Frame(width, height) => {
                &&& after.info.width == width && after.info.height == height
                &&& after.info == (MediaInfo { width, height, ..before.info })
            },
            Event::Tracks(tracks) => after.tracks == tracks,
            Event::Export(export) => {
                &&& after.export == Some(export)
                &&& export matches Export::Failed(why) ==> after.error == Some(Problem::Export(why))
                &&& !(export is Failed) ==> after.error == before.error
            },
            Event::Eos => after.state == State::Ended,
            Event::Error(words) => after.error == Some(Problem::Playback(words)),
            _ => true,
        },
{
}

/// A file that was looked for is opened under the URI it was found by. One that was not
/// found, or has no URI, is not, and that is said.
pub proof fn lemma_what_is_found_is_opened(
    before: Myvid,
    path: String,
    found: bool,
    uri: Result<String, String>,
    after: Myvid,
    asked: Seq<Command>,
)
    requires
        ui::locating(before, path, found, uri, after, asked),
    ensures
        found && uri is Ok ==> {
            &&& asked.len() == 1
            &&& asked[0] matches Command::Open(place) && place@ == uri->Ok_0@ && after.source
                == Some(place)
            &&& after.local is None
            &&& after.position.nanos == 0
            &&& after.duration is None
            &&& after.rate == 100
            &&& after.subtitle is None && after.subtitle_end is None
            &&& after.tracks@.len() == 0
            &&& after.clip_in is None && after.clip_out is None && after.export is None
            &&& after.error is None
            &&& after.volume == before.volume && after.muted == before.muted && after.effects
                == before.effects
        },
        found && uri is Err ==> asked.len() == 0 && after.error == Some(
            Problem::Location(LocationError::NoUri(uri->Err_0)),
        ) && after.source == before.source && after.position == before.position,
        !found ==> asked.len() == 0 && after.error == Some(
            Problem::Location(LocationError::NoSuchFile(path)),
        ) && after.source == before.source && after.position == before.position,
{
}

/// What has been opened is played, and its local path is known from then on. What could
/// not be opened is not played, and the reason is given.
pub proof fn lemma_what_opens_is_played(
    before: Myvid,
    path: Option<String>,
    result: Result<(), String>,
    after: Myvid,
    asked: Seq<Command>,
)
    requires
        ui::settling(before, path, result, after, asked),
    ensures
        after.local == path,
        result is Ok ==> asked.len() == 1 && asked[0] == Command::Play && after.error
            == before.error,
        result matches Err(why) ==> asked.len() == 0 && after.error == Some(Problem::Playback(why)),
        after == (Myvid { local: after.local, error: after.error, ..before }),
{
}

/// Space plays or pauses, the arrows skip and set the volume, and Escape leaves fullscreen:
/// each on top of being a touch.
pub proof fn lemma_named_keys(
    before: Myvid,
    now: Duration,
    name: Named,
    after: Myvid,
    asked: Seq<Command>,
)
    requires
        before.url_prompt is None,
        before.volume <= 150,
        ui::updated(
            before,
            now,
            Message::Key(
                KeyEvent::Pressed {
                    key: Key::Named(name),
                    modifiers: Modifiers { command: false },
                },
            ),
            after,
            asked,
        ),
    ensures
        ({
            let touched = Myvid { last_activity: now, chrome: true, ..before };
            match name {
                Named::Space => ui::updated(touched, now, Message::TogglePlay, after, asked),
                Named::ArrowLeft => ui::updated(touched, now, Message::Skip((-5) as i64), after, asked),
                Named::ArrowRight => ui::updated(touched, now, Message::Skip(5), after, asked),
                Named::ArrowUp => {
                    &&& before.volume <= 145 ==> after.volume == before.volume + 5
                    &&& before.volume > 145 ==> after.volume == 150
                    &&& !after.muted
                    &&& before.engine ==> asked == seq![Command::SetVolume(after.volume)]
                },
                Named::ArrowDown => {
                    &&& before.volume >= 5 ==> after.volume == before.volume - 5
                    &&& before.volume < 5 ==> after.volume == 0
                    &&& after.muted <==> after.volume == 0
                    &&& before.engine ==> asked == seq![Command::SetVolume(after.volume)]
                },
                Named::Escape => if before.fullscreen {
                    !after.fullscreen && asked == seq![Command::SetFullscreen(false)]
                } else {
                    after == touched && asked.len() == 0
                },
                Named::Other => after == touched && asked.len() == 0,
            }
        }),
{
}

/// A letter that is a shortcut does its one thing in either case, on top of being a touch;
/// one that is none does nothing more. A clip is exported by its key only
/// once an in point is marked.
#[verifier::spinoff_prover]
pub proof fn lemma_letter_keys(
    before: Myvid,
    now: Duration,
    typed: String,
    c: char,
    after: Myvid,
    asked: Seq<Command>,
)
    requires
        before.url_prompt is None,
        typed@.len() == 1,
        typed@[0] as u32 == 0 || typed@[0] as u32 > 26,
        text::char_to_lowercase(typed@[0]) == seq![c],
        ui::updated(
            before,
            now,
            Message::Key(
                KeyEvent::Pressed {
                    key: Key::Character(typed),
                    modifiers: Modifiers { command: false },
                },
            ),
            after,
            asked,
        ),
    ensures
        ({
            let touched = Myvid { last_activity: now, chrome: true, ..before };
            match c {
                'j' => ui::updated(touched, now, Message::Skip((-10) as i64), after, asked),
                'l' => ui::updated(touched, now, Message::Skip(10), after, asked),
                'k' => ui::updated(touched, now, Message::TogglePlay, after, asked),
                'f' => ui::updated(touched, now, Message::ToggleFullscreen, after, asked),
                'm' => ui::updated(touched, now, Message::ToggleMute, after, asked),
                'i' => ui::updated(touched, now, Message::MarkIn, after, asked),
                'o' => ui::updated(touched, now, Message::MarkOut, after, asked),
                't' => ui::updated(touched, now, Message::TogglePanel, after, asked),
                '[' => ui::updated(touched, now, Message::StepRate((-1) as i32), after, asked),
                ']' => ui::updated(touched, now, Message::StepRate(1), after, asked),
                'e' => if before.clip_in is Some {
                    ui::updated(touched, now, Message::ExportClip, after, asked)
                } else {
                    after == touched && asked.len() == 0
                },
                _ => after == touched && asked.len() == 0,
            }
        }),
{
    let letters = text::char_to_lowercase(typed@[0]);
    assert(letters[0] == c);
    assert(seq!['j'][0] == 'j' && seq!['l'][0] == 'l' && seq!['k'][0] == 'k' && seq!['f'][0] == 'f'
        && seq!['m'][0] == 'm' && seq!['o'][0] == 'o' && seq!['i'][0] == 'i' && seq!['t'][0] == 't'
        && seq!['e'][0] == 'e' && seq!['['][0] == '[' && seq![']'][0] == ']');
}

/// With Ctrl, L asks for a URL and O for a file, and no other key does anything but be a
/// touch: whether Ctrl comes as a modifier, or in the character that is typed.
#[verifier::spinoff_prover]
pub proof fn lemma_ctrl_keys(
    before: Myvid,
    now: Duration,
    typed: String,
    command: bool,
    c: char,
    after: Myvid,
    asked: Seq<Command>,
)
    requires
        before.url_prompt is None,
        typed@.len() == 1,
        (command && (typed@[0] as u32 == 0 || typed@[0] as u32 > 26) && text::char_to_lowercase(
            typed@[0],
        ) == seq![c]) || (1 <= typed@[0] as u32 <= 26 && c as u32 == typed@[0] as u32 + 96),
        ui::updated(
            before,
            now,
            Message::Key(
                KeyEvent::Pressed { key: Key::Character(typed), modifiers: Modifiers { command } },
            ),
            after,
            asked,
        ),
    ensures
        ({
            let touched = Myvid { last_activity: now, chrome: true, ..before };
            match c {
                'l' => ui::updated(touched, now, Message::ShowUrlPrompt, after, asked),
                'o' => ui::updated(touched, now, Message::OpenDialog, after, asked),
                _ => after == touched && asked.len() == 0,
            }
        }),
{
    let t = typed@[0];
    if 1 <= t as u32 <= 26 {
        assert((96 + t as u32) as char == c);
        assert(seq![c][0] == c);
    }
    let letters = text::char_to_lowercase(t);
    assert(seq!['l'][0] == 'l' && seq!['o'][0] == 'o');
    assert(seq![c][0] == c);
}

/// While a URL is being typed, Escape closes the prompt and no other key does anything
/// but be a touch; a key that is let go does nothing at any time.
pub proof fn lemma_keys_while_typing(
    before: Myvid,
    now: Duration,
    event: KeyEvent,
    after: Myvid,
    asked: Seq<Command>,
)
    requires
        before.url_prompt is Some,
        ui::updated(before, now, Message::Key(event), after, asked),
    ensures
        asked.len() == 0,
        match event {
            KeyEvent::Pressed { key: Key::Named(Named::Escape), modifiers } => after == (Myvid {
                url_prompt: None,
                last_activity: now,
                chrome: true,
                ..before
            }),
            KeyEvent::Pressed { key, modifiers } => after == (Myvid {
                last_activity: now,
                chrome: true,
                ..before
            }),
            KeyEvent::Other => after == before,
        },
{
}

/// A track that is picked is live once the engine has done what was asked of it: of the
/// tracks it then tells, those of that kind are marked exactly where they have the picked
/// id, and those of the other kind as they were before.
pub proof fn lemma_the_picked_track_goes_live(
    before: Myvid,
    now: Duration,
    kind: TrackKind,
    id: String,
    after: Myvid,
    asked: Seq<Command>,
    list: Seq<Track>,
    selection: Selection,
    i: int,
)
    requires
        before.engine,
        ui::updated(before, now, Message::SelectTrack(kind, Some(id)), after, asked),
        0 <= i < list.len(),
    ensures
        asked.len() == 1,
        asked[0] matches Command::SelectTrack(asked_kind, asked_id) && {
            let told = gst::published(list, selection.switched(asked_kind, asked_id))[i];
            let old = gst::published(list, selection)[i];
            &&& told.id == list[i].id && told.kind == list[i].kind
            &&& list[i].kind == kind ==> (told.selected <==> list[i].id@ == id@)
            &&& list[i].kind != kind ==> told.selected == old.selected
        },
{
}

/// Subtitles that are turned off are off once the engine has done what was asked of it:
/// no subtitle track is marked any more, and sound plays on as before.
pub proof fn lemma_subtitles_go_off(
    before: Myvid,
    now: Duration,
    after: Myvid,
    asked: Seq<Command>,
    list: Seq<Track>,
    selection: Selection,
    i: int,
)
    requires
        before.engine,
        ui::updated(before, now, Message::SelectTrack(TrackKind::Text, None), after, asked),
        0 <= i < list.len(),
    ensures
        after.subtitle is None,
        asked.len() == 1,
        asked[0] matches Command::SelectTrack(asked_kind, asked_id) && {
            let told = gst::published(list, selection.switched(asked_kind, asked_id))[i];
            &&& list[i].kind == TrackKind::Text ==> !told.selected
            &&& list[i].kind == TrackKind::Audio ==> (told.selected <==> selection.audio is Some
                && selection.audio->0@ == list[i].id@)
        },
{
}

/// A key that types no single letter and has no meaning of its own does nothing but be a
/// touch, with Ctrl or without; nor does a key with a name while Ctrl is held.
pub proof fn lemma_other_keys(
    before: Myvid,
    now: Duration,
    key: Key,
    modifiers: Modifiers,
    after: Myvid,
    asked: Seq<Command>,
)
    requires
        before.url_prompt is None,
        match key {
            Key::Named(_) => modifiers.command,
            Key::Character(typed) => typed@.len() != 1 || ((typed@[0] as u32 == 0 || typed@[0]
                as u32 > 26) && text::char_to_lowercase(typed@[0]).len() != 1),
            Key::Unidentified => true,
        },
        ui::updated(before, now, Message::Key(KeyEvent::Pressed { key, modifiers }), after, asked),
    ensures
        after == (Myvid { last_activity: now, chrome: true, ..before }),
        asked.len() == 0,
{
}

/// What a location named at the start is opened by is the same as what it would be opened
/// by once the engine is live: waiting changes nothing about it.
pub proof fn lemma_waiting_changes_nothing(
    before: Myvid,
    now: Duration,
    path: String,
    waiting: Myvid,
    first: Seq<Command>,
    after: Myvid,
    asked: Seq<Command>,
)
    requires
        !before.engine,
        ui::updated(before, now, Message::Picked(Some(path)), waiting, first),
        ui::updated(waiting, now, Message::Engine(Event::Ready), after, asked),
    ensures
        first.len() == 0,
        asked.len() >= 3,
        ui::updated(
            Myvid { engine: true, pending: None, ..before },
            now,
            Message::Picked(Some(path)),
            after,
            asked.skip(3),
        ),
{
    let set_up = seq![
        Command::UseFrames,
        Command::SetVolume(waiting.volume),
        Command::SetAudioEffects(waiting.effects),
    ];
    assert(asked.subrange(0, 3) == set_up);
}

} // verus!
