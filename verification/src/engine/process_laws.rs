//! What the two processes owe each other, and what surrounds them, as laws.

use vstd::prelude::*;

use crate::engine::dsp;
use crate::engine::dsp::AudioFx;
use crate::engine::export;
use crate::engine::export::{ExportRefusal, StartFailure};
use crate::engine::gst;
use crate::engine::gst::PipelineState;
use crate::engine::pipeline;
use crate::engine::pipeline::Element;
use crate::engine::protocol::{Layout, Notice, Request};
use crate::engine::remote;
use crate::engine::remote::{Heard, Listener, RemoteEngine, Reply};
use crate::engine::sandbox;
use crate::engine::sandbox::Confinement;
use crate::engine::shm;
use crate::engine::shm::Surface;
use crate::engine::worker;
use crate::engine::worker::{Action, Incoming, Source, Worker};
use crate::engine::{Duration, Event, State};
use crate::text;

verus! {

/// Whatever the player asks of its decoder is done, just once and just as it was asked.
/// What there is to play is confined to first; a network source may follow another in a
/// process that is confined already, and a file may not.
pub proof fn lemma_a_request_is_carried_out(worker: Worker, request: Request, actions: Seq<Action>)
    requires
        worker::reaction(worker, Incoming::Peer(request), actions),
    ensures
        actions.len() == 1,
        match request {
            Request::PlayPath(path) => if worker.confined {
                actions[0] matches Action::Send(Notice::Failed(why)) && why@
                    == "this decoder is already confined to another file"@
            } else {
                actions[0] == Action::Confine(Source::Path(path))
            },
            Request::PlayUri(uri) => if worker.confined {
                actions[0] == Action::Open(Source::Uri(uri))
            } else {
                actions[0] == Action::Confine(Source::Uri(uri))
            },
            Request::Resume => actions[0] == Action::Play,
            Request::Pause => actions[0] == Action::Pause,
            Request::Seek(ns) => actions[0] matches Action::Seek(to) && to.nanos == ns,
            Request::Volume(volume) => actions[0] == Action::SetVolume(volume),
            Request::AudioEffects(effects) => actions[0] == Action::SetAudioEffects(effects),
            Request::Rate(rate) => actions[0] == Action::SetRate(rate),
            Request::SelectTrack { kind, id } => actions[0] == (Action::SelectTrack { kind, id }),
            Request::Shutdown => actions[0] == Action::Stop,
        },
{
}

/// What the pipeline reports is sent on as it is, a frame is put in the buffer instead,
/// and the position is sent wherever it is known. With the player gone there is nothing
/// left to do.
pub proof fn lemma_what_happens_is_sent_on(
    worker: Worker,
    incoming: Incoming,
    actions: Seq<Action>,
)
    requires
        worker::reaction(worker, incoming, actions),
        !(incoming is Peer),
    ensures
        match incoming {
            Incoming::Engine(event) => match event {
                Event::Ready | Event::Export(_) => actions.len() == 0,
                Event::Frame(width, height) => actions.len() == 1 && actions[0] == Action::Publish(
                    width,
                    height,
                ),
                Event::Loaded(info) => actions.len() == 1 && actions[0] == Action::Send(
                    Notice::Loaded(info),
                ),
                Event::State(state) => actions.len() == 1 && actions[0] == Action::Send(
                    Notice::State(state),
                ),
                Event::Duration(d) => actions.len() == 1 && (actions[0] matches Action::Send(
                    Notice::Duration(ns),
                ) && (d.nanos <= u64::MAX ==> ns == d.nanos)),
                Event::Buffering(percent) => actions.len() == 1 && actions[0] == Action::Send(
                    Notice::Buffering(percent),
                ),
                Event::Tracks(tracks) => actions.len() == 1 && actions[0] == Action::Send(
                    Notice::Tracks(tracks),
                ),
                Event::Subtitle { text, start, end } => actions.len() == 1 && (
                actions[0] matches Action::Send(Notice::Subtitle { text: cue, start: from, end: to })
                    && cue == text && (start.nanos <= u64::MAX ==> from == start.nanos) && (
                end.nanos <= u64::MAX ==> to == end.nanos)),
                Event::Eos => actions.len() == 1 && actions[0] == Action::Send(Notice::Eos),
                Event::Error(message) => actions.len() == 1 && actions[0] == Action::Send(
                    Notice::Failed(message),
                ),
            },
            Incoming::Tick(Some(position)) => actions.len() == 1 && (
            actions[0] matches Action::TrySend(Notice::Position(ns)) && (position.nanos <= u64::MAX
                ==> ns == position.nanos)),
            Incoming::Tick(None) => actions.len() == 0,
            Incoming::PeerGone => actions.len() == 1 && actions[0] == Action::Stop,
            Incoming::Peer(_) => true,
        },
{
    match incoming {
        Incoming::Engine(event) => match event {
            Event::Subtitle { text, start, end } => {},
            _ => {},
        },
        _ => {},
    }
}

/// A time that fits in a message is carried as it is.
pub proof fn lemma_times_survive_the_wire(d: Duration)
    requires
        d.nanos <= u64::MAX,
    ensures
        worker::wire(d) == d.nanos,
{
}

/// A slot of the buffer has room for a whole picture: every row of its luma, and every
/// row of its chroma, of which there are half as many, rounded up. There are three.
pub proof fn lemma_a_slot_holds_a_picture(width: u32, height: u32, y_stride: u32, uv_stride: u32)
    requires
        y_stride * height + uv_stride * ((height + 1) / 2) <= u64::MAX,
    ensures
        ({
            let layout = worker::frame_layout(width, height, y_stride, uv_stride);
            &&& layout.width == width && layout.height == height
            &&& layout.y_stride == y_stride && layout.uv_stride == uv_stride
            &&& layout.slots == 3
            &&& layout.slot_bytes == y_stride * height + uv_stride * ((height + 1) / 2)
            &&& layout.luma() + layout.chroma() <= layout.slot_bytes
        }),
{
    assert(0 <= y_stride * height + uv_stride * ((height + 1) / 2)) by (nonlinear_arith);
}

/// The player is handed a fresh buffer ahead of the frame in it, and of a frame it is
/// told the slot it is in.
pub proof fn lemma_the_buffer_comes_ahead_of_the_frame(
    slot: u32,
    fresh: Option<Layout>,
    generation: u64,
    sent_ns: u64,
)
    ensures
        ({
            let told = worker::frame_notices(slot, fresh, generation, sent_ns);
            &&& told.len() > 0
            &&& told.last() == Action::TrySend(Notice::Frame { slot, generation, sent_ns })
            &&& fresh matches Some(layout) ==> told.len() == 2 && told[0] == Action::Send(
                Notice::Surface(layout),
            )
            &&& fresh is None ==> told.len() == 1
        }),
{
}

/// The slots are used in turn: one, the next, the one after, and then the first again.
pub proof fn lemma_slots_are_used_in_turn(generation: int)
    requires
        0 <= generation,
    ensures
        shm::slot_for(0) == 0,
        shm::slot_for(generation + 3) == shm::slot_for(generation),
        shm::slot_for(generation) < 2 ==> shm::slot_for(generation + 1) == shm::slot_for(generation)
            + 1,
        shm::slot_for(generation) == 2 ==> shm::slot_for(generation + 1) == 0,
{
}

/// A slot starts where the slots ahead of it end.
pub proof fn lemma_slots_lie_side_by_side(surface: Surface, slot: u32)
    requires
        slot + 1 < surface.layout.slots,
    ensures
        surface.offset(0) == 0,
        surface.offset((slot + 1) as u32) == surface.offset(slot) + surface.layout.slot_bytes,
{
    let n = surface.layout.slots as int;
    let bytes = surface.layout.slot_bytes as int;
    vstd::arithmetic::div_mod::lemma_small_mod(slot as nat, n as nat);
    vstd::arithmetic::div_mod::lemma_small_mod((slot + 1) as nat, n as nat);
    assert((slot + 1) * bytes == slot * bytes + bytes) by (nonlinear_arith);
    assert(0 * bytes == 0);
}

/// A decoder's words reach the player as they were, as long as it is the one that plays:
/// times in nanoseconds, and frames only once there is a buffer they are in, at the size
/// that buffer has.
pub proof fn lemma_what_a_decoder_says_is_heard(
    before: Listener,
    engine: RemoteEngine,
    notice: Notice,
    attached: bool,
    after: Listener,
    engine_after: RemoteEngine,
    replies: Seq<Reply>,
)
    requires
        before.epoch == engine.epoch,
        remote::hearing(
            before,
            engine,
            Heard::Notice(notice, attached),
            after,
            engine_after,
            replies,
        ),
    ensures
        match notice {
            Notice::Ready { confinement } => replies.len() == 1 && replies[0] == Reply::Log(
                confinement,
            ),
            Notice::Surface(layout) => if attached {
                replies.len() == 1 && replies[0] == Reply::Adopt(layout) && after == before
            } else {
                replies.len() == 1 && (replies[0] matches Reply::Emit(Event::Error(words)) && words@
                    == "could not map the decoder's frame buffer"@) && after.surface is None
            },
            Notice::Frame { slot, generation, sent_ns } => match before.surface {
                Some(layout) => replies.len() == 2 && replies[0] == Reply::Show(slot) && replies[1]
                    == Reply::Emit(Event::Frame(layout.width, layout.height)),
                None => replies.len() == 0,
            },
            Notice::Position(ns) => replies.len() == 0 && engine_after.position == ns,
            Notice::Duration(ns) => replies.len() == 1 && (replies[0] matches Reply::Emit(
                Event::Duration(d),
            ) && d.nanos == ns) && engine_after.duration == ns,
            Notice::State(state) => replies.len() == 1 && replies[0] == Reply::Emit(
                Event::State(state),
            ),
            Notice::Buffering(percent) => replies.len() == 1 && replies[0] == Reply::Emit(
                Event::Buffering(percent),
            ),
            Notice::Loaded(info) => replies.len() == 1 && replies[0] == Reply::Emit(
                Event::Loaded(info),
            ),
            Notice::Tracks(tracks) => replies.len() == 1 && replies[0] == Reply::Emit(
                Event::Tracks(tracks),
            ),
            Notice::Subtitle { text, start, end } => replies.len() == 1 && (
            replies[0] matches Reply::Emit(Event::Subtitle { text: cue, start: from, end: to })
                && cue == text && from.nanos == start && to.nanos == end),
            Notice::Eos => replies.len() == 1 && replies[0] == Reply::Emit(Event::Eos),
            Notice::Failed(message) => replies.len() == 1 && replies[0] == Reply::Emit(
                Event::Error(message),
            ),
        },
        !(notice is Position) ==> engine_after.position == engine.position,
        !(notice is Duration) ==> engine_after.duration == engine.duration,
        engine_after == (RemoteEngine {
            position: engine_after.position,
            duration: engine_after.duration,
            ..engine
        }),
        !(notice is Surface) ==> after == before,
        after.epoch == before.epoch,
{
}

/// A decoder that goes quiet while it is the one that plays is reported as gone, and
/// nothing plays any more.
pub proof fn lemma_a_lost_decoder_is_reported(
    before: Listener,
    engine: RemoteEngine,
    after: Listener,
    engine_after: RemoteEngine,
    replies: Seq<Reply>,
)
    requires
        before.epoch == engine.epoch,
        remote::hearing(before, engine, Heard::Nothing, after, engine_after, replies),
    ensures
        replies.len() == 3,
        replies[0] matches Reply::Emit(Event::Error(words)) && words@
            == "the decode process stopped unexpectedly"@,
        replies[1] == Reply::Emit(Event::State(State::Idle)),
        replies[2] == Reply::Stop,
        engine_after == engine,
{
}

/// A source that is opened starts from nothing known of it, and uses up the decoder it
/// plays on. A new decoder is another than all those before, and is to sound as the last
/// one did.
pub proof fn lemma_opening_uses_up_a_decoder(engine: RemoteEngine, uri: String)
    requires
        engine.epoch < u64::MAX,
    ensures
        ({
            let after = engine.after_open(uri);
            &&& after.position == 0 && after.duration == 0
            &&& after.source == Some(uri)
            &&& after.spent
            &&& after.epoch == engine.epoch && after.exporting == engine.exporting
            &&& after.volume == engine.volume && after.effects == engine.effects
        }),
        ({
            let after = engine.after_restart();
            &&& after.epoch > engine.epoch
            &&& after == (RemoteEngine { epoch: after.epoch, ..engine })
        }),
{
}

/// One export runs at a time, and only of what is open; it is of that source.
pub proof fn lemma_one_export_at_a_time(source: Option<String>, exporting: bool)
    ensures
        exporting ==> export::admitted(source, exporting) is Err,
        source is None ==> export::admitted(source, exporting) == Err::<String, ExportRefusal>(
            ExportRefusal::NothingOpen,
        ),
        source is Some && exporting ==> export::admitted(source, exporting) == Err::<
            String,
            ExportRefusal,
        >(ExportRefusal::AlreadyRunning),
        source is Some && !exporting ==> export::admitted(source, exporting) == Ok::<
            String,
            ExportRefusal,
        >(source->0),
{
}

/// The progress shown is the share of the clip that is written, to a billionth: so many
/// microseconds are so many thousand nanoseconds of its length.
pub proof fn lemma_progress_is_the_share_written(micros: int, span: int)
    requires
        span > 0,
    ensures
        ({
            let parts = export::parts_done(micros, span);
            &&& micros <= 0 ==> parts == 0
            &&& micros * 1000 >= span ==> parts == 1_000_000_000
            &&& 0 <= micros && micros * 1000 < span ==> parts * span <= micros * 1000
                * 1_000_000_000 < (parts + 1) * span
        }),
{
    if 0 < micros && micros * 1000 < span {
        let n = micros * 1000 * 1_000_000_000;
        let parts = n / span;
        assert(parts * span <= n < (parts + 1) * span) by (nonlinear_arith)
            requires
                span > 0,
                parts == n / span,
        ;
        assert(export::parts_done(micros, span) == parts);
    }
    let none = 0int;
    assert((none + 1) * span == span && none * span == 0) by (nonlinear_arith)
        requires
            none == 0,
    ;
}

/// A line of progress is read wherever it is the time written with a whole number behind
/// it, whatever white space is around that, and no other line is.
pub proof fn lemma_progress_lines(line: Seq<char>, n: i64)
    ensures
        export::out_time("out_time_us="@ + text::signed_decimal(n as int)) == Some(n as int),
        !text::begins(line, "out_time_us="@) ==> export::out_time(line) is None,
{
    let key = "out_time_us="@;
    let digits = text::signed_decimal(n as int);
    let whole = key + digits;
    text::lemma_starting_and_ending(whole, key, digits);
    assert(whole.skip(key.len() as int) =~= digits);
    text::lemma_signs(n as int);
    lemma_numbers_have_no_white_space(n as int);
}

proof fn lemma_numbers_have_no_white_space(n: int)
    ensures
        text::trimmed(text::signed_decimal(n)) == text::signed_decimal(n),
{
    let s = text::signed_decimal(n);
    let m: nat = if n < 0 {
        (-n) as nat
    } else {
        n as nat
    };
    text::lemma_decimal_is_the_number(m);
    let d = text::decimal(m);
    assert('0' <= d[d.len() - 1] <= '9');
    assert('0' <= d[0] <= '9');
    assert(s.last() == d[d.len() - 1]);
    assert(s[0] == '-' || s[0] == d[0]);
    assert(!text::is_space(s[0]));
    assert(!text::is_space(s.last()));
}

/// The last line of what was said is what stands behind the last line break, one that
/// everything ends with aside; where nothing was said there is none.
pub proof fn lemma_the_last_line(before: Seq<char>, line: Seq<char>)
    requires
        forall|i: int| 0 <= i < line.len() ==> #[trigger] line[i] != '\n',
    ensures
        export::last_line(before + seq!['\n'] + line + seq!['\n']) == Some(line),
        line.len() > 0 ==> export::last_line(before + seq!['\n'] + line) == Some(line),
        line.len() > 0 ==> export::last_line(line) == Some(line),
        export::last_line(line + seq!['\n']) == Some(line),
        export::last_line(Seq::empty()) is None,
{
    let a = before + seq!['\n'];
    lemma_after_break(a, line);
    lemma_after_break(Seq::empty(), line);
    assert(Seq::<char>::empty() + line =~= line);
    let b = a + line + seq!['\n'];
    assert(b.last() == '\n');
    assert(b.drop_last() =~= a + line);
    assert((line + seq!['\n']).drop_last() =~= line);
    if line.len() > 0 {
        assert((a + line).last() == line[line.len() - 1]);
        assert(line.last() == line[line.len() - 1]);
    }
}

proof fn lemma_after_break(before: Seq<char>, line: Seq<char>)
    requires
        before.len() == 0 || before.last() == '\n',
        forall|i: int| 0 <= i < line.len() ==> #[trigger] line[i] != '\n',
    ensures
        export::after_break(before + line) == line,
    decreases line.len(),
{
    if line.len() == 0 {
        assert(before + line =~= before);
        assert(line =~= Seq::empty());
    } else {
        let rest = line.drop_last();
        assert forall|i: int| 0 <= i < rest.len() implies #[trigger] rest[i] != '\n' by {
            assert(rest[i] == line[i]);
        }
        lemma_after_break(before, rest);
        let whole = before + line;
        assert(whole.last() == line[line.len() - 1]);
        assert(whole.drop_last() =~= before + rest);
        assert(rest.push(line.last()) =~= line);
    }
}

/// What is said of a failed export is the last line of what `ffmpeg` said, without the
/// white space around it, or just that it failed where it said nothing.
pub proof fn lemma_the_complaint_is_the_last_line(before: Seq<char>, line: Seq<char>)
    requires
        forall|i: int| 0 <= i < line.len() ==> #[trigger] line[i] != '\n',
    ensures
        export::complaint(before + seq!['\n'] + line + seq!['\n']) == text::trimmed(line),
        export::complaint(Seq::empty()) == "ffmpeg failed"@,
{
    lemma_the_last_line(before, line);
}

/// The film and the system's own files can be read, and that is all that is granted of
/// them: to run, to read a file, and to list a directory. The devices that decoding needs
/// and the runtime directory can be written as well.
pub proof fn lemma_what_is_granted(media: Option<String>, runtime_dir: Option<String>)
    ensures
        ({
            let rules = sandbox::granted(media, runtime_dir);
            let own: int = if runtime_dir is Some {
                1
            } else {
                0
            };
            &&& rules.len() == 14 + own + (if media is Some {
                1int
            } else {
                0
            })
            &&& forall|i: int| 0 <= i < 8 ==> (#[trigger] rules[i]).access == 1 + 4 + 8
            &&& forall|i: int| 8 <= i < 14 + own ==> (#[trigger] rules[i]).access == 0xffff
            &&& rules[0].path == "/usr"@ && rules[1].path == "/lib"@
            &&& rules[2].path == "/lib64"@ && rules[3].path == "/bin"@
            &&& rules[4].path == "/sbin"@ && rules[5].path == "/etc"@
            &&& rules[6].path == "/proc"@ && rules[7].path == "/sys"@
            &&& rules[8].path == "/dev/dri"@ && rules[9].path == "/dev/null"@
            &&& rules[10].path == "/dev/zero"@ && rules[11].path == "/dev/urandom"@
            &&& rules[12].path == "/dev/random"@ && rules[13].path == "/dev/shm"@
            &&& runtime_dir matches Some(dir) ==> rules[14].path == dir@
            &&& media matches Some(film) ==> rules.last().path == film@ && rules.last().access == 1
                + 4 + 8
        }),
{
    let rules = sandbox::granted(media, runtime_dir);
    assert(rules.last() == rules[rules.len() - 1]);
}

/// What is beneath a place is the place itself and whatever its path leads to, with a
/// slash between.
pub proof fn lemma_what_is_beneath(place: Seq<char>, rest: Seq<char>, c: char)
    ensures
        sandbox::beneath(place, place),
        sandbox::beneath(place + "/"@ + rest, place),
        c != '/' ==> !sandbox::beneath(place + seq![c] + rest, place),
{
    reveal_strlit("/");
    let inside = place + "/"@ + rest;
    assert(inside.subrange(0, place.len() as int + 1) =~= place + "/"@);
    let beside = place + seq![c] + rest;
    if c != '/' && sandbox::beneath(beside, place) {
        assert(beside.len() > place.len());
        let part = beside.subrange(0, place.len() as int + 1);
        assert(part[place.len() as int] == c);
        assert((place + "/"@)[place.len() as int] == '/');
    }
}

/// How well a decoder is confined is said in words that tell the three apart.
pub proof fn lemma_confinement_in_words(why: String)
    ensures
        Confinement::Enforced.spec_describe() == "landlock: enforced"@,
        Confinement::Partial(why).spec_describe() == "landlock: partial ("@ + why@ + ")"@,
        Confinement::Unavailable(why).spec_describe() == "landlock: unavailable ("@ + why@ + ")"@,
{
}

/// The centre of a surround track is where its mask says: behind the front left and the
/// front right, as far as there are such. A track of two channels or fewer, or with no
/// centre in its mask, has none.
pub proof fn lemma_where_the_centre_is(channels: usize, mask: u64)
    ensures
        ({
            let left: int = if mask & 1 != 0 {
                1
            } else {
                0
            };
            let right: int = if mask & 2 != 0 {
                1
            } else {
                0
            };
            &&& channels > 2 && mask & 4 != 0 ==> dsp::centre(channels, mask) == Some(
                (left + right) as usize,
            )
            &&& channels <= 2 || mask & 4 == 0 ==> dsp::centre(channels, mask) is None
        }),
{
    reveal_with_fuel(dsp::positions_below, 3);
    assert(1u64 << 0u64 == 1 && 1u64 << 1u64 == 2 && 1u64 << 2u64 == 4) by (bit_vector);
}

/// Sound is worked on exactly where it is louder than full, where it is compressed, or
/// where there are voices to lift.
pub proof fn lemma_when_sound_is_worked_on(fx: AudioFx)
    ensures
        fx.active() <==> fx.boost > 100 || fx.effects.night || (fx.effects.dialogue && fx.centre
            is Some),
{
}

/// The decoder that is found is the first element that decodes the sort of media asked
/// for, and none where no element does.
pub proof fn lemma_the_first_decoder_is_found(elements: Seq<Element>, media: Seq<char>, j: int)
    ensures
        0 <= j < elements.len() && elements[j].decodes(media) && (forall|i: int|
            0 <= i < j ==> !(#[trigger] elements[i]).decodes(media)) ==> pipeline::first_decoder(
            elements,
            media,
        ) == elements[j].factory,
        (forall|i: int| 0 <= i < elements.len() ==> !(#[trigger] elements[i]).decodes(media))
            ==> pipeline::first_decoder(elements, media) is None,
    decreases elements.len(),
{
    if elements.len() > 0 {
        let rest = elements.drop_first();
        assert forall|i: int| 0 <= i < rest.len() implies rest[i] == #[trigger] elements[i + 1] by {}
        if 0 <= j < elements.len() && elements[j].decodes(media) && (forall|i: int|
            0 <= i < j ==> !(#[trigger] elements[i]).decodes(media)) {
            if j > 0 {
                assert(!elements[0].decodes(media));
                assert(rest[j - 1] == elements[j]);
                assert forall|i: int| 0 <= i < j - 1 implies !(#[trigger] rest[i]).decodes(
                    media,
                ) by {
                    assert(rest[i] == elements[i + 1]);
                }
            }
            lemma_the_first_decoder_is_found(rest, media, j - 1);
        }
        if forall|i: int| 0 <= i < elements.len() ==> !(#[trigger] elements[i]).decodes(media) {
            assert(!elements[0].decodes(media));
            assert forall|i: int| 0 <= i < rest.len() implies !(#[trigger] rest[i]).decodes(
                media,
            ) by {
                assert(rest[i] == elements[i + 1]);
            }
            lemma_the_first_decoder_is_found(rest, media, 0);
        }
    }
}

/// An element decodes a sort of media where it is a decoder by its factory's name, and
/// not one of those that only choose among decoders, and where what it handles is of that
/// sort.
pub proof fn lemma_what_decodes(
    element: Element,
    before: Seq<char>,
    behind: Seq<char>,
    media: Seq<char>,
    rest: Seq<char>,
)
    requires
        element.factory matches Some(name) && name@ == before + "dec"@ + behind,
        element.media matches Some(handled) && handled@ == media + rest,
    ensures
        element.decodes(media) <==> !text::occurs(before + "dec"@ + behind, "decodebin"@),
{
    text::lemma_starting_and_ending(behind, "dec"@, before);
    text::lemma_starting_and_ending(media, media, rest);
}

/// The planes of a picture are as many rows as it has, and half as many rounded up, each
/// as wide as its stride; the slots are all alike. A layout is sound where there are slots,
/// they have room for both planes, and the whole can be addressed.
pub proof fn lemma_how_big_a_buffer_is(layout: Layout)
    ensures
        layout.luma() == layout.y_stride * layout.height,
        layout.height % 2 == 0 ==> layout.chroma() == layout.uv_stride * (layout.height / 2),
        layout.height % 2 == 1 ==> layout.chroma() == layout.uv_stride * (layout.height / 2 + 1),
        layout.total() == layout.slot_bytes * layout.slots,
        layout.sound() <==> layout.slots > 0 && layout.slot_bytes * layout.slots <= usize::MAX
            && layout.luma() + layout.chroma() <= layout.slot_bytes,
        layout.sound() ==> layout.luma_room() == layout.luma() && layout.chroma_room()
            == layout.chroma(),
        layout.luma_room() + layout.chroma_room() <= layout.slot_bytes,
{
    let h = layout.height as int;
    if h % 2 == 0 {
        assert((h + 1) / 2 == h / 2);
    } else {
        assert((h + 1) / 2 == h / 2 + 1);
    }
    assert(layout.luma() >= 0 && layout.chroma() >= 0) by {
        let a = layout.y_stride as int;
        let b = layout.uv_stride as int;
        let c = (h + 1) / 2;
        assert(a * h >= 0) by (nonlinear_arith)
            requires
                a >= 0,
                h >= 0,
        ;
        assert(b * c >= 0) by (nonlinear_arith)
            requires
                b >= 0,
                c >= 0,
        ;
    }
}

/// A number is digits, one at least, with at most a sign in front; a plus changes nothing.
pub proof fn lemma_what_a_number_is(s: Seq<char>, i: int)
    ensures
        export::number(s) is Some && 0 < i < s.len() ==> '0' <= s[i] <= '9',
        export::number(s) is Some ==> s.len() > 0 && ('0' <= s[0] <= '9' || (s.len() > 1 && (s[0]
            == '-' || s[0] == '+'))),
        s.len() > 0 && '0' <= s[0] <= '9' ==> export::number(seq!['+'] + s) == export::number(s),
{
    if export::number(s) is Some {
        if s[0] == '-' || s[0] == '+' {
            let rest = s.drop_first();
            if 0 < i < s.len() {
                lemma_digits_are_digits(rest, i - 1);
                assert(rest[i - 1] == s[i]);
            }
        } else {
            lemma_digits_are_digits(s, i);
            lemma_digits_are_digits(s, 0);
        }
    }
    assert((seq!['+'] + s).drop_first() =~= s);
}

proof fn lemma_digits_are_digits(s: Seq<char>, i: int)
    requires
        export::digits_value(s) is Some,
    ensures
        0 <= i < s.len() ==> '0' <= s[i] <= '9',
    decreases s.len(),
{
    if 0 <= i < s.len() - 1 {
        lemma_digits_are_digits(s.drop_last(), i);
        assert(s.drop_last()[i] == s[i]);
    }
}

/// The numbers of 64 bits are those from -9223372036854775808 to 9223372036854775807.
pub proof fn lemma_what_fits(n: int)
    ensures
        export::in_range(n) <==> -9223372036854775808 <= n <= 9223372036854775807,
{
}

/// A decoder runs on the GPU where its name is one that such decoders have, and only
/// there: a decoder in software is not taken for one.
pub proof fn lemma_what_hardware_is(name: Seq<char>)
    ensures
        pipeline::is_hardware(name) ==> text::occurs(name, "dec"@) && (text::begins(name, "va"@)
            || text::begins(name, "nv"@) || text::begins(name, "vtdec"@) || text::begins(
            name,
            "v4l2sl"@,
        ) || text::begins(name, "amf"@) || text::occurs(name, "d3d11"@) || text::occurs(
            name,
            "d3d12"@,
        ) || text::occurs(name, "videotoolbox"@) || text::occurs(name, "msdk"@) || text::occurs(
            name,
            "qsv"@,
        ) || text::occurs(name, "amfdec"@)),
        text::occurs(name, "dec"@) && (text::begins(name, "vaapi"@) || text::begins(name, "nv"@)
            || text::begins(name, "vtdec"@) || text::begins(name, "v4l2sl"@) || text::begins(
            name,
            "amf"@,
        ) || text::occurs(name, "d3d11"@) || text::occurs(name, "d3d12"@) || text::occurs(
            name,
            "videotoolbox"@,
        ) || text::occurs(name, "msdk"@) || text::occurs(name, "qsv"@)) ==> pipeline::is_hardware(
            name,
        ),
        text::begins(name, "va"@) && text::finishes(name, "dec"@) ==> pipeline::is_hardware(name),
        text::begins(name, "va"@) && !text::begins(name, "vaapi"@) && !text::finishes(name, "dec"@)
            && !text::occurs(name, "d3d11"@) && !text::occurs(name, "d3d12"@) && !text::occurs(
            name,
            "videotoolbox"@,
        ) && !text::occurs(name, "msdk"@) && !text::occurs(name, "qsv"@) && !text::occurs(
            name,
            "amfdec"@,
        ) ==> !pipeline::is_hardware(name),
{
    reveal_strlit("va");
    reveal_strlit("vaapi");
    reveal_strlit("nv");
    reveal_strlit("vtdec");
    reveal_strlit("v4l2sl");
    reveal_strlit("amf");
    if text::begins(name, "vaapi"@) {
        let five = name.subrange(0, 5);
        assert(name.subrange(0, 2) =~= "va"@) by {
            assert(five[0] == "vaapi"@[0] && five[1] == "vaapi"@[1]);
        }
    }
    if text::begins(name, "va"@) {
        assert(name.subrange(0, 2)[0] == name[0] && name.subrange(0, 2)[1] == name[1]);
        assert("va"@[0] == 'v' && "va"@[1] == 'a');
        if text::begins(name, "nv"@) {
            assert(name.subrange(0, 2)[0] == "nv"@[0]);
        }
        if text::begins(name, "vtdec"@) {
            assert(name.subrange(0, 5)[1] == name[1] && "vtdec"@[1] == 't');
        }
        if text::begins(name, "v4l2sl"@) {
            assert(name.subrange(0, 6)[1] == name[1] && "v4l2sl"@[1] == '4');
        }
        if text::begins(name, "amf"@) {
            assert(name.subrange(0, 3)[0] == name[0] && "amf"@[0] == 'a');
        }
        if text::finishes(name, "dec"@) {
            assert(text::stands_at(name, "dec"@, name.len() - "dec"@.len()));
        }
    }
}

/// The audio sinks are tried in this order, those with a clock of their own first.
pub proof fn lemma_the_sinks_in_order(index: int)
    ensures
        index == 0 ==> pipeline::sink_name(index) == "pulsesink"@,
        index == 1 ==> pipeline::sink_name(index) == "alsasink"@,
        index == 2 ==> pipeline::sink_name(index) == "autoaudiosink"@,
        index == 3 ==> pipeline::sink_name(index) == "pipewiresink"@,
{
}

/// No version of the kernel's interface lets a reader write, and none has fewer rights
/// than the one before; the rights to read are the same in all that have any.
pub proof fn lemma_rights_grow(version: int)
    ensures
        version >= 1 ==> sandbox::read_bits(version) == 1 + 4 + 8,
        version < 1 ==> sandbox::read_bits(version) == 0 && sandbox::all_bits(version) == 0,
        sandbox::all_bits(version) <= sandbox::all_bits(version + 1),
        sandbox::read_bits(version) & 2 == 0,
        version >= 1 ==> sandbox::all_bits(version) & 2 != 0,
        sandbox::all_bits(5) == 0xffff,
{
    assert(13u64 & 2 == 0 && 0u64 & 2 == 0) by (bit_vector);
    assert(0x1fffu64 & 2 != 0 && 0x3fffu64 & 2 != 0 && 0x7fffu64 & 2 != 0 && 0xffffu64 & 2 != 0
        && 0x1ffffu64 & 2 != 0) by (bit_vector);
}

/// A further digit makes a number ten times what it was and that digit more, and what is
/// no digit makes it none; with no digits there is nothing yet.
pub proof fn lemma_a_further_digit(s: Seq<char>, c: char)
    ensures
        export::digits_value(Seq::empty()) == Some(0nat),
        export::digits_value(s) is Some && '0' <= c <= '9' ==> export::digits_value(s.push(c))
            == Some((10 * export::digits_value(s)->0 + (c as int - '0' as int)) as nat),
        c < '0' || c > '9' ==> export::digits_value(s.push(c)) is None,
        export::digits_value(s) is None ==> export::digits_value(s.push(c)) is None,
{
    assert(s.push(c).drop_last() =~= s);
}

/// A time that does not fit in a message loses what is above 64 bits.
pub proof fn lemma_long_times_are_cut(high: nat, low: u64)
    requires
        high * 0x1_0000_0000_0000_0000 + low <= u128::MAX,
    ensures
        worker::wire(
            Duration { nanos: (high * 0x1_0000_0000_0000_0000 + low) as u128 },
        ) == low,
{
}

/// Each refusal and each failure to start says what is wrong.
pub proof fn lemma_refusals_in_words(why: String)
    ensures
        ExportRefusal::NothingOpen.spec_message() == "nothing is open"@,
        ExportRefusal::AlreadyRunning.spec_message() == "an export is already running"@,
        StartFailure::NotFound.spec_message()
            == "ffmpeg is not installed — run: sudo apt install ffmpeg"@,
        StartFailure::Other(why).spec_message() == "could not start ffmpeg: "@ + why@,
{
}

/// A state of the pipeline goes by its own name.
pub proof fn lemma_states_by_name(state: PipelineState)
    ensures
        gst::state_name(state) == (match state {
            PipelineState::Null => "Null"@,
            PipelineState::Ready => "Ready"@,
            PipelineState::Paused => "Paused"@,
            PipelineState::Playing => "Playing"@,
            PipelineState::Pending => "VoidPending"@,
        }),
{
}

} // verus!
