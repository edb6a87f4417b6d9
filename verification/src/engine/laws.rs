//! What the engine's parts are for, as laws: what a choice is the best of, what an
//! external program is told, and what a request brings about.

use vstd::prelude::*;

use crate::engine::export;
use crate::engine::gst;
use crate::engine::gst::{BusAction, BusMessage, GstEngine, PipelineState, Tags};
use crate::engine::labels;
use crate::engine::labels::StreamFacts;
use crate::engine::seek;
use crate::engine::seek::Seeks;
use crate::engine::time;
use crate::engine::tracks;
use crate::engine::tracks::Selection;
use crate::engine::{
    ClipRequest, Container, Duration, Event, MediaInfo, State, Track, TrackKind,
};
use crate::text;

verus! {

/// Of all the sound a file has, the stream that is selected has the most channels, and
/// of those the highest bitrate, and of those it stands first. A stream that says nothing
/// of its channels counts as having none, and its nominal bitrate stands in where it does
/// not say its real one. Sound is selected wherever there is any.
pub proof fn lemma_no_sound_beats_the_one_selected(streams: Seq<StreamFacts>, j: int)
    requires
        0 <= j < streams.len(),
        streams[j].id is Some && !streams[j].video && streams[j].audio,
    ensures
        exists|k: int|
            {
                let a = streams[j];
                let b = #[trigger] streams[k];
                let a_channels: int = if a.channels is Some {
                    a.channels->0 as int
                } else {
                    0
                };
                let b_channels: int = if b.channels is Some {
                    b.channels->0 as int
                } else {
                    0
                };
                let a_bitrate: int = if a.bitrate is Some {
                    a.bitrate->0 as int
                } else if a.nominal_bitrate is Some {
                    a.nominal_bitrate->0 as int
                } else {
                    0
                };
                let b_bitrate: int = if b.bitrate is Some {
                    b.bitrate->0 as int
                } else if b.nominal_bitrate is Some {
                    b.nominal_bitrate->0 as int
                } else {
                    0
                };
                &&& 0 <= k < streams.len()
                &&& tracks::best_audio(streams) == Some(k)
                &&& tracks::initial_selection(streams).audio == b.id
                &&& b.id is Some && !b.video && b.audio
                &&& a_channels <= b_channels
                &&& a_channels == b_channels ==> a_bitrate <= b_bitrate
                &&& a_channels == b_channels && a_bitrate == b_bitrate ==> k <= j
            },
{
    tracks::lemma_best_audio_is_chosen(streams);
    let k = tracks::best_audio(streams)->0;
    assert(tracks::is_audio(streams[j]));
    assert(tracks::is_audio(streams[k]));
    assert(!tracks::outranks(streams[j], streams[k]));
}

/// What is said of a file's sound is what the selected stream says of itself, nothing
/// where it says nothing; and the rest of what is known of the file stays.
pub proof fn lemma_the_sound_described_is_the_one_selected(
    streams: Seq<StreamFacts>,
    info: MediaInfo,
)
    ensures
        tracks::best_audio(streams) matches Some(k) ==> {
            let after = tracks::with_audio(info, streams);
            let chosen = streams[k];
            &&& 0 <= k < streams.len()
            &&& tracks::initial_selection(streams).audio == chosen.id
            &&& chosen.channels matches Some(n) ==> if n >= 0 {
                after.audio_channels == n
            } else {
                after.audio_channels == 0
            }
            &&& chosen.channels is None ==> after.audio_channels == 0
            &&& chosen.rate matches Some(n) ==> if n >= 0 {
                after.audio_rate == n
            } else {
                after.audio_rate == 0
            }
            &&& chosen.rate is None ==> after.audio_rate == 0
            &&& chosen.bitrate matches Some(n) ==> after.audio_bitrate == n
            &&& chosen.bitrate is None ==> match chosen.nominal_bitrate {
                Some(n) => after.audio_bitrate == n,
                None => after.audio_bitrate == 0,
            }
            &&& after == (MediaInfo {
                audio_channels: after.audio_channels,
                audio_rate: after.audio_rate,
                audio_bitrate: after.audio_bitrate,
                ..info
            })
        },
        (forall|j: int|
            0 <= j < streams.len() ==> (#[trigger] streams[j]).id is None || streams[j].video
                || !streams[j].audio) ==> tracks::best_audio(streams) is None
            && tracks::initial_selection(streams).audio is None && tracks::with_audio(info, streams)
            == info,
{
    tracks::lemma_best_audio_is_chosen(streams);
}

/// The first stream of a sort that can be named is the one that is found, whatever the
/// sort.
proof fn lemma_the_first_is_found(
    streams: Seq<StreamFacts>,
    sort: spec_fn(StreamFacts) -> bool,
    j: int,
)
    requires
        0 <= j < streams.len(),
        sort(streams[j]) && streams[j].id is Some,
        forall|i: int| 0 <= i < j ==> !sort(#[trigger] streams[i]),
    ensures
        tracks::first_id(streams, sort) == streams[j].id,
    decreases streams.len(),
{
    let before = streams.drop_last();
    if j == streams.len() - 1 {
        lemma_none_is_found(before, sort);
    } else {
        assert(before[j] == streams[j]);
        assert forall|i: int| 0 <= i < j implies !sort(#[trigger] before[i]) by {
            assert(before[i] == streams[i]);
        }
        lemma_the_first_is_found(before, sort, j);
    }
}

/// Where no stream is of a sort, none is found.
proof fn lemma_none_is_found(streams: Seq<StreamFacts>, sort: spec_fn(StreamFacts) -> bool)
    requires
        forall|i: int| 0 <= i < streams.len() ==> !sort(#[trigger] streams[i]),
    ensures
        tracks::first_id(streams, sort) is None,
    decreases streams.len(),
{
    if streams.len() > 0 {
        let before = streams.drop_last();
        assert forall|i: int| 0 <= i < before.len() implies !sort(#[trigger] before[i]) by {
            assert(before[i] == streams[i]);
        }
        lemma_none_is_found(before, sort);
        assert(!sort(streams[streams.len() - 1]));
    }
}

/// The picture that is selected is the first that the file has, and none where it has
/// none.
pub proof fn lemma_the_first_picture_is_selected(streams: Seq<StreamFacts>, j: int)
    ensures
        0 <= j < streams.len() && streams[j].id is Some && streams[j].video && (forall|i: int|
            0 <= i < j ==> (#[trigger] streams[i]).id is None || !streams[i].video)
            ==> tracks::initial_selection(streams).video == streams[j].id,
        (forall|i: int|
            0 <= i < streams.len() ==> (#[trigger] streams[i]).id is None || !streams[i].video)
            ==> tracks::initial_selection(streams).video is None,
{
    let sort = |f: StreamFacts| tracks::is_picture(f);
    if 0 <= j < streams.len() && streams[j].id is Some && streams[j].video && (forall|i: int|
        0 <= i < j ==> (#[trigger] streams[i]).id is None || !streams[i].video) {
        lemma_the_first_is_found(streams, sort, j);
    }
    if forall|i: int|
        0 <= i < streams.len() ==> (#[trigger] streams[i]).id is None || !streams[i].video {
        lemma_none_is_found(streams, sort);
    }
}

/// The subtitles that are selected are the first that the file has, and none where it
/// has none.
pub proof fn lemma_the_first_subtitles_are_selected(streams: Seq<StreamFacts>, j: int)
    ensures
        0 <= j < streams.len() && streams[j].id is Some && !streams[j].video && !streams[j].audio
            && streams[j].text && (forall|i: int|
            0 <= i < j ==> (#[trigger] streams[i]).id is None || streams[i].video
                || streams[i].audio || !streams[i].text) ==> tracks::initial_selection(streams).text
            == streams[j].id,
        (forall|i: int|
            0 <= i < streams.len() ==> (#[trigger] streams[i]).id is None || streams[i].video
                || streams[i].audio || !streams[i].text) ==> tracks::initial_selection(
            streams,
        ).text is None,
{
    let sort = |f: StreamFacts| tracks::is_subtitles(f);
    if 0 <= j < streams.len() && streams[j].id is Some && !streams[j].video && !streams[j].audio
        && streams[j].text && (forall|i: int|
        0 <= i < j ==> (#[trigger] streams[i]).id is None || streams[i].video || streams[i].audio
            || !streams[i].text) {
        lemma_the_first_is_found(streams, sort, j);
    }
    if forall|i: int|
        0 <= i < streams.len() ==> (#[trigger] streams[i]).id is None || streams[i].video
            || streams[i].audio || !streams[i].text {
        lemma_none_is_found(streams, sort);
    }
}

/// Every sound and every subtitle stream that can be named is in the list, under its own
/// id and of its own kind; what a further stream adds stands behind the rest, and the
/// picture adds nothing.
pub proof fn lemma_the_list_grows_by_one(streams: Seq<StreamFacts>, next: StreamFacts)
    ensures
        next.id is Some && !next.video && (next.audio || next.text) ==> {
            let list = tracks::listed(streams.push(next));
            &&& list.len() == tracks::listed(streams).len() + 1
            &&& list.drop_last() == tracks::listed(streams)
            &&& list.last().id == next.id->0@
            &&& next.audio ==> list.last().kind == TrackKind::Audio
            &&& !next.audio ==> list.last().kind == TrackKind::Text
            &&& !list.last().selected
        },
        next.id is None || next.video || (!next.audio && !next.text) ==> tracks::listed(
            streams.push(next),
        ) == tracks::listed(streams),
        tracks::listed(Seq::empty()).len() == 0,
{
    assert(streams.push(next).drop_last() =~= streams);
    assert(tracks::listed(streams.push(next)).drop_last() =~= if tracks::is_listed(next) {
        tracks::listed(streams)
    } else {
        tracks::listed(streams.push(next)).drop_last()
    });
}

/// A track that has been picked is the live one of its kind: those with its id are live
/// and no others. What is live of the other kind stays as it was.
pub proof fn lemma_the_picked_track_is_live(
    before: Selection,
    kind: TrackKind,
    id: String,
    track: Track,
)
    ensures
        track.kind == kind ==> (tracks::is_live(track, before.switched(kind, Some(id))) <==> track.id@
            == id@),
        track.kind != kind ==> (tracks::is_live(track, before.switched(kind, Some(id))) <==> match (
            track.kind
        ) {
            TrackKind::Audio => before.audio is Some && before.audio->0@ == track.id@,
            TrackKind::Text => before.text is Some && before.text->0@ == track.id@,
        }),
        kind == TrackKind::Text && track.kind == kind ==> !tracks::is_live(
            track,
            before.switched(kind, None),
        ),
{
}

/// The pipeline is asked for exactly what is selected: one id for each kind that is on,
/// the picture ahead of the sound and the sound ahead of the subtitles.
pub proof fn lemma_what_is_selected_is_asked_for(selection: Selection)
    ensures
        selection.video matches Some(id) ==> selection.spec_ids().len() > 0
            && selection.spec_ids()[0] == id,
        selection.text matches Some(id) ==> selection.spec_ids().len() > 0
            && selection.spec_ids().last() == id,
        selection.audio matches Some(id) ==> {
            &&& selection.video is None ==> selection.spec_ids().len() > 0
                && selection.spec_ids()[0] == id
            &&& selection.video is Some ==> selection.spec_ids().len() > 1
                && selection.spec_ids()[1] == id
        },
        selection.spec_ids().len() == (if selection.video is Some {
            1int
        } else {
            0
        }) + (if selection.audio is Some {
            1int
        } else {
            0
        }) + (if selection.text is Some {
            1int
        } else {
            0
        }),
{
}

/// Whatever the container, `ffmpeg` is told to start where the clip starts, to copy as
/// much as lies between its start and its end, from the source and into the output that
/// was asked for, without encoding anew.
pub proof fn lemma_ffmpeg_is_told_the_range(path: Seq<char>, request: ClipRequest)
    requires
        request.end.nanos > request.start.nanos,
    ensures
        ({
            let args = export::arguments(path, request);
            let from = request.start.nanos as int;
            let length = request.end.nanos - request.start.nanos;
            &&& args.len() >= 18
            &&& args[4] == "-ss"@
            &&& args[5] == export::fixed_seconds(
                (from / 1_000_000_000) as u64,
                (from % 1_000_000_000) as u32,
                3,
            )
            &&& args[6] == "-i"@
            &&& args[7] == path
            &&& args[8] == "-t"@
            &&& args[9] == export::fixed_seconds(
                (length / 1_000_000_000) as u64,
                (length % 1_000_000_000) as u32,
                3,
            )
            &&& args[10] == "-c"@
            &&& args[11] == "copy"@
            &&& args.last() == request.output@
        }),
{
    let args = export::arguments(path, request);
    assert(args.last() == args[args.len() - 1]);
}

/// The container decides the mapped streams and nothing else: all of them for Matroska,
/// only the picture and the sound for MP4.
pub proof fn lemma_the_container_decides_the_streams(
    path: Seq<char>,
    a: ClipRequest,
    b: ClipRequest,
)
    requires
        a.start == b.start,
        a.end == b.end,
        a.output == b.output,
        a.container == Container::Matroska,
        b.container == Container::Mp4,
    ensures
        ({
            let x = export::arguments(path, a);
            let y = export::arguments(path, b);
            &&& x.len() == 20
            &&& y.len() == 24
            &&& x.subrange(0, 12) == y.subrange(0, 12)
            &&& x.subrange(14, 20) == y.subrange(18, 24)
            &&& x.subrange(12, 14) == seq!["-map"@, "0"@]
            &&& y.subrange(12, 18) == seq![
                "-map"@,
                "0:v?"@,
                "-map"@,
                "0:a?"@,
                "-movflags"@,
                "+faststart"@,
            ]
        }),
{
    let x = export::arguments(path, a);
    let y = export::arguments(path, b);
    assert(x.subrange(0, 12) =~= y.subrange(0, 12));
    assert(x.subrange(14, 20) =~= y.subrange(18, 24));
    assert(x.subrange(12, 14) =~= seq!["-map"@, "0"@]);
    assert(y.subrange(12, 18) =~= seq![
        "-map"@,
        "0:v?"@,
        "-map"@,
        "0:a?"@,
        "-movflags"@,
        "+faststart"@,
    ]);
}

/// How many of the streams that can be picked are sound, or are not, is the number of
/// those streams.
proof fn lemma_numbers_count(streams: Seq<StreamFacts>, audio: bool)
    ensures
        tracks::number(streams, audio) == streams.filter(
            |f: StreamFacts| f.id is Some && !f.video && f.audio == audio,
        ).len(),
    decreases streams.len(),
{
    reveal(Seq::filter);
    if streams.len() > 0 {
        lemma_numbers_count(streams.drop_last(), audio);
    }
}

/// A stream that adds a track adds it under the number it has among those of its own
/// kind, counted from one, and with its own words.
pub proof fn lemma_tracks_are_numbered_by_kind(streams: Seq<StreamFacts>, next: StreamFacts)
    requires
        next.id is Some && !next.video && (next.audio || next.text),
    ensures
        tracks::listed(streams.push(next)).last().label == labels::stream_label(
            next,
            (1 + streams.filter(
                |f: StreamFacts| f.id is Some && !f.video && f.audio == next.audio,
            ).len()) as nat,
        ),
        tracks::listed(streams.push(next)).last().detail == labels::stream_detail(next),
{
    assert(streams.push(next).drop_last() =~= streams);
    lemma_numbers_count(streams, next.audio);
}

/// A track is described by the first stream that has its id and can be picked, under the
/// same number as when it was listed. One that no stream has keeps its words. Its id, its
/// kind and whether it is live stay in any case.
pub proof fn lemma_words_come_from_the_own_stream(track: Track, streams: Seq<StreamFacts>, j: int)
    ensures
        ({
            let after = tracks::relabelled(track, streams);
            &&& after.id == track.id@ && after.kind == track.kind && after.selected
                == track.selected
            &&& 0 <= j < streams.len() && streams[j].id is Some && !streams[j].video
                && streams[j].id->0@ == track.id@ && (forall|i: int|
                0 <= i < j ==> (#[trigger] streams[i]).id is None || streams[i].video
                    || streams[i].id->0@ != track.id@) ==> {
                &&& after.label == labels::stream_label(
                    streams[j],
                    streams.take(j + 1).filter(
                        |f: StreamFacts| f.id is Some && !f.video && f.audio == streams[j].audio,
                    ).len(),
                )
                &&& after.detail == labels::stream_detail(streams[j])
            }
            &&& (forall|i: int|
                0 <= i < streams.len() ==> (#[trigger] streams[i]).id is None || streams[i].video
                    || streams[i].id->0@ != track.id@) ==> after.label == track.label@
                && after.detail == track.detail@
        }),
{
    let id = track.id@;
    if 0 <= j < streams.len() && streams[j].id is Some && !streams[j].video && streams[j].id->0@
        == id && (forall|i: int|
        0 <= i < j ==> (#[trigger] streams[i]).id is None || streams[i].video || streams[i].id->0@
            != id) {
        lemma_described_at(streams, id, j);
        lemma_numbers_count(streams.take(j + 1), streams[j].audio);
    }
    if forall|i: int|
        0 <= i < streams.len() ==> (#[trigger] streams[i]).id is None || streams[i].video
            || streams[i].id->0@ != id {
        lemma_described_nowhere(streams, id);
    }
}

proof fn lemma_described_nowhere(streams: Seq<StreamFacts>, id: Seq<char>)
    requires
        forall|i: int|
            0 <= i < streams.len() ==> (#[trigger] streams[i]).id is None || streams[i].video
                || streams[i].id->0@ != id,
    ensures
        tracks::described(streams, id) is None,
    decreases streams.len(),
{
    if streams.len() > 0 {
        let before = streams.drop_last();
        assert forall|i: int| 0 <= i < before.len() implies (#[trigger] before[i]).id is None
            || before[i].video || before[i].id->0@ != id by {
            assert(before[i] == streams[i]);
        }
        lemma_described_nowhere(before, id);
        assert(streams[streams.len() - 1] == streams.last());
    }
}

proof fn lemma_described_at(streams: Seq<StreamFacts>, id: Seq<char>, j: int)
    requires
        0 <= j < streams.len(),
        streams[j].id is Some && !streams[j].video && streams[j].id->0@ == id,
        forall|i: int|
            0 <= i < j ==> (#[trigger] streams[i]).id is None || streams[i].video
                || streams[i].id->0@ != id,
    ensures
        tracks::described(streams, id) == Some(
            (
                labels::stream_label(
                    streams[j],
                    tracks::number(streams.take(j + 1), streams[j].audio),
                ),
                labels::stream_detail(streams[j]),
            ),
        ),
    decreases streams.len(),
{
    let before = streams.drop_last();
    if j == streams.len() - 1 {
        assert(streams.take(j + 1) =~= streams);
        assert forall|i: int| 0 <= i < before.len() implies (#[trigger] before[i]).id is None
            || before[i].video || before[i].id->0@ != id by {
            assert(before[i] == streams[i]);
        }
        lemma_described_nowhere(before, id);
    } else {
        assert(before[j] == streams[j]);
        assert forall|i: int| 0 <= i < j implies (#[trigger] before[i]).id is None
            || before[i].video || before[i].id->0@ != id by {
            assert(before[i] == streams[i]);
        }
        lemma_described_at(before, id, j);
        assert(before.take(j + 1) =~= streams.take(j + 1));
    }
}

/// The tracks that the player is told are all the tracks, in their order and with their
/// words, and one is marked exactly where it is the selected one of its kind.
pub proof fn lemma_told_tracks_are_marked(list: Seq<Track>, selection: Selection, i: int)
    requires
        0 <= i < list.len(),
    ensures
        gst::published(list, selection).len() == list.len(),
        ({
            let told = gst::published(list, selection)[i];
            &&& told.id == list[i].id && told.kind == list[i].kind
            &&& told.label == list[i].label && told.detail == list[i].detail
            &&& list[i].kind == TrackKind::Audio ==> (told.selected <==> selection.audio is Some
                && selection.audio->0@ == list[i].id@)
            &&& list[i].kind == TrackKind::Text ==> (told.selected <==> selection.text is Some
                && selection.text->0@ == list[i].id@)
        }),
{
}

/// In media longer than two seconds a seek goes where it was asked to, but never within
/// the last two seconds; in shorter media it goes where it was asked to, but never to the
/// end. Without a length that is known it goes where it was asked to.
pub proof fn lemma_where_a_seek_goes(to: Duration, nanos: u128)
    ensures
        seek::clamped(to.nanos as int, None) == to.nanos,
        ({
            let at = seek::clamped(to.nanos as int, Some(Duration { nanos }));
            &&& nanos > 2_000_000_000 && to.nanos <= nanos - 2_000_000_000 ==> at == to.nanos
            &&& nanos > 2_000_000_000 && to.nanos > nanos - 2_000_000_000 ==> at == nanos
                - 2_000_000_000
            &&& 0 < nanos <= 2_000_000_000 && to.nanos < nanos ==> at == to.nanos
            &&& 0 < nanos <= 2_000_000_000 && to.nanos >= nanos ==> at == nanos - 1
            &&& nanos == 0 ==> at == 0
        }),
{
}

/// A seek that arrives while one is running waits and takes the place of whatever waited;
/// with none running it is the one that runs, and what waits goes on waiting.
pub proof fn lemma_one_seek_at_a_time(
    seeks: Seeks,
    first: Duration,
    second: Duration,
    total: Option<Duration>,
)
    ensures
        seeks.after_seek(first, total).seeking,
        !seeks.seeking ==> seeks.after_seek(first, total).pending == seeks.pending,
        seeks.after_seek(first, total).after_seek(second, total).pending matches Some(to)
            && to.nanos == seek::clamped(second.nanos as int, total),
{
    let c = seek::clamped(second.nanos as int, total);
    assert(0 <= c <= u128::MAX);
}

/// When a seek has landed the one that waited is sent, exactly as it waited; without one
/// none is running any more.
pub proof fn lemma_the_waiting_seek_is_sent(
    pre: GstEngine,
    post: GstEngine,
    actions: Seq<BusAction>,
)
    requires
        gst::bus_step(pre, BusMessage::AsyncDone, post, actions),
    ensures
        pre.seeks.pending matches Some(to) ==> actions.len() == 1 && actions[0] == BusAction::Seek(
            to,
        ) && post.seeks.seeking,
        pre.seeks.pending is None ==> actions.len() == 0 && !post.seeks.seeking,
        post.seeks.pending is None,
        post == (GstEngine { seeks: post.seeks, ..pre }),
{
}

/// The end of the media is told as a state and as an event, a length that is known as
/// it is, and buffering as a percentage from nothing to all. None of these changes what
/// is known.
pub proof fn lemma_what_the_bus_says_is_told(
    pre: GstEngine,
    message: BusMessage,
    post: GstEngine,
    actions: Seq<BusAction>,
)
    requires
        gst::bus_step(pre, message, post, actions),
    ensures
        match message {
            BusMessage::Eos => {
                &&& post == pre
                &&& actions.len() == 2
                &&& actions[0] == BusAction::Emit(Event::State(State::Ended))
                &&& actions[1] == BusAction::Emit(Event::Eos)
            },
            BusMessage::Error { source, error, detail } => {
                &&& post == pre
                &&& actions.len() == 1
                &&& actions[0] matches BusAction::Emit(Event::Error(words)) && words@ == (
                match source {
                    Some(source) => source@,
                    None => "pipeline"@,
                }) + ": "@ + error@ + (if detail is None || detail->0@.len() == 0 {
                    ""@
                } else {
                    " ("@ + detail->0@ + ")"@
                })
            },
            BusMessage::Buffering(n) => {
                &&& post == pre
                &&& actions.len() == 1
                &&& actions[0] matches BusAction::Emit(Event::Buffering(shown)) && (0 <= n <= 100
                    ==> shown == n) && (n < 0 ==> shown == 0) && (n > 100 ==> shown == 100)
            },
            BusMessage::DurationChanged(nanos) => {
                &&& post == pre
                &&& nanos is Some && nanos->0 > 0 ==> actions.len() == 1 && actions[0]
                    == BusAction::Emit(Event::Duration(Duration { nanos: nanos->0 as u128 }))
                &&& nanos is None || nanos->0 == 0 ==> actions.len() == 0
            },
            BusMessage::Other => post == pre && actions.len() == 0,
            _ => true,
        },
{
    reveal_strlit("");
    assert(""@ =~= Seq::<char>::empty());
}

/// Tags replace what they speak of and leave the rest; the whole is told wherever there
/// are any.
pub proof fn lemma_tags_are_told(
    pre: GstEngine,
    tags: Tags,
    hardware: bool,
    streams: Option<Vec<StreamFacts>>,
    post: GstEngine,
    actions: Seq<BusAction>,
)
    requires
        gst::bus_step(pre, BusMessage::Tag { tags, hardware, streams }, post, actions),
    ensures
        tags.title matches Some(title) ==> post.info.title == title,
        tags.title is None ==> post.info.title == pre.info.title,
        tags.video_codec matches Some(codec) ==> post.info.video_codec == codec,
        tags.video_codec is None ==> post.info.video_codec == pre.info.video_codec,
        tags.audio_codec matches Some(codec) ==> post.info.audio_codec == codec,
        tags.audio_codec is None ==> post.info.audio_codec == pre.info.audio_codec,
        tags.container matches Some(container) ==> post.info.container == container,
        tags.container is None ==> post.info.container == pre.info.container,
        post.info == (MediaInfo {
            title: post.info.title,
            video_codec: post.info.video_codec,
            audio_codec: post.info.audio_codec,
            container: post.info.container,
            ..pre.info
        }),
        tags.title is Some || tags.video_codec is Some || tags.audio_codec is Some
            || tags.container is Some ==> actions.len() > 0 && actions[0] == BusAction::Emit(
            Event::Loaded(MediaInfo { hardware, ..post.info }),
        ),
        tags.title is None && tags.video_codec is None && tags.audio_codec is None
            && tags.container is None && streams is None ==> actions.len() == 0,
        post == (GstEngine { info: post.info, tracks: post.tracks, ..pre }),
{
    if tags.any() {
        let told = seq![
            BusAction::Emit(Event::Loaded(MediaInfo { hardware, ..tags.added_to(pre.info) })),
        ];
        assert(told =~= actions.subrange(0, 1));
        assert(told[0] == actions[0]);
    } else {
        assert(actions.skip(0) =~= actions);
    }
}

/// The pipeline's own changes of state are told and no other's: playing, paused, and idle
/// for what comes before those. On starting to play what is known of the media is told,
/// and ahead of it its length if it has one.
pub proof fn lemma_states_are_told(
    pre: GstEngine,
    own: bool,
    current: PipelineState,
    duration: Option<u64>,
    hardware: bool,
    streams: Option<Vec<StreamFacts>>,
    post: GstEngine,
    actions: Seq<BusAction>,
)
    requires
        gst::bus_step(
            pre,
            BusMessage::StateChanged { own, current, duration, hardware, streams },
            post,
            actions,
        ),
    ensures
        post == (GstEngine { tracks: post.tracks, ..pre }),
        !own || current == PipelineState::Pending ==> post == pre && actions.len() == 0,
        own && (current == PipelineState::Null || current == PipelineState::Ready)
            ==> actions.len() == 1 && actions[0] == BusAction::Emit(Event::State(State::Idle))
            && post == pre,
        own && current == PipelineState::Paused ==> actions.len() == 1 && actions[0]
            == BusAction::Emit(Event::State(State::Paused)) && post == pre,
        own && current == PipelineState::Playing ==> actions.len() >= 2 && actions[0]
            == BusAction::Emit(Event::State(State::Playing)),
        own && current == PipelineState::Playing && duration is Some && duration->0 > 0
            ==> actions.len() >= 3 && actions[1] == BusAction::Emit(
            Event::Duration(Duration { nanos: duration->0 as u128 }),
        ) && actions[2] == BusAction::Emit(Event::Loaded(MediaInfo { hardware, ..pre.info })),
        own && current == PipelineState::Playing && (duration is None || duration->0 == 0)
            ==> actions[1] == BusAction::Emit(
            Event::Loaded(MediaInfo { hardware, ..pre.info }),
        ),
{
    if own && current == PipelineState::Playing {
        let loaded = seq![BusAction::Emit(Event::State(State::Playing))] + gst::tell_duration(
            duration,
        ) + seq![BusAction::Emit(Event::Loaded(MediaInfo { hardware, ..pre.info }))];
        let n = loaded.len() as int;
        assert(loaded =~= actions.subrange(0, n));
        assert(loaded[0] == actions[0] && loaded[1] == actions[1]);
        if n == 3 {
            assert(loaded[2] == actions[2]);
        }
    }
}

/// Tags of a stream that arrive late change the words of the tracks and nothing else, and
/// the tracks are told exactly where some words did change.
pub proof fn lemma_late_tags_change_words_alone(
    pre: GstEngine,
    streams: Option<Vec<StreamFacts>>,
    post: GstEngine,
    actions: Seq<BusAction>,
    i: int,
)
    requires
        gst::bus_step(pre, BusMessage::StreamTags(streams), post, actions),
        0 <= i < pre.tracks@.len(),
    ensures
        post == (GstEngine { tracks: post.tracks, ..pre }),
        post.tracks@.len() == pre.tracks@.len(),
        post.tracks@[i].id@ == pre.tracks@[i].id@,
        post.tracks@[i].kind == pre.tracks@[i].kind,
        post.tracks@[i].selected == pre.tracks@[i].selected,
        streams is None ==> actions.len() == 0,
        post.tracks@[i].label@ != pre.tracks@[i].label@ || post.tracks@[i].detail@
            != pre.tracks@[i].detail@ ==> actions.len() == 1 && (actions[0] matches BusAction::Emit(
            Event::Tracks(told),
        ) && told@.len() == post.tracks@.len() && told@[i].id == post.tracks@[i].id
            && told@[i].kind == post.tracks@[i].kind && told@[i].label == post.tracks@[i].label
            && told@[i].detail == post.tracks@[i].detail && (told@[i].selected <==> match (
        post.tracks@[i].kind
        ) {
            TrackKind::Audio => pre.selection.audio is Some && pre.selection.audio->0@
                == post.tracks@[i].id@,
            TrackKind::Text => pre.selection.text is Some && pre.selection.text->0@
                == post.tracks@[i].id@,
        })),
{
    if let Some(streams) = streams {
        let now = post.tracks.deep_view();
        let was = pre.tracks.deep_view();
        let words = pre.tracks@.map_values(|track: Track| tracks::relabelled(track, streams@));
        assert(now == words);
        assert(now[i] == words[i]);
        assert(now[i] == post.tracks@[i].deep_view());
        assert(was[i] == pre.tracks@[i].deep_view());
        assert(now.len() == words.len());
    }
}

/// The first collection of a file that has a picture, sound or subtitles is taken up: its
/// tracks are told, its streams are asked for, and what is known of it is told. A later
/// one, or one with nothing in it, changes nothing.
pub proof fn lemma_a_collection_is_taken_up_once(
    pre: GstEngine,
    streams: Vec<StreamFacts>,
    post: GstEngine,
    actions: Seq<BusAction>,
    j: int,
)
    requires
        gst::bus_step(pre, BusMessage::StreamCollection(streams), post, actions),
    ensures
        pre.selected_streams ==> post == pre && actions.len() == 0,
        !pre.selected_streams && 0 <= j < streams@.len() && streams@[j].id is Some && (
        streams@[j].video || streams@[j].audio || streams@[j].text) ==> {
            &&& post.selected_streams
            &&& post == (GstEngine {
                info: post.info,
                selected_streams: true,
                selection: post.selection,
                tracks: post.tracks,
                ..pre
            })
            &&& actions.len() == 4
            &&& actions[0] == BusAction::WatchTags
            &&& actions[1] matches BusAction::Emit(Event::Tracks(told)) && told@
                == gst::published(post.tracks@, post.selection)
            &&& actions[2] matches BusAction::SelectStreams(ids) && ids@
                == post.selection.spec_ids()
            &&& actions[3] == BusAction::Emit(Event::Loaded(post.info))
            &&& post.selection == tracks::initial_selection(streams@)
            &&& post.info == tracks::with_audio(pre.info, streams@)
            &&& post.tracks.deep_view() == tracks::listed(streams@)
        },
        (forall|i: int|
            0 <= i < streams@.len() ==> (#[trigger] streams@[i]).id is None || !(streams@[i].video
                || streams@[i].audio || streams@[i].text)) ==> post == pre && actions.len() == 0,
{
    if 0 <= j < streams@.len() && streams@[j].id is Some && (streams@[j].video || streams@[j].audio
        || streams@[j].text) {
        lemma_what_can_be_played(streams@, j);
    }
    if forall|i: int|
        0 <= i < streams@.len() ==> (#[trigger] streams@[i]).id is None || !(streams@[i].video
            || streams@[i].audio || streams@[i].text) {
        lemma_nothing_to_play(streams@);
    }
}

proof fn lemma_what_can_be_played(streams: Seq<StreamFacts>, j: int)
    requires
        0 <= j < streams.len(),
        streams[j].id is Some,
        streams[j].video || streams[j].audio || streams[j].text,
    ensures
        gst::playable(streams),
    decreases streams.len(),
{
    if j < streams.len() - 1 {
        assert(streams.drop_last()[j] == streams[j]);
        lemma_what_can_be_played(streams.drop_last(), j);
    }
}

proof fn lemma_nothing_to_play(streams: Seq<StreamFacts>)
    requires
        forall|i: int|
            0 <= i < streams.len() ==> (#[trigger] streams[i]).id is None || !(streams[i].video
                || streams[i].audio || streams[i].text),
    ensures
        !gst::playable(streams),
    decreases streams.len(),
{
    if streams.len() > 0 {
        let before = streams.drop_last();
        assert forall|i: int| 0 <= i < before.len() implies (#[trigger] before[i]).id is None || !(
        before[i].video || before[i].audio || before[i].text) by {
            assert(before[i] == streams[i]);
        }
        lemma_nothing_to_play(before);
        assert(streams[streams.len() - 1] == streams.last());
    }
}

/// Opening a file forgets everything of the last one but whether a clip is being written
/// and when the newest frame was shown.
pub proof fn lemma_opening_forgets(pre: GstEngine, uri: String, post: GstEngine)
    requires
        gst::opened(pre, uri, post),
    ensures
        post.source == Some(uri),
        !post.selected_streams,
        post.selection.video is None && post.selection.audio is None && post.selection.text is None,
        post.tracks@.len() == 0,
        !post.seeks.seeking && post.seeks.pending is None,
        post.info.title@.len() == 0 && post.info.container@.len() == 0,
        post.info.video_codec@.len() == 0 && post.info.audio_codec@.len() == 0,
        post.info.audio_channels == 0 && post.info.audio_rate == 0 && post.info.audio_bitrate == 0,
        post.info.width == 0 && post.info.height == 0 && !post.info.hardware,
        post.exporting == pre.exporting,
        post.last_frame_ns == pre.last_frame_ns,
{
}

/// A clock shows minutes and seconds, each with two digits, and hours in front of them
/// exactly where there are any; the parts add up to the time.
pub proof fn lemma_clocks_add_up(hours: nat, minutes: nat, seconds: nat)
    requires
        minutes < 60,
        seconds < 60,
    ensures
        hours > 0 ==> time::clock(hours * 3600 + minutes * 60 + seconds) == text::two_digits(hours)
            + seq![':'] + text::two_digits(minutes) + seq![':'] + text::two_digits(seconds),
        hours == 0 ==> time::clock(minutes * 60 + seconds) == text::two_digits(minutes) + seq![':']
            + text::two_digits(seconds),
{
    let all = hours * 3600 + minutes * 60 + seconds;
    assert(all / 3600 == hours && (all % 3600) / 60 == minutes && all % 60 == seconds);
}

} // verus!
