//! The selectable streams of a file: listing them, choosing among them, and saying
//! which are live.

use vstd::prelude::*;

use crate::engine::labels;
use crate::engine::labels::{audio_facts, describe, StreamFacts};
use crate::engine::{Event, MediaInfo, Track, TrackKind};
use crate::text::same;

verus! {

/// The stream ids currently selected, one per kind.
#[derive(Debug, PartialEq, Eq)]
pub struct Selection {
    pub video: Option<String>,
    pub audio: Option<String>,
    pub text: Option<String>,
}

/// One id, or none.
pub open spec fn as_seq(id: Option<String>) -> Seq<String> {
    match id {
        Some(id) => seq![id],
        None => Seq::empty(),
    }
}

impl Selection {
    /// Nothing selected.
    pub fn none() -> (r: Selection)
        ensures
            r == (Selection { video: None, audio: None, text: None }),
    {
        Selection { video: None, audio: None, text: None }
    }

    /// The selected ids: picture, sound, subtitles.
    pub open spec fn spec_ids(self) -> Seq<String> {
        as_seq(self.video) + as_seq(self.audio) + as_seq(self.text)
    }

    /// The ids that are selected: picture, sound, subtitles, without those that are
    /// off.
    pub fn ids(&self) -> (r: Vec<String>)
        ensures
            r@ == self.spec_ids(),
    {
        let mut r: Vec<String> = Vec::new();
        if let Some(id) = &self.video {
            r.push(id.clone());
        }
        if let Some(id) = &self.audio {
            r.push(id.clone());
        }
        if let Some(id) = &self.text {
            r.push(id.clone());
        }
        proof {
            assert(r@ =~= self.spec_ids());
        }
        r
    }

    /// What to ask the pipeline for: the selected ids, or nothing where all are off.
    pub fn apply_selection(&self) -> (r: Option<Vec<String>>)
        ensures
            r is Some <==> self.spec_ids().len() > 0,
            r is Some ==> r->0@ == self.spec_ids(),
    {
        let ids: Vec<String> = self.ids();
        if ids.len() == 0 {
            return None;
        }
        Some(ids)
    }

    /// The id selected for a kind of track.
    pub open spec fn active(self, kind: TrackKind) -> Option<String> {
        match kind {
            TrackKind::Audio => self.audio,
            TrackKind::Text => self.text,
        }
    }

    /// The selection once a track has been switched. No id turns a stream off, which
    /// only subtitles allow.
    pub open spec fn switched(self, kind: TrackKind, id: Option<String>) -> Selection {
        match kind {
            TrackKind::Audio => if id is Some {
                Selection { audio: id, ..self }
            } else {
                self
            },
            TrackKind::Text => Selection { text: id, ..self },
        }
    }

    /// Switch the active audio or subtitle stream, leaving the others as they are. No
    /// id turns a stream off, which only subtitles allow. The event, if there is one,
    /// clears the last cue, which turning subtitles off would leave on screen otherwise.
    pub fn select_track(&mut self, kind: TrackKind, id: Option<String>) -> (r: Option<Event>)
        ensures
            *final(self) == old(self).switched(kind, id),
            r == (if kind == TrackKind::Text && id is None {
                Some(
                    Event::Subtitle {
                        text: None,
                        start: crate::engine::Duration { nanos: 0 },
                        end: crate::engine::Duration { nanos: 0 },
                    },
                )
            } else {
                None
            }),
    {
        let clears: bool = kind == TrackKind::Text && id.is_none();
        match kind {
            TrackKind::Audio => {
                if id.is_some() {
                    self.audio = id;
                }
            },
            TrackKind::Text => {
                self.text = id;
            },
        }
        if clears {
            Some(
                Event::Subtitle {
                    text: None,
                    start: crate::engine::Duration::zero(),
                    end: crate::engine::Duration::zero(),
                },
            )
        } else {
            None
        }
    }
}

/// Whether a stream can be picked: it can be named, and it is not the picture.
pub open spec fn selectable(facts: StreamFacts) -> bool {
    facts.id is Some && !facts.video
}

/// Whether a stream is in the list people pick from.
pub open spec fn is_listed(facts: StreamFacts) -> bool {
    selectable(facts) && (facts.audio || facts.text)
}

/// Whether a stream is sound to choose from.
pub open spec fn is_audio(facts: StreamFacts) -> bool {
    selectable(facts) && facts.audio
}

/// Whether a stream is subtitles to choose from.
pub open spec fn is_subtitles(facts: StreamFacts) -> bool {
    selectable(facts) && !facts.audio && facts.text
}

/// Whether a stream is the picture.
pub open spec fn is_picture(facts: StreamFacts) -> bool {
    facts.id is Some && facts.video
}

/// How many of the streams that can be picked are audio, or are not.
pub open spec fn number(streams: Seq<StreamFacts>, audio: bool) -> nat
    decreases streams.len(),
{
    if streams.len() == 0 {
        0
    } else {
        number(streams.drop_last(), audio) + if selectable(streams.last()) && streams.last().audio
            == audio {
            1nat
        } else {
            0
        }
    }
}

/// A track as it reads.
#[verifier::ext_equal]
pub struct TrackView {
    pub id: Seq<char>,
    pub kind: TrackKind,
    pub label: Seq<char>,
    pub detail: Seq<char>,
    pub selected: bool,
}

impl DeepView for Track {
    type V = TrackView;

    open spec fn deep_view(&self) -> TrackView {
        TrackView {
            id: self.id@,
            kind: self.kind,
            label: self.label@,
            detail: self.detail@,
            selected: self.selected,
        }
    }
}

/// The last stream of a collection, as a track. Tracks are numbered per kind, so a
/// file with no language tags still reads as "Track 1" and "Track 2".
pub open spec fn last_track(streams: Seq<StreamFacts>) -> TrackView {
    let facts = streams.last();
    TrackView {
        id: facts.id->0@,
        kind: if facts.audio {
            TrackKind::Audio
        } else {
            TrackKind::Text
        },
        label: labels::stream_label(facts, number(streams, facts.audio)),
        detail: labels::stream_detail(facts),
        selected: false,
    }
}

/// Every audio and subtitle stream of a collection, in its order.
pub open spec fn listed(streams: Seq<StreamFacts>) -> Seq<TrackView>
    decreases streams.len(),
{
    if streams.len() == 0 {
        Seq::empty()
    } else if is_listed(streams.last()) {
        listed(streams.drop_last()).push(last_track(streams))
    } else {
        listed(streams.drop_last())
    }
}

/// The id of the first stream that is of a sort.
pub open spec fn first_id(streams: Seq<StreamFacts>, sort: spec_fn(StreamFacts) -> bool) -> Option<
    String,
>
    decreases streams.len(),
{
    if streams.len() == 0 {
        None
    } else if first_id(streams.drop_last(), sort) is Some {
        first_id(streams.drop_last(), sort)
    } else if sort(streams.last()) {
        streams.last().id
    } else {
        None
    }
}

/// How many channels a stream has, as far as known.
pub open spec fn channels(facts: StreamFacts) -> int {
    match facts.channels {
        Some(channels) => channels as int,
        None => 0,
    }
}

/// The sample rate of a stream, as far as known.
pub open spec fn rate(facts: StreamFacts) -> int {
    match facts.rate {
        Some(rate) => rate as int,
        None => 0,
    }
}

/// The bitrate of a stream, as far as known.
pub open spec fn bitrate(facts: StreamFacts) -> int {
    match facts.best_bitrate() {
        Some(bitrate) => bitrate as int,
        None => 0,
    }
}

/// Whether one audio stream is better than another: by channel count, then by
/// bitrate.
pub open spec fn outranks(a: StreamFacts, b: StreamFacts) -> bool {
    ||| channels(a) > channels(b)
    ||| channels(a) == channels(b) && bitrate(a) > bitrate(b)
}

/// Which audio stream is chosen, if there is any.
pub open spec fn best_audio(streams: Seq<StreamFacts>) -> Option<int>
    decreases streams.len(),
{
    if streams.len() == 0 {
        None
    } else {
        let last = streams.len() - 1;
        match best_audio(streams.drop_last()) {
            Some(k) => if is_audio(streams[last]) && outranks(streams[last], streams[k]) {
                Some(last)
            } else {
                Some(k)
            },
            None => if is_audio(streams[last]) {
                Some(last)
            } else {
                None
            },
        }
    }
}

/// The audio stream that is chosen is the best one: nothing outranks it, and it
/// outranks everything listed ahead of it. There is one wherever there is sound.
pub proof fn lemma_best_audio_is_chosen(streams: Seq<StreamFacts>)
    ensures
        match best_audio(streams) {
            Some(k) => {
                &&& 0 <= k < streams.len()
                &&& is_audio(streams[k])
                &&& forall|j: int|
                    0 <= j < streams.len() && is_audio(#[trigger] streams[j]) ==> !outranks(
                        streams[j],
                        streams[k],
                    ) && (j < k ==> outranks(streams[k], streams[j]))
            },
            None => forall|j: int| 0 <= j < streams.len() ==> !is_audio(#[trigger] streams[j]),
        },
    decreases streams.len(),
{
    if streams.len() > 0 {
        let before = streams.drop_last();
        lemma_best_audio_is_chosen(before);
        assert forall|j: int| 0 <= j < before.len() implies before[j] == #[trigger] streams[j] by {}
    }
}

/// What is known of the media once its best audio stream is.
pub open spec fn with_audio(info: MediaInfo, streams: Seq<StreamFacts>) -> MediaInfo {
    match best_audio(streams) {
        Some(k) => MediaInfo {
            audio_channels: at_least_zero(channels(streams[k])) as u32,
            audio_rate: at_least_zero(rate(streams[k])) as u32,
            audio_bitrate: bitrate(streams[k]) as u32,
            ..info
        },
        None => info,
    }
}

/// A number, or nothing where it is negative.
pub open spec fn at_least_zero(n: int) -> int {
    if n < 0 {
        0
    } else {
        n
    }
}

fn not_negative(n: i32) -> (r: u32)
    ensures
        r == at_least_zero(n as int),
{
    if n < 0 {
        0
    } else {
        n as u32
    }
}

/// The streams selected when a file opens: the first picture, the best sound, the
/// first subtitles.
pub open spec fn initial_selection(streams: Seq<StreamFacts>) -> Selection {
    Selection {
        video: first_id(streams, |f: StreamFacts| is_picture(f)),
        audio: match best_audio(streams) {
            Some(k) => streams[k].id,
            None => None,
        },
        text: first_id(streams, |f: StreamFacts| is_subtitles(f)),
    }
}

/// A file's tracks, and the streams selected among them.
#[derive(Debug, PartialEq, Eq)]
pub struct Adopted {
    pub tracks: Vec<Track>,
    pub selection: Selection,
}

/// Read a stream collection: describe every selectable track, and choose a
/// sensible default for each kind. That is the best audio by channel count then
/// bitrate, rather than whichever the container happened to list first. A
/// collection with nothing in it to play is not adopted.
pub fn adopt_collection(streams: &Vec<StreamFacts>, info: &mut MediaInfo) -> (r: Option<Adopted>)
    ensures
        r is Some <==> first_id(streams@, |f: StreamFacts| is_picture(f)) is Some || listed(
            streams@,
        ).len() > 0,
        r matches Some(adopted) ==> {
            &&& adopted.tracks.deep_view() == listed(streams@)
            &&& adopted.selection == initial_selection(streams@)
        },
        *final(info) == with_audio(*old(info), streams@),
{
    let mut tracks: Vec<Track> = Vec::new();
    let mut selection = Selection::none();
    let mut best: Option<(i32, u32)> = None;
    let mut audio_ordinal: usize = 0;
    let mut text_ordinal: usize = 0;
    let ghost before = *info;

    let mut i: usize = 0;
    while i < streams.len()
        invariant
            i <= streams@.len(),
            audio_ordinal <= i,
            text_ordinal <= i,
            audio_ordinal == number(streams@.take(i as int), true),
            text_ordinal == number(streams@.take(i as int), false),
            tracks.deep_view() =~= listed(streams@.take(i as int)),
            selection == initial_selection(streams@.take(i as int)),
            best == (match best_audio(streams@.take(i as int)) {
                Some(k) => Some((channels(streams@[k]) as i32, bitrate(streams@[k]) as u32)),
                None => None,
            }),
            best_audio(streams@.take(i as int)) matches Some(k) ==> 0 <= k < i,
            *info == with_audio(before, streams@.take(i as int)),
        decreases streams@.len() - i,
    {
        let ghost part = streams@.take(i as int);
        let ghost next = streams@.take(i + 1);
        proof {
            assert(next.drop_last() =~= part);
            assert(next.last() == streams@[i as int]);
            lemma_best_audio_is_chosen(part);
            if let Some(k) = best_audio(part) {
                assert(part[k] == streams@[k]);
                assert(next[k] == streams@[k]);
            }
        }
        let facts: &StreamFacts = &streams[i];
        i += 1;
        let id: String = match &facts.id {
            Some(id) => id.clone(),
            None => {
                continue;
            },
        };
        if facts.video {
            if selection.video.is_none() {
                selection.video = Some(id);
            }
            continue;
        }
        let ordinal: usize = if facts.audio {
            audio_ordinal += 1;
            audio_ordinal
        } else {
            text_ordinal += 1;
            text_ordinal
        };
        let (label, detail) = describe(facts, ordinal);
        if facts.audio {
            let (stream_channels, stream_rate, stream_bitrate) = audio_facts(facts);
            let better: bool = match best {
                Some((c, b)) => stream_channels > c || (stream_channels == c && stream_bitrate > b),
                None => true,
            };
            if better {
                best = Some((stream_channels, stream_bitrate));
                info.audio_channels = not_negative(stream_channels);
                info.audio_rate = not_negative(stream_rate);
                info.audio_bitrate = stream_bitrate;
                selection.audio = Some(id.clone());
            }
            tracks.push(Track { id, kind: TrackKind::Audio, label, detail, selected: false });
        } else if facts.text {
            if selection.text.is_none() {
                selection.text = Some(id.clone());
            }
            tracks.push(Track { id, kind: TrackKind::Text, label, detail, selected: false });
        }
    }
    proof {
        assert(streams@.take(i as int) =~= streams@);
    }
    if selection.video.is_none() && tracks.len() == 0 {
        return None;
    }
    Some(Adopted { tracks, selection })
}

/// How the first stream with an id reads, if there is one that can be picked.
pub open spec fn described(streams: Seq<StreamFacts>, id: Seq<char>) -> Option<
    (Seq<char>, Seq<char>),
>
    decreases streams.len(),
{
    if streams.len() == 0 {
        None
    } else {
        let facts = streams.last();
        match described(streams.drop_last(), id) {
            Some(words) => Some(words),
            None => if selectable(facts) && facts.id->0@ == id {
                Some(
                    (
                        labels::stream_label(facts, number(streams, facts.audio)),
                        labels::stream_detail(facts),
                    ),
                )
            } else {
                None
            },
        }
    }
}

fn find_description(streams: &Vec<StreamFacts>, id: &str) -> (r: Option<(String, String)>)
    ensures
        match r {
            Some((label, detail)) => described(streams@, id@) == Some((label@, detail@)),
            None => described(streams@, id@) is None,
        },
{
    let mut audio_ordinal: usize = 0;
    let mut text_ordinal: usize = 0;
    let mut i: usize = 0;
    while i < streams.len()
        invariant
            i <= streams@.len(),
            audio_ordinal <= i,
            text_ordinal <= i,
            audio_ordinal == number(streams@.take(i as int), true),
            text_ordinal == number(streams@.take(i as int), false),
            described(streams@.take(i as int), id@) is None,
        decreases streams@.len() - i,
    {
        let ghost next = streams@.take(i + 1);
        proof {
            assert(next.drop_last() =~= streams@.take(i as int));
            assert(next.last() == streams@[i as int]);
        }
        let facts: &StreamFacts = &streams[i];
        i += 1;
        let own: &String = match &facts.id {
            Some(own) => own,
            None => {
                continue;
            },
        };
        if facts.video {
            continue;
        }
        let ordinal: usize = if facts.audio {
            audio_ordinal += 1;
            audio_ordinal
        } else {
            text_ordinal += 1;
            text_ordinal
        };
        if same(own.as_str(), id) {
            proof {
                lemma_described_early(streams@, id@, i as int);
            }
            return Some(describe(facts, ordinal));
        }
    }
    proof {
        assert(streams@.take(i as int) =~= streams@);
    }
    None
}

/// A description found among the first streams stays the one that is found.
proof fn lemma_described_early(streams: Seq<StreamFacts>, id: Seq<char>, n: int)
    requires
        0 <= n <= streams.len(),
        described(streams.take(n), id) is Some,
    ensures
        described(streams, id) == described(streams.take(n), id),
    decreases streams.len(),
{
    if n == streams.len() {
        assert(streams.take(n) =~= streams);
    } else {
        assert(streams.drop_last().take(n) =~= streams.take(n));
        lemma_described_early(streams.drop_last(), id, n);
    }
}

/// A track with the words that a collection now has for it.
pub open spec fn relabelled(track: Track, streams: Seq<StreamFacts>) -> TrackView {
    match described(streams, track.id@) {
        Some((label, detail)) => TrackView { label, detail, ..track.deep_view() },
        None => track.deep_view(),
    }
}

/// Rebuild track labels from the collection, and say whether any changed.
///
/// Language tags are not always present when the collection first arrives, so the
/// same file can label its tracks by language one run and by number the next.
/// Re-describing when tags land settles it.
pub fn refresh_labels(tracks: &mut Vec<Track>, streams: &Vec<StreamFacts>) -> (changed: bool)
    ensures
        final(tracks).deep_view() == old(tracks)@.map_values(
            |track: Track| relabelled(track, streams@),
        ),
        changed == (final(tracks).deep_view() != old(tracks).deep_view()),
{
    let ghost before = tracks@;
    let mut changed: bool = false;
    let mut i: usize = 0;
    while i < tracks.len()
        invariant
            i <= tracks@.len(),
            tracks@.len() == before.len(),
            forall|k: int| i <= k < before.len() ==> #[trigger] tracks@[k] == before[k],
            forall|k: int|
                0 <= k < i ==> (#[trigger] tracks@[k]).deep_view() == relabelled(
                    before[k],
                    streams@,
                ),
            changed == exists|k: int|
                0 <= k < i && (#[trigger] tracks@[k]).deep_view() != before[k].deep_view(),
        decreases tracks@.len() - i,
    {
        let ghost was = tracks@;
        let found = find_description(streams, tracks[i].id.as_str());
        if let Some((label, detail)) = found {
            if !same(tracks[i].label.as_str(), label.as_str()) || !same(
                tracks[i].detail.as_str(),
                detail.as_str(),
            ) {
                let old_track: Track = tracks[i].clone();
                tracks[i] = Track {
                    id: old_track.id,
                    kind: old_track.kind,
                    label,
                    detail,
                    selected: old_track.selected,
                };
                changed = true;
                proof {
                    let k = i as int;
                    assert(tracks@[k].deep_view() != before[k].deep_view());
                }
            } else {
                proof {
                    assert(tracks@[i as int].deep_view() == relabelled(
                        before[i as int],
                        streams@,
                    ));
                }
            }
        }
        proof {
            assert(forall|k: int| 0 <= k < i ==> #[trigger] tracks@[k] == was[k]);
        }
        i += 1;
    }
    proof {
        let now = tracks.deep_view();
        assert(now =~= before.map_values(|track: Track| relabelled(track, streams@)));
        let then = Seq::new(before.len(), |k: int| before[k].deep_view());
        if changed {
            let k = choose|k: int|
                0 <= k < tracks@.len() && (#[trigger] tracks@[k]).deep_view()
                    != before[k].deep_view();
            assert(now[k] != then[k]);
        } else {
            assert forall|k: int| 0 <= k < now.len() implies now[k] == then[k] by {
                assert(tracks@[k].deep_view() == before[k].deep_view());
            }
            assert(now =~= then);
        }
    }
    changed
}

/// Whether a track is the live one of its kind.
pub open spec fn is_live(track: Track, selection: Selection) -> bool {
    match selection.active(track.kind) {
        Some(id) => id@ == track.id@,
        None => false,
    }
}

/// Switching one kind of track leaves the other kind's live track live, and nothing
/// else of that kind.
pub proof fn lemma_switching_keeps_the_other_kind(
    before: Selection,
    kind: TrackKind,
    id: Option<String>,
    track: Track,
)
    requires
        track.kind != kind,
    ensures
        is_live(track, before) == is_live(track, before.switched(kind, id)),
{
}

/// Only subtitles can be turned off: sound that is selected stays selected, whatever is
/// switched, and switching it to nothing changes nothing. The picture stays in any case.
pub proof fn lemma_only_subtitles_turn_off(before: Selection, kind: TrackKind, id: Option<String>)
    ensures
        before.switched(kind, id).video == before.video,
        before.audio is Some ==> before.switched(kind, id).audio is Some,
        kind == TrackKind::Audio && id is None ==> before.switched(kind, id) == before,
        before.switched(TrackKind::Text, None).text is None,
{
}

/// The tracks, each marked as live or not.
pub fn publish_tracks(tracks: &Vec<Track>, selection: &Selection) -> (r: Vec<Track>)
    ensures
        r@ == tracks@.map_values(
            |track: Track| Track { selected: is_live(track, *selection), ..track },
        ),
{
    let mut r: Vec<Track> = Vec::new();
    let mut i: usize = 0;
    while i < tracks.len()
        invariant
            i <= tracks@.len(),
            r@ =~= tracks@.take(i as int).map_values(
                |track: Track| Track { selected: is_live(track, *selection), ..track },
            ),
        decreases tracks@.len() - i,
    {
        let mut track: Track = tracks[i].clone();
        let active: &Option<String> = match track.kind {
            TrackKind::Audio => &selection.audio,
            TrackKind::Text => &selection.text,
        };
        let live: bool = match active {
            Some(id) => same(id.as_str(), track.id.as_str()),
            None => false,
        };
        track.selected = live;
        r.push(track);
        i += 1;
    }
    proof {
        assert(tracks@.take(i as int) =~= tracks@);
    }
    r
}

} // verus!
