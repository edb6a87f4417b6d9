//! What the window shows and how that goes with what its controls do, as laws.

use vstd::prelude::*;

use crate::engine::labels;
use crate::engine::time;
use crate::engine::{Container, Duration, Export, State, Track, TrackKind};
use crate::text;
use crate::ui;
use crate::ui::clip;
use crate::ui::icons::Glyph;
use crate::ui::view;
use crate::ui::view::{ClipBar, ControlBar, Layer, Panel, Status};
use crate::ui::{Command, Message, Myvid};

verus! {

/// The handle of the scrub bar stands at the share of the media that has been played, to a
/// billionth: at the start where no length is known, and at the end from the end on.
pub proof fn lemma_the_handle_is_where_playback_is(position: int, total: int)
    requires
        0 <= position,
        0 <= total,
    ensures
        ({
            let at = view::played_parts(position, total);
            &&& total == 0 ==> at == 0
            &&& 0 < total <= position ==> at == 1_000_000_000
            &&& position < total ==> at * total <= position * 1_000_000_000 < (at + 1) * total
        }),
{
    if position < total {
        let n = position * 1_000_000_000;
        let at = n / total;
        assert(at * total <= n < (at + 1) * total) by (nonlinear_arith)
            requires
                total > 0,
                at == n / total,
        ;
        assert(view::played_parts(position, total) == at);
    }
}

/// Scrubbing to where the handle stands never goes past where playback is, and misses it
/// by no more than a billionth of the media.
pub proof fn lemma_scrubbing_to_the_handle_stays(position: int, total: int)
    requires
        0 <= position <= total,
        0 < total,
    ensures
        ({
            let to = ui::scrub_target(total, view::played_parts(position, total));
            &&& to <= position
            &&& (position - to - 1) * 1_000_000_000 <= total
        }),
{
    lemma_the_handle_is_where_playback_is(position, total);
    let at = view::played_parts(position, total);
    if position < total {
        assert(at < 1_000_000_000) by (nonlinear_arith)
            requires
                at * total <= position * 1_000_000_000,
                position < total,
                0 <= position,
        ;
        let to = total * at / 1_000_000_000;
        assert(total * at == at * total) by (nonlinear_arith);
        assert((at + 1) * total == at * total + total) by (nonlinear_arith);
        assert(to * 1_000_000_000 <= total * at < (to + 1) * 1_000_000_000);
    }
}

/// The readouts of the control bar are those of the player.
pub proof fn lemma_the_bar_reads_the_player(bar: ControlBar, player: Myvid)
    requires
        view::shows(bar, player),
    ensures
        player.duration matches Some(total) ==> bar.clock@ == time::clock(
            (player.position.nanos / 1_000_000_000) as nat,
        ) + " / "@ + time::clock((total.nanos / 1_000_000_000) as nat),
        player.duration is None ==> bar.clock@ == time::clock(
            (player.position.nanos / 1_000_000_000) as nat,
        ) + " / "@ + time::clock(0) && bar.fraction == 0,
        player.duration matches Some(total) ==> bar.fraction == view::played_parts(
            player.position.nanos as int,
            total.nanos as int,
        ),
        player.muted ==> bar.volume == 0 && bar.speaker.glyph == Glyph::Mute,
        !player.muted ==> bar.volume == player.volume && bar.speaker.glyph == Glyph::Volume,
        !player.muted && player.volume > 100 ==> bar.volume_label@ == text::decimal(
            player.volume as nat,
        ) + "%"@,
        player.muted || player.volume <= 100 ==> bar.volume_label@.len() == 0,
        player.rate == 100 ==> bar.rate_label@.len() == 0,
        player.rate != 100 ==> bar.rate_label@ == view::rate_words(player.rate),
        player.info.hardware ==> bar.accelerator@ == "GPU decode"@,
        !player.info.hardware ==> bar.accelerator@ == "CPU decode"@,
        bar.back.glyph == Glyph::Back10 && bar.forward.glyph == Glyph::Forward10,
        bar.clip.glyph == Glyph::Scissors && bar.tracks.glyph == Glyph::Sliders,
        player.fullscreen ==> bar.screen.glyph == Glyph::ExitFullscreen,
        !player.fullscreen ==> bar.screen.glyph == Glyph::Fullscreen,
        player.state == State::Playing ==> bar.play.glyph == Glyph::Pause,
        player.state != State::Playing ==> bar.play.glyph == Glyph::Play,
{
}

/// Pressing a control of the bar does what it shows: the play button what its picture
/// says, the skips ten seconds, the speaker turns the sound off or on, the scissors mark an in
/// point, the sliders open or close the panel, and the last one the full screen.
pub proof fn lemma_controls_do_what_they_show(
    bar: ControlBar,
    player: Myvid,
    now: Duration,
    played: Myvid,
    a: Seq<Command>,
    silenced: Myvid,
    b: Seq<Command>,
    marked: Myvid,
    c: Seq<Command>,
    listed: Myvid,
    d: Seq<Command>,
    wide: Myvid,
    e: Seq<Command>,
)
    requires
        view::shows(bar, player),
        player.engine,
        ui::updated(player, now, bar.play.message, played, a),
        ui::updated(player, now, bar.speaker.message, silenced, b),
        ui::updated(player, now, bar.clip.message, marked, c),
        ui::updated(player, now, bar.tracks.message, listed, d),
        ui::updated(player, now, bar.screen.message, wide, e),
    ensures
        bar.play.glyph == Glyph::Pause ==> a == seq![Command::Pause],
        bar.play.glyph == Glyph::Play ==> a == seq![Command::Play],
        bar.speaker.glyph == Glyph::Mute <==> !silenced.muted,
        marked.clip_in == Some(player.position),
        listed.panel != player.panel,
        bar.screen.glyph == Glyph::Fullscreen <==> wide.fullscreen,
        bar.back.message == Message::Skip((-10) as i64),
        bar.forward.message == Message::Skip(10),
{
}

/// A speed reads as its hundredths, with no more decimals than it needs.
pub proof fn lemma_speeds_in_words(whole: u32, tenths: u32, hundredths: u32)
    requires
        whole <= 40_000_000,
        tenths < 10,
        hundredths < 10,
    ensures
        ({
            let words = view::rate_words((whole * 100 + tenths * 10 + hundredths) as u32);
            let x = text::decimal(whole as nat);
            let t = (48 + tenths) as char;
            let h = (48 + hundredths) as char;
            &&& tenths == 0 && hundredths == 0 ==> words == x + "x"@
            &&& tenths > 0 && hundredths == 0 ==> words == x + seq!['.', t] + "x"@
            &&& hundredths > 0 ==> words == x + seq!['.', t, h] + "x"@
        }),
{
    let rate = (whole * 100 + tenths * 10 + hundredths) as u32;
    assert(rate / 100 == whole && rate / 10 % 10 == tenths && rate % 10 == hundredths);
}

/// How high above the stage a layer lies.
pub open spec fn height(layer: Layer) -> int {
    match layer {
        Layer::Stage => 0,
        Layer::Empty => 1,
        Layer::Drop => 2,
        Layer::Chrome => 3,
        Layer::Panel => 4,
        Layer::Subtitle => 5,
        Layer::Buffering => 6,
        Layer::Error => 7,
        Layer::UrlPrompt => 8,
    }
}

/// Whether layers lie in order, each above those before it.
pub open spec fn stacked(layers: Seq<Layer>) -> bool {
    forall|i: int, j: int|
        0 <= i < j < layers.len() ==> height(#[trigger] layers[i]) < height(#[trigger] layers[j])
}

proof fn lemma_one_more_layer(below: Seq<Layer>, show: bool, layer: Layer, other: Layer)
    requires
        stacked(below),
        forall|i: int| 0 <= i < below.len() ==> height(#[trigger] below[i]) < height(layer),
    ensures
        stacked(below + view::shown(show, layer)),
        forall|i: int|
            0 <= i < (below + view::shown(show, layer)).len() ==> height(
                #[trigger] (below + view::shown(show, layer))[i],
            ) <= height(layer),
        (below + view::shown(show, layer)).contains(other) <==> below.contains(other) || (show
            && other == layer),
{
    let all = below + view::shown(show, layer);
    if below.contains(other) {
        let i = choose|i: int| 0 <= i < below.len() && below[i] == other;
        assert(all[i] == other);
    }
    if show && other == layer {
        assert(all[below.len() as int] == other);
    }
    if all.contains(other) {
        let i = choose|i: int| 0 <= i < all.len() && all[i] == other;
        if i < below.len() {
            assert(below[i] == other);
        }
    }
}

/// The picture is always there. The opening screen is up exactly while nothing is open;
/// the controls and the panel only while something is, and the controls give way to a
/// file that is dragged over them. A cue, buffering, an error and the prompt are shown
/// wherever there is one. Each lies above those named before it.
pub proof fn lemma_what_is_on_screen(player: Myvid, layer: Layer)
    ensures
        stacked(view::layers(player)),
        view::layers(player).contains(layer) <==> match layer {
            Layer::Stage => true,
            Layer::Empty => player.source is None,
            Layer::Drop => player.source is Some && player.hovering,
            Layer::Chrome => player.source is Some && !player.hovering && player.chrome,
            Layer::Panel => player.source is Some && player.panel,
            Layer::Subtitle => player.subtitle is Some,
            Layer::Buffering => player.buffering is Some,
            Layer::Error => player.error is Some,
            Layer::UrlPrompt => player.url_prompt is Some,
        },
{
    let open = player.source is Some;
    let stage = seq![Layer::Stage];
    assert(stage[0] == Layer::Stage);
    assert(stage.contains(Layer::Stage));
    let a = stage + view::shown(!open, Layer::Empty);
    let b = a + view::shown(open && player.hovering, Layer::Drop);
    let c = b + view::shown(open && !player.hovering && player.chrome, Layer::Chrome);
    let d = c + view::shown(open && player.panel, Layer::Panel);
    let e = d + view::shown(player.subtitle is Some, Layer::Subtitle);
    let f = e + view::shown(player.buffering is Some, Layer::Buffering);
    let g = f + view::shown(player.error is Some, Layer::Error);
    lemma_one_more_layer(stage, !open, Layer::Empty, layer);
    lemma_one_more_layer(a, open && player.hovering, Layer::Drop, layer);
    lemma_one_more_layer(b, open && !player.hovering && player.chrome, Layer::Chrome, layer);
    lemma_one_more_layer(c, open && player.panel, Layer::Panel, layer);
    lemma_one_more_layer(d, player.subtitle is Some, Layer::Subtitle, layer);
    lemma_one_more_layer(e, player.buffering is Some, Layer::Buffering, layer);
    lemma_one_more_layer(f, player.error is Some, Layer::Error, layer);
    lemma_one_more_layer(g, player.url_prompt is Some, Layer::UrlPrompt, layer);
}

/// Each track of a kind has its own line, in the order of the tracks: with the track's
/// words, marked where the track is live, and picking just that track.
pub proof fn lemma_every_track_has_its_line(tracks: Seq<Track>, next: Track, kind: TrackKind)
    ensures
        view::track_rows(Seq::empty(), kind).len() == 0,
        next.kind != kind ==> view::track_rows(tracks.push(next), kind) == view::track_rows(
            tracks,
            kind,
        ),
        next.kind == kind ==> {
            let rows = view::track_rows(tracks.push(next), kind);
            &&& rows.len() == view::track_rows(tracks, kind).len() + 1
            &&& rows.drop_last() == view::track_rows(tracks, kind)
            &&& rows.last().label == next.label && rows.last().detail == next.detail
            &&& rows.last().selected == next.selected
            &&& rows.last().message == Message::SelectTrack(kind, Some(next.id))
        },
{
    reveal(Seq::filter);
    let all = tracks.push(next);
    assert(all.drop_last() =~= tracks);
    assert(view::of_kind(Seq::empty(), kind).len() == 0);
    if next.kind == kind {
        assert(view::of_kind(all, kind) == view::of_kind(tracks, kind).push(next));
        let rows = view::track_rows(all, kind);
        assert(rows.drop_last() =~= view::track_rows(tracks, kind));
    } else {
        assert(view::of_kind(all, kind) == view::of_kind(tracks, kind));
    }
}

proof fn lemma_of_kind(tracks: Seq<Track>, kind: TrackKind)
    ensures
        view::of_kind(tracks, kind).len() > 0 <==> exists|i: int|
            0 <= i < tracks.len() && (#[trigger] tracks[i]).kind == kind,
        view::any_selected(view::of_kind(tracks, kind)) <==> exists|i: int|
            0 <= i < tracks.len() && (#[trigger] tracks[i]).kind == kind && tracks[i].selected,
    decreases tracks.len(),
{
    reveal(Seq::filter);
    if tracks.len() > 0 {
        let front = tracks.drop_last();
        lemma_of_kind(front, kind);
        let some = view::of_kind(front, kind);
        let all = view::of_kind(tracks, kind);
        let n = tracks.len() - 1;
        assert(tracks[n] == tracks.last());
        if tracks.last().kind == kind {
            assert(all == some.push(tracks.last()));
            assert(all[some.len() as int] == tracks.last());
        } else {
            assert(all == some);
        }
        if exists|i: int| 0 <= i < front.len() && (#[trigger] front[i]).kind == kind {
            let i = choose|i: int| 0 <= i < front.len() && (#[trigger] front[i]).kind == kind;
            assert(tracks[i].kind == kind);
        }
        if exists|i: int| 0 <= i < tracks.len() && (#[trigger] tracks[i]).kind == kind {
            let i = choose|i: int| 0 <= i < tracks.len() && (#[trigger] tracks[i]).kind == kind;
            if i < n {
                assert(front[i].kind == kind);
            }
        }
        if view::any_selected(some) {
            let i = choose|i: int| 0 <= i < some.len() && (#[trigger] some[i]).selected;
            assert(all[i].selected);
            let k = choose|k: int|
                0 <= k < front.len() && (#[trigger] front[k]).kind == kind && front[k].selected;
            assert(tracks[k].kind == kind && tracks[k].selected);
        }
        if view::any_selected(all) {
            let i = choose|i: int| 0 <= i < all.len() && (#[trigger] all[i]).selected;
            if i < some.len() {
                assert(some[i].selected);
            } else {
                assert(tracks[n].kind == kind && tracks[n].selected);
            }
        }
        if exists|i: int|
            0 <= i < tracks.len() && (#[trigger] tracks[i]).kind == kind && tracks[i].selected {
            let i = choose|i: int|
                0 <= i < tracks.len() && (#[trigger] tracks[i]).kind == kind && tracks[i].selected;
            if i < n {
                assert(front[i].kind == kind && front[i].selected);
            } else {
                assert(all[some.len() as int].selected);
            }
        }
    }
}

/// The panel lists every audio track, and every subtitle track behind a line that turns
/// subtitles off. That one is marked exactly where no subtitle track is live, and there is
/// none where there are no subtitles at all.
pub proof fn lemma_the_panel_lists_the_tracks(panel: Panel, player: Myvid)
    requires
        view::panel_shows(panel, player),
    ensures
        panel.audio@ == view::track_rows(player.tracks@, TrackKind::Audio),
        (forall|i: int|
            0 <= i < player.tracks@.len() ==> (#[trigger] player.tracks@[i]).kind
                != TrackKind::Text) ==> panel.subtitles@.len() == 0,
        (exists|i: int|
            0 <= i < player.tracks@.len() && (#[trigger] player.tracks@[i]).kind == TrackKind::Text)
            ==> {
            let off = panel.subtitles@[0];
            &&& panel.subtitles@.len() > 1
            &&& panel.subtitles@.skip(1) == view::track_rows(player.tracks@, TrackKind::Text)
            &&& off.label@ == "Off"@ && off.detail@.len() == 0
            &&& off.message == Message::SelectTrack(TrackKind::Text, None)
            &&& off.selected <==> (forall|i: int|
                0 <= i < player.tracks@.len() && (#[trigger] player.tracks@[i]).kind
                    == TrackKind::Text ==> !player.tracks@[i].selected)
        },
{
    lemma_of_kind(player.tracks@, TrackKind::Text);
}

/// The panel offers the speeds from a quarter to double in steps of a quarter, each marked
/// where it is the one in force, and says what decodes the picture and at what size.
pub proof fn lemma_the_panel_offers_the_speeds(panel: Panel, player: Myvid, k: int)
    requires
        view::panel_shows(panel, player),
        0 <= k < 8,
    ensures
        panel.speeds@.len() == 8,
        panel.speeds@[k].rate == 25 + 25 * k,
        panel.speeds@[k].label@ == view::rate_words(panel.speeds@[k].rate),
        panel.speeds@[k].selected <==> player.rate == 25 + 25 * k,
        panel.resolution@ == text::decimal(player.info.width as nat) + "x"@ + text::decimal(
            player.info.height as nat,
        ),
        player.info.hardware ==> panel.decoder@ == "hardware"@,
        !player.info.hardware ==> panel.decoder@ == "software"@,
{
    let chip = panel.speeds@[k];
    assert(chip.rate == ui::rates()[k]);
}

/// Choosing a line for sound turns that effect the other way and leaves the other as it
/// is; a line is marked where its effect is on.
pub proof fn lemma_sound_lines_turn_their_effect(
    panel: Panel,
    player: Myvid,
    now: Duration,
    first: Myvid,
    a: Seq<Command>,
    second: Myvid,
    b: Seq<Command>,
)
    requires
        view::panel_shows(panel, player),
        ui::updated(player, now, panel.sound@[0].message, first, a),
        ui::updated(player, now, panel.sound@[1].message, second, b),
    ensures
        panel.sound@.len() == 2,
        panel.sound@[0].label@ == "Clear dialogue"@ && panel.sound@[1].label@ == "Night mode"@,
        panel.sound@[0].selected == player.effects.dialogue,
        panel.sound@[1].selected == player.effects.night,
        first.effects.dialogue != player.effects.dialogue,
        first.effects.night == player.effects.night,
        second.effects.night != player.effects.night,
        second.effects.dialogue == player.effects.dialogue,
{
}

/// The clip strip shows the marks that there are and a dash for those that there are not,
/// and the time between them once there are both. A clip can be written then, unless one
/// is being written.
pub proof fn lemma_the_strip_shows_the_marks(bar: ClipBar, player: Myvid)
    requires
        view::clip_shows(bar, player),
    ensures
        player.clip_in matches Some(at) ==> bar.start@ == time::clock(
            (at.nanos / 1_000_000_000) as nat,
        ),
        player.clip_in is None ==> bar.start@ == "—"@,
        player.clip_out matches Some(at) ==> bar.end@ == time::clock(
            (at.nanos / 1_000_000_000) as nat,
        ),
        player.clip_out is None ==> bar.end@ == "—"@,
        player.clip_in is None || player.clip_out is None ==> bar.length@ == "—"@
            && !bar.can_export,
        player.clip_in is Some && player.clip_out is Some && player.clip_in->0.nanos
            < player.clip_out->0.nanos ==> bar.length@ == time::clock(
            ((player.clip_out->0.nanos - player.clip_in->0.nanos) / 1_000_000_000) as nat,
        ),
        player.clip_in is Some && player.clip_out is Some ==> (bar.can_export <==> !(
        player.export matches Some(Export::Progress(_)))),
        bar.formats@.len() == 2,
        bar.formats@[0].container == Container::Matroska && bar.formats@[1].container
            == Container::Mp4,
        bar.formats@[0].selected <==> player.container == Container::Matroska,
        bar.formats@[1].selected <==> player.container == Container::Mp4,
        bar.formats@[0].label@ == "MKV"@ + " copy"@ && bar.formats@[1].label@ == "MP4"@ + " copy"@,
{
    let a = bar.formats@[0];
    let b = bar.formats@[1];
}

/// An export is shown as it stands: nothing before there is one, how far it is in percent,
/// what was saved, or that it failed.
pub proof fn lemma_the_strip_shows_the_export(bar: ClipBar, player: Myvid)
    requires
        view::clip_shows(bar, player),
    ensures
        match player.export {
            None => bar.status == Status::Quiet,
            Some(Export::Progress(parts)) => bar.status matches Status::Exporting(words) && words@
                == "Exporting "@ + (text::decimal(view::rounded_percent(parts as int)) + "%"@),
            Some(Export::Done(path)) => bar.status matches Status::Saved(words) && words@
                == "Saved "@ + (match clip::file_name(path@) {
                Some(name) => name,
                None => Seq::empty(),
            }),
            Some(Export::Failed(_)) => bar.status == Status::Failed,
        },
{
}

/// A share in percent is off by no more than half a percent, and where two are as near it
/// is the even one.
pub proof fn lemma_percent_is_the_nearest(parts: int)
    requires
        0 <= parts,
    ensures
        ({
            let percent = view::rounded_percent(parts) as int;
            &&& -5_000_000 <= percent * 10_000_000 - parts <= 5_000_000
            &&& (percent * 10_000_000 - parts == 5_000_000 || parts - percent * 10_000_000
                == 5_000_000) ==> percent % 2 == 0
        }),
{
    let whole = parts / 10_000_000;
    let rest = parts % 10_000_000;
    assert(parts == whole * 10_000_000 + rest);
}

/// The window is titled by the media's title, or failing that by the source's name, or by
/// nothing but the player's own.
pub proof fn lemma_the_title(player: Myvid)
    ensures
        player.info.title@.len() > 0 ==> view::window_title(player) == player.info.title@
            + " — myvid"@,
        player.info.title@.len() == 0 && player.source is Some ==> view::window_title(player)
            == view::spaced(text::after_last_slash(player.source->0@)) + " — myvid"@,
        player.info.title@.len() == 0 && player.source is None ==> view::window_title(player)
            == "myvid"@,
{
}

/// Every `%20` in a name reads as a space, and nothing else in it changes.
pub proof fn lemma_spaces_read_as_such(before: Seq<char>, after: Seq<char>)
    requires
        forall|i: int| 0 <= i < before.len() ==> #[trigger] before[i] != '%',
    ensures
        view::spaced(before) == before,
        view::spaced(before + seq!['%', '2', '0'] + after) == before + seq![' '] + view::spaced(
            after,
        ),
    decreases before.len(),
{
    let whole = before + seq!['%', '2', '0'] + after;
    if before.len() == 0 {
        assert(whole.skip(3) =~= after);
        assert(before + seq![' '] =~= seq![' ']);
        assert(before =~= Seq::empty());
    } else {
        let rest = before.skip(1);
        assert forall|i: int| 0 <= i < rest.len() implies #[trigger] rest[i] != '%' by {
            assert(rest[i] == before[i + 1]);
        }
        lemma_spaces_read_as_such(rest, after);
        assert(before[0] != '%');
        assert(whole.skip(1) =~= rest + seq!['%', '2', '0'] + after);
        assert(seq![before[0]] + rest =~= before);
        assert(seq![before[0]] + (rest + seq![' '] + view::spaced(after)) =~= before + seq![' ']
            + view::spaced(after));
    }
}

/// A percent sign that is not the start of `%20` stays.
pub proof fn lemma_other_escapes_stay(a: char, b: char, after: Seq<char>)
    requires
        a != '2' || b != '0',
    ensures
        view::spaced(seq!['%', a, b] + after) == seq!['%'] + view::spaced(seq![a, b] + after),
{
    let whole = seq!['%', a, b] + after;
    assert(whole.skip(1) =~= seq![a, b] + after);
}

/// What is known of the media reads in this order, with a dot between the parts that say
/// anything: the picture's size, its codec, and the sound.
pub proof fn lemma_the_summary(player: Myvid)
    ensures
        ({
            let size = text::decimal(player.info.width as nat) + "×"@ + text::decimal(
                player.info.height as nat,
            );
            let codec = player.info.video_codec@;
            let sound = view::sound_part(player);
            let wide = player.info.width > 0;
            &&& wide && codec.len() > 0 && sound.len() > 0 ==> view::summary(player) == size
                + " · "@ + codec + " · "@ + sound
            &&& wide && codec.len() > 0 && sound.len() == 0 ==> view::summary(player) == size
                + " · "@ + codec
            &&& wide && codec.len() == 0 && sound.len() > 0 ==> view::summary(player) == size
                + " · "@ + sound
            &&& wide && codec.len() == 0 && sound.len() == 0 ==> view::summary(player) == size
            &&& !wide && codec.len() > 0 && sound.len() > 0 ==> view::summary(player) == codec
                + " · "@ + sound
            &&& !wide && codec.len() > 0 && sound.len() == 0 ==> view::summary(player) == codec
            &&& !wide && codec.len() == 0 ==> view::summary(player) == sound
        }),
{
    reveal_strlit(" · ");
    let size = view::size_part(player);
    text::lemma_decimal_is_the_number(player.info.width as nat);
    assert(size.len() > 0);
}

/// The sound reads as its codec, its channels, its bitrate and its rate, as far as each
/// is known.
pub proof fn lemma_the_sound_in_words(player: Myvid)
    ensures
        ({
            let info = player.info;
            let channels = if info.audio_channels == 0 {
                ""@
            } else if info.audio_codec@.len() > 0 {
                " "@ + labels::layout(info.audio_channels as int)
            } else {
                labels::layout(info.audio_channels as int)
            };
            let bitrate = if info.audio_bitrate > 0 {
                " "@ + text::decimal((info.audio_bitrate / 1000) as nat) + " kb/s"@
            } else {
                ""@
            };
            let rate = if info.audio_rate > 0 {
                " "@ + text::decimal((info.audio_rate / 1000) as nat) + " kHz"@
            } else {
                ""@
            };
            view::sound_part(player) == info.audio_codec@ + channels + bitrate + rate
        }),
{
    reveal_strlit("");
    reveal_strlit(" ");
    assert(""@ =~= Seq::<char>::empty());
    assert(" "@ =~= seq![' ']);
    let layout = labels::layout(player.info.audio_channels as int);
    assert(Seq::<char>::empty() + layout =~= layout);
}

/// A clip is named for the source, the second it starts in, the second it ends in and its
/// container.
pub proof fn lemma_a_clip_is_named_for_its_range(
    stem: Seq<char>,
    start: Duration,
    end: Duration,
    container: Container,
)
    ensures
        clip::clip_name(stem, start, end, container) == stem + "-clip-"@ + time::clock(
            (start.nanos / 1_000_000_000) as nat,
        ).filter(|c: char| c != ':') + "-"@ + time::clock(
            (end.nanos / 1_000_000_000) as nat,
        ).filter(|c: char| c != ':') + "."@ + (match container {
            Container::Matroska => "mkv"@,
            Container::Mp4 => "mp4"@,
        }),
{
    let a = time::clock((start.nanos / 1_000_000_000) as nat);
    let b = time::clock((end.nanos / 1_000_000_000) as nat);
    assert(clip::without_colons(a) == a.filter(|c: char| c != ':'));
    assert(clip::without_colons(b) == b.filter(|c: char| c != ':'));
}

/// A path is its directory, a slash and its name; and a name is its stem, a dot and its
/// extension, unless there is nothing before the dot.
pub proof fn lemma_paths_come_apart(before: Seq<char>, c: char, after: Seq<char>)
    requires
        forall|i: int| 0 <= i < after.len() ==> #[trigger] after[i] != c,
    ensures
        c == '/' ==> clip::directory(before + seq![c] + after) == before,
        c == '.' ==> clip::before_last_dot(before + seq![c] + after) == before,
        c == '.' && before.len() > 0 ==> clip::stem(before + seq![c] + after) == before,
        c == '.' && before.len() == 0 ==> clip::stem(before + seq![c] + after) == before + seq![c]
            + after,
    decreases after.len(),
{
    let whole = before + seq![c] + after;
    if after.len() == 0 {
        assert(whole.last() == c);
        assert(whole.drop_last() =~= before);
    } else {
        let rest = after.drop_last();
        assert forall|i: int| 0 <= i < rest.len() implies #[trigger] rest[i] != c by {
            assert(rest[i] == after[i]);
        }
        lemma_paths_come_apart(before, c, rest);
        assert(whole.last() == after[after.len() - 1]);
        assert(whole.drop_last() =~= before + seq![c] + rest);
    }
}

} // verus!
