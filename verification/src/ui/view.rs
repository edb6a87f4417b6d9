//! What the window shows: its layers, its readouts, and what each control says.

use vstd::prelude::*;

use crate::engine::labels;
use crate::engine::labels::channel_layout;
use crate::engine::time;
use crate::engine::{
    format_time, AudioEffects, Container, Duration, Export, Track, TrackKind, FULL_VOLUME, PARTS,
};
use crate::text;
use crate::text::{chars, last_part, push_decimal};
use crate::ui;
use crate::ui::clip;
use crate::ui::clip::saved_name;
use crate::ui::icons::Glyph;
use crate::ui::{rate_at, Message, Myvid, NORMAL_RATE, RATES, SKIP};

verus! {

/// A text with every `%20` made a space.
pub open spec fn spaced(s: Seq<char>) -> Seq<char>
    decreases s.len(),
{
    if s.len() == 0 {
        Seq::empty()
    } else if s.len() >= 3 && s[0] == '%' && s[1] == '2' && s[2] == '0' {
        seq![' '] + spaced(s.skip(3))
    } else {
        seq![s[0]] + spaced(s.skip(1))
    }
}

/// The last segment of a URI, readable.
pub open spec fn short(uri: Seq<char>) -> Seq<char> {
    spaced(text::after_last_slash(uri))
}

/// The last path segment, percent-decoded enough to be readable.
pub fn short_name(uri: &str) -> (r: String)
    ensures
        r@ == short(uri@),
{
    let v: Vec<char> = chars(uri);
    let mut at: usize = last_part(&v);
    let ghost tail = v@.skip(at as int);
    let mut r: String = String::new();
    while at < v.len()
        invariant
            at <= v@.len(),
            spaced(tail) =~= r@ + spaced(v@.skip(at as int)),
        decreases v@.len() - at,
    {
        let ghost rest = v@.skip(at as int);
        let ghost before = r@;
        if v.len() - at >= 3 && v[at] == '%' && v[at + 1] == '2' && v[at + 2] == '0' {
            r.push(' ');
            proof {
                assert(rest.skip(3) =~= v@.skip(at + 3));
                assert(before + (seq![' '] + spaced(rest.skip(3))) =~= r@ + spaced(rest.skip(3)));
            }
            at += 3;
        } else {
            r.push(v[at]);
            proof {
                assert(rest.skip(1) =~= v@.skip(at + 1));
                assert(before + (seq![rest[0]] + spaced(rest.skip(1))) =~= r@ + spaced(
                    rest.skip(1),
                ));
            }
            at += 1;
        }
    }
    proof {
        assert(v@.skip(at as int) =~= Seq::<char>::empty());
        assert(r@ + spaced(Seq::<char>::empty()) =~= r@);
    }
    r
}

/// What the window's title bar says.
pub open spec fn window_title(player: Myvid) -> Seq<char> {
    if player.info.title@.len() > 0 {
        player.info.title@ + " — myvid"@
    } else {
        match player.source {
            Some(uri) => short(uri@) + " — myvid"@,
            None => "myvid"@,
        }
    }
}

/// The picture's size, as the title bar shows it.
pub open spec fn size_part(player: Myvid) -> Seq<char> {
    text::decimal(player.info.width as nat) + "×"@ + text::decimal(player.info.height as nat)
}

/// What is known of the sound: its codec, channels, bitrate and sample rate.
pub open spec fn sound_part(player: Myvid) -> Seq<char> {
    let info = player.info;
    let layout = if info.audio_channels > 0 {
        (if info.audio_codec@.len() > 0 {
            seq![' ']
        } else {
            Seq::empty()
        }) + labels::layout(info.audio_channels as int)
    } else {
        Seq::empty()
    };
    let bitrate = if info.audio_bitrate > 0 {
        " "@ + text::decimal((info.audio_bitrate / 1000) as nat) + " kb/s"@
    } else {
        Seq::empty()
    };
    let rate = if info.audio_rate > 0 {
        " "@ + text::decimal((info.audio_rate / 1000) as nat) + " kHz"@
    } else {
        Seq::empty()
    };
    info.audio_codec@ + layout + bitrate + rate
}

/// Two parts with a dot between them, or the one that says anything.
pub open spec fn dotted(a: Seq<char>, b: Seq<char>) -> Seq<char> {
    if a.len() == 0 {
        b
    } else if b.len() == 0 {
        a
    } else {
        a + " · "@ + b
    }
}

/// What is known of the media, in one line.
pub open spec fn summary(player: Myvid) -> Seq<char> {
    let size = if player.info.width > 0 {
        size_part(player)
    } else {
        Seq::empty()
    };
    dotted(dotted(size, player.info.video_codec@), sound_part(player))
}

/// Append a part, with a dot in front where there is anything before it.
fn push_dotted(out: &mut String, part: &str)
    ensures
        final(out)@ == dotted(old(out)@, part@),
{
    let ghost before = out@;
    if part.is_empty() {
        return;
    }
    if !out.as_str().is_empty() {
        out.append(" · ");
    }
    out.append(part);
    proof {
        if before.len() == 0 {
            assert(out@ =~= part@);
        }
    }
}

/// A number of thousands with a unit behind it.
fn push_thousands(out: &mut String, n: u32, unit: &str)
    ensures
        final(out)@ == old(out)@ + (if n > 0 {
            " "@ + text::decimal((n / 1000) as nat) + unit@
        } else {
            Seq::empty()
        }),
{
    let ghost before = out@;
    if n > 0 {
        out.append(" ");
        push_decimal(out, (n / 1000) as u128);
        out.append(unit);
        proof {
            assert(out@ =~= before + (" "@ + text::decimal((n / 1000) as nat) + unit@));
        }
    } else {
        proof {
            assert(out@ =~= before + Seq::<char>::empty());
        }
    }
}

/// A speed as it reads: `1.25x`, `2x`.
pub open spec fn rate_words(rate: u32) -> Seq<char> {
    let whole = text::decimal((rate / 100) as nat);
    let tenth = text::digit((rate / 10 % 10) as int);
    let hundredth = text::digit((rate % 10) as int);
    if rate % 100 == 0 {
        whole + "x"@
    } else if rate % 10 == 0 {
        whole + seq!['.', tenth] + "x"@
    } else {
        whole + seq!['.', tenth, hundredth] + "x"@
    }
}

/// A speed as it reads: `1.25x`, `2x`.
pub fn rate_label(rate: u32) -> (r: String)
    ensures
        r@ == rate_words(rate),
{
    let mut r: String = String::new();
    push_decimal(&mut r, (rate / 100) as u128);
    if rate % 100 != 0 {
        r.push('.');
        push_decimal(&mut r, (rate / 10 % 10) as u128);
        if rate % 10 != 0 {
            push_decimal(&mut r, (rate % 10) as u128);
        }
    }
    r.append("x");
    proof {
        assert(r@ =~= rate_words(rate));
    }
    r
}

/// A whole number of percent.
pub open spec fn percent_words(n: nat) -> Seq<char> {
    text::decimal(n) + "%"@
}

/// A whole number of percent.
pub fn percent_label(n: u32) -> (r: String)
    ensures
        r@ == percent_words(n as nat),
{
    let mut r: String = String::new();
    push_decimal(&mut r, n as u128);
    r.append("%");
    proof {
        assert(r@ =~= percent_words(n as nat));
    }
    r
}

/// A time as the clock shows it.
pub open spec fn clock_of(d: Duration) -> Seq<char> {
    time::clock((d.nanos / time::SECOND) as nat)
}

/// How far along playback is, out of [`PARTS`].
pub open spec fn played_parts(position: int, total: int) -> int {
    if total == 0 {
        0
    } else if position >= total {
        PARTS as int
    } else {
        position * PARTS / total
    }
}

/// How far along playback is, out of [`PARTS`].
fn played(position: Duration, total: Duration) -> (r: u32)
    ensures
        r == played_parts(position.nanos as int, total.nanos as int),
        r <= PARTS,
{
    if total.nanos == 0 {
        return 0;
    }
    if position.nanos >= total.nanos {
        return PARTS;
    }
    // Multiplying first could overflow, so the digits of the quotient come one at a
    // time.
    let t: u128 = total.nanos;
    let mut rest: u128 = position.nanos;
    let mut parts: u32 = 0;
    let mut step: u32 = 1;
    proof {
        let n = rest as int;
        assert(n / t as int == 0) by (nonlinear_arith)
            requires
                0 <= n < t,
        ;
    }
    while step < PARTS
        invariant
            rest < t,
            t == total.nanos,
            step == 1 || step == 10 || step == 100 || step == 1_000 || step == 10_000 || step
                == 100_000 || step == 1_000_000 || step == 10_000_000 || step == 100_000_000
                || step == PARTS,
            parts < step,
            position.nanos * step == parts * t + rest,
        decreases PARTS - step,
    {
        let mut digit: u32 = 0;
        let mut left: u128 = 0;
        let mut added: u32 = 0;
        let ghost before = rest as int;
        while added < 10
            invariant
                added <= 10,
                digit <= added,
                left < t,
                rest < t,
                rest == before,
                added * before == digit * t + left,
            decreases 10 - added,
        {
            proof {
                assert((added + 1) * before == added * before + before) by (nonlinear_arith);
                assert((digit + 1) * t == digit * t + t) by (nonlinear_arith);
            }
            if left >= t - rest {
                left = left - (t - rest);
                digit = digit + 1;
            } else {
                left = left + rest;
            }
            added = added + 1;
        }
        proof {
            let p = position.nanos as int;
            let s = step as int;
            let q = parts as int;
            let d = digit as int;
            let l = left as int;
            let tt = t as int;
            assert(d <= 9) by (nonlinear_arith)
                requires
                    10 * before == d * tt + l,
                    0 <= before < tt,
                    0 <= l,
            ;
            assert(p * (s * 10) == (q * 10 + d) * tt + l) by (nonlinear_arith)
                requires
                    p * s == q * tt + before,
                    10 * before == d * tt + l,
            ;
        }
        parts = parts * 10 + digit;
        rest = left;
        step = step * 10;
    }
    proof {
        let n = position.nanos * PARTS;
        let q = parts as int;
        let r0 = rest as int;
        let tt = t as int;
        assert(n / tt == q) by (nonlinear_arith)
            requires
                n == q * tt + r0,
                0 <= r0 < tt,
        ;
    }
    parts
}

/// A button with an icon: what it shows, and what pressing it says.
#[derive(Debug, PartialEq, Eq)]
pub struct Control {
    pub glyph: Glyph,
    pub message: Message,
}

/// The control bar: what its controls show, and what they say.
#[derive(Debug, PartialEq, Eq)]
pub struct ControlBar {
    /// How far along the scrub bar the handle is, out of [`PARTS`].
    pub fraction: u32,
    pub back: Control,
    pub play: Control,
    pub forward: Control,
    pub speaker: Control,
    /// Where the volume handle is, in percent.
    pub volume: u32,
    /// Only worth saying once it is past what the file itself provides.
    pub volume_label: String,
    pub clock: String,
    /// Nothing at normal speed.
    pub rate_label: String,
    pub accelerator: &'static str,
    pub clip: Control,
    pub tracks: Control,
    pub screen: Control,
}

impl ControlBar {
    /// What dragging the handle of the scrub bar to a place says.
    pub fn scrubbed(parts: u32) -> (r: Message)
        ensures
            r == Message::SeekFraction(parts),
    {
        Message::SeekFraction(parts)
    }

    /// What dragging the volume handle to a percentage says.
    pub fn turned(percent: u32) -> (r: Message)
        ensures
            r == Message::SetVolume(percent as i64),
    {
        Message::SetVolume(percent as i64)
    }
}

/// Whether a control bar is the one that shows a player.
pub open spec fn shows(bar: ControlBar, player: Myvid) -> bool {
    let total = match player.duration {
        Some(total) => total,
        None => Duration { nanos: 0 },
    };
    let loud = !player.muted && player.volume > FULL_VOLUME;
    &&& bar.fraction == played_parts(player.position.nanos as int, total.nanos as int)
    &&& bar.back == (Control { glyph: Glyph::Back10, message: Message::Skip((-ui::SKIP) as i64) })
    &&& bar.play == (Control {
        glyph: if player.state == crate::engine::State::Playing {
            Glyph::Pause
        } else {
            Glyph::Play
        },
        message: Message::TogglePlay,
    })
    &&& bar.forward == (Control { glyph: Glyph::Forward10, message: Message::Skip(ui::SKIP) })
    &&& bar.speaker == (Control {
        glyph: if player.muted {
            Glyph::Mute
        } else {
            Glyph::Volume
        },
        message: Message::ToggleMute,
    })
    &&& bar.volume == (if player.muted {
        0
    } else {
        player.volume
    })
    &&& bar.volume_label@ == (if loud {
        percent_words(player.volume as nat)
    } else {
        Seq::empty()
    })
    &&& bar.clock@ == clock_of(player.position) + " / "@ + clock_of(total)
    &&& bar.rate_label@ == (if player.rate == NORMAL_RATE {
        Seq::empty()
    } else {
        rate_words(player.rate)
    })
    &&& bar.accelerator@ == accelerator_words(player.info.hardware)
    &&& bar.clip == (Control { glyph: Glyph::Scissors, message: Message::MarkIn })
    &&& bar.tracks == (Control { glyph: Glyph::Sliders, message: Message::TogglePanel })
    &&& bar.screen == (Control {
        glyph: if player.fullscreen {
            Glyph::ExitFullscreen
        } else {
            Glyph::Fullscreen
        },
        message: Message::ToggleFullscreen,
    })
}

/// What decodes.
pub open spec fn accelerator_words(hardware: bool) -> Seq<char> {
    if hardware {
        "GPU decode"@
    } else {
        "CPU decode"@
    }
}

impl Myvid {
    /// What the window's title bar says.
    pub fn title(&self) -> (r: String)
        ensures
            r@ == window_title(*self),
    {
        if self.info.title.as_str().is_empty() {
            match &self.source {
                Some(uri) => {
                    let mut r: String = short_name(uri.as_str());
                    r.append(" — myvid");
                    r
                },
                None => "myvid".to_owned(),
            }
        } else {
            let mut r: String = self.info.title.clone();
            r.append(" — myvid");
            r
        }
    }

    /// What is playing, in the player's own title bar.
    pub fn source_name(&self) -> (r: String)
        ensures
            r@ == (match self.source {
                Some(uri) => short(uri@),
                None => "—"@,
            }),
    {
        match &self.source {
            Some(uri) => short_name(uri.as_str()),
            None => "—".to_owned(),
        }
    }

    /// What is known of the media, in one line.
    pub fn format_summary(&self) -> (r: String)
        ensures
            r@ == summary(*self),
    {
        let mut r: String = String::new();
        if self.info.width > 0 {
            push_decimal(&mut r, self.info.width as u128);
            r.append("×");
            push_decimal(&mut r, self.info.height as u128);
            proof {
                assert(r@ =~= size_part(*self));
            }
        }
        push_dotted(&mut r, self.info.video_codec.as_str());
        let mut audio: String = self.info.audio_codec.clone();
        if self.info.audio_channels > 0 {
            if !audio.as_str().is_empty() {
                audio.push(' ');
            }
            audio.append(channel_layout(self.info.audio_channels as i64).as_str());
        }
        push_thousands(&mut audio, self.info.audio_bitrate, " kb/s");
        push_thousands(&mut audio, self.info.audio_rate, " kHz");
        proof {
            assert(audio@ =~= sound_part(*self));
        }
        push_dotted(&mut r, audio.as_str());
        r
    }

    pub fn accelerator_label(&self) -> (r: &'static str)
        ensures
            r@ == accelerator_words(self.info.hardware),
    {
        if self.info.hardware {
            "GPU decode"
        } else {
            "CPU decode"
        }
    }

    /// What the control bar shows.
    pub fn control_bar(&self) -> (r: ControlBar)
        ensures
            shows(r, *self),
    {
        let total: Duration = match self.duration {
            Some(total) => total,
            None => Duration::zero(),
        };
        let mut clock: String = format_time(self.position);
        clock.append(" / ");
        clock.append(format_time(total).as_str());
        ControlBar {
            fraction: played(self.position, total),
            back: Control { glyph: Glyph::Back10, message: Message::Skip(-SKIP) },
            play: Control {
                glyph: if self.state.is_playing() {
                    Glyph::Pause
                } else {
                    Glyph::Play
                },
                message: Message::TogglePlay,
            },
            forward: Control { glyph: Glyph::Forward10, message: Message::Skip(SKIP) },
            speaker: Control {
                glyph: if self.muted {
                    Glyph::Mute
                } else {
                    Glyph::Volume
                },
                message: Message::ToggleMute,
            },
            volume: if self.muted {
                0
            } else {
                self.volume
            },
            volume_label: if !self.muted && self.volume > FULL_VOLUME {
                percent_label(self.volume)
            } else {
                String::new()
            },
            clock,
            rate_label: if self.rate == NORMAL_RATE {
                String::new()
            } else {
                rate_label(self.rate)
            },
            accelerator: self.accelerator_label(),
            clip: Control { glyph: Glyph::Scissors, message: Message::MarkIn },
            tracks: Control { glyph: Glyph::Sliders, message: Message::TogglePanel },
            screen: Control {
                glyph: if self.fullscreen {
                    Glyph::ExitFullscreen
                } else {
                    Glyph::Fullscreen
                },
                message: Message::ToggleFullscreen,
            },
        }
    }
}

/// One line of a list: what it is, what it is made of, whether it is the live one, and
/// what choosing it does.
#[derive(Debug, PartialEq, Eq)]
pub struct Row {
    pub label: String,
    pub detail: String,
    pub selected: bool,
    pub message: Message,
}

/// One speed to choose.
#[derive(Debug, PartialEq, Eq)]
pub struct Chip {
    pub label: String,
    pub selected: bool,
    pub rate: u32,
}

/// Tracks, speed and sound, floating over the picture.
#[derive(Debug, PartialEq, Eq)]
pub struct Panel {
    pub speeds: Vec<Chip>,
    /// Not shown where there are none.
    pub audio: Vec<Row>,
    /// Not shown where there are none.
    pub subtitles: Vec<Row>,
    pub sound: Vec<Row>,
    pub resolution: String,
    pub decoder: &'static str,
}

/// The line for a track.
pub open spec fn track_row(track: Track) -> Row {
    Row {
        label: track.label,
        detail: track.detail,
        selected: track.selected,
        message: Message::SelectTrack(track.kind, Some(track.id)),
    }
}

/// The tracks of a kind, in order.
pub open spec fn of_kind(tracks: Seq<Track>, kind: TrackKind) -> Seq<Track> {
    tracks.filter(|track: Track| track.kind == kind)
}

/// The lines for the tracks of a kind, in order.
pub open spec fn track_rows(tracks: Seq<Track>, kind: TrackKind) -> Seq<Row> {
    of_kind(tracks, kind).map_values(|track: Track| track_row(track))
}

/// Whether any of some tracks is live.
pub open spec fn any_selected(tracks: Seq<Track>) -> bool {
    exists|i: int| 0 <= i < tracks.len() && (#[trigger] tracks[i]).selected
}

fn rows_of(tracks: &Vec<Track>, kind: TrackKind) -> (r: Vec<Row>)
    ensures
        r@ == track_rows(tracks@, kind),
{
    let mut r: Vec<Row> = Vec::new();
    let mut i: usize = 0;
    proof {
        reveal(Seq::filter);
        assert(of_kind(tracks@.take(0), kind) =~= Seq::empty());
    }
    while i < tracks.len()
        invariant
            i <= tracks@.len(),
            r@ =~= track_rows(tracks@.take(i as int), kind),
        decreases tracks@.len() - i,
    {
        let track: &Track = &tracks[i];
        proof {
            reveal(Seq::filter);
            let next = tracks@.take(i + 1);
            assert(next.drop_last() =~= tracks@.take(i as int));
            assert(next.last() == *track);
        }
        if track.kind == kind {
            r.push(
                Row {
                    label: track.label.clone(),
                    detail: track.detail.clone(),
                    selected: track.selected,
                    message: Message::SelectTrack(track.kind, Some(track.id.clone())),
                },
            );
        }
        i += 1;
    }
    proof {
        assert(tracks@.take(i as int) =~= tracks@);
    }
    r
}

/// Whether any line is marked as live.
fn any_live(rows: &Vec<Row>) -> (r: bool)
    ensures
        r == exists|i: int| 0 <= i < rows@.len() && (#[trigger] rows@[i]).selected,
{
    let mut i: usize = 0;
    while i < rows.len()
        invariant
            i <= rows@.len(),
            forall|k: int| 0 <= k < i ==> !(#[trigger] rows@[k]).selected,
        decreases rows@.len() - i,
    {
        if rows[i].selected {
            return true;
        }
        i += 1;
    }
    false
}

/// Whether a line reads so.
pub open spec fn reads(
    row: Row,
    label: Seq<char>,
    detail: Seq<char>,
    selected: bool,
    message: Message,
) -> bool {
    row.label@ == label && row.detail@ == detail && row.selected == selected && row.message
        == message
}

/// Whether the lines for subtitles are those for some tracks: none where there is no
/// subtitle track, otherwise one to turn them off, live where no track is, and one for
/// each.
pub open spec fn subtitle_lines(rows: Seq<Row>, tracks: Seq<Track>) -> bool {
    let text = of_kind(tracks, TrackKind::Text);
    if text.len() == 0 {
        rows.len() == 0
    } else {
        &&& rows.len() == 1 + text.len()
        &&& reads(
            rows[0],
            "Off"@,
            Seq::empty(),
            !any_selected(text),
            Message::SelectTrack(TrackKind::Text, None),
        )
        &&& rows.skip(1) == track_rows(tracks, TrackKind::Text)
    }
}

/// Whether the lines for sound are those for the effects in force: each says what it
/// does, and choosing it turns it the other way.
pub open spec fn sound_lines(rows: Seq<Row>, effects: AudioEffects) -> bool {
    &&& rows.len() == 2
    &&& reads(
        rows[0],
        "Clear dialogue"@,
        "Lifts voices in 5.1 and 7.1 tracks"@,
        effects.dialogue,
        Message::SetAudioEffects(AudioEffects { dialogue: !effects.dialogue, ..effects }),
    )
    &&& reads(
        rows[1],
        "Night mode"@,
        "Quiet scenes up, loud scenes down"@,
        effects.night,
        Message::SetAudioEffects(AudioEffects { night: !effects.night, ..effects }),
    )
}

/// Whether a panel is the one that shows a player.
pub open spec fn panel_shows(panel: Panel, player: Myvid) -> bool {
    &&& panel.speeds@.len() == RATES
    &&& forall|k: int|
        0 <= k < RATES ==> {
            let chip = #[trigger] panel.speeds@[k];
            &&& chip.rate == ui::rates()[k]
            &&& chip.label@ == rate_words(chip.rate)
            &&& chip.selected == (player.rate == chip.rate)
        }
    &&& panel.audio@ == track_rows(player.tracks@, TrackKind::Audio)
    &&& subtitle_lines(panel.subtitles@, player.tracks@)
    &&& sound_lines(panel.sound@, player.effects)
    &&& panel.resolution@ == text::decimal(player.info.width as nat) + "x"@ + text::decimal(
        player.info.height as nat,
    )
    &&& panel.decoder@ == (if player.info.hardware {
        "hardware"@
    } else {
        "software"@
    })
}

/// The strip for marking and writing clips.
#[derive(Debug, PartialEq, Eq)]
pub struct ClipBar {
    /// A dash where there is no in point yet.
    pub start: String,
    /// A dash where there is no out point yet.
    pub end: String,
    /// A dash until there are both.
    pub length: String,
    pub formats: Vec<Format>,
    pub status: Status,
    /// Whether a clip can be written now.
    pub can_export: bool,
}

/// One container to choose.
#[derive(Debug, PartialEq, Eq)]
pub struct Format {
    pub label: String,
    pub selected: bool,
    pub container: Container,
}

/// How an export stands.
#[derive(Debug, PartialEq, Eq)]
pub enum Status {
    Quiet,
    Exporting(String),
    Saved(String),
    Failed,
}

/// A time, or a dash.
pub open spec fn clock_or_dash(d: Option<Duration>) -> Seq<char> {
    match d {
        Some(d) => clock_of(d),
        None => "—"@,
    }
}

fn time_or_dash(d: Option<Duration>) -> (r: String)
    ensures
        r@ == clock_or_dash(d),
{
    match d {
        Some(d) => format_time(d),
        None => "—".to_owned(),
    }
}

/// How many of [`PARTS`] one percent is.
pub const PERCENT: u32 = 10_000_000;

/// A share of the whole in percent, rounded to the nearest, and halves to the even one.
pub open spec fn rounded_percent(parts: int) -> nat {
    let whole = parts / PERCENT as int;
    let rest = parts % PERCENT as int;
    if 2 * rest > PERCENT || (2 * rest == PERCENT && whole % 2 == 1) {
        (whole + 1) as nat
    } else {
        whole as nat
    }
}

/// Whether a status is the one that shows an export.
pub open spec fn status_shows(status: Status, export: Option<Export>) -> bool {
    match export {
        None => status == Status::Quiet,
        Some(Export::Progress(parts)) => status matches Status::Exporting(words) && words@
            == "Exporting "@ + percent_words(rounded_percent(parts as int)),
        Some(Export::Done(path)) => status matches Status::Saved(words) && words@ == "Saved "@
            + clip::saved_as(path@),
        Some(Export::Failed(_)) => status == Status::Failed,
    }
}

/// Whether the containers to choose are shown, with one of them chosen.
pub open spec fn formats_show(formats: Seq<Format>, chosen: Container) -> bool {
    &&& formats.len() == 2
    &&& formats[0].container == Container::Matroska
    &&& formats[1].container == Container::Mp4
    &&& forall|i: int|
        0 <= i < 2 ==> {
            let format = #[trigger] formats[i];
            &&& format.label@ == format.container.spec_label() + " copy"@
            &&& format.selected == (chosen == format.container)
        }
}

/// Whether a clip strip is the one that shows a player, in which a clip is being marked.
pub open spec fn clip_shows(bar: ClipBar, player: Myvid) -> bool {
    let length = match (player.clip_in, player.clip_out) {
        (Some(start), Some(end)) => Some(
            Duration {
                nanos: if end.nanos > start.nanos {
                    (end.nanos - start.nanos) as u128
                } else {
                    0
                },
            },
        ),
        _ => None,
    };
    &&& bar.start@ == clock_or_dash(player.clip_in)
    &&& bar.end@ == clock_or_dash(player.clip_out)
    &&& bar.length@ == clock_or_dash(length)
    &&& formats_show(bar.formats@, player.container)
    &&& status_shows(bar.status, player.export)
    &&& bar.can_export == (player.clip_in is Some && player.clip_out is Some && !(
    player.export matches Some(Export::Progress(_))))
}

fn format_chip(container: Container, chosen: Container) -> (r: Format)
    ensures
        r.container == container,
        r.label@ == container.spec_label() + " copy"@,
        r.selected == (chosen == container),
{
    let mut label: String = container.label().to_owned();
    label.append(" copy");
    Format { label, selected: chosen == container, container }
}

fn export_status(export: &Option<Export>) -> (r: Status)
    ensures
        status_shows(r, *export),
{
    match export {
        None => Status::Quiet,
        Some(Export::Progress(parts)) => {
            let mut words: String = "Exporting ".to_owned();
            let whole: u32 = *parts / PERCENT;
            let rest: u32 = *parts % PERCENT;
            let percent: u32 = if 2 * rest > PERCENT || (2 * rest == PERCENT && whole % 2 == 1) {
                whole + 1
            } else {
                whole
            };
            words.append(percent_label(percent).as_str());
            Status::Exporting(words)
        },
        Some(Export::Done(path)) => {
            let mut words: String = "Saved ".to_owned();
            words.append(saved_name(path.as_str()).as_str());
            Status::Saved(words)
        },
        Some(Export::Failed(_)) => Status::Failed,
    }
}

/// The layers of the window, from the bottom up.
#[derive(Debug, Clone, Copy, PartialEq, Eq, Structural)]
pub enum Layer {
    /// The picture.
    Stage,
    /// The screen to open something from.
    Empty,
    /// Feedback while a file is dragged over a window that is already playing.
    Drop,
    Chrome,
    Panel,
    Subtitle,
    Buffering,
    Error,
    UrlPrompt,
}

/// A layer, where it is shown.
pub open spec fn shown(show: bool, layer: Layer) -> Seq<Layer> {
    if show {
        seq![layer]
    } else {
        Seq::empty()
    }
}

fn push_layer(layers: &mut Vec<Layer>, show: bool, layer: Layer)
    ensures
        final(layers)@ == old(layers)@ + shown(show, layer),
{
    let ghost before = layers@;
    if show {
        layers.push(layer);
    }
    proof {
        assert(layers@ =~= before + shown(show, layer));
    }
}

/// The layers that are shown, from the bottom up.
pub open spec fn layers(player: Myvid) -> Seq<Layer> {
    let open = player.source is Some;
    seq![Layer::Stage] + shown(!open, Layer::Empty) + shown(open && player.hovering, Layer::Drop)
        + shown(open && !player.hovering && player.chrome, Layer::Chrome) + shown(
        open && player.panel,
        Layer::Panel,
    ) + shown(player.subtitle is Some, Layer::Subtitle) + shown(
        player.buffering is Some,
        Layer::Buffering,
    ) + shown(player.error is Some, Layer::Error) + shown(
        player.url_prompt is Some,
        Layer::UrlPrompt,
    )
}

/// How far above the bottom edge cues sit.
pub const CUE_ABOVE_CHROME: u16 = 190;

/// How far above the bottom edge cues sit where there is no chrome.
pub const CUE_WITHOUT_CHROME: u16 = 64;

impl Myvid {
    /// The layers that are shown, from the bottom up.
    pub fn view(&self) -> (r: Vec<Layer>)
        ensures
            r@ == layers(*self),
    {
        let open: bool = self.source.is_some();
        let mut r: Vec<Layer> = Vec::new();
        r.push(Layer::Stage);
        proof {
            assert(r@ =~= seq![Layer::Stage]);
        }
        push_layer(&mut r, !open, Layer::Empty);
        push_layer(&mut r, open && self.hovering, Layer::Drop);
        push_layer(&mut r, open && !self.hovering && self.chrome, Layer::Chrome);
        push_layer(&mut r, open && self.panel, Layer::Panel);
        push_layer(&mut r, self.subtitle.is_some(), Layer::Subtitle);
        push_layer(&mut r, self.buffering.is_some(), Layer::Buffering);
        push_layer(&mut r, self.error.is_some(), Layer::Error);
        push_layer(&mut r, self.url_prompt.is_some(), Layer::UrlPrompt);
        r
    }

    /// How far above the bottom edge cues sit: above the control bar when it is up,
    /// and in the space it vacates when it is not.
    pub fn cue_bottom(&self) -> (r: u16)
        ensures
            r == (if self.chrome {
                CUE_ABOVE_CHROME
            } else {
                CUE_WITHOUT_CHROME
            }),
            self.chrome ==> r == 190,
            !self.chrome ==> r == 64,
    {
        if self.chrome {
            CUE_ABOVE_CHROME
        } else {
            CUE_WITHOUT_CHROME
        }
    }

    /// What the opening screen asks for.
    pub fn drop_prompt(&self) -> (r: &'static str)
        ensures
            r@ == (if self.hovering {
                "Drop to play"@
            } else {
                "Drop a video here"@
            }),
    {
        if self.hovering {
            "Drop to play"
        } else {
            "Drop a video here"
        }
    }

    fn speed_chips(&self) -> (r: Vec<Chip>)
        ensures
            r@.len() == RATES,
            forall|k: int|
                0 <= k < RATES ==> {
                    let chip = #[trigger] r@[k];
                    &&& chip.rate == ui::rates()[k]
                    &&& chip.label@ == rate_words(chip.rate)
                    &&& chip.selected == (self.rate == chip.rate)
                },
    {
        let mut r: Vec<Chip> = Vec::new();
        let mut i: usize = 0;
        while i < RATES
            invariant
                i <= RATES,
                r@.len() == i,
                forall|k: int|
                    0 <= k < i ==> {
                        let chip = #[trigger] r@[k];
                        &&& chip.rate == ui::rates()[k]
                        &&& chip.label@ == rate_words(chip.rate)
                        &&& chip.selected == (self.rate == chip.rate)
                    },
            decreases RATES - i,
        {
            let rate: u32 = rate_at(i);
            r.push(Chip { label: rate_label(rate), selected: self.rate == rate, rate });
            i += 1;
        }
        r
    }

    fn subtitle_rows(&self) -> (r: Vec<Row>)
        ensures
            subtitle_lines(r@, self.tracks@),
    {
        let mut rows: Vec<Row> = rows_of(&self.tracks, TrackKind::Text);
        let mut r: Vec<Row> = Vec::new();
        let ghost text = of_kind(self.tracks@, TrackKind::Text);
        let ghost listed = rows@;
        if rows.len() > 0 {
            let live: bool = any_live(&rows);
            proof {
                assert(live == any_selected(text)) by {
                    if live {
                        let i = choose|i: int|
                            0 <= i < rows@.len() && (#[trigger] rows@[i]).selected;
                        assert(text[i].selected);
                    }
                    if any_selected(text) {
                        let i = choose|i: int|
                            0 <= i < text.len() && (#[trigger] text[i]).selected;
                        assert(rows@[i].selected);
                    }
                }
            }
            r.push(
                Row {
                    label: "Off".to_owned(),
                    detail: String::new(),
                    selected: !live,
                    message: Message::SelectTrack(TrackKind::Text, None),
                },
            );
            r.append(&mut rows);
            proof {
                assert(r@.skip(1) =~= listed);
                assert(r@[0].detail@ =~= Seq::<char>::empty());
            }
        }
        r
    }

    fn sound_rows(&self) -> (r: Vec<Row>)
        ensures
            sound_lines(r@, self.effects),
    {
        let mut r: Vec<Row> = Vec::new();
        r.push(
            Row {
                label: "Clear dialogue".to_owned(),
                // Stereo has no centre channel to lift, and guessing one from the mix
                // colours the music as much as the voices.
                detail: "Lifts voices in 5.1 and 7.1 tracks".to_owned(),
                selected: self.effects.dialogue,
                message: Message::SetAudioEffects(
                    AudioEffects { dialogue: !self.effects.dialogue, night: self.effects.night },
                ),
            },
        );
        r.push(
            Row {
                label: "Night mode".to_owned(),
                detail: "Quiet scenes up, loud scenes down".to_owned(),
                selected: self.effects.night,
                message: Message::SetAudioEffects(
                    AudioEffects { dialogue: self.effects.dialogue, night: !self.effects.night },
                ),
            },
        );
        r
    }

    /// What the panel shows.
    pub fn panel_layer(&self) -> (r: Panel)
        ensures
            panel_shows(r, *self),
    {
        let mut resolution: String = String::new();
        push_decimal(&mut resolution, self.info.width as u128);
        resolution.append("x");
        push_decimal(&mut resolution, self.info.height as u128);
        proof {
            assert(resolution@ =~= text::decimal(self.info.width as nat) + "x"@ + text::decimal(
                self.info.height as nat,
            ));
        }
        Panel {
            speeds: self.speed_chips(),
            audio: rows_of(&self.tracks, TrackKind::Audio),
            subtitles: self.subtitle_rows(),
            sound: self.sound_rows(),
            resolution,
            decoder: if self.info.hardware {
                "hardware"
            } else {
                "software"
            },
        }
    }

    /// The clip strip, shown only once an in or out point exists.
    pub fn clip_bar(&self) -> (r: Option<ClipBar>)
        ensures
            r is Some <==> self.clip_in is Some || self.clip_out is Some,
            r matches Some(bar) ==> clip_shows(bar, *self),
    {
        if self.clip_in.is_none() && self.clip_out.is_none() {
            return None;
        }
        let length: Option<Duration> = match (self.clip_in, self.clip_out) {
            (Some(start), Some(end)) => Some(end.saturating_sub(start)),
            _ => None,
        };
        let mut formats: Vec<Format> = Vec::new();
        formats.push(format_chip(Container::Matroska, self.container));
        formats.push(format_chip(Container::Mp4, self.container));
        let busy: bool = match &self.export {
            Some(Export::Progress(_)) => true,
            _ => false,
        };
        Some(
            ClipBar {
                start: time_or_dash(self.clip_in),
                end: time_or_dash(self.clip_out),
                length: time_or_dash(length),
                formats,
                status: export_status(&self.export),
                can_export: self.clip_in.is_some() && self.clip_out.is_some() && !busy,
            },
        )
    }
}

} // verus!
