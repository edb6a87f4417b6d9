//! Copying a range of a file into a new container without re-encoding.
//!
//! The work is done by `ffmpeg`: a lossless cut needs a flushing seek, which cannot
//! pass through a muxer in a playback pipeline. What is decided here is what to ask
//! it for, how far it has got, and what to say when it fails.

use vstd::prelude::*;

use crate::engine::time;
use crate::engine::{ClipRequest, Container, Duration, Event, Export, PARTS};
use crate::text;
use crate::text::{chars, span, starts_with, trim, trim_chars, utf8_lossy};

verus! {

/// Why a clip export does not start.
#[derive(Debug, Clone, Copy, PartialEq, Eq, Structural)]
pub enum ExportRefusal {
    NothingOpen,
    AlreadyRunning,
}

impl ExportRefusal {
    /// The refusal, in words.
    pub open spec fn spec_message(self) -> Seq<char> {
        match self {
            ExportRefusal::NothingOpen => "nothing is open"@,
            ExportRefusal::AlreadyRunning => "an export is already running"@,
        }
    }

    pub fn message(self) -> (r: String)
        ensures
            r@ == self.spec_message(),
    {
        match self {
            ExportRefusal::NothingOpen => "nothing is open".to_owned(),
            ExportRefusal::AlreadyRunning => "an export is already running".to_owned(),
        }
    }
}

/// Whether an export of what is open may start.
pub open spec fn admitted(source: Option<String>, exporting: bool) -> Result<
    String,
    ExportRefusal,
> {
    match source {
        None => Err(ExportRefusal::NothingOpen),
        Some(uri) => if exporting {
            Err(ExportRefusal::AlreadyRunning)
        } else {
            Ok(uri)
        },
    }
}

/// Start an export of what is open, unless one is running. On success it is running,
/// and the source is returned.
pub fn begin_export(source: &Option<String>, exporting: &mut bool) -> (r: Result<
    String,
    ExportRefusal,
>)
    ensures
        r == admitted(*source, *old(exporting)),
        *final(exporting) == (*old(exporting) || r is Ok),
{
    match source {
        None => Err(ExportRefusal::NothingOpen),
        Some(uri) => {
            if *exporting {
                return Err(ExportRefusal::AlreadyRunning);
            }
            *exporting = true;
            Ok(uri.clone())
        },
    }
}

/// An export has ended: with the clip at a path, or with a failure. Another may
/// start.
pub fn finish_export(exporting: &mut bool, result: Result<String, String>) -> (r: Event)
    ensures
        !*final(exporting),
        r == Event::Export(
            match result {
                Ok(output) => Export::Done(output),
                Err(why) => Export::Failed(why),
            },
        ),
{
    *exporting = false;
    match result {
        Ok(output) => Event::Export(Export::Done(output)),
        Err(why) => Event::Export(Export::Failed(why)),
    }
}

/// How many decimals a time has that `ffmpeg` is given.
pub const DECIMALS: usize = 3;

/// A number of seconds with so many decimals, as `Duration::as_secs_f64` and fixed
/// precision give them for a span of whole seconds and nanoseconds.
pub uninterp spec fn fixed_seconds(secs: u64, nanos: u32, decimals: usize) -> Seq<char>;

/// `Duration::as_secs_f64`, written with a fixed number of decimals. Its result is
/// named, not spelled out: how a span rounds is a matter of the nearest double.
#[verifier::external_body]
fn seconds_text(secs: u64, nanos: u32, decimals: usize) -> (r: String)
    requires
        nanos < 1_000_000_000,
        decimals < 0x1_0000,
    ensures
        r@ == fixed_seconds(secs, nanos, decimals),
{
    format!("{:.1$}", std::time::Duration::new(secs, nanos).as_secs_f64(), decimals)
}

/// A span of time in seconds, as `ffmpeg` is given it.
pub open spec fn in_seconds(d: Duration) -> Seq<char> {
    fixed_seconds((d.nanos / time::SECOND) as u64, (d.nanos % time::SECOND) as u32, DECIMALS)
}

/// A span of time in seconds, as `ffmpeg` is given it.
fn write_seconds(d: Duration) -> (r: String)
    requires
        d.fits(),
    ensures
        r@ == in_seconds(d),
{
    seconds_text((d.nanos / time::SECOND) as u64, (d.nanos % time::SECOND) as u32, DECIMALS)
}

/// The length of a clip.
pub open spec fn clip_span(request: ClipRequest) -> Duration {
    Duration {
        nanos: if request.end.nanos > request.start.nanos {
            (request.end.nanos - request.start.nanos) as u128
        } else {
            0
        },
    }
}

/// Which streams of the source go into a container. Matroska carries anything the
/// source had. MP4 has no home for text subtitles, so it takes only the picture and
/// the sound.
pub open spec fn mapped(container: Container) -> Seq<Seq<char>> {
    match container {
        Container::Matroska => seq!["-map"@, "0"@],
        Container::Mp4 => seq!["-map"@, "0:v?"@, "-map"@, "0:a?"@, "-movflags"@, "+faststart"@],
    }
}

/// The arguments to `ffmpeg`. The seek stands ahead of the input, which is the fast
/// path: it jumps to the keyframe at or before that point rather than decoding its
/// way there.
pub open spec fn arguments(path: Seq<char>, request: ClipRequest) -> Seq<Seq<char>> {
    seq![
        "-hide_banner"@,
        "-loglevel"@,
        "error"@,
        "-y"@,
        "-ss"@,
        in_seconds(request.start),
        "-i"@,
        path,
        "-t"@,
        in_seconds(clip_span(request)),
        "-c"@,
        "copy"@,
    ] + mapped(request.container) + seq![
        "-avoid_negative_ts"@,
        "make_zero"@,
        "-progress"@,
        "pipe:1"@,
        "-nostdin"@,
        request.output@,
    ]
}

/// Add one argument.
fn push_arg(args: &mut Vec<String>, arg: &str)
    ensures
        final(args).deep_view() == old(args).deep_view().push(arg@),
{
    let ghost before = args.deep_view();
    args.push(arg.to_owned());
    proof {
        assert(args.deep_view() =~= before.push(arg@));
    }
}

/// What to start `ffmpeg` with to write a clip of a source, whose local path is known
/// if it has one.
pub fn run_export(uri: &str, path: Option<String>, request: &ClipRequest) -> (r: Result<
    Vec<String>,
    String,
>)
    requires
        request.start.fits(),
        request.end.fits(),
    ensures
        r is Ok <==> path is Some && request.end.nanos > request.start.nanos,
        r matches Ok(args) ==> args.deep_view() == arguments(path->0@, *request),
        r matches Err(why) ==> why@ == (if path is None {
            "clip export needs a local file, not "@ + uri@
        } else {
            "the clip has no length"@
        }),
{
    let path: String = match path {
        Some(path) => path,
        None => {
            let mut why: String = "clip export needs a local file, not ".to_owned();
            why.append(uri);
            return Err(why);
        },
    };
    let span: Duration = request.end.saturating_sub(request.start);
    if span.is_zero() {
        return Err("the clip has no length".to_owned());
    }
    let start: String = write_seconds(request.start);
    let length: String = write_seconds(span);
    let mut args: Vec<String> = Vec::new();
    push_arg(&mut args, "-hide_banner");
    push_arg(&mut args, "-loglevel");
    push_arg(&mut args, "error");
    push_arg(&mut args, "-y");
    push_arg(&mut args, "-ss");
    push_arg(&mut args, start.as_str());
    push_arg(&mut args, "-i");
    push_arg(&mut args, path.as_str());
    push_arg(&mut args, "-t");
    push_arg(&mut args, length.as_str());
    push_arg(&mut args, "-c");
    push_arg(&mut args, "copy");
    match request.container {
        Container::Matroska => {
            push_arg(&mut args, "-map");
            push_arg(&mut args, "0");
        },
        Container::Mp4 => {
            push_arg(&mut args, "-map");
            push_arg(&mut args, "0:v?");
            push_arg(&mut args, "-map");
            push_arg(&mut args, "0:a?");
            push_arg(&mut args, "-movflags");
            push_arg(&mut args, "+faststart");
        },
    }
    push_arg(&mut args, "-avoid_negative_ts");
    push_arg(&mut args, "make_zero");
    push_arg(&mut args, "-progress");
    push_arg(&mut args, "pipe:1");
    push_arg(&mut args, "-nostdin");
    push_arg(&mut args, request.output.as_str());
    proof {
        assert(args.deep_view() =~= arguments(path@, *request));
    }
    Ok(args)
}

/// Why `ffmpeg` did not start.
#[derive(Debug, Clone, PartialEq, Eq)]
pub enum StartFailure {
    NotFound,
    Other(String),
}

impl StartFailure {
    /// The failure, in words.
    pub open spec fn spec_message(&self) -> Seq<char> {
        match self {
            StartFailure::NotFound => "ffmpeg is not installed — run: sudo apt install ffmpeg"@,
            StartFailure::Other(why) => "could not start ffmpeg: "@ + why@,
        }
    }

    pub fn message(&self) -> (r: String)
        ensures
            r@ == self.spec_message(),
    {
        match self {
            StartFailure::NotFound => "ffmpeg is not installed — run: sudo apt install ffmpeg".to_owned(),
            StartFailure::Other(why) => {
                let mut r: String = "could not start ffmpeg: ".to_owned();
                r.append(why.as_str());
                r
            },
        }
    }
}

/// The digits of a number, as the number.
pub open spec fn digits_value(s: Seq<char>) -> Option<nat>
    decreases s.len(),
{
    if s.len() == 0 {
        Some(0)
    } else {
        match digits_value(s.drop_last()) {
            Some(n) if '0' <= s.last() <= '9' => Some((n * 10 + (s.last() as int - 48)) as nat),
            _ => None,
        }
    }
}

/// What a signed number in decimal says, if it is one: digits, at least one, with at
/// most one sign in front.
pub open spec fn number(s: Seq<char>) -> Option<int> {
    if s.len() == 0 {
        None
    } else if s[0] == '-' || s[0] == '+' {
        if s.len() == 1 {
            None
        } else {
            match digits_value(s.drop_first()) {
                Some(n) => Some(
                    if s[0] == '-' {
                        -(n as int)
                    } else {
                        n as int
                    },
                ),
                None => None,
            }
        }
    } else {
        match digits_value(s) {
            Some(n) => Some(n as int),
            None => None,
        }
    }
}

/// Whether a number is one of 64 bits.
pub open spec fn in_range(n: int) -> bool {
    i64::MIN <= n <= i64::MAX
}

/// Digits that are a number past the largest, with more digits behind them, are past
/// it still.
proof fn lemma_value_grows(s: Seq<char>, i: int)
    requires
        0 <= i <= s.len(),
        digits_value(s) is Some,
    ensures
        digits_value(s.take(i)) is Some,
        digits_value(s.take(i))->0 <= digits_value(s)->0,
    decreases s.len() - i,
{
    if i == s.len() {
        assert(s.take(i) =~= s);
    } else {
        lemma_value_grows(s, i + 1);
        assert(s.take(i + 1).drop_last() =~= s.take(i));
    }
}

/// The number that digits from a place on spell, as far as it is not past 2^63.
fn read_digits(v: &Vec<char>, from: usize) -> (r: Option<u64>)
    requires
        from <= v@.len(),
    ensures
        r matches Some(n) ==> digits_value(v@.skip(from as int)) == Some(n as nat) && n
            <= 0x8000_0000_0000_0000,
        r is None ==> match digits_value(v@.skip(from as int)) {
            Some(n) => n > 0x8000_0000_0000_0000,
            None => true,
        },
{
    let ghost s = v@.skip(from as int);
    let mut n: u64 = 0;
    let mut i: usize = from;
    proof {
        assert(s.take(0) =~= Seq::<char>::empty());
    }
    while i < v.len()
        invariant
            from <= i <= v@.len(),
            s == v@.skip(from as int),
            n <= 0x8000_0000_0000_0000,
            digits_value(s.take(i - from)) == Some(n as nat),
        decreases v@.len() - i,
    {
        let c: char = v[i];
        proof {
            assert(s.take(i + 1 - from).drop_last() =~= s.take(i - from));
            assert(s.take(i + 1 - from).last() == c);
            if digits_value(s) is Some {
                lemma_value_grows(s, i + 1 - from);
            }
        }
        if c < '0' || c > '9' {
            return None;
        }
        let next: u128 = n as u128 * 10 + (c as u32 - 48) as u128;
        if next > 0x8000_0000_0000_0000 {
            return None;
        }
        n = next as u64;
        i += 1;
    }
    proof {
        assert(s.take(i - from) =~= s);
    }
    Some(n)
}

/// The signed number that some characters spell, if they spell one of 64 bits.
pub fn parse_i64(v: &Vec<char>) -> (r: Option<i64>)
    ensures
        r == (match number(v@) {
            Some(n) if in_range(n) => Some(n as i64),
            _ => None,
        }),
{
    if v.len() == 0 {
        return None;
    }
    let negative: bool = v[0] == '-';
    let signed: bool = negative || v[0] == '+';
    if signed && v.len() == 1 {
        return None;
    }
    let from: usize = if signed {
        1
    } else {
        0
    };
    proof {
        assert(v@.skip(0) =~= v@);
        assert(v@.skip(1) =~= v@.drop_first());
    }
    match read_digits(v, from) {
        None => None,
        Some(n) => {
            if negative {
                Some((-(n as i128)) as i64)
            } else if n <= 0x7fff_ffff_ffff_ffff {
                Some(n as i64)
            } else {
                None
            }
        },
    }
}

/// How much of a clip is written once so many microseconds of it are, out of
/// [`PARTS`].
pub open spec fn parts_done(micros: int, span: int) -> int {
    if micros <= 0 {
        0
    } else if micros * 1000 >= span {
        PARTS as int
    } else {
        micros * 1000 * PARTS / span
    }
}

/// What a line of progress says: how many microseconds of the clip are written.
pub open spec fn out_time(line: Seq<char>) -> Option<int> {
    if text::begins(line, "out_time_us="@) {
        match number(text::trimmed(line.skip("out_time_us="@.len() as int))) {
            Some(n) if in_range(n) => Some(n),
            _ => None,
        }
    } else {
        None
    }
}

/// Read a line of `ffmpeg`'s progress: `key=value`, where `out_time_us` is how far
/// through the clip the copy has got.
pub fn progress_line(line: &str, span: Duration) -> (r: Option<Export>)
    requires
        span.nanos > 0,
    ensures
        r == (match out_time(line@) {
            Some(micros) => Some(Export::Progress(parts_done(micros, span.nanos as int) as u32)),
            None => None,
        }),
{
    let v: Vec<char> = chars(line);
    if !starts_with(&v, "out_time_us=") {
        return None;
    }
    let key: Vec<char> = chars("out_time_us=");
    let mut rest: Vec<char> = Vec::new();
    let mut i: usize = key.len();
    while i < v.len()
        invariant
            key@.len() <= i <= v@.len(),
            rest@ =~= v@.subrange(key@.len() as int, i as int),
        decreases v@.len() - i,
    {
        rest.push(v[i]);
        i += 1;
    }
    proof {
        assert(rest@ =~= v@.skip(key@.len() as int));
    }
    let value: Vec<char> = chars(trim_chars(&rest).as_str());
    match parse_i64(&value) {
        None => None,
        Some(micros) => Some(Export::Progress(share(micros, span))),
    }
}

/// How much of a span so many microseconds are, out of [`PARTS`].
fn share(micros: i64, span: Duration) -> (r: u32)
    requires
        span.nanos > 0,
    ensures
        r == parts_done(micros as int, span.nanos as int),
        r <= PARTS,
{
    if micros <= 0 {
        return 0;
    }
    let nanos: u128 = micros as u128 * 1000;
    if nanos >= span.nanos {
        return PARTS;
    }
    let total: u128 = span.nanos;
    let whole: u128 = PARTS as u128;
    let parts: u128 = nanos * whole / total;
    proof {
        let n = nanos as int;
        let t = total as int;
        assert(0 <= n * PARTS / t <= PARTS) by (nonlinear_arith)
            requires
                0 <= n < t,
                PARTS == 1_000_000_000,
        ;
    }
    parts as u32
}

/// The progress of an export never runs backwards while the clock does not, and
/// reaches the whole exactly when the clip is.
pub proof fn lemma_progress_grows(a: int, b: int, span: int)
    requires
        a <= b,
        span > 0,
    ensures
        0 <= parts_done(a, span) <= parts_done(b, span) <= PARTS,
        parts_done(b, span) == PARTS <==> b * 1000 >= span,
{
    let x = a * 1000;
    let y = b * 1000;
    if 0 < b && y < span {
        assert(0 <= y * PARTS / span < PARTS) by (nonlinear_arith)
            requires
                0 <= y < span,
                PARTS == 1_000_000_000,
        ;
    }
    if 0 < a && y < span {
        assert(0 <= x * PARTS / span <= y * PARTS / span) by (nonlinear_arith)
            requires
                0 <= x <= y,
                span > 0,
                PARTS == 1_000_000_000,
        ;
    }
    if 0 < a && x < span {
        assert(0 <= x * PARTS / span <= PARTS) by (nonlinear_arith)
            requires
                0 <= x < span,
                PARTS == 1_000_000_000,
        ;
    }
}

/// The last line of a text, if it has any: what stands behind the last line break,
/// not counting one that the text ends with.
pub open spec fn last_line(s: Seq<char>) -> Option<Seq<char>> {
    if s.len() == 0 {
        None
    } else if s.last() == '\n' {
        Some(after_break(s.drop_last()))
    } else {
        Some(after_break(s))
    }
}

/// What stands behind the last line break of a text.
pub open spec fn after_break(s: Seq<char>) -> Seq<char>
    decreases s.len(),
{
    if s.len() == 0 || s.last() == '\n' {
        Seq::empty()
    } else {
        after_break(s.drop_last()).push(s.last())
    }
}

/// What `ffmpeg` had to say about failing: its last line, or that it failed.
pub open spec fn complaint(s: Seq<char>) -> Seq<char> {
    match last_line(s) {
        Some(line) => text::trimmed(line),
        None => "ffmpeg failed"@,
    }
}

/// What a text says about failing.
pub fn last_complaint(said: &str) -> (r: String)
    ensures
        r@ == complaint(said@),
{
    let v: Vec<char> = chars(said);
    if v.len() == 0 {
        return "ffmpeg failed".to_owned();
    }
    let end: usize = if v[v.len() - 1] == '\n' {
        v.len() - 1
    } else {
        v.len()
    };
    let mut from: usize = end;
    proof {
        assert(v@.subrange(end as int, end as int) =~= Seq::<char>::empty());
    }
    while from > 0 && v[from - 1] != '\n'
        invariant
            from <= end <= v@.len(),
            after_break(v@.take(end as int)) == after_break(v@.take(from as int)) + v@.subrange(
                from as int,
                end as int,
            ),
        decreases from,
    {
        proof {
            let part = v@.take(from as int);
            assert(part.drop_last() =~= v@.take(from - 1));
            assert(after_break(part) =~= after_break(v@.take(from - 1)).push(v@[from - 1]));
            assert(after_break(v@.take(from - 1)).push(v@[from - 1]) + v@.subrange(
                from as int,
                end as int,
            ) =~= after_break(v@.take(from - 1)) + v@.subrange(from - 1, end as int));
        }
        from -= 1;
    }
    let line: String = span(&v, from, end);
    proof {
        assert(after_break(v@.take(from as int)) =~= Seq::<char>::empty());
        assert(line@ =~= after_break(v@.take(end as int)));
        if end == v@.len() {
            assert(v@.take(end as int) =~= v@);
        } else {
            assert(v@.take(end as int) =~= v@.drop_last());
        }
    }
    trim(line.as_str())
}

/// What to say once `ffmpeg` has ended: nothing where it succeeded, otherwise what it
/// had to say.
pub fn export_outcome(success: bool, stderr: &[u8]) -> (r: Result<Export, String>)
    ensures
        success ==> r == Ok::<Export, String>(Export::Progress(PARTS)),
        !success ==> (r matches Err(why) && why@ == complaint(text::from_utf8_lossy(stderr@))),
{
    if success {
        Ok(Export::Progress(PARTS))
    } else {
        let said: String = utf8_lossy(stderr);
        Err(last_complaint(said.as_str()))
    }
}

} // verus!
