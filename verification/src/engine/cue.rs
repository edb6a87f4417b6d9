//! Subtitle cues: readable text out of what subtitle formats carry.

use vstd::prelude::*;

use crate::engine::time;
use crate::engine::{Duration, Event};
use crate::text;
use crate::text::{chars, starts_with, trim, trim_chars, utf8_lossy};

verus! {

/// How long a cue that states no duration stays up.
pub const CUE_SECONDS: u64 = 5;

/// How many fields stand ahead of the text in an ASS event line.
pub const EVENT_FIELDS: usize = 9;

/// How many commas a text has.
pub open spec fn commas(s: Seq<char>) -> nat
    decreases s.len(),
{
    if s.len() == 0 {
        0
    } else {
        commas(s.drop_first()) + if s[0] == ',' {
            1nat
        } else {
            0
        }
    }
}

/// What follows the `n`th comma of a text, or nothing where it has fewer.
pub open spec fn after_comma(s: Seq<char>, n: nat) -> Seq<char>
    decreases s.len(),
{
    if n == 0 || s.len() == 0 {
        s
    } else {
        after_comma(
            s.drop_first(),
            if s[0] == ',' {
                (n - 1) as nat
            } else {
                n
            },
        )
    }
}

/// The text of a cue without the event fields ahead of it.
pub open spec fn without_fields(s: Seq<char>) -> Seq<char> {
    if commas(s) >= EVENT_FIELDS {
        after_comma(s, EVENT_FIELDS as nat)
    } else {
        s
    }
}

/// What is left of a text `braces` override blocks and `angles` tags deep, once the
/// markup is gone and `\N` and `\n` are line breaks.
pub open spec fn without_markup(s: Seq<char>, braces: nat, angles: nat) -> Seq<char>
    decreases s.len(),
{
    if s.len() == 0 {
        s
    } else {
        let c = s[0];
        let rest = s.drop_first();
        if c == '{' {
            without_markup(rest, braces + 1, angles)
        } else if c == '}' {
            without_markup(rest, less_one(braces), angles)
        } else if c == '<' {
            without_markup(rest, braces, angles + 1)
        } else if c == '>' {
            without_markup(rest, braces, less_one(angles))
        } else if c == '\\' && braces == 0 && angles == 0 {
            if rest.len() > 0 && (rest[0] == 'N' || rest[0] == 'n') {
                seq!['\n'] + without_markup(rest.drop_first(), braces, angles)
            } else {
                seq![c] + without_markup(rest, braces, angles)
            }
        } else if braces == 0 && angles == 0 {
            seq![c] + without_markup(rest, braces, angles)
        } else {
            without_markup(rest, braces, angles)
        }
    }
}

/// One less, but never below nothing.
pub open spec fn less_one(n: nat) -> nat {
    if n == 0 {
        0
    } else {
        (n - 1) as nat
    }
}

/// The readable text of a cue.
pub open spec fn readable(raw: Seq<char>) -> Seq<char> {
    text::trimmed(without_markup(without_fields(text::trimmed(raw)), 0, 0))
}

/// Where the text after the `n`th comma starts, where there are that many.
fn find_after_comma(v: &Vec<char>, n: usize) -> (r: Option<usize>)
    requires
        n > 0,
    ensures
        r is Some <==> commas(v@) >= n,
        r matches Some(at) ==> at <= v@.len() && v@.skip(at as int) == after_comma(v@, n as nat),
{
    let mut left: usize = n;
    let mut i: usize = 0;
    proof {
        assert(v@.skip(0) =~= v@);
    }
    while i < v.len()
        invariant
            i <= v@.len(),
            0 < left <= n,
            commas(v@) == commas(v@.skip(i as int)) + (n - left),
            after_comma(v@, n as nat) == after_comma(v@.skip(i as int), left as nat),
        decreases v@.len() - i,
    {
        proof {
            assert(v@.skip(i as int).drop_first() =~= v@.skip(i + 1));
        }
        if v[i] == ',' {
            left -= 1;
        }
        i += 1;
        if left == 0 {
            proof {
                assert(after_comma(v@.skip(i as int), 0) == v@.skip(i as int));
            }
            return Some(i);
        }
    }
    None
}

/// Strip the markup that comes with subtitle formats and leave readable text.
///
/// Covers the three things that actually show up: ASS/SSA override blocks in
/// braces, the comma-separated ASS event fields, and the pango/HTML-ish tags
/// SubRip is allowed to carry.
pub fn clean_cue(raw: &str) -> (r: String)
    ensures
        r@ == readable(raw@),
{
    let whole: String = trim(raw);
    let v: Vec<char> = chars(whole.as_str());
    let start: usize = match find_after_comma(&v, EVENT_FIELDS) {
        Some(at) => at,
        None => 0,
    };
    let ghost body = without_fields(v@);
    proof {
        assert(v@.skip(0) =~= v@);
        assert(v@.skip(start as int) == body);
    }

    let mut out: Vec<char> = Vec::new();
    let mut braces: usize = 0;
    let mut angles: usize = 0;
    let mut i: usize = start;
    while i < v.len()
        invariant
            start <= i <= v@.len(),
            braces <= i,
            angles <= i,
            without_markup(body, 0, 0) =~= out@ + without_markup(
                v@.skip(i as int),
                braces as nat,
                angles as nat,
            ),
        decreases v@.len() - i,
    {
        let c: char = v[i];
        proof {
            assert(v@.skip(i as int)[0] == c);
            assert(v@.skip(i as int).drop_first() =~= v@.skip(i + 1));
        }
        i += 1;
        if c == '{' {
            braces += 1;
        } else if c == '}' {
            if braces > 0 {
                braces -= 1;
            }
        } else if c == '<' {
            angles += 1;
        } else if c == '>' {
            if angles > 0 {
                angles -= 1;
            }
        } else if c == '\\' && braces == 0 && angles == 0 {
            // ASS line breaks: \N is hard, \n is soft.
            if i < v.len() && (v[i] == 'N' || v[i] == 'n') {
                proof {
                    assert(v@.skip(i as int).drop_first() =~= v@.skip(i + 1));
                }
                i += 1;
                out.push('\n');
            } else {
                out.push(c);
            }
        } else if braces == 0 && angles == 0 {
            out.push(c);
        }
    }
    proof {
        assert(out@ =~= without_markup(body, 0, 0));
    }
    trim_chars(&out)
}

/// A character that opens or closes markup.
pub open spec fn is_markup(c: char) -> bool {
    c == '{' || c == '}' || c == '<' || c == '>'
}

/// A text without markup.
pub open spec fn markup_free(s: Seq<char>) -> bool {
    forall|i: int| 0 <= i < s.len() ==> !is_markup(#[trigger] s[i])
}

/// No markup survives cleaning: whatever the cue held, its readable text has no
/// brace and no angle bracket in it.
pub proof fn lemma_no_markup_survives(raw: Seq<char>)
    ensures
        markup_free(readable(raw)),
{
    let body = without_fields(text::trimmed(raw));
    lemma_without_markup_is_clean(body, 0, 0);
    let cleaned = without_markup(body, 0, 0);
    text::lemma_trimmed_is_part(cleaned);
    let from = choose|from: int|
        0 <= from && from + text::trimmed(cleaned).len() <= cleaned.len() && text::trimmed(cleaned)
            == #[trigger] cleaned.subrange(from, from + text::trimmed(cleaned).len() as int);
    assert forall|i: int| 0 <= i < readable(raw).len() implies !is_markup(
        #[trigger] readable(raw)[i],
    ) by {
        assert(readable(raw)[i] == cleaned[from + i]);
    }
}

proof fn lemma_without_markup_is_clean(s: Seq<char>, braces: nat, angles: nat)
    ensures
        markup_free(without_markup(s, braces, angles)),
    decreases s.len(),
{
    if s.len() > 0 {
        let c = s[0];
        let rest = s.drop_first();
        if c == '{' {
            lemma_without_markup_is_clean(rest, braces + 1, angles);
        } else if c == '}' {
            lemma_without_markup_is_clean(rest, less_one(braces), angles);
        } else if c == '<' {
            lemma_without_markup_is_clean(rest, braces, angles + 1);
        } else if c == '>' {
            lemma_without_markup_is_clean(rest, braces, less_one(angles));
        } else {
            let whole = without_markup(s, braces, angles);
            let tail = if c == '\\' && braces == 0 && angles == 0 && rest.len() > 0 && (rest[0]
                == 'N' || rest[0] == 'n') {
                rest.drop_first()
            } else {
                rest
            };
            lemma_without_markup_is_clean(tail, braces, angles);
            let cleaned = without_markup(tail, braces, angles);
            assert forall|i: int| 0 <= i < whole.len() implies !is_markup(#[trigger] whole[i]) by {
                if whole.len() == cleaned.len() + 1 && i > 0 {
                    assert(whole[i] == cleaned[i - 1]);
                }
            }
        }
    }
}

/// A text with nothing in it for cleaning to do: no markup, no backslash, and too
/// few commas to be an event line.
pub open spec fn is_plain(s: Seq<char>) -> bool {
    &&& commas(s) < EVENT_FIELDS
    &&& forall|i: int| 0 <= i < s.len() ==> !is_markup(#[trigger] s[i]) && s[i] != '\\'
}

/// Plain text is left as it is, but for the white space around it.
pub proof fn lemma_plain_text_is_kept(raw: Seq<char>)
    requires
        is_plain(text::trimmed(raw)),
    ensures
        readable(raw) == text::trimmed(raw),
{
    lemma_without_markup_keeps_plain(text::trimmed(raw));
    text::lemma_trimmed_twice(raw);
}

/// Cleaning a cleaned cue changes nothing, unless a backslash or a run of commas
/// was left in it.
pub proof fn lemma_cleaning_twice(raw: Seq<char>)
    requires
        forall|i: int| 0 <= i < readable(raw).len() ==> #[trigger] readable(raw)[i] != '\\',
        commas(readable(raw)) < EVENT_FIELDS,
    ensures
        readable(readable(raw)) == readable(raw),
{
    lemma_no_markup_survives(raw);
    let cleaned = without_markup(without_fields(text::trimmed(raw)), 0, 0);
    text::lemma_trimmed_twice(cleaned);
    assert(text::trimmed(readable(raw)) == readable(raw));
    lemma_plain_text_is_kept(readable(raw));
}

proof fn lemma_without_markup_keeps_plain(s: Seq<char>)
    requires
        forall|i: int| 0 <= i < s.len() ==> !is_markup(#[trigger] s[i]) && s[i] != '\\',
    ensures
        without_markup(s, 0, 0) == s,
    decreases s.len(),
{
    if s.len() > 0 {
        let rest = s.drop_first();
        assert forall|i: int| 0 <= i < rest.len() implies !is_markup(#[trigger] rest[i]) && rest[i]
            != '\\' by {
            assert(rest[i] == s[i + 1]);
        }
        lemma_without_markup_keeps_plain(rest);
        assert(!is_markup(s[0]));
        assert(seq![s[0]] + rest =~= s);
    }
}

/// A tag and an override block each go whole, with everything between their brackets,
/// and what stands around them stays.
pub proof fn lemma_tags_go_whole(before: Seq<char>, inside: Seq<char>, after: Seq<char>)
    requires
        forall|i: int| 0 <= i < before.len() ==> !is_markup(#[trigger] before[i]) && before[i] != '\\',
        markup_free(inside),
    ensures
        without_markup(before + seq!['<'] + inside + seq!['>'] + after, 0, 0) == before
            + without_markup(after, 0, 0),
        without_markup(before + seq!['{'] + inside + seq!['}'] + after, 0, 0) == before
            + without_markup(after, 0, 0),
    decreases before.len(),
{
    let tag = before + seq!['<'] + inside + seq!['>'] + after;
    let block = before + seq!['{'] + inside + seq!['}'] + after;
    if before.len() == 0 {
        assert(tag.drop_first() =~= inside + seq!['>'] + after);
        assert(block.drop_first() =~= inside + seq!['}'] + after);
        lemma_inside_goes(inside, after);
        assert(before + without_markup(after, 0, 0) =~= without_markup(after, 0, 0));
    } else {
        let rest = before.drop_first();
        assert forall|i: int| 0 <= i < rest.len() implies !is_markup(#[trigger] rest[i]) && rest[i]
            != '\\' by {
            assert(rest[i] == before[i + 1]);
        }
        lemma_tags_go_whole(rest, inside, after);
        assert(!is_markup(before[0]));
        assert(tag.drop_first() =~= rest + seq!['<'] + inside + seq!['>'] + after);
        assert(block.drop_first() =~= rest + seq!['{'] + inside + seq!['}'] + after);
        assert(seq![before[0]] + (rest + without_markup(after, 0, 0)) =~= before + without_markup(
            after,
            0,
            0,
        ));
    }
}

/// Inside a tag or an override block, everything up to its end goes.
proof fn lemma_inside_goes(inside: Seq<char>, after: Seq<char>)
    requires
        markup_free(inside),
    ensures
        without_markup(inside + seq!['>'] + after, 0, 1) == without_markup(after, 0, 0),
        without_markup(inside + seq!['}'] + after, 1, 0) == without_markup(after, 0, 0),
    decreases inside.len(),
{
    let tag = inside + seq!['>'] + after;
    let block = inside + seq!['}'] + after;
    if inside.len() == 0 {
        assert(tag.drop_first() =~= after);
        assert(block.drop_first() =~= after);
    } else {
        let rest = inside.drop_first();
        assert forall|i: int| 0 <= i < rest.len() implies !is_markup(#[trigger] rest[i]) by {
            assert(rest[i] == inside[i + 1]);
        }
        lemma_inside_goes(rest, after);
        assert(!is_markup(inside[0]));
        assert(tag.drop_first() =~= rest + seq!['>'] + after);
        assert(block.drop_first() =~= rest + seq!['}'] + after);
    }
}

/// The event for one subtitle buffer, in media time so that pausing and speed
/// changes both behave. Bitmap formats cannot be drawn and give no event. A cue
/// without a duration lingers until the next one replaces it; five seconds caps a
/// stuck line.
pub fn cue_event(media: Option<&str>, raw: &[u8], pts: Option<u64>, length: Option<u64>) -> (r:
    Option<Event>)
    ensures
        r is Some <==> (media is Some && text::begins(media->0@, "text/"@)),
        r matches Some(event) ==> {
            let shown = readable(text::from_utf8_lossy(raw@));
            let from = match pts {
                Some(pts) => pts as int,
                None => 0,
            };
            let lasts = match length {
                Some(length) => length as int,
                None => CUE_SECONDS * time::SECOND,
            };
            &&& event matches Event::Subtitle { text, start, end }
            &&& start.nanos == from
            &&& end.nanos == from + lasts
            &&& length is None ==> end.nanos == start.nanos + 5_000_000_000
            &&& text is Some <==> shown.len() > 0
            &&& text is Some ==> text->0@ == shown
        },
{
    let is_text: bool = match media {
        Some(name) => starts_with(&chars(name), "text/"),
        None => false,
    };
    if !is_text {
        return None;
    }
    let cue: String = clean_cue(utf8_lossy(raw).as_str());
    let start: Duration = match pts {
        Some(pts) => Duration::from_nanos(pts),
        None => Duration::zero(),
    };
    let lasts: Duration = match length {
        Some(length) => Duration::from_nanos(length),
        None => Duration::from_secs(CUE_SECONDS),
    };
    let end = Duration { nanos: start.nanos + lasts.nanos };
    let text: Option<String> = if cue.as_str().is_empty() {
        None
    } else {
        Some(cue)
    };
    Some(Event::Subtitle { text, start, end })
}

/// How many commas a text has is the number of its characters that are one.
pub proof fn lemma_commas_count(s: Seq<char>)
    ensures
        commas(s) == s.filter(|c: char| c == ',').len(),
    decreases s.len(),
{
    reveal(Seq::filter);
    if s.len() > 0 {
        let front = s.drop_last();
        lemma_commas_count(front);
        lemma_commas_add(front, seq![s.last()]);
        assert(front + seq![s.last()] =~= s);
        let one = seq![s.last()];
        assert(one.drop_first().len() == 0);
        assert(commas(one.drop_first()) == 0);
        assert(one[0] == s.last());
        assert(commas(one) == if s.last() == ',' {
            1nat
        } else {
            0
        });
    }
}

proof fn lemma_commas_add(a: Seq<char>, b: Seq<char>)
    ensures
        commas(a + b) == commas(a) + commas(b),
    decreases a.len(),
{
    if a.len() == 0 {
        assert(a + b =~= b);
    } else {
        lemma_commas_add(a.drop_first(), b);
        assert((a + b).drop_first() =~= a.drop_first() + b);
    }
}

/// What stands behind the ninth comma is what is said, whatever commas it has of its own,
/// and where there are fewer than nine all of it is.
pub proof fn lemma_nine_fields_are_dropped(head: Seq<char>, said: Seq<char>)
    ensures
        head.len() > 0 && head.last() == ',' && commas(head) == 9 ==> without_fields(head + said)
            == said,
        commas(said) < 9 ==> without_fields(said) == said,
{
    if head.len() > 0 && head.last() == ',' && commas(head) == 9 {
        lemma_commas_add(head, said);
        lemma_after_comma_skips(head, said, 9);
    }
}

proof fn lemma_after_comma_skips(head: Seq<char>, said: Seq<char>, n: nat)
    requires
        head.len() > 0,
        head.last() == ',',
        commas(head) == n,
    ensures
        after_comma(head + said, n) == said,
    decreases head.len(),
{
    let whole = head + said;
    let rest = head.drop_first();
    assert(whole.drop_first() =~= rest + said);
    if rest.len() == 0 {
        assert(commas(rest) == 0);
        assert(rest + said =~= said);
        assert(head[0] == head.last());
        assert(after_comma(said, 0) == said);
    } else {
        assert(rest.last() == head.last());
        lemma_has_comma(rest);
        lemma_after_comma_skips(rest, said, commas(rest));
    }
}

proof fn lemma_has_comma(s: Seq<char>)
    requires
        s.len() > 0,
        s.last() == ',',
    ensures
        commas(s) > 0,
    decreases s.len(),
{
    if s.len() > 1 {
        assert(s.drop_first().last() == s.last());
        lemma_has_comma(s.drop_first());
    }
}

/// A line break that is spelled out is one, in either spelling, and a backslash before
/// anything else is just that.
pub proof fn lemma_line_breaks_are_breaks(before: Seq<char>, c: char, after: Seq<char>)
    requires
        forall|i: int| 0 <= i < before.len() ==> !is_markup(#[trigger] before[i]) && before[i] != '\\',
    ensures
        c == 'N' || c == 'n' ==> without_markup(before + seq!['\\', c] + after, 0, 0) == before
            + seq!['\n'] + without_markup(after, 0, 0),
        c != 'N' && c != 'n' ==> without_markup(before + seq!['\\', c] + after, 0, 0) == before
            + seq!['\\'] + without_markup(seq![c] + after, 0, 0),
    decreases before.len(),
{
    let whole = before + seq!['\\', c] + after;
    if before.len() == 0 {
        assert(whole.drop_first() =~= seq![c] + after);
        assert((seq![c] + after).drop_first() =~= after);
        assert(before + seq!['\n'] =~= seq!['\n']);
        assert(before + seq!['\\'] =~= seq!['\\']);
    } else {
        let rest = before.drop_first();
        assert forall|i: int| 0 <= i < rest.len() implies !is_markup(#[trigger] rest[i]) && rest[i]
            != '\\' by {
            assert(rest[i] == before[i + 1]);
        }
        lemma_line_breaks_are_breaks(rest, c, after);
        assert(!is_markup(before[0]) && before[0] != '\\');
        assert(whole.drop_first() =~= rest + seq!['\\', c] + after);
        assert(seq![before[0]] + (rest + seq!['\n'] + without_markup(after, 0, 0)) =~= before
            + seq!['\n'] + without_markup(after, 0, 0));
        assert(seq![before[0]] + (rest + seq!['\\'] + without_markup(seq![c] + after, 0, 0))
            =~= before + seq!['\\'] + without_markup(seq![c] + after, 0, 0));
    }
}

/// The characters that markup is made of are the braces and the angle brackets.
pub proof fn lemma_what_markup_is(c: char)
    ensures
        is_markup(c) <==> (c == '{' || c == '}' || c == '<' || c == '>'),
{
}

/// Inside markup everything that is not markup itself goes.
proof fn lemma_passed_over(inside: Seq<char>, rest: Seq<char>, braces: nat, angles: nat)
    requires
        markup_free(inside),
        braces + angles > 0,
    ensures
        without_markup(inside + rest, braces, angles) == without_markup(rest, braces, angles),
    decreases inside.len(),
{
    if inside.len() == 0 {
        assert(inside + rest =~= rest);
    } else {
        let tail = inside.drop_first();
        assert forall|i: int| 0 <= i < tail.len() implies !is_markup(#[trigger] tail[i]) by {
            assert(tail[i] == inside[i + 1]);
        }
        lemma_passed_over(tail, rest, braces, angles);
        assert(!is_markup(inside[0]));
        assert((inside + rest).drop_first() =~= tail + rest);
    }
}

/// Markup inside markup goes with it, up to where the outer one ends; and an end without
/// a start is dropped without taking anything along.
pub proof fn lemma_nested_markup_goes_whole(
    a: Seq<char>,
    b: Seq<char>,
    c: Seq<char>,
    after: Seq<char>,
)
    requires
        markup_free(a),
        markup_free(b),
        markup_free(c),
    ensures
        without_markup(seq!['{'] + (a + (seq!['{'] + (b + (seq!['}'] + (c + (seq!['}'] + after)))))), 0, 0)
            == without_markup(after, 0, 0),
        without_markup(seq!['<'] + (a + (seq!['<'] + (b + (seq!['>'] + (c + (seq!['>'] + after)))))), 0, 0)
            == without_markup(after, 0, 0),
        without_markup(seq!['{'] + (a + (seq!['<'] + (b + (seq!['>'] + (c + (seq!['}'] + after)))))), 0, 0)
            == without_markup(after, 0, 0),
        without_markup(seq!['}'] + after, 0, 0) == without_markup(after, 0, 0),
        without_markup(seq!['>'] + after, 0, 0) == without_markup(after, 0, 0),
{
    lemma_one_mark('}', after, 0, 0);
    lemma_one_mark('>', after, 0, 0);
    lemma_one_mark('}', after, 1, 0);
    lemma_one_mark('>', after, 0, 1);
    let brace = seq!['}'] + after;
    let angle = seq!['>'] + after;
    lemma_passed_over(c, brace, 1, 0);
    lemma_passed_over(c, angle, 0, 1);
    lemma_one_mark('}', c + brace, 2, 0);
    lemma_one_mark('>', c + angle, 0, 2);
    lemma_one_mark('>', c + brace, 1, 1);
    lemma_passed_over(b, seq!['}'] + (c + brace), 2, 0);
    lemma_passed_over(b, seq!['>'] + (c + angle), 0, 2);
    lemma_passed_over(b, seq!['>'] + (c + brace), 1, 1);
    let x = b + (seq!['}'] + (c + brace));
    let y = b + (seq!['>'] + (c + angle));
    let z = b + (seq!['>'] + (c + brace));
    lemma_one_mark('{', x, 1, 0);
    lemma_one_mark('<', y, 0, 1);
    lemma_one_mark('<', z, 1, 0);
    lemma_passed_over(a, seq!['{'] + x, 1, 0);
    lemma_passed_over(a, seq!['<'] + y, 0, 1);
    lemma_passed_over(a, seq!['<'] + z, 1, 0);
    lemma_one_mark('{', a + (seq!['{'] + x), 0, 0);
    lemma_one_mark('<', a + (seq!['<'] + y), 0, 0);
    lemma_one_mark('{', a + (seq!['<'] + z), 0, 0);
}

proof fn lemma_one_mark(c: char, rest: Seq<char>, braces: nat, angles: nat)
    ensures
        c == '{' ==> without_markup(seq![c] + rest, braces, angles) == without_markup(
            rest,
            braces + 1,
            angles,
        ),
        c == '<' ==> without_markup(seq![c] + rest, braces, angles) == without_markup(
            rest,
            braces,
            angles + 1,
        ),
        c == '}' ==> without_markup(seq![c] + rest, braces, angles) == without_markup(
            rest,
            less_one(braces),
            angles,
        ),
        c == '>' ==> without_markup(seq![c] + rest, braces, angles) == without_markup(
            rest,
            braces,
            less_one(angles),
        ),
{
    assert((seq![c] + rest).drop_first() =~= rest);
}

} // verus!
