//! Text as sequences of characters: trimming, searching, numbers in decimal.

use vstd::prelude::*;

verus! {

/// `String::push` appends one character.
pub assume_specification[ String::push ](s: &mut String, c: char)
    ensures
        final(s)@ == old(s)@.push(c),
;

/// Two string slices are equal exactly when they hold the same characters.
pub assume_specification[ <str as PartialEq<str>>::eq ](a: &str, b: &str) -> (r: bool)
    ensures
        r == (a@ == b@),
;

/// What `str::to_lowercase` makes of a text.
pub uninterp spec fn to_lowercase(s: Seq<char>) -> Seq<char>;

/// What `char::to_lowercase` makes of one character.
pub uninterp spec fn char_to_lowercase(c: char) -> Seq<char>;

/// What `String::from_utf8_lossy` makes of some bytes.
pub uninterp spec fn from_utf8_lossy(bytes: Seq<u8>) -> Seq<char>;

/// An ASCII capital as its small letter; anything else as it is.
pub open spec fn ascii_lower(c: char) -> char {
    if 'A' <= c <= 'Z' {
        (c as u32 + 32) as char
    } else {
        c
    }
}

/// `str::to_lowercase`. Its result is named, not spelled out; on ASCII text it is
/// the text with each capital letter made small.
#[verifier::external_body]
pub(crate) fn lowercase(s: &str) -> (r: String)
    ensures
        r@ == to_lowercase(s@),
        vstd::utf8::is_ascii_chars(s@) ==> r@ == s@.map_values(|c: char| ascii_lower(c)),
{
    s.to_lowercase()
}

/// `char::to_lowercase`, collected. Its result is named, not spelled out; an ASCII
/// character gives one character, its small letter.
#[verifier::external_body]
pub(crate) fn lowercase_char(c: char) -> (r: String)
    ensures
        r@ == char_to_lowercase(c),
        (c as u32) < 128 ==> r@ == seq![ascii_lower(c)],
{
    c.to_lowercase().to_string()
}

/// `String::from_utf8_lossy`, as an owned text. Its result is named, not spelled
/// out; bytes that are valid UTF-8 come back as the text they encode.
#[verifier::external_body]
pub(crate) fn utf8_lossy(bytes: &[u8]) -> (r: String)
    ensures
        r@ == from_utf8_lossy(bytes@),
        vstd::utf8::valid_utf8(bytes@) ==> vstd::utf8::encode_utf8(r@) == bytes@,
{
    String::from_utf8_lossy(bytes).into_owned()
}

/// Whether two texts are the same.
pub fn same(a: &str, b: &str) -> (r: bool)
    ensures
        r == (a@ == b@),
{
    *a == *b
}

/// The characters of a text.
pub fn chars(s: &str) -> (v: Vec<char>)
    ensures
        v@ == s@,
{
    let mut v: Vec<char> = Vec::new();
    for c in it: s.chars()
        invariant
            v@ =~= it.seq().take(it.index()),
    {
        v.push(c);
    }
    v
}

/// The text that the characters from `from` up to `to` spell.
pub fn span(v: &Vec<char>, from: usize, to: usize) -> (s: String)
    requires
        from <= to <= v@.len(),
    ensures
        s@ == v@.subrange(from as int, to as int),
{
    let mut s: String = String::new();
    let mut i: usize = from;
    while i < to
        invariant
            from <= i <= to <= v@.len(),
            s@ =~= v@.subrange(from as int, i as int),
        decreases to - i,
    {
        s.push(v[i]);
        i += 1;
    }
    s
}

/// White space, as Unicode's `White_Space` property has it.
pub open spec fn is_space(c: char) -> bool {
    let u = c as u32;
    ||| 0x9 <= u <= 0xd
    ||| u == 0x20
    ||| u == 0x85
    ||| u == 0xa0
    ||| u == 0x1680
    ||| 0x2000 <= u <= 0x200a
    ||| u == 0x2028
    ||| u == 0x2029
    ||| u == 0x202f
    ||| u == 0x205f
    ||| u == 0x3000
}

/// Whether a character is white space.
pub fn space(c: char) -> (r: bool)
    ensures
        r == is_space(c),
{
    let u: u32 = c as u32;
    (0x9 <= u && u <= 0xd) || u == 0x20 || u == 0x85 || u == 0xa0 || u == 0x1680 || (0x2000 <= u
        && u <= 0x200a) || u == 0x2028 || u == 0x2029 || u == 0x202f || u == 0x205f || u == 0x3000
}

/// A text without the white space that it starts with.
pub open spec fn trim_start(s: Seq<char>) -> Seq<char>
    decreases s.len(),
{
    if s.len() > 0 && is_space(s[0]) {
        trim_start(s.drop_first())
    } else {
        s
    }
}

/// A text without the white space that it ends with.
pub open spec fn trim_end(s: Seq<char>) -> Seq<char>
    decreases s.len(),
{
    if s.len() > 0 && is_space(s.last()) {
        trim_end(s.drop_last())
    } else {
        s
    }
}

/// A text without the white space around it.
pub open spec fn trimmed(s: Seq<char>) -> Seq<char> {
    trim_end(trim_start(s))
}

/// The text without the white space around it.
pub fn trim(s: &str) -> (r: String)
    ensures
        r@ == trimmed(s@),
{
    let v = chars(s);
    trim_chars(&v)
}

/// The text that some characters spell, without the white space around it.
pub fn trim_chars(v: &Vec<char>) -> (r: String)
    ensures
        r@ == trimmed(v@),
{
    let mut from: usize = 0;
    proof {
        assert(v@.skip(0) =~= v@);
    }
    while from < v.len() && space(v[from])
        invariant
            from <= v@.len(),
            trim_start(v@) == trim_start(v@.skip(from as int)),
        decreases v@.len() - from,
    {
        proof {
            assert(v@.skip(from as int).drop_first() =~= v@.skip(from + 1));
        }
        from += 1;
    }
    let mut to: usize = v.len();
    proof {
        assert(trim_start(v@) == v@.skip(from as int));
        assert(v@.skip(from as int) =~= v@.subrange(from as int, to as int));
    }
    while to > from && space(v[to - 1])
        invariant
            from <= to <= v@.len(),
            trimmed(v@) == trim_end(v@.subrange(from as int, to as int)),
        decreases to,
    {
        proof {
            let part = v@.subrange(from as int, to as int);
            assert(part.last() == v@[to - 1]);
            assert(part.drop_last() =~= v@.subrange(from as int, to - 1));
        }
        to -= 1;
    }
    proof {
        let part = v@.subrange(from as int, to as int);
        if to > from {
            assert(part.last() == v@[to - 1]);
        }
    }
    span(v, from, to)
}

/// Trimming a trimmed text changes nothing.
pub proof fn lemma_trimmed_twice(s: Seq<char>)
    ensures
        trimmed(trimmed(s)) == trimmed(s),
{
    lemma_trim_start_head(s);
    lemma_trim_end_tail(trim_start(s));
    let t = trimmed(s);
    if t.len() > 0 {
        assert(t[0] == trim_start(s)[0]);
    }
    assert(trim_start(t) == t);
    assert(trim_end(t) == t);
}

/// What is left after trimming the start does not begin with white space.
proof fn lemma_trim_start_head(s: Seq<char>)
    ensures
        trim_start(s).len() > 0 ==> !is_space(trim_start(s)[0]),
    decreases s.len(),
{
    if s.len() > 0 && is_space(s[0]) {
        lemma_trim_start_head(s.drop_first());
    }
}

/// What is left after trimming the end is a prefix that does not end in white space.
proof fn lemma_trim_end_tail(s: Seq<char>)
    ensures
        trim_end(s).is_prefix_of(s),
        trim_end(s).len() > 0 ==> !is_space(trim_end(s).last()),
    decreases s.len(),
{
    if s.len() > 0 && is_space(s.last()) {
        lemma_trim_end_tail(s.drop_last());
        let t = trim_end(s);
        assert(t =~= s.subrange(0, t.len() as int)) by {
            assert(t == s.drop_last().subrange(0, t.len() as int));
        }
    } else {
        assert(s =~= s.subrange(0, s.len() as int));
    }
}

/// A trimmed text is a stretch of the text it came from.
pub proof fn lemma_trimmed_is_part(s: Seq<char>)
    ensures
        exists|from: int|
            0 <= from && from + trimmed(s).len() <= s.len() && trimmed(s)
                == #[trigger] s.subrange(from, from + trimmed(s).len() as int),
{
    lemma_trim_start_suffix(s);
    lemma_trim_end_tail(trim_start(s));
    let from = s.len() - trim_start(s).len();
    let t = trimmed(s);
    assert(t =~= s.subrange(from, from + t.len() as int)) by {
        assert(t == trim_start(s).subrange(0, t.len() as int));
    }
}

/// What is left after trimming the start is what the text ends with.
proof fn lemma_trim_start_suffix(s: Seq<char>)
    ensures
        trim_start(s).len() <= s.len(),
        trim_start(s) == s.skip(s.len() - trim_start(s).len()),
    decreases s.len(),
{
    if s.len() > 0 && is_space(s[0]) {
        lemma_trim_start_suffix(s.drop_first());
        let n = trim_start(s).len();
        assert(s.drop_first().skip(s.len() - 1 - n) =~= s.skip(s.len() - n));
    } else {
        assert(s.skip(0) =~= s);
    }
}

/// Whether `needle` stands in `hay` at position `at`.
pub open spec fn stands_at(hay: Seq<char>, needle: Seq<char>, at: int) -> bool {
    &&& 0 <= at
    &&& at + needle.len() <= hay.len()
    &&& hay.subrange(at, at + needle.len() as int) == needle
}

/// Whether `needle` stands anywhere in `hay`.
pub open spec fn occurs(hay: Seq<char>, needle: Seq<char>) -> bool {
    exists|at: int| #[trigger] stands_at(hay, needle, at)
}

/// Whether `needle` stands in `hay` at position `at`.
pub fn found_at(hay: &Vec<char>, needle: &Vec<char>, at: usize) -> (r: bool)
    ensures
        r == stands_at(hay@, needle@, at as int),
{
    if at > hay.len() || needle.len() > hay.len() - at {
        return false;
    }
    let mut i: usize = 0;
    while i < needle.len()
        invariant
            i <= needle@.len(),
            at + needle.len() <= hay.len(),
            forall|k: int| 0 <= k < i ==> #[trigger] needle@[k] == hay@[at + k],
        decreases needle@.len() - i,
    {
        if hay[at + i] != needle[i] {
            proof {
                let part = hay@.subrange(at as int, at + needle@.len() as int);
                assert(part[i as int] != needle@[i as int]);
            }
            return false;
        }
        i += 1;
    }
    proof {
        assert(hay@.subrange(at as int, at + needle@.len() as int) =~= needle@);
    }
    true
}

/// Whether a text contains another.
pub fn contains(hay: &Vec<char>, needle: &str) -> (r: bool)
    ensures
        r == occurs(hay@, needle@),
{
    let n = chars(needle);
    let mut at: usize = 0;
    while at <= hay.len()
        invariant
            at <= hay@.len() + 1,
            n@ == needle@,
            forall|k: int| 0 <= k < at ==> !stands_at(hay@, needle@, k),
        decreases hay@.len() + 1 - at,
    {
        if found_at(hay, &n, at) {
            return true;
        }
        if at == hay.len() {
            return false;
        }
        at += 1;
    }
    false
}

/// Whether a text starts with another.
pub open spec fn begins(s: Seq<char>, prefix: Seq<char>) -> bool {
    stands_at(s, prefix, 0)
}

/// Whether a text ends with another.
pub open spec fn finishes(s: Seq<char>, suffix: Seq<char>) -> bool {
    stands_at(s, suffix, s.len() - suffix.len())
}

/// Whether a text starts with another.
pub fn starts_with(s: &Vec<char>, prefix: &str) -> (r: bool)
    ensures
        r == begins(s@, prefix@),
{
    let p = chars(prefix);
    found_at(s, &p, 0)
}

/// Whether a text ends with another.
pub fn ends_with(s: &Vec<char>, suffix: &str) -> (r: bool)
    ensures
        r == finishes(s@, suffix@),
{
    let p = chars(suffix);
    if p.len() > s.len() {
        return false;
    }
    found_at(s, &p, s.len() - p.len())
}

/// What follows the last slash of a text, or all of it where it has none.
pub open spec fn after_last_slash(s: Seq<char>) -> Seq<char>
    decreases s.len(),
{
    if s.len() == 0 || s.last() == '/' {
        Seq::empty()
    } else {
        after_last_slash(s.drop_last()).push(s.last())
    }
}

/// Where what follows the last slash starts.
pub fn last_part(v: &Vec<char>) -> (at: usize)
    ensures
        at <= v@.len(),
        v@.skip(at as int) == after_last_slash(v@),
{
    let mut at: usize = v.len();
    proof {
        assert(v@.take(at as int) =~= v@);
        assert(v@.skip(at as int) =~= Seq::<char>::empty());
    }
    while at > 0 && v[at - 1] != '/'
        invariant
            at <= v@.len(),
            after_last_slash(v@) =~= after_last_slash(v@.take(at as int)) + v@.skip(at as int),
        decreases at,
    {
        proof {
            let part = v@.take(at as int);
            assert(part.last() == v@[at - 1]);
            assert(part.drop_last() =~= v@.take(at - 1));
            assert(v@.skip(at - 1) =~= seq![v@[at - 1]] + v@.skip(at as int));
        }
        at -= 1;
    }
    proof {
        let part = v@.take(at as int);
        if at > 0 {
            assert(part.last() == v@[at - 1]);
        }
        assert(after_last_slash(part) =~= Seq::<char>::empty());
    }
    at
}

/// The character for a decimal digit.
pub open spec fn digit(d: int) -> char {
    (48 + d) as char
}

/// A number in decimal, without leading zeros.
pub open spec fn decimal(n: nat) -> Seq<char>
    decreases n,
{
    if n < 10 {
        seq![digit(n as int)]
    } else {
        decimal(n / 10).push(digit((n % 10) as int))
    }
}

/// A number in decimal, with a sign where it is negative.
pub open spec fn signed_decimal(n: int) -> Seq<char> {
    if n < 0 {
        seq!['-'] + decimal((-n) as nat)
    } else {
        decimal(n as nat)
    }
}

/// A number in decimal, with a zero in front where it has one digit.
pub open spec fn two_digits(n: nat) -> Seq<char> {
    if n < 10 {
        seq!['0'] + decimal(n)
    } else {
        decimal(n)
    }
}

/// Append one decimal digit.
fn push_digit(out: &mut String, d: u8)
    requires
        d < 10,
    ensures
        final(out)@ == old(out)@.push(digit(d as int)),
{
    let code: u8 = 48 + d;
    out.push(code as char);
}

/// Append a number in decimal.
pub fn push_decimal(out: &mut String, n: u128)
    ensures
        final(out)@ == old(out)@ + decimal(n as nat),
    decreases n,
{
    let ghost before = out@;
    if n >= 10 {
        push_decimal(out, n / 10);
        push_digit(out, (n % 10) as u8);
        proof {
            assert(out@ =~= before + decimal(n as nat));
        }
    } else {
        push_digit(out, n as u8);
        proof {
            assert(out@ =~= before + decimal(n as nat));
        }
    }
}

/// Append a number in decimal, signed.
pub fn push_signed(out: &mut String, n: i64)
    ensures
        final(out)@ == old(out)@ + signed_decimal(n as int),
{
    if n < 0 {
        let ghost before = out@;
        out.push('-');
        push_decimal(out, (-(n as i128)) as u128);
        proof {
            assert(out@ =~= before + signed_decimal(n as int));
        }
    } else {
        push_decimal(out, n as u128);
    }
}

/// Append a number in decimal, padded to two digits.
pub fn push_two_digits(out: &mut String, n: u128)
    ensures
        final(out)@ == old(out)@ + two_digits(n as nat),
{
    let ghost before = out@;
    if n < 10 {
        out.push('0');
    }
    push_decimal(out, n);
    proof {
        assert(out@ =~= before + two_digits(n as nat));
    }
}

/// White space is the blanks and breaks of ASCII and of the rest of Unicode, and nothing
/// that can be seen.
pub proof fn lemma_what_white_space_is(c: char)
    ensures
        is_space(c) <==> match c {
            '\t' | '\n' | '\u{b}' | '\u{c}' | '\r' | ' ' | '\u{85}' | '\u{a0}' | '\u{1680}' => true,
            '\u{2000}' | '\u{2001}' | '\u{2002}' | '\u{2003}' | '\u{2004}' | '\u{2005}' => true,
            '\u{2006}' | '\u{2007}' | '\u{2008}' | '\u{2009}' | '\u{200a}' => true,
            '\u{2028}' | '\u{2029}' | '\u{202f}' | '\u{205f}' | '\u{3000}' => true,
            _ => false,
        },
{
}

/// What trimming cuts off is white space and nothing else, and what is left has none at
/// either end: whatever stands inside is kept as it is.
pub proof fn lemma_trimming_cuts_white_space_alone(s: Seq<char>)
    ensures
        exists|from: int, to: int|
            {
                &&& 0 <= from <= to <= s.len()
                &&& trimmed(s) == #[trigger] s.subrange(from, to)
                &&& forall|i: int| 0 <= i < from ==> is_space(#[trigger] s[i])
                &&& forall|i: int| to <= i < s.len() ==> is_space(#[trigger] s[i])
                &&& from < to ==> !is_space(s[from]) && !is_space(s[to - 1])
            },
{
    lemma_trim_start_suffix(s);
    lemma_trim_start_cuts(s);
    lemma_trim_start_head(s);
    let t = trim_start(s);
    lemma_trim_end_tail(t);
    lemma_trim_end_cuts(t);
    let from = s.len() - t.len();
    let to = from + trim_end(t).len();
    assert(trimmed(s) =~= s.subrange(from, to)) by {
        assert(trim_end(t) == t.subrange(0, trim_end(t).len() as int));
    }
    assert forall|i: int| to <= i < s.len() implies is_space(#[trigger] s[i]) by {
        assert(t[i - from] == s[i]);
    }
    if from < to {
        assert(t[0] == s[from]);
        assert(trim_end(t).last() == s[to - 1]);
    }
}

/// What trimming the start cuts off is white space.
proof fn lemma_trim_start_cuts(s: Seq<char>)
    ensures
        trim_start(s).len() <= s.len(),
        forall|i: int| 0 <= i < s.len() - trim_start(s).len() ==> is_space(#[trigger] s[i]),
    decreases s.len(),
{
    if s.len() > 0 && is_space(s[0]) {
        let rest = s.drop_first();
        lemma_trim_start_cuts(rest);
        assert forall|i: int| 0 <= i < s.len() - trim_start(s).len() implies is_space(
            #[trigger] s[i],
        ) by {
            if i > 0 {
                assert(rest[i - 1] == s[i]);
            }
        }
    }
}

/// What trimming the end cuts off is white space.
proof fn lemma_trim_end_cuts(s: Seq<char>)
    ensures
        trim_end(s).len() <= s.len(),
        forall|i: int| trim_end(s).len() <= i < s.len() ==> is_space(#[trigger] s[i]),
    decreases s.len(),
{
    if s.len() > 0 && is_space(s.last()) {
        let rest = s.drop_last();
        lemma_trim_end_cuts(rest);
        assert forall|i: int| trim_end(s).len() <= i < s.len() implies is_space(#[trigger] s[i]) by {
            if i < s.len() - 1 {
                assert(rest[i] == s[i]);
            }
        }
    }
}

/// What follows the last slash has no slash in it, and what stands in front of it is
/// nothing, or ends with one.
pub proof fn lemma_the_last_part_has_no_slash(s: Seq<char>)
    ensures
        exists|at: int|
            {
                &&& 0 <= at <= s.len()
                &&& after_last_slash(s) == #[trigger] s.subrange(at, s.len() as int)
                &&& forall|i: int| at <= i < s.len() ==> #[trigger] s[i] != '/'
                &&& at == 0 || s[at - 1] == '/'
            },
    decreases s.len(),
{
    let n = s.len() as int;
    if n == 0 || s.last() == '/' {
        assert(s.subrange(n, n) =~= Seq::<char>::empty());
    } else {
        let rest = s.drop_last();
        lemma_the_last_part_has_no_slash(rest);
        let at = choose|at: int|
            {
                &&& 0 <= at <= rest.len()
                &&& after_last_slash(rest) == #[trigger] rest.subrange(at, rest.len() as int)
                &&& forall|i: int| at <= i < rest.len() ==> #[trigger] rest[i] != '/'
                &&& at == 0 || rest[at - 1] == '/'
            };
        assert(after_last_slash(s) =~= s.subrange(at, n));
        assert forall|i: int| at <= i < n implies #[trigger] s[i] != '/' by {
            if i < n - 1 {
                assert(rest[i] == s[i]);
            }
        }
    }
}

/// A text starts with another exactly where it is that text with something, or nothing,
/// behind it; and ends with another where it stands in front.
pub proof fn lemma_starting_and_ending(s: Seq<char>, part: Seq<char>, rest: Seq<char>)
    ensures
        begins(part + rest, part),
        finishes(rest + part, part),
        begins(s, part) ==> s == part + s.skip(part.len() as int),
        finishes(s, part) ==> s == s.take(s.len() - part.len()) + part,
        occurs(rest + part + s, part),
{
    assert((part + rest).subrange(0, part.len() as int) =~= part);
    assert((rest + part).subrange(rest.len() as int, (rest + part).len() as int) =~= part);
    let whole = rest + part + s;
    assert(whole.subrange(rest.len() as int, rest.len() + part.len() as int) =~= part);
    assert(stands_at(whole, part, rest.len() as int));
    if begins(s, part) {
        assert(s =~= s.subrange(0, part.len() as int) + s.skip(part.len() as int));
    }
    if finishes(s, part) {
        let at = s.len() - part.len();
        assert(s =~= s.take(at) + s.subrange(at, s.len() as int));
    }
}

/// A number in decimal is digits that make up that number, with no zero in front.
pub proof fn lemma_decimal_is_the_number(n: nat)
    ensures
        decimal(n).len() > 0,
        forall|i: int| 0 <= i < decimal(n).len() ==> '0' <= #[trigger] decimal(n)[i] <= '9',
        crate::engine::export::digits_value(decimal(n)) == Some(n),
        n > 0 ==> decimal(n)[0] != '0',
        n == 0 ==> decimal(n) == seq!['0'],
        n < 10 <==> decimal(n).len() == 1,
    decreases n,
{
    let s = decimal(n);
    if n < 10 {
        assert(s.drop_last() =~= Seq::<char>::empty());
        assert(crate::engine::export::digits_value(s.drop_last()) == Some(0nat));
        assert(s.last() as int - 48 == n);
    } else {
        lemma_decimal_is_the_number(n / 10);
        assert(s.drop_last() =~= decimal(n / 10));
        assert(s.last() as int - 48 == n % 10);
        assert(s[0] == decimal(n / 10)[0]);
        assert forall|i: int| 0 <= i < s.len() implies '0' <= #[trigger] s[i] <= '9' by {
            if i < s.len() - 1 {
                assert(s[i] == decimal(n / 10)[i]);
            }
        }
    }
}

/// A sign stands in front of a number below zero, and of no other.
pub proof fn lemma_signs(n: int)
    ensures
        crate::engine::export::number(signed_decimal(n)) == Some(n),
        signed_decimal(n)[0] == '-' <==> n < 0,
{
    if n < 0 {
        let m = (-n) as nat;
        lemma_decimal_is_the_number(m);
        assert(signed_decimal(n).drop_first() =~= decimal(m));
    } else {
        lemma_decimal_is_the_number(n as nat);
        let s = decimal(n as nat);
        assert('0' <= s[0] <= '9');
    }
}

/// A number below a hundred has two digits, the tens and the ones, also where there are
/// no tens.
pub proof fn lemma_two_digits(n: nat)
    requires
        n < 100,
    ensures
        two_digits(n).len() == 2,
        two_digits(n)[0] as int == 48 + n / 10,
        two_digits(n)[1] as int == 48 + n % 10,
{
    reveal_with_fuel(decimal, 2);
}

/// A capital of ASCII has its small letter, and nothing else changes.
pub proof fn lemma_small_letters(c: char)
    ensures
        'A' <= c <= 'Z' ==> ascii_lower(c) as u32 == c as u32 + 32,
        c < 'A' || c > 'Z' ==> ascii_lower(c) == c,
{
}

/// Where a text stands in another, the other is what comes before it, the text, and what
/// comes behind.
pub proof fn lemma_around_what_stands_there(hay: Seq<char>, needle: Seq<char>, at: int)
    ensures
        stands_at(hay, needle, at) <==> 0 <= at && at + needle.len() <= hay.len() && hay
            == hay.take(at) + needle + hay.skip(at + needle.len()),
{
    if 0 <= at && at + needle.len() <= hay.len() {
        let part = hay.subrange(at, at + needle.len() as int);
        assert(hay =~= hay.take(at) + part + hay.skip(at + needle.len()));
        let other = hay.take(at) + needle + hay.skip(at + needle.len());
        assert(other.subrange(at, at + needle.len() as int) =~= needle);
    }
}

} // verus!
