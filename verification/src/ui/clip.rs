//! Where a clip lands: beside the source, named for the range it covers. Paths are those
//! of Unix, the one kind of system that the player runs on.

use vstd::prelude::*;

use crate::engine::time;
use crate::engine::{format_time, Container, Duration};
use crate::text;

verus! {

/// What `Path::file_stem` says of a path.
pub uninterp spec fn file_stem(path: Seq<char>) -> Option<Seq<char>>;

/// What `Path::with_file_name` makes of a path.
pub uninterp spec fn with_file_name(path: Seq<char>, name: Seq<char>) -> Seq<char>;

/// A path up to its last slash, without it.
pub open spec fn directory(path: Seq<char>) -> Seq<char>
    decreases path.len(),
{
    if path.len() == 0 {
        Seq::empty()
    } else if path.last() == '/' {
        path.drop_last()
    } else {
        directory(path.drop_last())
    }
}

/// Whether a path names a file in the plainest way: from the root, with a name behind
/// the last slash, and no stray slash or dot in front of it.
pub open spec fn is_plain(path: Seq<char>) -> bool {
    let dir = directory(path);
    let name = text::after_last_slash(path);
    &&& path.len() > 0
    &&& path[0] == '/'
    &&& name.len() > 0
    &&& name != seq!['.']
    &&& name != seq!['.', '.']
    &&& dir.len() > 0 ==> dir.last() != '/' && dir.last() != '.'
}

/// What stands before the last dot of a name.
pub open spec fn before_last_dot(name: Seq<char>) -> Seq<char>
    decreases name.len(),
{
    if name.len() == 0 {
        Seq::empty()
    } else if name.last() == '.' {
        name.drop_last()
    } else {
        before_last_dot(name.drop_last())
    }
}

/// A file name without its extension: what stands before its last dot, or all of it
/// where that is nothing.
pub open spec fn stem(name: Seq<char>) -> Seq<char> {
    if before_last_dot(name).len() > 0 {
        before_last_dot(name)
    } else {
        name
    }
}

/// `Path::file_stem`, as text. Its result is named, not spelled out; of a plain path
/// it is the last part without its extension.
#[verifier::external_body]
fn path_stem(path: &str) -> (r: Option<String>)
    ensures
        r.deep_view() == file_stem(path@),
        is_plain(path@) ==> r.deep_view() == Some(stem(text::after_last_slash(path@))),
{
    std::path::Path::new(path).file_stem().map(|s| s.to_string_lossy().into_owned())
}

/// `Path::with_file_name`, as text. Its result is named, not spelled out; of a plain
/// path and a name without slashes it is the name in the same directory.
#[verifier::external_body]
fn path_beside(path: &str, name: &str) -> (r: String)
    ensures
        r@ == with_file_name(path@, name@),
        is_plain(path@) && name@.len() > 0 && no_slash(name@) ==> r@ == directory(path@)
            + seq!['/'] + name@,
{
    std::path::Path::new(path).with_file_name(name).to_string_lossy().into_owned()
}

/// What `Path::file_name` says of a path.
pub uninterp spec fn file_name(path: Seq<char>) -> Option<Seq<char>>;

/// `Path::file_name`, as text. Its result is named, not spelled out; of a plain path
/// it is the last part.
#[verifier::external_body]
fn path_name(path: &str) -> (r: Option<String>)
    ensures
        r.deep_view() == file_name(path@),
        is_plain(path@) ==> r.deep_view() == Some(text::after_last_slash(path@)),
{
    std::path::Path::new(path).file_name().map(|s| s.to_string_lossy().into_owned())
}

/// What a clip at a path is called: its file name, or nothing where it has none.
pub open spec fn saved_as(path: Seq<char>) -> Seq<char> {
    match file_name(path) {
        Some(name) => name,
        None => Seq::empty(),
    }
}

/// What a clip at a path is called.
pub fn saved_name(path: &str) -> (r: String)
    ensures
        r@ == saved_as(path@),
        is_plain(path@) ==> r@ == text::after_last_slash(path@),
{
    match path_name(path) {
        Some(name) => name,
        None => String::new(),
    }
}

/// A text without its colons.
pub open spec fn without_colons(s: Seq<char>) -> Seq<char> {
    s.filter(|c: char| c != ':')
}

fn push_without_colons(out: &mut String, s: &str)
    ensures
        final(out)@ == old(out)@ + without_colons(s@),
{
    let ghost before = out@;
    for c in it: s.chars()
        invariant
            out@ =~= before + without_colons(it.seq().take(it.index())),
    {
        proof {
            let part = it.seq().take(it.index());
            let next = it.seq().take(it.index() + 1);
            assert(next.drop_last() =~= part);
            assert(next.last() == c);
            reveal(Seq::filter);
        }
        if c != ':' {
            out.push(c);
        }
    }
    proof {
        assert(s@.take(s@.len() as int) =~= s@);
    }
}

/// The name of a clip of a range, from the stem of the source's name.
pub open spec fn clip_name(
    stem: Seq<char>,
    start: Duration,
    end: Duration,
    container: Container,
) -> Seq<char> {
    stem + "-clip-"@ + without_colons(time::clock((start.nanos / time::SECOND) as nat)) + "-"@
        + without_colons(time::clock((end.nanos / time::SECOND) as nat)) + "."@
        + container.spec_extension()
}

/// Where a clip of a range lands, if the source's path has a name.
pub open spec fn clip_output(
    path: Seq<char>,
    start: Duration,
    end: Duration,
    container: Container,
) -> Option<Seq<char>> {
    match file_stem(path) {
        Some(stem) => Some(with_file_name(path, clip_name(stem, start, end, container))),
        None => None,
    }
}

/// The name of a clip of a range, from the stem of the source's name.
pub fn name_clip(stem: &str, start: Duration, end: Duration, container: Container) -> (r: String)
    ensures
        r@ == clip_name(stem@, start, end, container),
{
    let mut name: String = stem.to_owned();
    name.append("-clip-");
    push_without_colons(&mut name, format_time(start).as_str());
    name.append("-");
    push_without_colons(&mut name, format_time(end).as_str());
    name.append(".");
    name.append(container.extension());
    name
}

/// Whether a text is free of slashes.
pub open spec fn no_slash(s: Seq<char>) -> bool {
    forall|i: int| 0 <= i < s.len() ==> #[trigger] s[i] != '/'
}

proof fn lemma_stem_has_no_slash(path: Seq<char>)
    ensures
        no_slash(text::after_last_slash(path)),
        no_slash(stem(text::after_last_slash(path))),
{
    lemma_last_part_has_no_slash(path);
    lemma_before_dot_has_no_slash(text::after_last_slash(path));
}

proof fn lemma_last_part_has_no_slash(path: Seq<char>)
    ensures
        no_slash(text::after_last_slash(path)),
    decreases path.len(),
{
    if path.len() > 0 && path.last() != '/' {
        lemma_last_part_has_no_slash(path.drop_last());
    }
}

proof fn lemma_before_dot_has_no_slash(name: Seq<char>)
    requires
        no_slash(name),
    ensures
        no_slash(before_last_dot(name)),
    decreases name.len(),
{
    if name.len() > 0 && name.last() != '.' {
        lemma_before_dot_has_no_slash(name.drop_last());
    }
}

proof fn lemma_decimal_has_no_slash(n: nat)
    ensures
        no_slash(text::decimal(n)),
    decreases n,
{
    if n >= 10 {
        lemma_decimal_has_no_slash(n / 10);
    }
}

proof fn lemma_clock_has_no_slash(secs: nat)
    ensures
        no_slash(without_colons(time::clock(secs))),
{
    lemma_decimal_has_no_slash(secs / 3600);
    lemma_decimal_has_no_slash((secs % 3600) / 60);
    lemma_decimal_has_no_slash(secs % 60);
    assert(no_slash(time::clock(secs)));
    lemma_filter_has_no_slash(time::clock(secs));
}

proof fn lemma_filter_has_no_slash(s: Seq<char>)
    requires
        no_slash(s),
    ensures
        no_slash(without_colons(s)),
    decreases s.len(),
{
    reveal(Seq::filter);
    if s.len() > 0 {
        lemma_filter_has_no_slash(s.drop_last());
    }
}

proof fn lemma_name_has_no_slash(
    stem: Seq<char>,
    start: Duration,
    end: Duration,
    container: Container,
)
    requires
        no_slash(stem),
    ensures
        no_slash(clip_name(stem, start, end, container)),
        clip_name(stem, start, end, container).len() > 0,
{
    lemma_clock_has_no_slash((start.nanos / time::SECOND) as nat);
    lemma_clock_has_no_slash((end.nanos / time::SECOND) as nat);
    reveal_strlit("-clip-");
    reveal_strlit("-");
    reveal_strlit(".");
    reveal_strlit("mkv");
    reveal_strlit("mp4");
}

/// Where a clip lands: beside the source, named for the range it covers.
pub fn clip_path(path: &str, start: Duration, end: Duration, container: Container) -> (r: Option<
    String,
>)
    ensures
        r.deep_view() == clip_output(path@, start, end, container),
        is_plain(path@) ==> r.deep_view() == Some(
            directory(path@) + seq!['/'] + clip_name(stem(text::after_last_slash(path@)), start, end, container),
        ),
{
    match path_stem(path) {
        None => None,
        Some(own) => {
            let name: String = name_clip(own.as_str(), start, end, container);
            proof {
                if is_plain(path@) {
                    lemma_stem_has_no_slash(path@);
                    lemma_name_has_no_slash(own@, start, end, container);
                }
            }
            Some(path_beside(path, name.as_str()))
        },
    }
}

} // verus!
