//! Confining the decode process.
//!
//! Every demuxer and decoder parses untrusted input. What protects the user is making
//! the process that runs them unable to reach anything worth stealing: once the policy
//! here is applied, a compromised decoder cannot open documents, keys or a browser
//! profile, and cannot write anywhere outside the few paths playback genuinely needs.
//!
//! The policy is applied after the pipeline exists and names the one file to play, so
//! a decoder can read exactly one film and nothing else.

use vstd::prelude::*;

use landlock::Access;

use crate::text;

verus! {

/// What the sandbox managed to do, for reporting.
#[derive(Debug, Clone, PartialEq, Eq)]
pub enum Confinement {
    /// Fully enforced.
    Enforced,
    /// The kernel supports only part of what was asked for.
    Partial(String),
    /// Not available: the process runs unconfined.
    Unavailable(String),
}

impl Confinement {
    pub open spec fn spec_describe(&self) -> Seq<char> {
        match self {
            Confinement::Enforced => "landlock: enforced"@,
            Confinement::Partial(why) => "landlock: partial ("@ + why@ + ")"@,
            Confinement::Unavailable(why) => "landlock: unavailable ("@ + why@ + ")"@,
        }
    }

    pub fn describe(&self) -> (r: String)
        ensures
            r@ == self.spec_describe(),
    {
        match self {
            Confinement::Enforced => "landlock: enforced".to_owned(),
            Confinement::Partial(why) => {
                let mut r: String = "landlock: partial (".to_owned();
                r.append(why.as_str());
                r.append(")");
                r
            },
            Confinement::Unavailable(why) => {
                let mut r: String = "landlock: unavailable (".to_owned();
                r.append(why.as_str());
                r.append(")");
                r
            },
        }
    }
}

/// What the kernel made of the policy.
#[derive(Debug, Clone, PartialEq, Eq)]
pub enum Outcome {
    FullyEnforced,
    PartiallyEnforced,
    NotEnforced,
    /// The policy could not be applied, for the given reason.
    Failed(String),
    /// This system has no such thing.
    Unsupported,
}

/// How well the process is confined, once the policy has been applied.
pub fn confine(outcome: Outcome) -> (r: Confinement)
    ensures
        match outcome {
            Outcome::FullyEnforced => r == Confinement::Enforced,
            Outcome::PartiallyEnforced => r matches Confinement::Partial(why) && why@
                == "kernel supports only some restrictions"@,
            Outcome::NotEnforced => r matches Confinement::Unavailable(why) && why@
                == "kernel refused the ruleset"@,
            Outcome::Failed(reason) => r == Confinement::Unavailable(reason),
            Outcome::Unsupported => r matches Confinement::Unavailable(why) && why@
                == "only implemented for Linux"@,
        },
{
    match outcome {
        Outcome::FullyEnforced => Confinement::Enforced,
        Outcome::PartiallyEnforced => Confinement::Partial(
            "kernel supports only some restrictions".to_owned(),
        ),
        Outcome::NotEnforced => Confinement::Unavailable("kernel refused the ruleset".to_owned()),
        Outcome::Failed(reason) => Confinement::Unavailable(reason),
        Outcome::Unsupported => Confinement::Unavailable("only implemented for Linux".to_owned()),
    }
}

/// The version of the kernel interface that the policy is written for.
pub const VERSION: i32 = 5;

/// The right to open a file with write access.
pub const WRITE_FILE: u64 = 2;

/// The right to open a file with read access.
pub const READ_FILE: u64 = 4;

/// The rights to read: to execute, to read a file, to list a directory.
pub open spec fn read_bits(version: int) -> u64 {
    if version <= 0 {
        0
    } else {
        13
    }
}

/// All the rights that a version of the kernel interface knows.
pub open spec fn all_bits(version: int) -> u64 {
    if version <= 0 {
        0
    } else if version == 1 {
        0x1fff
    } else if version == 2 {
        0x3fff
    } else if version <= 4 {
        0x7fff
    } else if version <= 8 {
        0xffff
    } else {
        0x1ffff
    }
}

/// `AccessFs::from_read` for the `ABI` with this number, as its bits: the rights to
/// execute, to read a file and to list a directory, in every version that has any.
#[verifier::external_body]
fn read_rights(version: i32) -> (r: u64)
    ensures
        r == read_bits(version as int),
{
    landlock::AccessFs::from_read(landlock::ABI::from(version)).bits()
}

/// `AccessFs::from_all` for the `ABI` with this number, as its bits: one per right,
/// from the lowest up, as many as that version has.
#[verifier::external_body]
fn all_rights(version: i32) -> (r: u64)
    ensures
        r == all_bits(version as int),
{
    landlock::AccessFs::from_all(landlock::ABI::from(version)).bits()
}

/// A place, and what may be done to everything beneath it.
#[derive(Debug, Clone, PartialEq, Eq)]
pub struct Rule {
    pub path: String,
    pub access: u64,
}

/// A rule as it reads.
#[verifier::ext_equal]
pub struct Grant {
    pub path: Seq<char>,
    pub access: u64,
}

impl DeepView for Rule {
    type V = Grant;

    open spec fn deep_view(&self) -> Grant {
        Grant { path: self.path@, access: self.access }
    }
}

/// Readable and executable: shared libraries, plugins loaded lazily when a codec
/// first appears, fonts, timezone and locale data.
pub open spec fn readable() -> Seq<Seq<char>> {
    seq!["/usr"@, "/lib"@, "/lib64"@, "/bin"@, "/sbin"@, "/etc"@, "/proc"@, "/sys"@]
}

/// Readable and writable: the GPU, and the handful of devices any process needs.
pub open spec fn writable() -> Seq<Seq<char>> {
    seq![
        "/dev/dri"@,
        "/dev/null"@,
        "/dev/zero"@,
        "/dev/urandom"@,
        "/dev/random"@,
        "/dev/shm"@,
    ]
}

/// The same rights on several places.
pub open spec fn grants(paths: Seq<Seq<char>>, access: u64) -> Seq<Grant> {
    paths.map_values(|path: Seq<char>| Grant { path, access })
}

/// The rights on a place, if there is one.
pub open spec fn grant(path: Option<String>, access: u64) -> Seq<Grant> {
    match path {
        Some(path) => seq![Grant { path: path@, access }],
        None => Seq::empty(),
    }
}

/// What a decoder may reach: the system's files to read, the devices and the
/// session's runtime directory (where the audio server's socket is) to read and
/// write, and the one film to read.
pub open spec fn granted(media: Option<String>, runtime_dir: Option<String>) -> Seq<Grant> {
    grants(readable(), read_bits(VERSION as int)) + grants(writable(), all_bits(VERSION as int))
        + grant(runtime_dir, all_bits(VERSION as int)) + grant(media, read_bits(VERSION as int))
}

/// The policy for one decoder.
#[derive(Debug, Clone, PartialEq, Eq)]
pub struct Policy {
    /// Every right that is taken away where no rule gives it.
    pub handled: u64,
    pub rules: Vec<Rule>,
}

fn push_rule(rules: &mut Vec<Rule>, path: &str, access: u64)
    ensures
        final(rules).deep_view() == old(rules).deep_view().push(Grant { path: path@, access }),
{
    let ghost before = rules.deep_view();
    rules.push(Rule { path: path.to_owned(), access });
    proof {
        assert(rules.deep_view() =~= before.push(Grant { path: path@, access }));
    }
}

/// What a decoder of `media` may reach. A network source needs no file at all.
///
/// Deliberately absent: the home directory, `/tmp`, `/media`, `/mnt`, `/run` outside
/// the session's own runtime directory, and every other user's files.
pub fn policy(media: Option<String>, runtime_dir: Option<String>) -> (r: Policy)
    ensures
        r.handled == all_bits(VERSION as int),
        r.handled == 0xffff,
        r.rules.deep_view() == granted(media, runtime_dir),
{
    let read_only: u64 = read_rights(VERSION);
    let read_write: u64 = all_rights(VERSION);
    let mut rules: Vec<Rule> = Vec::new();
    push_rule(&mut rules, "/usr", read_only);
    push_rule(&mut rules, "/lib", read_only);
    push_rule(&mut rules, "/lib64", read_only);
    push_rule(&mut rules, "/bin", read_only);
    push_rule(&mut rules, "/sbin", read_only);
    push_rule(&mut rules, "/etc", read_only);
    push_rule(&mut rules, "/proc", read_only);
    push_rule(&mut rules, "/sys", read_only);
    proof {
        assert(rules.deep_view() =~= grants(readable(), read_only));
    }
    push_rule(&mut rules, "/dev/dri", read_write);
    push_rule(&mut rules, "/dev/null", read_write);
    push_rule(&mut rules, "/dev/zero", read_write);
    push_rule(&mut rules, "/dev/urandom", read_write);
    push_rule(&mut rules, "/dev/random", read_write);
    push_rule(&mut rules, "/dev/shm", read_write);
    proof {
        assert(rules.deep_view() =~= grants(readable(), read_only) + grants(
            writable(),
            read_write,
        ));
    }
    if let Some(dir) = &runtime_dir {
        push_rule(&mut rules, dir.as_str(), read_write);
    }
    if let Some(path) = &media {
        push_rule(&mut rules, path.as_str(), read_only);
    }
    proof {
        assert(rules.deep_view() =~= granted(media, runtime_dir));
    }
    Policy { handled: read_write, rules }
}

/// Whether a path is a place or something beneath it.
pub open spec fn beneath(path: Seq<char>, place: Seq<char>) -> bool {
    path == place || text::begins(path, place + "/"@)
}

/// Whether a policy lets a path be used with a right.
pub open spec fn reachable(rules: Seq<Grant>, path: Seq<char>, right: u64) -> bool {
    exists|i: int|
        0 <= i < rules.len() && (#[trigger] rules[i]).access & right != 0 && beneath(
            path,
            rules[i].path,
        )
}

/// Whether a path is one of some places, or beneath one.
pub open spec fn beneath_any(path: Seq<char>, places: Seq<Seq<char>>) -> bool {
    exists|i: int| 0 <= i < places.len() && beneath(path, #[trigger] places[i])
}

/// Whether a path is a place or beneath it, if there is such a place.
pub open spec fn beneath_some(path: Seq<char>, place: Option<String>) -> bool {
    place matches Some(place) && beneath(path, place@)
}

/// A decoder reaches the one film that it was given, the system's own places and the
/// session's runtime directory, and nothing else: no other file, not even the film's
/// neighbours in the same directory.
pub proof fn lemma_only_the_one_file(
    media: Option<String>,
    runtime_dir: Option<String>,
    path: Seq<char>,
    right: u64,
)
    ensures
        reachable(granted(media, runtime_dir), path, right) ==> beneath_some(path, media)
            || beneath_some(path, runtime_dir) || beneath_any(path, readable()) || beneath_any(
            path,
            writable(),
        ),
        media matches Some(film) ==> reachable(
            granted(media, runtime_dir),
            film@,
            READ_FILE,
        ),
{
    let rules = granted(media, runtime_dir);
    let r = readable().len();
    let w = writable().len();
    if reachable(rules, path, right) {
        let i = choose|i: int|
            0 <= i < rules.len() && (#[trigger] rules[i]).access & right != 0 && beneath(
                path,
                rules[i].path,
            );
        if i < r {
            assert(rules[i].path == readable()[i]);
        } else if i < r + w {
            assert(rules[i].path == writable()[i - r]);
        }
    }
    if let Some(film) = media {
        let last = rules.len() - 1;
        assert(rules[last] == Grant { path: film@, access: 13 });
        assert(13u64 & 4u64 != 0) by (bit_vector);
        assert(beneath(film@, rules[last].path));
    }
}

/// A decoder can write nowhere but beneath the devices and the session's runtime
/// directory. The same holds of every right that is not one to read.
pub proof fn lemma_nothing_else_is_writable(
    media: Option<String>,
    runtime_dir: Option<String>,
    path: Seq<char>,
    right: u64,
)
    requires
        read_bits(VERSION as int) & right == 0,
    ensures
        reachable(granted(media, runtime_dir), path, right) ==> beneath_some(path, runtime_dir)
            || beneath_any(path, writable()),
        read_bits(VERSION as int) & WRITE_FILE == 0,
{
    let rules = granted(media, runtime_dir);
    let r = readable().len();
    let w = writable().len();
    if reachable(rules, path, right) {
        let i = choose|i: int|
            0 <= i < rules.len() && (#[trigger] rules[i]).access & right != 0 && beneath(
                path,
                rules[i].path,
            );
        if i >= r && i < r + w {
            assert(rules[i].path == writable()[i - r]);
        }
    }
    assert(13u64 & 2u64 == 0) by (bit_vector);
}

/// What a confined process reports of one path, and the status it exits with.
pub fn verdict(readable: bool) -> (r: (&'static str, i32))
    ensures
        r.0@ == (if readable {
            "allowed"@
        } else {
            "denied"@
        }),
        r.1 == (if readable {
            0i32
        } else {
            1
        }),
{
    if readable {
        ("allowed", 0)
    } else {
        ("denied", 1)
    }
}

} // verus!
