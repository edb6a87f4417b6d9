//! What the program was started as: one binary is both the player and its decode
//! process.

use vstd::prelude::*;

use crate::engine::export;
use crate::engine::export::parse_i64;
use crate::text;
use crate::text::{chars, same};

verus! {

/// What the program was started as.
#[derive(Debug, Clone, PartialEq, Eq)]
pub enum Mode {
    /// The player, with something to open if it was named.
    Player(Option<String>),
    /// A decode process, on the socket with this number.
    Decoder(i32),
    /// A process that confines itself and then tries to read a path.
    Selftest(String),
}

/// The number of a descriptor that a text spells, if it does.
pub open spec fn descriptor(s: Seq<char>) -> Option<i32> {
    match export::number(s) {
        Some(n) if 0 <= n <= i32::MAX => Some(n as i32),
        _ => None,
    }
}

/// What the arguments behind the program's name ask for.
pub open spec fn asked_for(args: Seq<String>) -> Mode {
    if args.len() >= 2 && args[0]@ == "--decode-worker"@ && descriptor(args[1]@) is Some {
        Mode::Decoder(descriptor(args[1]@)->0)
    } else if args.len() >= 2 && args[0]@ == "--sandbox-selftest"@ {
        Mode::Selftest(args[1])
    } else if args.len() >= 1 {
        Mode::Player(Some(args[0]))
    } else {
        Mode::Player(None)
    }
}

/// Read the arguments behind the program's name.
pub fn mode(args: &Vec<String>) -> (r: Mode)
    ensures
        r == asked_for(args@),
{
    if args.len() == 0 {
        return Mode::Player(None);
    }
    if args.len() >= 2 {
        if same(args[0].as_str(), "--decode-worker") {
            let v: Vec<char> = chars(args[1].as_str());
            if let Some(n) = parse_i64(&v) {
                if 0 <= n && n <= i32::MAX as i64 {
                    return Mode::Decoder(n as i32);
                }
            }
        }
        if same(args[0].as_str(), "--sandbox-selftest") {
            return Mode::Selftest(args[1].clone());
        }
    }
    Mode::Player(Some(args[0].clone()))
}

/// A decoder is started with the descriptor that it is handed, the player with what it is
/// to open, if anything; and an option without what it needs is taken for a file.
pub proof fn lemma_what_is_started(args: Seq<String>, n: i32)
    requires
        n >= 0,
    ensures
        args.len() == 0 ==> asked_for(args) == Mode::Player(None),
        args.len() == 1 ==> asked_for(args) == Mode::Player(Some(args[0])),
        args.len() >= 2 && args[0]@ == "--decode-worker"@ && args[1]@ == text::decimal(n as nat)
            ==> asked_for(args) == Mode::Decoder(n),
        args.len() >= 2 && args[0]@ == "--sandbox-selftest"@ ==> asked_for(args) == Mode::Selftest(
            args[1],
        ),
        args.len() >= 2 && args[0]@ != "--decode-worker"@ && args[0]@ != "--sandbox-selftest"@
            ==> asked_for(args) == Mode::Player(Some(args[0])),
{
    text::lemma_signs(n as int);
    reveal_strlit("--decode-worker");
    reveal_strlit("--sandbox-selftest");
    assert("--decode-worker"@.len() == 15 && "--sandbox-selftest"@.len() == 18);
}

/// A descriptor is a whole number that is not negative and fits in 32 bits.
pub proof fn lemma_descriptors(n: int)
    ensures
        0 <= n <= i32::MAX ==> descriptor(text::signed_decimal(n)) == Some(n as i32),
        n < 0 || n > i32::MAX ==> descriptor(text::signed_decimal(n)) is None,
{
    text::lemma_signs(n);
}

} // verus!
