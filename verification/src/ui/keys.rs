//! What a key press says: the letter it stands for, and whether it is a chord.

use vstd::prelude::*;

use crate::text;
use crate::text::{chars, lowercase_char};

verus! {

/// The keys with a name of their own that mean something here.
#[derive(Debug, Clone, Copy, PartialEq, Eq, Structural)]
pub enum Named {
    Space,
    ArrowLeft,
    ArrowRight,
    ArrowUp,
    ArrowDown,
    Escape,
    /// Any other.
    Other,
}

/// A key, as it is reported.
#[derive(Debug, Clone, PartialEq, Eq)]
pub enum Key {
    Named(Named),
    /// A key that types something, and what it types.
    Character(String),
    Unidentified,
}

/// What was held down with a key.
#[derive(Debug, Clone, Copy, PartialEq, Eq, Structural)]
pub struct Modifiers {
    /// The modifier that commands are given with: Ctrl, on most systems.
    pub command: bool,
}

/// What happened to a key.
#[derive(Debug, Clone, PartialEq, Eq)]
pub enum KeyEvent {
    Pressed { key: Key, modifiers: Modifiers },
    /// It was let go, or the modifiers changed.
    Other,
}

/// Whether a character is what a control chord types: Ctrl+A is 0x01 through Ctrl+Z
/// at 0x1A.
pub open spec fn is_control(c: char) -> bool {
    1 <= c as u32 <= 26
}

/// The letter that a key stands for, where it is one character: for a control
/// character the letter it is the chord of, for any other its lowercase.
pub open spec fn letter(key: Key) -> Option<Seq<char>> {
    match key {
        Key::Character(typed) => if typed@.len() == 1 {
            if is_control(typed@[0]) {
                Some(seq![(96 + typed@[0] as u32) as char])
            } else {
                Some(text::char_to_lowercase(typed@[0]))
            }
        } else {
            None
        },
        _ => None,
    }
}

/// Whether a key press is a chord: by its modifier, or by what it types.
pub open spec fn is_chord(key: Key, modifiers: Modifiers) -> bool {
    modifiers.command || (key matches Key::Character(typed) && typed@.len() == 1 && is_control(
        typed@[0],
    ))
}

/// The letter a key press represents, and whether Ctrl was held.
///
/// Compositors disagree about Ctrl chords: some deliver Ctrl+L as `l` with a Ctrl
/// modifier, others as the control character U+000C with no modifier set at all.
pub fn chord(key: &Key, modifiers: Modifiers) -> (r: (Option<String>, bool))
    ensures
        r.0.deep_view() == letter(*key),
        r.1 == is_chord(*key, modifiers),
        key matches Key::Character(typed) ==> (typed@.len() == 1 && (typed@[0] as u32) < 128
            && !is_control(typed@[0]) ==> letter(*key) == Some(
            seq![text::ascii_lower(typed@[0])],
        )),
{
    let typed: &String = match key {
        Key::Character(typed) => typed,
        _ => {
            return (None, modifiers.command);
        },
    };
    let v: Vec<char> = chars(typed.as_str());
    if v.len() != 1 {
        return (None, modifiers.command);
    }
    let c: char = v[0];
    let code: u32 = c as u32;
    if 1 <= code && code <= 26 {
        let plain: u8 = 96 + code as u8;
        let mut r: String = String::new();
        r.push(plain as char);
        proof {
            assert(r@ =~= seq![(96 + code) as char]);
        }
        return (Some(r), true);
    }
    (Some(lowercase_char(c)), modifiers.command)
}

/// The two spellings of a Ctrl chord say the same: the letter with the modifier, and
/// the control character without it.
pub proof fn lemma_both_spellings_agree(spelled: Key, control: Key, c: char)
    requires
        'a' <= c <= 'z',
        spelled matches Key::Character(typed) && typed@ == seq![c],
        control matches Key::Character(typed) && typed@ == seq![(c as u32 - 96) as char],
    ensures
        letter(control) == Some(seq![c]),
        text::char_to_lowercase(c) == seq![c] ==> letter(spelled) == letter(control),
        is_chord(spelled, Modifiers { command: true }),
        is_chord(control, Modifiers { command: false }),
{
    let low = (c as u32 - 96) as char;
    assert(low as u32 == c as u32 - 96);
    assert((96 + low as u32) as char == c);
}

} // verus!
