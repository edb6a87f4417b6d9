use myvid::ui::keys::{chord, Key, Modifiers, Named};

const CTRL: Modifiers = Modifiers { command: true };
const SHIFT: Modifiers = Modifiers { command: false };
const EMPTY: Modifiers = Modifiers { command: false };

fn character(text: &str) -> Key {
    Key::Character(text.into())
}

#[test]
fn reads_a_ctrl_chord_reported_as_a_modifier() {
    let (letter, ctrl) = chord(&character("l"), CTRL);
    assert_eq!(letter.as_deref(), Some("l"));
    assert!(ctrl);
}

/// Some compositors send Ctrl+L as U+000C with no modifier set. Missing this
/// spelling is what made Ctrl+L seek forward instead of opening a URL.
#[test]
fn reads_a_ctrl_chord_reported_as_a_control_character() {
    let (letter, ctrl) = chord(&character("\u{c}"), EMPTY);
    assert_eq!(letter.as_deref(), Some("l"));
    assert!(ctrl);

    let (letter, ctrl) = chord(&character("\u{f}"), EMPTY);
    assert_eq!(letter.as_deref(), Some("o"));
    assert!(ctrl);
}

#[test]
fn leaves_plain_keys_unmodified() {
    let (letter, ctrl) = chord(&character("l"), EMPTY);
    assert_eq!(letter.as_deref(), Some("l"));
    assert!(!ctrl);
}

#[test]
fn folds_shifted_letters_to_lowercase() {
    let (letter, _) = chord(&character("O"), SHIFT);
    assert_eq!(letter.as_deref(), Some("o"));
}

#[test]
fn ignores_keys_that_are_not_single_characters() {
    assert_eq!(chord(&Key::Named(Named::Space), EMPTY).0, None);
    assert_eq!(chord(&character("ab"), EMPTY).0, None);
}

#[test]
fn every_control_character_is_a_chord_of_its_letter() {
    for (n, letter) in ('a'..='z').enumerate() {
        let control = char::from_u32(n as u32 + 1).unwrap();
        let typed = chord(&character(&control.to_string()), EMPTY);
        assert_eq!(typed, (Some(letter.to_string()), true));
    }
    assert_eq!(chord(&character("\u{1b}"), EMPTY), (Some("\u{1b}".to_owned()), false));
    assert_eq!(chord(&Key::Unidentified, CTRL), (None, true));
}
