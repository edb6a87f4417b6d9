use myvid::launch::{mode, Mode};
use myvid::text::{
    contains, ends_with, found_at, push_decimal, push_signed, push_two_digits, same, space,
    starts_with, trim,
};

fn chars(s: &str) -> Vec<char> {
    s.chars().collect()
}

#[test]
fn trimming_is_what_the_standard_library_trims() {
    for s in ["", " ", " a ", "\u{a0}a\u{3000}", "a b", "\u{200b}a", "\t\r\nx\u{85}"] {
        assert_eq!(trim(s), s.trim(), "{s:?}");
    }
}

#[test]
fn white_space_is_what_the_standard_library_calls_it() {
    for c in (0..0x3100).filter_map(char::from_u32) {
        assert_eq!(space(c), c.is_whitespace(), "{c:?}");
    }
}

#[test]
fn searching_finds_every_place() {
    let hay = chars("abcabc");
    assert!(contains(&hay, "cab") && contains(&hay, "") && !contains(&hay, "cb"));
    assert!(starts_with(&hay, "abc") && !starts_with(&hay, "bc"));
    assert!(ends_with(&hay, "bc") && !ends_with(&hay, "xabcabc"));
    assert!(found_at(&hay, &chars("abc"), 3) && !found_at(&hay, &chars("abc"), 4));
    assert!(!found_at(&hay, &chars("a"), usize::MAX));
    assert!(same("a", "a") && !same("a", "A"));
}

#[test]
fn numbers_are_written_in_decimal() {
    let mut s = String::new();
    push_decimal(&mut s, u128::MAX);
    assert_eq!(s, u128::MAX.to_string());
    let mut s = String::new();
    push_signed(&mut s, i64::MIN);
    assert_eq!(s, i64::MIN.to_string());
    let mut s = String::from("x");
    push_two_digits(&mut s, 0);
    push_two_digits(&mut s, 9);
    push_two_digits(&mut s, 123);
    assert_eq!(s, "x0009123");
}

#[test]
fn one_binary_is_player_and_decoder() {
    let args = |list: &[&str]| list.iter().map(|s| s.to_string()).collect::<Vec<String>>();
    assert_eq!(mode(&args(&[])), Mode::Player(None));
    assert_eq!(mode(&args(&["film.mkv"])), Mode::Player(Some("film.mkv".to_owned())));
    assert_eq!(mode(&args(&["--decode-worker", "7"])), Mode::Decoder(7));
    assert_eq!(
        mode(&args(&["--sandbox-selftest", "/tmp"])),
        Mode::Selftest("/tmp".to_owned())
    );
    assert_eq!(
        mode(&args(&["--decode-worker", "-1"])),
        Mode::Player(Some("--decode-worker".to_owned()))
    );
}
