//! Comparing and cutting text.
use acosmi::shared::text::characters;
use acosmi::shared::text::same_text;
use acosmi::shared::text::text_after;
use acosmi::shared::text::trim_slashes;
use acosmi::shared::text::trim_text;

#[test]
fn white_space_around_a_text_is_cut() {
    for text in ["", " ", " a b ", "\t\n a\u{3000}", "\u{85}\u{a0}x\u{2003}", "\u{200b}x", "a"] {
        assert_eq!(trim_text(text), text.trim());
    }
}

#[test]
fn every_white_space_is_known() {
    for n in 0..=0x10ffff_u32 {
        if let Some(c) = char::from_u32(n) {
            if c.is_whitespace() || n < 0x500 || (0x2000..0x3100).contains(&n) {
                let text = c.to_string();
                assert_eq!(trim_text(&text).is_empty(), c.is_whitespace(), "{n:x}");
            }
        }
    }
}

#[test]
fn slashes_at_the_end_are_cut() {
    for text in ["", "/", "//", "/a/", "/a//b//", "a"] {
        assert_eq!(trim_slashes(text), text.trim_end_matches('/'));
    }
}

#[test]
fn head_of_a_text_is_cut() {
    assert_eq!(text_after("abc", "ab"), Some("c"));
    assert_eq!(text_after("abc", ""), Some("abc"));
    assert_eq!(text_after("abc", "abc"), Some(""));
    assert_eq!(text_after("abc", "b"), None);
    assert_eq!(text_after("ab", "abc"), None);
    assert_eq!(text_after("\u{4e2d}\u{6587}", "\u{4e2d}"), Some("\u{6587}"));
}

#[test]
fn texts_are_compared() {
    assert!(same_text("", ""));
    assert!(same_text("\u{4e2d}a", "\u{4e2d}a"));
    assert!(!same_text("a", "b"));
    assert!(!same_text("a", "ab"));
    assert_eq!(characters("a\u{4e2d}"), ['a', '\u{4e2d}']);
}
