use cargo_toolchain::text::{has_prefix, is_whitespace, same_text, trim_end};

#[test]
fn has_prefix_agrees_with_starts_with() {
    let texts = ["", "a", "ab", "abc", "stable", "stable-x", "st\u{e4}ble", "\u{e4}", "\u{e4}b"];
    for text in texts {
        for prefix in texts {
            assert_eq!(has_prefix(text, prefix), text.starts_with(prefix), "{:?} {:?}", text, prefix);
        }
    }
}

#[test]
fn has_prefix_of_empty_and_of_itself() {
    assert!(has_prefix("nightly", ""));
    assert!(has_prefix("", ""));
    assert!(has_prefix("nightly", "nightly"));
    assert!(!has_prefix("night", "nightly"));
    assert!(!has_prefix("", "x"));
}

#[test]
fn same_text_is_equality() {
    assert!(same_text("-d", "-d"));
    assert!(same_text("", ""));
    assert!(!same_text("-d", "-h"));
    assert!(!same_text("-d", "-dd"));
    assert!(!same_text("-dd", "-d"));
    assert!(same_text("caf\u{e9}", "caf\u{e9}"));
    assert!(!same_text("caf\u{e9}", "cafe"));
}

#[test]
fn is_whitespace_agrees_with_std_on_every_character() {
    let mut code: u32 = 0;
    while code <= 0x10ffff {
        if let Some(c) = char::from_u32(code) {
            assert_eq!(is_whitespace(c), c.is_whitespace(), "U+{:04X}", code);
        }
        code += 1;
    }
}

#[test]
fn is_whitespace_on_chosen_characters() {
    assert!(is_whitespace(' '));
    assert!(is_whitespace('\n'));
    assert!(is_whitespace('\r'));
    assert!(is_whitespace('\t'));
    assert!(is_whitespace('\u{a0}'));
    assert!(is_whitespace('\u{3000}'));
    assert!(!is_whitespace('a'));
    assert!(!is_whitespace('-'));
    assert!(!is_whitespace('\u{8}'));
    assert!(!is_whitespace('\u{e}'));
    assert!(!is_whitespace('\u{200b}'));
}

#[test]
fn trim_end_takes_trailing_whitespace_only() {
    assert_eq!(trim_end("stable\n"), "stable");
    assert_eq!(trim_end("stable\r\n"), "stable");
    assert_eq!(trim_end("stable \t \n\n"), "stable");
    assert_eq!(trim_end("stable"), "stable");
    assert_eq!(trim_end("  stable  "), "  stable");
    assert_eq!(trim_end("a b\nc\n"), "a b\nc");
    assert_eq!(trim_end(""), "");
    assert_eq!(trim_end(" \n\t"), "");
    assert_eq!(trim_end("caf\u{e9}\u{3000}\u{a0}"), "caf\u{e9}");
    assert_eq!(trim_end("\u{e9}\n"), "\u{e9}");
}

#[test]
fn trim_end_agrees_with_std() {
    let texts = ["", "x", "x ", " x", "x\n\n", "\n", "x\u{2028}", "x\u{200b}", "\u{1680}x\u{1680}"];
    for text in texts {
        assert_eq!(trim_end(text), text.trim_end(), "{:?}", text);
    }
}
