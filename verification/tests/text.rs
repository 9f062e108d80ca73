use std::path::Path;

use moltis::clock::{expires_at, stamp_of, unix_now};
use moltis::path::{extension_of, file_name_of};
use moltis::text::{
    ascii_alphanumeric, ascii_digit, behind_last, chars_of, contains, contains_char, cut,
    strip_prefix, to_decimal, to_lower, trim, white_space,
};

#[test]
fn character_classes_agree_with_the_standard_library() {
    for code in 0..=0x10ffffu32 {
        if let Some(c) = char::from_u32(code) {
            assert_eq!(white_space(c), c.is_whitespace(), "{code:x}");
            assert_eq!(ascii_digit(c), c.is_ascii_digit(), "{code:x}");
            assert_eq!(ascii_alphanumeric(c), c.is_ascii_alphanumeric(), "{code:x}");
        }
    }
}

#[test]
fn trimming_agrees_with_the_standard_library() {
    for text in ["", " ", "a", " a ", "\t\u{a0}a b\u{3000}\n", "\u{200b} x", "日本 "] {
        assert_eq!(trim(text), text.trim());
        assert_eq!(trim(trim(text)), trim(text));
    }
}

#[test]
fn lowering_agrees_with_the_standard_library() {
    for text in ["", "OGG", "MiXeD 1ß É", "@[`{"] {
        assert_eq!(to_lower(text), text.to_ascii_lowercase());
        assert_eq!(to_lower(&to_lower(text)), to_lower(text));
    }
}

#[test]
fn searching_agrees_with_the_standard_library() {
    for hay in ["", "a", "aab", "abab", "日本語"] {
        for needle in ["", "a", "ab", "aab", "bab", "本", "aaba"] {
            assert_eq!(contains(hay, needle), hay.contains(needle), "{hay} {needle}");
        }
        assert_eq!(contains_char(hay, 'b'), hay.contains('b'));
        assert_eq!(chars_of(hay), hay.chars().collect::<Vec<_>>());
    }
}

#[test]
fn cutting_texts() {
    assert_eq!(cut("a;b;c", ';'), ("a", Some("b;c")));
    assert_eq!(cut("abc", ';'), ("abc", None));
    assert_eq!(cut(";", ';'), ("", Some("")));
    assert_eq!(behind_last("a/b/c", '/'), "c");
    assert_eq!(behind_last("abc", '/'), "abc");
    assert_eq!(behind_last("a/", '/'), "");
    assert_eq!(strip_prefix("geo:1", "geo:"), Some("1"));
    assert_eq!(strip_prefix("geo", "geo:"), None);
    assert_eq!(strip_prefix("Geo:1", "geo:"), None);
}

#[test]
fn numbers_are_written_in_decimal() {
    for n in [0u32, 9, 10, 42, 99, 100, 1_000_000, u32::MAX] {
        assert_eq!(to_decimal(n), n.to_string());
    }
}

#[test]
fn file_names_and_extensions_of_paths() {
    let paths = [
        "", "/", ".", "..", "a", "a.b", "a.b.c", ".a", ".a.b", "a.", "..a", "...", "a/b.c", "a.b/c",
        "a.b/", "a.b//", "a.b/.", "a.b/./", "a.b/..", "/a.b/../c.d", "./a.b", "./.", "/./.",
        "a/./b.c/././", "日本.語", "a b.ogg ",
    ];
    for path in paths {
        let std_path = Path::new(path);
        assert_eq!(file_name_of(path), std_path.file_name().and_then(|n| n.to_str()), "{path}");
        assert_eq!(extension_of(path), std_path.extension().and_then(|e| e.to_str()), "{path}");
    }
}

#[test]
fn stamps_and_expiries() {
    assert_eq!(stamp_of(None), 0);
    assert_eq!(stamp_of(Some(1_700_000_000)), 1_700_000_000);
    assert_eq!(stamp_of(Some(u64::MAX)), -1);
    assert!(unix_now() > 1_700_000_000);
    assert_eq!(expires_at(1000, 300), 1300);
    assert_eq!(expires_at(i64::MAX - 1, 300), i64::MAX);
    assert_eq!(expires_at(0, u64::MAX), i64::MAX);
    assert_eq!(expires_at(-5, u64::MAX), i64::MAX - 5);
    assert_eq!(expires_at(-5, 3), -2);
}
