use rustpbx::console::addons::string_le;
use rustpbx::text::{find_char, is_whitespace, strip_end, trim};

#[test]
fn whitespace_matches_char_is_whitespace() {
    for code in 0u32..=0x10FFFF {
        if let Some(c) = char::from_u32(code) {
            assert_eq!(is_whitespace(c), c.is_whitespace(), "U+{:04X}", code);
        }
    }
}

#[test]
fn trim_matches_str_trim() {
    for s in ["", " ", "  a  ", "\u{3000}x\u{85}", "a b", "\t\n", " \u{a0}y z\u{2029}"] {
        assert_eq!(trim(s), s.trim());
    }
}

#[test]
fn strip_end_and_find() {
    assert_eq!(strip_end("/a///", '/'), "/a");
    assert_eq!(strip_end("///", '/'), "");
    assert_eq!(strip_end("abc", '/'), "abc");
    assert_eq!(find_char("a:b:c", ':'), Some(1));
    assert_eq!(find_char("中文:x", ':'), Some(2));
    assert_eq!(find_char("abc", ':'), None);
}

#[test]
fn string_order_matches_str_order() {
    let words = ["", "a", "A", "ab", "b", "ba", "é", "中", "a\u{0}", "zz", "Z"];
    for a in words {
        for b in words {
            assert_eq!(string_le(a, b), a <= b, "{:?} <= {:?}", a, b);
        }
    }
}
