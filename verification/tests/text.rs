use ahenk_tui::text::{
    chars_of, contains, decimal_i64, decimal_u64, is_white, keep_present, rfind, trim,
};

#[test]
fn white_space_is_what_unicode_says() {
    for code in 0..=0x10ffffu32 {
        if let Some(c) = char::from_u32(code) {
            assert_eq!(is_white(c), c.is_whitespace(), "U+{code:04X}");
        }
    }
}

#[test]
fn trim_takes_white_space_off_both_ends() {
    for s in ["", " ", "\t \n", "a", "  a b  ", "\u{3000}é\u{a0}", "no", "\u{200b} x"] {
        assert_eq!(trim(s), s.trim());
        assert_eq!(trim(trim(s)), trim(s));
    }
    assert_eq!(trim("  /ip4/1.2.3.4 \n"), "/ip4/1.2.3.4");
}

#[test]
fn rfind_finds_the_last_occurrence() {
    assert_eq!(rfind("/p2p/a/p2p/b", "/p2p/"), Some(6));
    assert_eq!(rfind("/p2p/p2p/", "/p2p/"), Some(4));
    assert_eq!(rfind("é/p2p/", "/p2p/"), Some(1));
    assert_eq!(rfind("abc", "abcd"), None);
    assert_eq!(rfind("abc", "x"), None);
    assert_eq!(rfind("abc", ""), Some(3));
    assert_eq!(rfind("", ""), Some(0));
}

#[test]
fn contains_finds_any_occurrence() {
    for s in ["", "ERROR", "an ERROR here", "ERRO", "interrupt", "aaab", "éerr"] {
        for pattern in ["", "ERROR", "err", "aab", "é"] {
            assert_eq!(contains(s, pattern), s.contains(pattern), "{s:?} {pattern:?}");
        }
    }
}

#[test]
fn numbers_in_decimal() {
    for n in [0, 1, 9, 10, 99, 100, 1024, u64::MAX] {
        assert_eq!(decimal_u64(n), n.to_string());
    }
    for n in [0, 7, -7, -10, 1_700_000_000, i64::MAX, i64::MIN] {
        assert_eq!(decimal_i64(n), n.to_string());
    }
}

#[test]
fn absent_items_are_dropped() {
    assert_eq!(keep_present(vec![Some(1), None, Some(3), None]), vec![1, 3]);
    assert_eq!(keep_present(Vec::<Option<u8>>::new()), Vec::<u8>::new());
}

#[test]
fn strings_are_taken_apart() {
    assert_eq!(chars_of("aé🟢"), vec!['a', 'é', '🟢']);
}
