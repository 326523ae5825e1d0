use fgp::text::{appended, decimal_text, find_char, has_prefix, replace_char, same_text};

#[test]
fn replace_char_matches_std_replace() {
    for s in ["", "a.b", "...", "no dots", "tr\u{e4}il."] {
        assert_eq!(replace_char(s, '.', "_"), s.replace('.', "_"));
        assert_eq!(replace_char(s, '.', "<>"), s.replace('.', "<>"));
        assert_eq!(replace_char(s, '.', ""), s.replace('.', ""));
    }
}

#[test]
fn find_char_gives_the_first_position() {
    assert_eq!(find_char("a_b_c", '_'), Some(1));
    assert_eq!(find_char("_", '_'), Some(0));
    assert_eq!(find_char("abc", '_'), None);
    assert_eq!(find_char("", '_'), None);
    assert_eq!(find_char("\u{e9}\u{e9}_", '_'), Some(2));
}

#[test]
fn has_prefix_matches_std_starts_with() {
    for (s, p) in [("fgp_x", "fgp_"), ("fgp", "fgp_"), ("", ""), ("abc", ""), ("xfgp_", "fgp_")] {
        assert_eq!(has_prefix(s, p), s.starts_with(p));
    }
}

#[test]
fn same_text_and_concat() {
    assert!(same_text("health", "health"));
    assert!(!same_text("health", "healthy"));
    assert_eq!(appended("ab", "cd"), "abcd");
    assert_eq!(appended("", ""), "");
}

#[test]
fn decimal_text_writes_numbers() {
    for n in [0u32, 1, 9, 10, 11, 99, 100, 101, 32603, 4294967295] {
        assert_eq!(decimal_text(n), n.to_string());
    }
}
