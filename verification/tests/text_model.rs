use db2lib::text::{
    chars_equal, chars_of, contains_char, find_char, find_white, is_whitespace, join_chars,
    split_chars, trim_range,
};

#[test]
fn whitespace_matches_std_for_every_char() {
    for v in 0u32..=0x10FFFF {
        if let Some(c) = char::from_u32(v) {
            assert_eq!(is_whitespace(c), c.is_whitespace(), "U+{:04X}", v);
        }
    }
}

#[test]
fn trim_matches_std() {
    for s in ["", "  ", " a ", "\u{3000}x y\u{2028}", "\t\r\nabc\u{85}", "abc"] {
        let cs = chars_of(s);
        let t: String = trim_range(&cs, 0, cs.len()).into_iter().collect();
        assert_eq!(t, s.trim());
    }
}

#[test]
fn split_and_join_match_std() {
    for s in ["", ";", "a;b", "a;;b;", ";x"] {
        let cs = chars_of(s);
        let parts = split_chars(&cs, ';');
        let expected: Vec<Vec<char>> = s.split(';').map(|p| p.chars().collect()).collect();
        assert_eq!(parts, expected);
        let joined: String = join_chars(&parts, ';').into_iter().collect();
        assert_eq!(joined, s);
    }
}

#[test]
fn searching_characters() {
    let cs = chars_of("ab=c d=");
    assert_eq!(find_char(&cs, '='), 2);
    assert_eq!(find_char(&cs, 'z'), cs.len());
    assert_eq!(find_white(&cs), 4);
    assert!(contains_char(&cs, 'd'));
    assert!(!contains_char(&cs, 'x'));
    assert!(chars_equal(&cs, &['a', 'b', '=', 'c', ' ', 'd', '=']));
    assert!(!chars_equal(&cs, &['a']));
}
