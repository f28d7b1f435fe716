use slam_viz::text::{chars_of, is_whitespace, split_chars, trim_chars};

#[test]
fn whitespace_matches_std() {
    for u in 0u32..0x3100 {
        if let Some(c) = char::from_u32(u) {
            assert_eq!(is_whitespace(c), c.is_whitespace(), "{:x}", u);
        }
    }
}

#[test]
fn trim_matches_std() {
    for s in ["", "  ", " a b ", "\tx\r\n", "x", "\u{2003}y\u{205f}"] {
        let c: Vec<char> = s.chars().collect();
        let t: String = trim_chars(&c).into_iter().collect();
        assert_eq!(t, s.trim());
    }
}

#[test]
fn split_matches_std() {
    for s in ["", ",", "a,b", "a,,b,", ",x"] {
        let c: Vec<char> = s.chars().collect();
        let parts: Vec<String> = split_chars(&c, ',').into_iter().map(|p| p.into_iter().collect()).collect();
        let expected: Vec<String> = s.split(',').map(|p| p.to_string()).collect();
        assert_eq!(parts, expected);
    }
}

#[test]
fn chars_in_order() {
    assert_eq!(chars_of("añb"), vec!['a', 'ñ', 'b']);
}
