use detectors::text::{
    chars_of, contains, find, head_lines_spaced, span_text, split_lines, strip_line_comment,
    trimmed_starts_with,
};

fn s(v: &[char]) -> String {
    v.iter().collect()
}

#[test]
fn lines_follow_str_lines() {
    for text in ["", "a", "a\n", "a\r\nb", "\n\nx\r", "one\ntwo\r\n\r\nthree\n", "\r\n"] {
        let got: Vec<String> = split_lines(&chars_of(text)).iter().map(|l| s(l)).collect();
        let want: Vec<String> = text.lines().map(|l| l.to_string()).collect();
        assert_eq!(got, want, "lines of {:?}", text);
    }
}

#[test]
fn find_gives_leftmost_occurrence() {
    let hay = chars_of("abcabc");
    assert_eq!(find(&hay, &chars_of("bc")), Some(1));
    assert_eq!(find(&hay, &chars_of("")), Some(0));
    assert_eq!(find(&hay, &chars_of("cab")), Some(2));
    assert_eq!(find(&hay, &chars_of("abcabcd")), None);
    assert!(contains(&hay, "cabc"));
    assert!(!contains(&hay, "cb"));
}

#[test]
fn comments_stripped_from_lines() {
    assert_eq!(s(&strip_line_comment(&chars_of("x = 1; // note // more"))), "x = 1; ");
    assert_eq!(s(&strip_line_comment(&chars_of("no comment"))), "no comment");
    assert_eq!(s(&strip_line_comment(&chars_of("/ / not one"))), "/ / not one");
}

#[test]
fn span_text_selects_and_joins_lines() {
    let src = chars_of("l0\nl1 // c\r\nl2\nl3");
    assert_eq!(s(&span_text(&src, 1, 2, false)), "l1 // c\nl2");
    assert_eq!(s(&span_text(&src, 1, 2, true)), "l1 \nl2");
    assert_eq!(s(&span_text(&src, 2, 1, false)), "");
    assert_eq!(s(&span_text(&src, 3, 4, false)), "");
    assert_eq!(s(&span_text(&src, 0, 3, false)), "l0\nl1 // c\nl2\nl3");
}

#[test]
fn signature_area_is_first_five_lines() {
    let src = chars_of("a\nb\nc\nd\ne\nf\ng");
    assert_eq!(s(&head_lines_spaced(&src)), "a b c d e");
    assert_eq!(s(&head_lines_spaced(&chars_of("x\ny"))), "x y");
}

#[test]
fn unicode_whitespace_trimmed() {
    assert!(trimmed_starts_with(&chars_of("\u{2003}\t modifier x"), "modifier "));
    assert!(!trimmed_starts_with(&chars_of("_modifier x"), "modifier "));
}

#[test]
fn whitespace_matches_std() {
    for v in 0u32..=0x10FFFF {
        if let Some(c) = char::from_u32(v) {
            assert_eq!(detectors::text::char_is_whitespace(c), c.is_whitespace(), "{:#x}", v);
        }
    }
}
