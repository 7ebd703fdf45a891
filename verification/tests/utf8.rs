use rig_code::utf8::{byte_length, fitting_str};

#[test]
fn byte_length_counts_bytes_not_characters() {
    assert_eq!(byte_length(""), 0);
    assert_eq!(byte_length("abc"), 3);
    assert_eq!(byte_length("h\u{e9}llo"), 6);
    assert_eq!(byte_length("\u{1F600}"), 4);
}

#[test]
fn fitting_str_keeps_a_text_that_fits() {
    assert_eq!(fitting_str("hello", 5), "hello");
    assert_eq!(fitting_str("hello", 50), "hello");
    assert_eq!(fitting_str("", 0), "");
    assert_eq!(fitting_str("h\u{e9}", 3), "h\u{e9}");
}

#[test]
fn fitting_str_cuts_ascii_at_the_limit() {
    assert_eq!(fitting_str("hello", 4), "hell");
    assert_eq!(fitting_str("hello", 1), "h");
    assert_eq!(fitting_str("hello", 0), "");
}

#[test]
fn fitting_str_never_splits_a_character() {
    // two bytes each
    assert_eq!(fitting_str("\u{e9}\u{e9}\u{e9}", 5), "\u{e9}\u{e9}");
    assert_eq!(fitting_str("\u{e9}\u{e9}\u{e9}", 4), "\u{e9}\u{e9}");
    assert_eq!(fitting_str("\u{e9}\u{e9}\u{e9}", 3), "\u{e9}");
    assert_eq!(fitting_str("\u{e9}\u{e9}\u{e9}", 1), "");
    // three bytes each
    assert_eq!(fitting_str("\u{20AC}\u{20AC}", 5), "\u{20AC}");
    assert_eq!(fitting_str("\u{20AC}\u{20AC}", 4), "\u{20AC}");
    assert_eq!(fitting_str("\u{20AC}\u{20AC}", 2), "");
    // four bytes each
    assert_eq!(fitting_str("\u{1F600}\u{1F600}", 7), "\u{1F600}");
    assert_eq!(fitting_str("\u{1F600}\u{1F600}", 5), "\u{1F600}");
    assert_eq!(fitting_str("\u{1F600}\u{1F600}", 3), "");
    // mixed widths
    assert_eq!(fitting_str("a\u{e9}\u{20AC}\u{1F600}z", 9), "a\u{e9}\u{20AC}");
    assert_eq!(fitting_str("a\u{e9}\u{20AC}\u{1F600}z", 10), "a\u{e9}\u{20AC}\u{1F600}");
}

#[test]
fn fitting_str_leaves_fewer_than_four_bytes_unused() {
    let text = "a\u{e9}\u{20AC}\u{1F600}z\u{1F600}\u{e9}\u{e9}a\u{20AC}";
    for limit in 0..text.len() {
        let kept = fitting_str(text, limit);
        assert!(text.starts_with(kept));
        assert!(kept.len() <= limit);
        assert!(kept.len() + 4 > limit);
        assert!(text.is_char_boundary(kept.len()));
    }
}
