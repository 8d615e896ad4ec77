use window_view::text::is_blank;

#[test]
fn empty_text_is_blank() {
    assert!(is_blank(""));
}

#[test]
fn white_space_is_blank() {
    assert!(is_blank(" "));
    assert!(is_blank(" \t\r\n "));
    assert!(is_blank("\u{2003}\u{00a0}\u{3000}"));
}

#[test]
fn text_with_a_letter_is_not_blank() {
    assert!(!is_blank("a"));
    assert!(!is_blank("  select 1  "));
    assert!(!is_blank("\n\n;"));
    assert!(!is_blank("   \u{200b}"));
}
