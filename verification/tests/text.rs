use hybrid_asr::text::{contains_text, is_white_space, reads_in_lower_case, trim};

#[test]
fn white_space_is_that_of_the_language() {
    for c in '\0'..=char::MAX {
        assert_eq!(is_white_space(c), c.is_whitespace(), "{c:?}");
    }
}

#[test]
fn text_is_trimmed_at_both_ends_only() {
    assert_eq!(trim("\u{3000}\u{2009} 你 好\t\r\n"), "你 好");
    assert_eq!(trim(" \u{feff} "), "\u{feff}");
    assert_eq!(trim(" \u{85}\u{a0}"), "");
}

#[test]
fn pieces_are_found_anywhere() {
    assert!(contains_text("invalid status 401 given", "401"));
    assert!(contains_text("401", "401"));
    assert!(contains_text("状态 4401", "401"));
    assert!(contains_text("anything", ""));
    assert!(!contains_text("40", "401"));
    assert!(!contains_text("4041", "401"));
    assert!(!contains_text("", "401"));
}

#[test]
fn only_ascii_letters_are_lowered() {
    assert!(reads_in_lower_case("Sentence", "sentence"));
    assert!(reads_in_lower_case("SENTENCE", "sentence"));
    assert!(reads_in_lower_case("ZÄ", "zÄ"));
    assert!(!reads_in_lower_case("ZÄ", "zä"));
    assert!(!reads_in_lower_case("sentences", "sentence"));
    assert!(!reads_in_lower_case("sentenc", "sentence"));
}
