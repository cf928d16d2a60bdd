use soundboard::text::{
    chars_of, contains, digit, matches_at, only_numeric, push_line, starts_with,
};

fn chars(s: &str) -> Vec<char> {
    s.chars().collect()
}

#[test]
fn chars_of_keeps_every_character_in_order() {
    assert_eq!(chars_of("héllo"), vec!['h', 'é', 'l', 'l', 'o']);
    assert_eq!(chars_of(""), Vec::<char>::new());
}

#[test]
fn matches_at_compares_at_the_given_offset() {
    let text = chars("that oof hurts");
    let word = chars("oof");
    assert!(matches_at(&text, &word, 5));
    assert!(!matches_at(&text, &word, 4));
    assert!(!matches_at(&text, &word, 0));
    assert!(matches_at(&text, &word, 5) && matches_at(&text, &chars(""), 14));
}

#[test]
fn contains_finds_a_word_at_the_start_in_the_middle_and_at_the_end() {
    assert!(contains(&chars("oof that hurts"), &chars("oof")));
    assert!(contains(&chars("that oof hurts"), &chars("oof")));
    assert!(contains(&chars("that hurts oof"), &chars("oof")));
    assert!(contains(&chars("oof"), &chars("oof")));
}

#[test]
fn contains_rejects_what_is_not_contiguous() {
    assert!(!contains(&chars("o of"), &chars("oof")));
    assert!(!contains(&chars("of"), &chars("oof")));
    assert!(!contains(&chars("ofo"), &chars("oof")));
    assert!(!contains(&chars(""), &chars("oof")));
}

#[test]
fn contains_is_case_sensitive_on_its_own() {
    assert!(!contains(&chars("OOF"), &chars("oof")));
}

#[test]
fn contains_finds_the_empty_word_everywhere() {
    assert!(contains(&chars("abc"), &chars("")));
    assert!(contains(&chars(""), &chars("")));
}

#[test]
fn contains_handles_overlapping_prefixes() {
    assert!(contains(&chars("ooof"), &chars("oof")));
    assert!(contains(&chars("aab"), &chars("ab")));
}

#[test]
fn starts_with_tests_the_prefix() {
    assert!(starts_with("Bot Token", "Bot"));
    assert!(starts_with("Bot", "Bot"));
    assert!(!starts_with("Bo", "Bot"));
    assert!(!starts_with("a Bot", "Bot"));
    assert!(!starts_with("bot token", "Bot"));
    assert!(starts_with("anything", ""));
}

#[test]
fn only_numeric_accepts_digits() {
    assert!(only_numeric("123"));
    assert!(only_numeric("0"));
    assert!(only_numeric("731582250257973271"));
}

#[test]
fn only_numeric_accepts_the_empty_text() {
    assert!(only_numeric(""));
}

#[test]
fn only_numeric_rejects_letters_signs_and_blanks() {
    assert!(!only_numeric("12a"));
    assert!(!only_numeric("a12"));
    assert!(!only_numeric("-12"));
    assert!(!only_numeric("1 2"));
    assert!(!only_numeric("general"));
}

#[test]
fn only_numeric_rejects_numbers_that_are_no_decimal_digits() {
    assert!(!only_numeric("¾"));
    assert!(!only_numeric("٣"));
    assert!(!only_numeric("①"));
    assert!(!only_numeric("三"));
    assert!(!only_numeric("12¾"));
}

#[test]
fn digit_accepts_zero_to_nine_only() {
    for c in "0123456789".chars() {
        assert!(digit(c));
    }
    for c in ['/', ':', 'a', ' ', '-', '¾', '٣'] {
        assert!(!digit(c));
    }
}

#[test]
fn push_line_appends_the_piece_and_one_line_break() {
    let mut text = String::from("body");
    push_line(&mut text, "title");
    assert_eq!(text, "bodytitle\n");
    push_line(&mut text, "");
    assert_eq!(text, "bodytitle\n\n");
}
