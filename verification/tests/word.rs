use soundboard::word::Word;

fn rule(word: &str, chn_id: &str, path: &str) -> Word {
    Word { word: word.to_string(), chn_id: chn_id.to_string(), path: path.to_string() }
}

#[test]
fn default_word_is_blank_with_a_placeholder_path() {
    let w = Word::default();
    assert_eq!(w.word, "");
    assert_eq!(w.chn_id, "");
    assert_eq!(w.path, "Path");
}

#[test]
fn default_word_is_not_valid() {
    assert!(!Word::default().is_valid());
    assert!(Word::default().is_empty());
}

#[test]
fn scoped_word_with_numeric_channel_is_valid() {
    let w = rule("oof", "123", "oof.wav");
    assert!(w.is_valid());
    assert!(!w.is_empty());
    assert!(w.id_numeric());
}

#[test]
fn unscoped_word_is_valid() {
    let w = rule("lol", "", "lol.wav");
    assert!(w.is_valid());
    assert!(w.id_numeric());
}

#[test]
fn is_empty_tells_a_blank_field() {
    assert!(rule("", "123", "oof.wav").is_empty());
    assert!(rule("oof", "", "oof.wav").is_empty());
    assert!(rule("oof", "123", "").is_empty());
    assert!(!rule("oof", "123", "oof.wav").is_empty());
}

#[test]
fn word_without_text_is_not_valid() {
    assert!(!rule("", "123", "oof.wav").is_valid());
}

#[test]
fn word_without_path_is_not_valid() {
    assert!(!rule("oof", "123", "").is_valid());
}

#[test]
fn word_with_non_numeric_channel_is_not_valid() {
    let w = rule("oof", "general", "oof.wav");
    assert!(!w.id_numeric());
    assert!(!w.is_valid());
    assert!(!rule("oof", "12three", "oof.wav").is_valid());
}

#[test]
fn word_scoped_to_a_fraction_sign_is_not_valid() {
    let w = rule("oof", "¾", "oof.wav");
    assert!(!w.id_numeric());
    assert!(!w.is_valid());
}

#[test]
fn same_key_compares_word_and_channel() {
    let a = rule("oof", "123", "a.wav");
    assert!(a.same_key(&rule("oof", "123", "b.wav")));
    assert!(!a.same_key(&rule("oof", "456", "a.wav")));
    assert!(!a.same_key(&rule("oof", "", "a.wav")));
    assert!(!a.same_key(&rule("lol", "123", "a.wav")));
}

#[test]
fn clone_copies_all_three_fields() {
    let a = rule("oof", "123", "oof.wav");
    let b = a.clone();
    assert_eq!(b.word, "oof");
    assert_eq!(b.chn_id, "123");
    assert_eq!(b.path, "oof.wav");
}
