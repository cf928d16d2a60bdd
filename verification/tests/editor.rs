use soundboard::black_word::{BlackWordEntry, BlackWordMessage};
use soundboard::entry::{Entry, EntryCommand, EntryMessage};
use soundboard::style::Theme;

#[test]
fn theme_defaults_to_dark() {
    assert_eq!(Theme::default(), Theme::Dark);
}

#[test]
fn new_entry_is_blank_and_open() {
    let entry = Entry::new(4);
    assert_eq!(entry.index, 4);
    assert!(entry.editing);
    assert_eq!(entry.word.word, "");
    assert_eq!(entry.word.chn_id, "");
    assert_eq!(entry.word.path, "Path");
    assert_eq!(entry.style, Theme::Dark);
}

#[test]
fn new_idle_entry_is_blank_and_shown() {
    let entry = Entry::new_idle(2);
    assert_eq!(entry.index, 2);
    assert!(!entry.editing);
    assert_eq!(entry.word.path, "Path");
}

#[test]
fn typed_word_is_kept_in_lowercase() {
    let mut entry = Entry::new(0);
    let command = entry.update(EntryMessage::WordChanged("OoF".to_string()));
    assert_eq!(command, EntryCommand::Nothing);
    assert_eq!(entry.word.word, "oof");
    assert!(entry.editing);
}

#[test]
fn typed_channel_is_kept_as_typed() {
    let mut entry = Entry::new(0);
    entry.update(EntryMessage::ChnIdChanged("12A".to_string()));
    assert_eq!(entry.word.chn_id, "12A");
}

#[test]
fn choose_file_asks_for_the_dialog() {
    let mut entry = Entry::new(0);
    assert_eq!(entry.update(EntryMessage::ChooseFile), EntryCommand::ChooseFile);
    assert_eq!(entry.word.path, "Path");
}

#[test]
fn chosen_file_becomes_the_path() {
    let mut entry = Entry::new(0);
    entry.update(EntryMessage::ChoseFile("/sounds/oof.wav".to_string()));
    assert_eq!(entry.word.path, "/sounds/oof.wav");
}

#[test]
fn cancelled_dialog_keeps_the_path() {
    let mut entry = Entry::new(0);
    entry.update(EntryMessage::ChoseFile("/sounds/oof.wav".to_string()));
    entry.update(EntryMessage::ChoseFile("-1".to_string()));
    assert_eq!(entry.word.path, "/sounds/oof.wav");
}

#[test]
fn editing_is_left_with_a_valid_word() {
    let mut entry = Entry::new(0);
    entry.update(EntryMessage::WordChanged("oof".to_string()));
    entry.update(EntryMessage::ChnIdChanged("123".to_string()));
    let command = entry.update(EntryMessage::DoneEditing);
    assert_eq!(command, EntryCommand::Nothing);
    assert!(!entry.editing);
}

#[test]
fn editing_is_left_with_an_unscoped_word() {
    let mut entry = Entry::new(0);
    entry.update(EntryMessage::WordChanged("lol".to_string()));
    entry.update(EntryMessage::DoneEditing);
    assert!(!entry.editing);
}

#[test]
fn editing_is_not_left_with_a_malformed_word() {
    let mut entry = Entry::new(0);
    entry.update(EntryMessage::DoneEditing);
    assert!(entry.editing);
    entry.update(EntryMessage::WordChanged("oof".to_string()));
    entry.update(EntryMessage::ChnIdChanged("general".to_string()));
    entry.update(EntryMessage::DoneEditing);
    assert!(entry.editing);
    entry.update(EntryMessage::ChnIdChanged("123".to_string()));
    entry.update(EntryMessage::ChoseFile("-1".to_string()));
    entry.update(EntryMessage::DoneEditing);
    assert!(!entry.editing);
}

#[test]
fn editing_is_not_left_with_a_channel_that_is_no_decimal_number() {
    let mut entry = Entry::new(0);
    entry.update(EntryMessage::WordChanged("oof".to_string()));
    entry.update(EntryMessage::ChnIdChanged("¾".to_string()));
    entry.update(EntryMessage::DoneEditing);
    assert!(entry.editing);
}

#[test]
fn edit_opens_a_shown_entry() {
    let mut entry = Entry::new_idle(0);
    entry.update(EntryMessage::Edit);
    assert!(entry.editing);
}

#[test]
fn delete_is_left_to_the_board() {
    let mut entry = Entry::new_idle(3);
    entry.update(EntryMessage::WordChanged("oof".to_string()));
    let command = entry.update(EntryMessage::Delete);
    assert_eq!(command, EntryCommand::Nothing);
    assert_eq!(entry.word.word, "oof");
    assert_eq!(entry.index, 3);
    assert!(!entry.editing);
}

#[test]
fn entry_clone_copies_the_row() {
    let mut entry = Entry::new_idle(7);
    entry.update(EntryMessage::WordChanged("oof".to_string()));
    let copy = entry.clone();
    assert_eq!(copy.index, 7);
    assert_eq!(copy.word.word, "oof");
    assert!(!copy.editing);
}

#[test]
fn new_black_word_is_blank_and_open() {
    let entry = BlackWordEntry::new(1);
    assert_eq!(entry.index, 1);
    assert_eq!(entry.word, "");
    assert!(entry.editing);
}

#[test]
fn new_idle_black_word_is_blank_and_shown() {
    let entry = BlackWordEntry::new_idle(5);
    assert_eq!(entry.index, 5);
    assert_eq!(entry.word, "");
    assert!(!entry.editing);
}

#[test]
fn typed_black_word_is_kept_in_lowercase() {
    let mut entry = BlackWordEntry::new(0);
    entry.update(BlackWordMessage::WordChanged("SPAM".to_string()));
    assert_eq!(entry.word, "spam");
}

#[test]
fn black_word_editing_is_left_with_a_word_only() {
    let mut entry = BlackWordEntry::new(0);
    entry.update(BlackWordMessage::DoneEditing);
    assert!(entry.editing);
    entry.update(BlackWordMessage::WordChanged("spam".to_string()));
    entry.update(BlackWordMessage::DoneEditing);
    assert!(!entry.editing);
    entry.update(BlackWordMessage::Edit);
    assert!(entry.editing);
}

#[test]
fn black_word_delete_is_left_to_the_board() {
    let mut entry = BlackWordEntry::new(0);
    entry.update(BlackWordMessage::WordChanged("spam".to_string()));
    entry.update(BlackWordMessage::Delete);
    assert_eq!(entry.word, "spam");
    assert!(entry.editing);
}
