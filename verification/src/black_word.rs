//! One row of the editor's blacklist: a word that is being edited or shown.
//!
//! The blacklist is kept and stored with the triggers. The matcher does not
//! consult it.

use crate::style::Theme;
use crate::text::{lowercase, to_lowercase};
use vstd::prelude::*;

verus! {

/// What the operator did to a blacklist row.
#[derive(Debug)]
pub enum BlackWordMessage {
    /// Typed into the word field.
    WordChanged(String),
    /// Asked to edit the row.
    Edit,
    /// Asked to leave editing.
    DoneEditing,
    /// Asked to delete the row. The board that holds the rows does that.
    Delete,
}

impl Clone for BlackWordMessage {
    fn clone(&self) -> (message: BlackWordMessage)
        ensures
            message == *self,
    {
        match self {
            BlackWordMessage::WordChanged(typed) => BlackWordMessage::WordChanged(typed.clone()),
            BlackWordMessage::Edit => BlackWordMessage::Edit,
            BlackWordMessage::DoneEditing => BlackWordMessage::DoneEditing,
            BlackWordMessage::Delete => BlackWordMessage::Delete,
        }
    }
}

/// A row of the blacklist.
#[derive(Debug)]
pub struct BlackWordEntry {
    /// The colour scheme of the row.
    pub style: Theme,
    /// The position that the row was made for.
    pub index: usize,
    /// The blacklisted word.
    pub word: String,
    /// Whether the row is being edited or only shown.
    pub editing: bool,
}

/// A blacklist row as the contracts see it.
pub struct BlackWordEntryView {
    pub index: usize,
    pub word: Seq<char>,
    pub editing: bool,
}

impl BlackWordEntryView {
    /// The row after it has handled `message`. Typing keeps the word in
    /// lowercase; editing is left only with a word that is not blank.
    pub open spec fn after(self, message: BlackWordMessage) -> BlackWordEntryView {
        match message {
            BlackWordMessage::WordChanged(typed) => BlackWordEntryView {
                index: self.index,
                word: lowercase(typed@),
                editing: self.editing,
            },
            BlackWordMessage::Edit => BlackWordEntryView {
                index: self.index,
                word: self.word,
                editing: true,
            },
            BlackWordMessage::DoneEditing => if self.word.len() > 0 {
                BlackWordEntryView { index: self.index, word: self.word, editing: false }
            } else {
                self
            },
            BlackWordMessage::Delete => self,
        }
    }
}

impl View for BlackWordEntry {
    type V = BlackWordEntryView;

    open spec fn view(&self) -> BlackWordEntryView {
        BlackWordEntryView { index: self.index, word: self.word@, editing: self.editing }
    }
}

impl DeepView for BlackWordEntry {
    type V = BlackWordEntryView;

    open spec fn deep_view(&self) -> BlackWordEntryView {
        self@
    }
}

impl Clone for BlackWordEntry {
    fn clone(&self) -> (entry: BlackWordEntry)
        ensures
            entry == *self,
    {
        BlackWordEntry {
            style: self.style,
            index: self.index,
            word: self.word.clone(),
            editing: self.editing,
        }
    }
}

impl BlackWordEntry {
    /// A blank row at position `index`, open for editing.
    pub fn new(index: usize) -> (entry: BlackWordEntry)
        ensures
            entry@ == (BlackWordEntryView { index, word: Seq::empty(), editing: true }),
    {
        BlackWordEntry { style: Theme::Dark, index, word: String::new(), editing: true }
    }

    /// A blank row at position `index` that is shown, not edited.
    pub fn new_idle(index: usize) -> (entry: BlackWordEntry)
        ensures
            entry@ == (BlackWordEntryView { index, word: Seq::empty(), editing: false }),
    {
        BlackWordEntry { style: Theme::Dark, index, word: String::new(), editing: false }
    }

    /// Handles what the operator did to the row.
    pub fn update(&mut self, message: BlackWordMessage)
        ensures
            final(self)@ == old(self)@.after(message),
    {
        match message {
            BlackWordMessage::Delete => {},
            BlackWordMessage::WordChanged(typed) => {
                self.word = to_lowercase(typed.as_str());
            },
            BlackWordMessage::Edit => {
                self.editing = true;
            },
            BlackWordMessage::DoneEditing => {
                if !self.word.as_str().is_empty() {
                    self.editing = false;
                }
            },
        }
    }
}

} // verus!
