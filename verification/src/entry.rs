//! One row of the editor: a trigger that is being edited or shown.

use crate::style::Theme;
use crate::text::{lowercase, to_lowercase};
use crate::word::{Word, WordView};
use vstd::prelude::*;

verus! {

/// What the operator did to a row.
#[derive(Debug)]
pub enum EntryMessage {
    /// Asked to pick the sound file.
    ChooseFile,
    /// Typed into the word field.
    WordChanged(String),
    /// Typed into the channel field.
    ChnIdChanged(String),
    /// Asked to edit the row.
    Edit,
    /// Asked to leave editing.
    DoneEditing,
    /// Asked to delete the row. The board that holds the rows does that.
    Delete,
    /// Left the file dialog, with a path or with `"-1"` for none.
    ChoseFile(String),
}

/// What the caller has to do after a row has handled a message.
#[derive(Debug, Clone, Copy, PartialEq, Eq, Structural)]
pub enum EntryCommand {
    /// Nothing.
    Nothing,
    /// Open the file dialog and report back with `EntryMessage::ChoseFile`.
    ChooseFile,
}

/// A row of the editor.
#[derive(Debug)]
pub struct Entry {
    /// The colour scheme of the row.
    pub style: Theme,
    /// The position that the row was made for.
    pub index: usize,
    /// The trigger that the row holds.
    pub word: Word,
    /// Whether the row is being edited or only shown.
    pub editing: bool,
}

/// A row as the contracts see it.
pub struct EntryView {
    pub index: usize,
    pub word: WordView,
    pub editing: bool,
}

/// The text with which the file dialog reports that nothing was picked.
pub open spec fn no_file() -> Seq<char> {
    "-1"@
}

impl EntryView {
    /// The row after the word field has been typed into: the word is kept
    /// in lowercase.
    pub open spec fn with_word(self, typed: Seq<char>) -> EntryView {
        EntryView {
            index: self.index,
            word: WordView { word: lowercase(typed), chn_id: self.word.chn_id, path: self.word.path },
            editing: self.editing,
        }
    }

    /// The row after the channel field has been typed into.
    pub open spec fn with_chn_id(self, typed: Seq<char>) -> EntryView {
        EntryView {
            index: self.index,
            word: WordView { word: self.word.word, chn_id: typed, path: self.word.path },
            editing: self.editing,
        }
    }

    /// The row after the file dialog has reported `picked`.
    pub open spec fn with_file(self, picked: Seq<char>) -> EntryView {
        if picked == no_file() {
            self
        } else {
            EntryView {
                index: self.index,
                word: WordView { word: self.word.word, chn_id: self.word.chn_id, path: picked },
                editing: self.editing,
            }
        }
    }

    /// The row after a request to edit it.
    pub open spec fn opened(self) -> EntryView {
        EntryView { index: self.index, word: self.word, editing: true }
    }

    /// The row after a request to leave editing: it is left only with a
    /// well-formed trigger.
    pub open spec fn closed_if_valid(self) -> EntryView {
        if self.word.is_valid() {
            EntryView { index: self.index, word: self.word, editing: false }
        } else {
            self
        }
    }

    /// The row after it has handled `message`.
    pub open spec fn after(self, message: EntryMessage) -> EntryView {
        match message {
            EntryMessage::ChooseFile => self,
            EntryMessage::WordChanged(typed) => self.with_word(typed@),
            EntryMessage::ChnIdChanged(typed) => self.with_chn_id(typed@),
            EntryMessage::Edit => self.opened(),
            EntryMessage::DoneEditing => self.closed_if_valid(),
            EntryMessage::Delete => self,
            EntryMessage::ChoseFile(picked) => self.with_file(picked@),
        }
    }
}

impl Clone for EntryMessage {
    fn clone(&self) -> (message: EntryMessage)
        ensures
            message == *self,
    {
        match self {
            EntryMessage::ChooseFile => EntryMessage::ChooseFile,
            EntryMessage::WordChanged(typed) => EntryMessage::WordChanged(typed.clone()),
            EntryMessage::ChnIdChanged(typed) => EntryMessage::ChnIdChanged(typed.clone()),
            EntryMessage::Edit => EntryMessage::Edit,
            EntryMessage::DoneEditing => EntryMessage::DoneEditing,
            EntryMessage::Delete => EntryMessage::Delete,
            EntryMessage::ChoseFile(picked) => EntryMessage::ChoseFile(picked.clone()),
        }
    }
}

impl View for Entry {
    type V = EntryView;

    open spec fn view(&self) -> EntryView {
        EntryView { index: self.index, word: self.word@, editing: self.editing }
    }
}

impl DeepView for Entry {
    type V = EntryView;

    open spec fn deep_view(&self) -> EntryView {
        self@
    }
}

impl Clone for Entry {
    fn clone(&self) -> (entry: Entry)
        ensures
            entry == *self,
    {
        Entry {
            style: self.style,
            index: self.index,
            word: self.word.clone(),
            editing: self.editing,
        }
    }
}

impl Entry {
    /// A blank row at position `index`, open for editing.
    pub fn new(index: usize) -> (entry: Entry)
        ensures
            entry@ == (EntryView { index, word: Word::default_view(), editing: true }),
    {
        Entry { style: Theme::Dark, index, word: Word::default(), editing: true }
    }

    /// A blank row at position `index` that is shown, not edited.
    pub fn new_idle(index: usize) -> (entry: Entry)
        ensures
            entry@ == (EntryView { index, word: Word::default_view(), editing: false }),
    {
        Entry { style: Theme::Dark, index, word: Word::default(), editing: false }
    }

    /// Handles what the operator did to the row.
    pub fn update(&mut self, message: EntryMessage) -> (command: EntryCommand)
        ensures
            final(self)@ == old(self)@.after(message),
            command == if message is ChooseFile {
                EntryCommand::ChooseFile
            } else {
                EntryCommand::Nothing
            },
    {
        match message {
            EntryMessage::Delete => {},
            EntryMessage::WordChanged(typed) => {
                self.word.word = to_lowercase(typed.as_str());
            },
            EntryMessage::ChnIdChanged(typed) => {
                self.word.chn_id = typed;
            },
            EntryMessage::Edit => {
                self.editing = true;
            },
            EntryMessage::DoneEditing => {
                if self.word.is_valid() {
                    self.editing = false;
                }
            },
            EntryMessage::ChooseFile => {
                return EntryCommand::ChooseFile;
            },
            EntryMessage::ChoseFile(picked) => {
                let none = String::from_str("-1");
                if picked != none {
                    self.word.path = picked;
                }
            },
        }
        EntryCommand::Nothing
    }
}

} // verus!
