//! The editor's board: the rows being edited, the token, and what each
//! message of the editor does to them, to the status, to the current table
//! and to the responder.
//!
//! The board decides; it performs no input or output. Each message yields a
//! [`Command`] that tells the caller what to load, store or start next.

use crate::black_word::{BlackWordEntry, BlackWordEntryView, BlackWordMessage};
use crate::entry::{Entry, EntryCommand, EntryMessage, EntryView};
use crate::responder::{Lifecycle, Responder};
use crate::status::{
    busy_text, failure_status, failure_text, save_failed_status, save_failed_text, saved_status,
    saved_text, starting_text, StatusChannel,
};
use crate::style::Theme;
use crate::table::{
    lemma_report, rejection_text, report, table_valid, validate, TriggerTable,
};
use crate::text::starts_with;
use crate::word::{Word, WordView};
use vstd::prelude::*;

verus! {

/// What happened in the editor, or what came back from a command.
#[derive(Debug)]
pub enum Message {
    /// The stored token was loaded.
    GotToken(String),
    /// The stored triggers were loaded, as rows.
    GotEntries(Vec<Entry>),
    /// The stored blacklist was loaded, as rows.
    GotBlackEntries(Vec<BlackWordEntry>),
    /// The operator asked to start the responder.
    StartBotPressed,
    /// The operator typed into the token field.
    TokenChanged(String),
    /// The responder's run ended in an error.
    BotFailed,
    /// The operator asked to store the rows.
    Save,
    /// The rows were stored.
    Saved,
    /// The store did not take the rows. It holds what it held before.
    SaveFailed,
    /// The operator asked for a new trigger row.
    AddEntry,
    /// The operator asked for a new blacklist row.
    AddBlackWord,
    /// The operator did something to the trigger row at this position.
    EntryMessage(usize, EntryMessage),
    /// The operator did something to the blacklist row at this position.
    BlackWordMessage(usize, BlackWordMessage),
    /// The triggers were loaded again after a save.
    NewWords(Vec<Word>),
    /// The blacklist was loaded again after a save.
    NewBlackWords(Vec<String>),
}

/// What the caller has to do after the board has handled a message.
#[derive(Debug)]
pub enum Command {
    /// Nothing.
    Nothing,
    /// Load the stored triggers and report back with `Message::GotEntries`.
    LoadEntries,
    /// Load the stored blacklist and report back with
    /// `Message::GotBlackEntries`.
    LoadBlackEntries,
    /// Connect the responder with this token, and report back with
    /// `Message::BotFailed` when its run ends.
    StartBot { token: String, black_list: Vec<String> },
    /// Store the token, these triggers and this blacklist, all or nothing,
    /// and report back with `Message::Saved` or `Message::SaveFailed`.
    Save { token: String, words: Vec<Word>, black_list: Vec<String> },
    /// Load the stored triggers and report back with `Message::NewWords`.
    LoadWords,
    /// Load the stored blacklist and report back with
    /// `Message::NewBlackWords`.
    LoadBlacklist,
    /// Open the file dialog for the trigger row at this position and report
    /// back with `EntryMessage::ChoseFile`.
    ChooseFile(usize),
}

/// A command as the contracts see it.
pub enum CommandView {
    Nothing,
    LoadEntries,
    LoadBlackEntries,
    StartBot { token: Seq<char>, black_list: Seq<Seq<char>> },
    Save { token: Seq<char>, words: Seq<WordView>, black_list: Seq<Seq<char>> },
    LoadWords,
    LoadBlacklist,
    ChooseFile(usize),
}

impl View for Command {
    type V = CommandView;

    open spec fn view(&self) -> CommandView {
        match self {
            Command::Nothing => CommandView::Nothing,
            Command::LoadEntries => CommandView::LoadEntries,
            Command::LoadBlackEntries => CommandView::LoadBlackEntries,
            Command::StartBot { token, black_list } => CommandView::StartBot {
                token: token@,
                black_list: black_list.deep_view(),
            },
            Command::Save { token, words, black_list } => CommandView::Save {
                token: token@,
                words: words.deep_view(),
                black_list: black_list.deep_view(),
            },
            Command::LoadWords => CommandView::LoadWords,
            Command::LoadBlacklist => CommandView::LoadBlacklist,
            Command::ChooseFile(i) => CommandView::ChooseFile(*i),
        }
    }
}

/// The editor's board.
#[derive(Debug)]
pub struct SoundBoard {
    /// The colour scheme of the board.
    pub style: Theme,
    /// The token with which the responder connects.
    pub token_value: String,
    /// The trigger rows, in the order shown.
    pub entries: Vec<Entry>,
    /// The blacklist as it was last loaded.
    pub blacklist: Vec<String>,
    /// The blacklist rows, in the order shown.
    pub blacklist_entries: Vec<BlackWordEntry>,
}

/// The board as the contracts see it.
pub struct BoardView {
    pub token: Seq<char>,
    pub entries: Seq<EntryView>,
    pub blacklist: Seq<Seq<char>>,
    pub blacklist_entries: Seq<BlackWordEntryView>,
}

impl View for SoundBoard {
    type V = BoardView;

    open spec fn view(&self) -> BoardView {
        BoardView {
            token: self.token_value@,
            entries: self.entries.deep_view(),
            blacklist: self.blacklist.deep_view(),
            blacklist_entries: self.blacklist_entries.deep_view(),
        }
    }
}

/// What the board shares with the responder: the status line, the current
/// table, and where the responder stands.
pub struct Shared {
    pub status: Seq<char>,
    pub table: Seq<WordView>,
    pub lifecycle: Lifecycle,
}

/// The result of one message: the board and the shared state after it, and
/// the command for the caller.
pub struct Outcome {
    pub board: BoardView,
    pub shared: Shared,
    pub command: CommandView,
}

/// The placeholder that is loaded where no token is stored begins with this
/// text. Such a text is not taken for a token.
pub open spec fn placeholder_prefix() -> Seq<char> {
    "Bot"@
}

impl BoardView {
    /// The triggers of the rows, in the order of the rows: the candidate
    /// table of a save.
    pub open spec fn words(self) -> Seq<WordView> {
        self.entries.map_values(|e: EntryView| e.word)
    }

    /// The words of the blacklist rows, in the order of the rows.
    pub open spec fn black_words(self) -> Seq<Seq<char>> {
        self.blacklist_entries.map_values(|e: BlackWordEntryView| e.word)
    }

    /// The board with another token.
    pub open spec fn with_token(self, token: Seq<char>) -> BoardView {
        BoardView {
            token,
            entries: self.entries,
            blacklist: self.blacklist,
            blacklist_entries: self.blacklist_entries,
        }
    }

    /// The board with other trigger rows.
    pub open spec fn with_entries(self, entries: Seq<EntryView>) -> BoardView {
        BoardView {
            token: self.token,
            entries,
            blacklist: self.blacklist,
            blacklist_entries: self.blacklist_entries,
        }
    }

    /// The board with another loaded blacklist.
    pub open spec fn with_blacklist(self, blacklist: Seq<Seq<char>>) -> BoardView {
        BoardView {
            token: self.token,
            entries: self.entries,
            blacklist,
            blacklist_entries: self.blacklist_entries,
        }
    }

    /// The board with other blacklist rows.
    pub open spec fn with_blacklist_entries(
        self,
        blacklist_entries: Seq<BlackWordEntryView>,
    ) -> BoardView {
        BoardView {
            token: self.token,
            entries: self.entries,
            blacklist: self.blacklist,
            blacklist_entries,
        }
    }

    /// The board after a loaded token: the placeholder for a missing token
    /// is passed over.
    pub open spec fn after_token(self, token: Seq<char>) -> BoardView {
        if placeholder_prefix().is_prefix_of(token) {
            self
        } else {
            self.with_token(token)
        }
    }

    /// The board after a message for the trigger row at position `i`. A
    /// message for a row that is not there changes nothing.
    pub open spec fn after_entry_message(self, i: usize, message: EntryMessage) -> BoardView {
        if i >= self.entries.len() {
            self
        } else if message is Delete {
            self.with_entries(self.entries.remove(i as int))
        } else {
            self.with_entries(self.entries.update(i as int, self.entries[i as int].after(message)))
        }
    }

    /// The board after a message for the blacklist row at position `i`.
    pub open spec fn after_black_word_message(
        self,
        i: usize,
        message: BlackWordMessage,
    ) -> BoardView {
        if i >= self.blacklist_entries.len() {
            self
        } else if message is Delete {
            self.with_blacklist_entries(self.blacklist_entries.remove(i as int))
        } else {
            self.with_blacklist_entries(
                self.blacklist_entries.update(
                    i as int,
                    self.blacklist_entries[i as int].after(message),
                ),
            )
        }
    }

    /// The board with one more trigger row, blank and open for editing.
    pub open spec fn with_new_entry(self) -> BoardView {
        self.with_entries(
            self.entries.push(
                EntryView {
                    index: self.entries.len() as usize,
                    word: Word::default_view(),
                    editing: true,
                },
            ),
        )
    }

    /// The board with one more blacklist row, blank and open for editing.
    /// The row is numbered after the blacklist as it was last loaded.
    pub open spec fn with_new_black_word(self) -> BoardView {
        self.with_blacklist_entries(
            self.blacklist_entries.push(
                BlackWordEntryView {
                    index: self.blacklist.len() as usize,
                    word: Seq::empty(),
                    editing: true,
                },
            ),
        )
    }
}

impl Shared {
    /// The shared state with another status.
    pub open spec fn with_status(self, status: Seq<char>) -> Shared {
        Shared { status, table: self.table, lifecycle: self.lifecycle }
    }

    /// The shared state after a start request.
    pub open spec fn after_start(self) -> Shared {
        Shared {
            status: if self.lifecycle.busy() {
                busy_text()
            } else {
                starting_text()
            },
            table: self.table,
            lifecycle: self.lifecycle.after_start(),
        }
    }

    /// The shared state after the editor has learnt that the responder's
    /// run has failed.
    pub open spec fn after_failure(self) -> Shared {
        Shared {
            status: failure_text(),
            table: self.table,
            lifecycle: self.lifecycle.after_failure(),
        }
    }

    /// The shared state after `candidate` has been submitted as the new
    /// table: a valid candidate becomes current; any other is reported in
    /// the status and leaves the current table as it was.
    pub open spec fn after_submit(self, candidate: Seq<WordView>) -> Shared {
        if table_valid(candidate) {
            Shared { status: self.status, table: candidate, lifecycle: self.lifecycle }
        } else {
            self.with_status(rejection_text(report(candidate)))
        }
    }
}

/// What one message does.
pub open spec fn step(board: BoardView, shared: Shared, message: Message) -> Outcome {
    match message {
        Message::EntryMessage(i, m) => Outcome {
            board: board.after_entry_message(i, m),
            shared,
            command: if i < board.entries.len() && m is ChooseFile {
                CommandView::ChooseFile(i)
            } else {
                CommandView::Nothing
            },
        },
        Message::BlackWordMessage(i, m) => Outcome {
            board: board.after_black_word_message(i, m),
            shared,
            command: CommandView::Nothing,
        },
        Message::GotToken(token) => Outcome {
            board: board.after_token(token@),
            shared,
            command: CommandView::LoadEntries,
        },
        Message::GotEntries(entries) => Outcome {
            board: board.with_entries(entries.deep_view()),
            shared,
            command: CommandView::LoadBlackEntries,
        },
        Message::GotBlackEntries(entries) => Outcome {
            board: board.with_blacklist_entries(entries.deep_view()),
            shared,
            command: CommandView::Nothing,
        },
        Message::StartBotPressed => Outcome {
            board,
            shared: shared.after_start(),
            command: if shared.lifecycle.busy() {
                CommandView::Nothing
            } else {
                CommandView::StartBot { token: board.token, black_list: board.black_words() }
            },
        },
        Message::TokenChanged(token) => Outcome {
            board: board.with_token(token@),
            shared,
            command: CommandView::Nothing,
        },
        Message::Save => if table_valid(board.words()) {
            Outcome {
                board,
                shared,
                command: CommandView::Save {
                    token: board.token,
                    words: board.words(),
                    black_list: board.black_words(),
                },
            }
        } else {
            Outcome {
                board,
                shared: shared.with_status(rejection_text(report(board.words()))),
                command: CommandView::Nothing,
            }
        },
        Message::Saved => Outcome {
            board,
            shared: shared.with_status(saved_text()),
            command: CommandView::LoadWords,
        },
        Message::SaveFailed => Outcome {
            board,
            shared: shared.with_status(save_failed_text()),
            command: CommandView::Nothing,
        },
        Message::NewWords(words) => Outcome {
            board,
            shared: shared.after_submit(words.deep_view()),
            command: CommandView::LoadBlacklist,
        },
        Message::NewBlackWords(words) => Outcome {
            board: board.with_blacklist(words.deep_view()),
            shared,
            command: CommandView::Nothing,
        },
        Message::AddEntry => Outcome {
            board: board.with_new_entry(),
            shared,
            command: CommandView::Nothing,
        },
        Message::AddBlackWord => Outcome {
            board: board.with_new_black_word(),
            shared,
            command: CommandView::Nothing,
        },
        Message::BotFailed => Outcome {
            board,
            shared: shared.after_failure(),
            command: CommandView::Nothing,
        },
    }
}

impl Clone for Message {
    /// The copy is handled as the message it was made from, whatever the state.
    fn clone(&self) -> (message: Message)
        ensures
            forall|board: BoardView, shared: Shared| #[trigger]
                step(board, shared, message) == step(board, shared, *self),
    {
        match self {
            Message::GotToken(token) => Message::GotToken(token.clone()),
            Message::GotEntries(entries) => Message::GotEntries(entries.clone()),
            Message::GotBlackEntries(entries) => Message::GotBlackEntries(entries.clone()),
            Message::StartBotPressed => Message::StartBotPressed,
            Message::TokenChanged(token) => Message::TokenChanged(token.clone()),
            Message::BotFailed => Message::BotFailed,
            Message::Save => Message::Save,
            Message::Saved => Message::Saved,
            Message::SaveFailed => Message::SaveFailed,
            Message::AddEntry => Message::AddEntry,
            Message::AddBlackWord => Message::AddBlackWord,
            Message::EntryMessage(i, m) => Message::EntryMessage(*i, m.clone()),
            Message::BlackWordMessage(i, m) => Message::BlackWordMessage(*i, m.clone()),
            Message::NewWords(words) => Message::NewWords(words.clone()),
            Message::NewBlackWords(words) => Message::NewBlackWords(words.clone()),
        }
    }
}

/// A save that names a malformed or duplicated trigger stores nothing and
/// leaves the current table as it was; so does every message but a reload
/// of valid triggers.
pub proof fn lemma_table_changes_only_by_valid_reload(
    board: BoardView,
    shared: Shared,
    message: Message,
)
    ensures
        step(board, shared, message).shared.table == shared.table || (message matches Message::NewWords(
            words,
        ) && table_valid(words.deep_view()) && step(board, shared, message).shared.table
            == words.deep_view()),
        message is Save && !table_valid(board.words()) ==> step(board, shared, message).command
            == CommandView::Nothing,
{
}

/// Copies the triggers out of the rows.
pub fn collect_words(entries: &Vec<Entry>) -> (words: Vec<Word>)
    ensures
        words.deep_view() == entries.deep_view().map_values(|e: EntryView| e.word),
{
    let ghost rows = entries.deep_view();
    let mut words: Vec<Word> = Vec::new();
    let mut i: usize = 0;
    while i < entries.len()
        invariant
            i <= entries.len(),
            rows == entries.deep_view(),
            words.deep_view() == rows.take(i as int).map_values(|e: EntryView| e.word),
        decreases entries.len() - i,
    {
        let ghost before = words.deep_view();
        words.push(entries[i].word.clone());
        proof {
            assert(rows[i as int] == entries[i as int]@);
            assert(words.deep_view() =~= before.push(rows[i as int].word));
            assert(rows.take(i + 1) =~= rows.take(i as int).push(rows[i as int]));
            assert(words.deep_view() =~= rows.take(i + 1).map_values(|e: EntryView| e.word));
        }
        i += 1;
    }
    assert(rows.take(entries.len() as int) =~= rows);
    words
}

/// Copies the words out of the blacklist rows.
pub fn collect_black_words(entries: &Vec<BlackWordEntry>) -> (words: Vec<String>)
    ensures
        words.deep_view() == entries.deep_view().map_values(|e: BlackWordEntryView| e.word),
{
    let ghost rows = entries.deep_view();
    let mut words: Vec<String> = Vec::new();
    let mut i: usize = 0;
    while i < entries.len()
        invariant
            i <= entries.len(),
            rows == entries.deep_view(),
            words.deep_view() == rows.take(i as int).map_values(|e: BlackWordEntryView| e.word),
        decreases entries.len() - i,
    {
        let ghost before = words.deep_view();
        words.push(entries[i].word.clone());
        proof {
            assert(rows[i as int] == entries[i as int]@);
            assert(words.deep_view() =~= before.push(rows[i as int].word));
            assert(rows.take(i + 1) =~= rows.take(i as int).push(rows[i as int]));
            assert(words.deep_view() =~= rows.take(i + 1).map_values(
                |e: BlackWordEntryView| e.word,
            ));
        }
        i += 1;
    }
    assert(rows.take(entries.len() as int) =~= rows);
    words
}

impl SoundBoard {
    /// A board without rows and without a token, with the blacklist that
    /// was loaded at startup.
    pub fn new(blackwords: Vec<String>) -> (board: SoundBoard)
        ensures
            board@ == (BoardView {
                token: Seq::empty(),
                entries: Seq::empty(),
                blacklist: blackwords.deep_view(),
                blacklist_entries: Seq::empty(),
            }),
    {
        let board = SoundBoard {
            style: Theme::Dark,
            token_value: String::new(),
            entries: Vec::new(),
            blacklist: blackwords,
            blacklist_entries: Vec::new(),
        };
        assert(board.entries.deep_view() =~= Seq::<EntryView>::empty());
        assert(board.blacklist_entries.deep_view() =~= Seq::<BlackWordEntryView>::empty());
        board
    }

    /// The title of the editor's window.
    pub fn title(&self) -> (title: String)
        ensures
            title@ == "Sound Board"@,
    {
        String::from_str("Sound Board")
    }

    /// Handles a message for the trigger row at position `i`.
    fn entry_message(&mut self, i: usize, message: EntryMessage) -> (command: Command)
        ensures
            final(self)@ == old(self)@.after_entry_message(i, message),
            command@ == if i < old(self)@.entries.len() && message is ChooseFile {
                CommandView::ChooseFile(i)
            } else {
                CommandView::Nothing
            },
    {
        let ghost rows = self.entries.deep_view();
        if i >= self.entries.len() {
            return Command::Nothing;
        }
        let delete = match &message {
            EntryMessage::Delete => true,
            _ => false,
        };
        if delete {
            self.entries.remove(i);
            assert(self.entries.deep_view() =~= rows.remove(i as int));
            Command::Nothing
        } else {
            let ghost row = self.entries[i as int]@;
            assert(row == rows[i as int]);
            let asked = self.entries[i].update(message);
            assert(self.entries.deep_view() =~= rows.update(i as int, row.after(message)));
            match asked {
                EntryCommand::ChooseFile => Command::ChooseFile(i),
                EntryCommand::Nothing => Command::Nothing,
            }
        }
    }

    /// Handles a message for the blacklist row at position `i`.
    fn black_word_message(&mut self, i: usize, message: BlackWordMessage)
        ensures
            final(self)@ == old(self)@.after_black_word_message(i, message),
    {
        let ghost rows = self.blacklist_entries.deep_view();
        if i >= self.blacklist_entries.len() {
            return ;
        }
        let delete = match &message {
            BlackWordMessage::Delete => true,
            _ => false,
        };
        if delete {
            self.blacklist_entries.remove(i);
            assert(self.blacklist_entries.deep_view() =~= rows.remove(i as int));
        } else {
            let ghost row = self.blacklist_entries[i as int]@;
            assert(row == rows[i as int]);
            self.blacklist_entries[i].update(message);
            assert(self.blacklist_entries.deep_view() =~= rows.update(
                i as int,
                row.after(message),
            ));
        }
    }

    /// Handles a request to store the rows: a candidate table that is not
    /// valid is reported in the status, and nothing is to be stored.
    fn save(&self, status: &mut StatusChannel) -> (command: Command)
        ensures
            command@ == if table_valid(self@.words()) {
                CommandView::Save {
                    token: self@.token,
                    words: self@.words(),
                    black_list: self@.black_words(),
                }
            } else {
                CommandView::Nothing
            },
            final(status)@ == if table_valid(self@.words()) {
                old(status)@
            } else {
                rejection_text(report(self@.words()))
            },
    {
        let words = collect_words(&self.entries);
        match validate(&words) {
            Ok(()) => Command::Save {
                token: self.token_value.clone(),
                words,
                black_list: collect_black_words(&self.blacklist_entries),
            },
            Err(e) => {
                proof {
                    lemma_report(self@.words(), e);
                }
                status.set(e.describe());
                Command::Nothing
            },
        }
    }

    /// Handles one message of the editor.
    ///
    /// `status`, `table` and `responder` are the cells that the board shares
    /// with the responder; the caller holds them for the time of the call.
    pub fn update(
        &mut self,
        message: Message,
        status: &mut StatusChannel,
        table: &mut TriggerTable,
        responder: &mut Responder,
    ) -> (command: Command)
        ensures
            (Outcome {
                board: final(self)@,
                shared: Shared {
                    status: final(status)@,
                    table: final(table)@,
                    lifecycle: final(responder)@,
                },
                command: command@,
            }) == step(
                old(self)@,
                Shared { status: old(status)@, table: old(table)@, lifecycle: old(responder)@ },
                message,
            ),
    {
        match message {
            Message::EntryMessage(i, m) => self.entry_message(i, m),
            Message::BlackWordMessage(i, m) => {
                self.black_word_message(i, m);
                Command::Nothing
            },
            Message::GotToken(token) => {
                if !starts_with(token.as_str(), "Bot") {
                    self.token_value = token;
                }
                Command::LoadEntries
            },
            Message::GotEntries(entries) => {
                self.entries = entries;
                Command::LoadBlackEntries
            },
            Message::GotBlackEntries(entries) => {
                self.blacklist_entries = entries;
                Command::Nothing
            },
            Message::StartBotPressed => {
                if responder.request_start(status) {
                    Command::StartBot {
                        token: self.token_value.clone(),
                        black_list: collect_black_words(&self.blacklist_entries),
                    }
                } else {
                    Command::Nothing
                }
            },
            Message::TokenChanged(token) => {
                self.token_value = token;
                Command::Nothing
            },
            Message::Save => self.save(status),
            Message::Saved => {
                status.set(saved_status());
                Command::LoadWords
            },
            Message::SaveFailed => {
                status.set(save_failed_status());
                Command::Nothing
            },
            Message::NewWords(words) => {
                let ghost candidate = words.deep_view();
                match table.submit(words) {
                    Ok(()) => {},
                    Err(e) => {
                        proof {
                            lemma_report(candidate, e);
                        }
                        status.set(e.describe());
                    },
                }
                Command::LoadBlacklist
            },
            Message::NewBlackWords(words) => {
                self.blacklist = words;
                Command::Nothing
            },
            Message::AddEntry => {
                let ghost rows = self.entries.deep_view();
                let entry = Entry::new(self.entries.len());
                self.entries.push(entry);
                assert(self.entries.deep_view() =~= rows.push(entry@));
                Command::Nothing
            },
            Message::AddBlackWord => {
                let ghost rows = self.blacklist_entries.deep_view();
                let entry = BlackWordEntry::new(self.blacklist.len());
                self.blacklist_entries.push(entry);
                assert(self.blacklist_entries.deep_view() =~= rows.push(entry@));
                Command::Nothing
            },
            Message::BotFailed => {
                responder.failed(status);
                status.set(failure_status());
                Command::Nothing
            },
        }
    }
}

} // verus!
