//! The status channel: one line of text that the responder and the editor
//! write and that the editor shows. The last write wins.

use vstd::prelude::*;

verus! {

/// The status register. It is empty until the first write and is never
/// reset but by a new write.
#[derive(Debug)]
pub struct StatusChannel {
    text: String,
}

impl View for StatusChannel {
    type V = Seq<char>;

    closed spec fn view(&self) -> Seq<char> {
        self.text@
    }
}

impl StatusChannel {
    /// An empty register.
    pub fn new() -> (status: StatusChannel)
        ensures
            status@ == Seq::<char>::empty(),
    {
        StatusChannel { text: String::new() }
    }

    /// Overwrites the register with `text`.
    pub fn set(&mut self, text: String)
        ensures
            final(self)@ == text@,
    {
        self.text = text;
    }

    /// Writes `update` if there is one, and leaves the register as it is if
    /// there is none.
    pub fn apply(&mut self, update: Option<String>)
        ensures
            final(self)@ == match update {
                Some(text) => text@,
                None => old(self)@,
            },
    {
        match update {
            Some(text) => {
                self.text = text;
            },
            None => {},
        }
    }

    /// The text written last.
    pub fn get(&self) -> (text: String)
        ensures
            text@ == self@,
    {
        self.text.clone()
    }
}

/// The status after a trigger for `word` has fired.
pub open spec fn found_text(word: Seq<char>) -> Seq<char> {
    "Found \""@ + word + "\"."@
}

/// The status after the connection has been established as `identity`.
pub open spec fn connected_text(identity: Seq<char>) -> Seq<char> {
    "Connected as "@ + identity
}

/// The status while a start request is carried out.
pub open spec fn starting_text() -> Seq<char> {
    "Starting Bot"@
}

/// The status after a start request that was turned down because a run is
/// under way.
pub open spec fn busy_text() -> Seq<char> {
    "Bot is already running"@
}

/// The status that the responder writes when its connection could not be
/// made or was lost.
pub open spec fn start_error_text() -> Seq<char> {
    "Error starting the bot."@
}

/// The status after the store could not take the editor's tables.
pub open spec fn save_failed_text() -> Seq<char> {
    "Failed to save"@
}

/// The status that the editor writes when it learns that the responder's
/// run has ended in an error.
pub open spec fn failure_text() -> Seq<char> {
    "Failed to start the bot. Make sure you have the correct token"@
}

/// The status after the editor's tables have been stored.
pub open spec fn saved_text() -> Seq<char> {
    "Saved"@
}

/// Builds the status for a fired trigger.
pub fn found_status(word: &str) -> (text: String)
    ensures
        text@ == found_text(word@),
{
    let mut text = String::from_str("Found \"");
    text.append(word);
    text.append("\".");
    text
}

/// Builds the status for an established connection.
pub fn connected_status(identity: &str) -> (text: String)
    ensures
        text@ == connected_text(identity@),
{
    let mut text = String::from_str("Connected as ");
    text.append(identity);
    text
}

/// Builds the status for a start request that is carried out.
pub fn starting_status() -> (text: String)
    ensures
        text@ == starting_text(),
{
    String::from_str("Starting Bot")
}

/// Builds the status for a start request that is turned down.
pub fn busy_status() -> (text: String)
    ensures
        text@ == busy_text(),
{
    String::from_str("Bot is already running")
}

/// Builds the status that the responder writes for a failed connection.
pub fn start_error_status() -> (text: String)
    ensures
        text@ == start_error_text(),
{
    String::from_str("Error starting the bot.")
}

/// Builds the status for a save that the store did not take.
pub fn save_failed_status() -> (text: String)
    ensures
        text@ == save_failed_text(),
{
    String::from_str("Failed to save")
}

/// Builds the status that the editor writes for a failed run.
pub fn failure_status() -> (text: String)
    ensures
        text@ == failure_text(),
{
    String::from_str("Failed to start the bot. Make sure you have the correct token")
}

/// Builds the status for stored tables.
pub fn saved_status() -> (text: String)
    ensures
        text@ == saved_text(),
{
    String::from_str("Saved")
}

} // verus!
