//! The trigger: a word to look for, the channel it is scoped to, and the
//! sound to play when it is found.

use crate::text::{all_numeric, only_numeric};
use vstd::prelude::*;

verus! {

/// One trigger rule.
///
/// `word` is the text searched for; the editor stores it in lowercase.
/// `chn_id` is the channel the rule is scoped to; left blank, the rule is
/// unscoped and applies in every channel. `path` names the sound file.
#[derive(Debug)]
pub struct Word {
    pub word: String,
    pub chn_id: String,
    pub path: String,
}

/// A trigger as three sequences of characters.
pub struct WordView {
    pub word: Seq<char>,
    pub chn_id: Seq<char>,
    pub path: Seq<char>,
}

impl WordView {
    /// One of the three fields is blank.
    pub open spec fn is_empty(self) -> bool {
        self.word.len() == 0 || self.path.len() == 0 || self.chn_id.len() == 0
    }

    /// The rule is restricted to one channel.
    pub open spec fn scoped(self) -> bool {
        self.chn_id.len() > 0
    }

    /// The channel identifier is composed only of digits. An unscoped
    /// rule has no identifier to object to.
    pub open spec fn id_numeric(self) -> bool {
        all_numeric(self.chn_id)
    }

    /// Well-formed: a word to look for, a sound to play, and, when scoped,
    /// a channel identifier composed only of digits.
    pub open spec fn is_valid(self) -> bool {
        &&& self.word.len() > 0
        &&& self.path.len() > 0
        &&& self.id_numeric()
    }

    /// The rule applies to messages of `channel`.
    pub open spec fn covers(self, channel: Seq<char>) -> bool {
        !self.scoped() || self.chn_id == channel
    }

    /// Two rules with the same word and the same scope: a table holds at
    /// most one of them.
    pub open spec fn same_key(self, other: WordView) -> bool {
        self.word == other.word && self.chn_id == other.chn_id
    }
}

impl View for Word {
    type V = WordView;

    open spec fn view(&self) -> WordView {
        WordView { word: self.word@, chn_id: self.chn_id@, path: self.path@ }
    }
}

impl DeepView for Word {
    type V = WordView;

    open spec fn deep_view(&self) -> WordView {
        self@
    }
}

impl Default for Word {
    /// A blank rule whose sound still has to be chosen.
    fn default() -> (w: Word)
        ensures
            w@ == Word::default_view(),
    {
        Word { word: String::new(), chn_id: String::new(), path: String::from_str("Path") }
    }
}

impl Clone for Word {
    fn clone(&self) -> (w: Word)
        ensures
            w == *self,
    {
        Word { word: self.word.clone(), chn_id: self.chn_id.clone(), path: self.path.clone() }
    }
}

impl Word {
    /// The blank rule: no word, no channel, and `Path` where the sound file
    /// will be named.
    pub open spec fn default_view() -> WordView {
        WordView { word: Seq::empty(), chn_id: Seq::empty(), path: "Path"@ }
    }

    /// Tests whether one of the three fields is blank.
    pub fn is_empty(&self) -> (b: bool)
        ensures
            b == self@.is_empty(),
    {
        self.word.as_str().is_empty() || self.path.as_str().is_empty() || self.chn_id.as_str().is_empty()
    }

    /// Determines whether the channel identifier is composed only of digits.
    pub fn id_numeric(&self) -> (b: bool)
        ensures
            b == self@.id_numeric(),
    {
        only_numeric(self.chn_id.as_str())
    }

    /// Tests whether the rule is well-formed.
    pub fn is_valid(&self) -> (b: bool)
        ensures
            b == self@.is_valid(),
    {
        !self.word.as_str().is_empty() && !self.path.as_str().is_empty() && self.id_numeric()
    }

    /// Tests whether `self` and `other` have the same word and scope.
    pub fn same_key(&self, other: &Word) -> (b: bool)
        ensures
            b == self@.same_key(other@),
    {
        self.word == other.word && self.chn_id == other.chn_id
    }
}

} // verus!
