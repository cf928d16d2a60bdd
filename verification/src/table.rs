//! The trigger table: the ordered rules that are current, the checks a
//! candidate table has to pass, and the whole-table replace.

use crate::word::{Word, WordView};
use std::sync::Arc;
use vstd::prelude::*;

verus! {

/// Why a candidate table is turned down. Positions count from zero, in the
/// order of the candidate.
#[derive(Debug, Clone, Copy, PartialEq, Eq, Structural)]
pub enum TableError {
    /// The entry at this position has no word.
    EmptyWord(usize),
    /// The entry at this position has no sound file.
    EmptyPath(usize),
    /// The entry at this position is scoped to a channel identifier that is
    /// not composed only of digits.
    NonNumericChannel(usize),
    /// The entries at these two positions have the same word and scope.
    DuplicateKey(usize, usize),
}

/// Every entry is well-formed.
pub open spec fn all_valid(table: Seq<WordView>) -> bool {
    forall|i: int| 0 <= i < table.len() ==> (#[trigger] table[i]).is_valid()
}

/// No two entries have the same word and scope.
pub open spec fn unique_keys(table: Seq<WordView>) -> bool {
    forall|i: int, j: int|
        0 <= i < j < table.len() ==> !(#[trigger] table[i]).same_key(#[trigger] table[j])
}

/// What a table has to satisfy to become current.
pub open spec fn table_valid(table: Seq<WordView>) -> bool {
    all_valid(table) && unique_keys(table)
}

/// `e` is the report owed for `table`.
///
/// A malformed entry is reported before any duplicate, the first malformed
/// entry before later ones, and of one entry the missing word before the
/// missing sound before the channel identifier. A duplicate is reported at
/// the first entry that repeats an earlier key, together with the first
/// entry whose key it repeats.
pub open spec fn rejected_for(table: Seq<WordView>, e: TableError) -> bool {
    match e {
        TableError::EmptyWord(i) => {
            &&& i < table.len()
            &&& all_valid(table.take(i as int))
            &&& table[i as int].word.len() == 0
        },
        TableError::EmptyPath(i) => {
            &&& i < table.len()
            &&& all_valid(table.take(i as int))
            &&& table[i as int].word.len() > 0
            &&& table[i as int].path.len() == 0
        },
        TableError::NonNumericChannel(i) => {
            &&& i < table.len()
            &&& all_valid(table.take(i as int))
            &&& table[i as int].word.len() > 0
            &&& table[i as int].path.len() > 0
            &&& !table[i as int].id_numeric()
        },
        TableError::DuplicateKey(i, j) => {
            &&& all_valid(table)
            &&& i < j < table.len()
            &&& unique_keys(table.take(j as int))
            &&& table[i as int].same_key(table[j as int])
            &&& forall|a: int| 0 <= a < i ==> !(#[trigger] table[a]).same_key(table[j as int])
        },
    }
}

/// A table with an entry that lacks its word or its sound, or that is
/// scoped to a channel identifier with a character that is no digit, is not valid; nor is
/// a table with two entries of the same word and scope.
pub proof fn lemma_invalid_entries(table: Seq<WordView>, i: int, j: int)
    requires
        0 <= i < table.len(),
        0 <= j < table.len(),
    ensures
        table[i].word.len() == 0 ==> !table_valid(table),
        table[i].path.len() == 0 ==> !table_valid(table),
        !table[i].id_numeric() ==> !table_valid(table),
        i != j && table[i].same_key(table[j]) ==> !table_valid(table),
{
    if i != j && table[i].same_key(table[j]) {
        if i < j {
            assert(table[i].same_key(table[j]));
        } else {
            assert(table[j].same_key(table[i]));
        }
    } else {
        assert(table_valid(table) ==> table[i].is_valid());
    }
}

/// A table for which a report is owed is not valid.
pub proof fn lemma_rejected_is_invalid(table: Seq<WordView>, e: TableError)
    requires
        rejected_for(table, e),
    ensures
        !table_valid(table),
{
    match e {
        TableError::EmptyWord(i) => {
            assert(!table[i as int].is_valid());
        },
        TableError::EmptyPath(i) => {
            assert(!table[i as int].is_valid());
        },
        TableError::NonNumericChannel(i) => {
            assert(!table[i as int].is_valid());
        },
        TableError::DuplicateKey(i, j) => {
            assert(table[i as int].same_key(table[j as int]));
        },
    }
}

/// At most one report is owed for a table.
pub proof fn lemma_rejection_is_determined(table: Seq<WordView>, e1: TableError, e2: TableError)
    requires
        rejected_for(table, e1),
        rejected_for(table, e2),
    ensures
        e1 == e2,
{
    let at1 = first_position(e1);
    let at2 = first_position(e2);
    if e1 is DuplicateKey && e2 is DuplicateKey {
        let (i1, j1) = (e1->DuplicateKey_0, e1->DuplicateKey_1);
        let (i2, j2) = (e2->DuplicateKey_0, e2->DuplicateKey_1);
        if j1 < j2 {
            assert(table.take(j2 as int)[i1 as int].same_key(table.take(j2 as int)[j1 as int]));
        } else if j2 < j1 {
            assert(table.take(j1 as int)[i2 as int].same_key(table.take(j1 as int)[j2 as int]));
        } else if i1 < i2 {
            assert(table[i1 as int].same_key(table[j2 as int]));
        } else if i2 < i1 {
            assert(table[i2 as int].same_key(table[j1 as int]));
        }
    } else if e1 is DuplicateKey {
        assert(table[at2 as int].is_valid());
    } else if e2 is DuplicateKey {
        assert(table[at1 as int].is_valid());
    } else if at1 < at2 {
        assert(table.take(at2 as int)[at1 as int].is_valid());
    } else if at2 < at1 {
        assert(table.take(at1 as int)[at2 as int].is_valid());
    }
}

/// The report owed for a table that is not valid.
pub open spec fn report(table: Seq<WordView>) -> TableError {
    choose|e: TableError| rejected_for(table, e)
}

/// A report that is owed for a table is the report of that table.
pub proof fn lemma_report(table: Seq<WordView>, e: TableError)
    requires
        rejected_for(table, e),
    ensures
        report(table) == e,
{
    lemma_rejection_is_determined(table, e, report(table));
}

/// What the operator is told when a table is turned down.
pub open spec fn rejection_text(e: TableError) -> Seq<char> {
    match e {
        TableError::EmptyWord(_) => "Not saved: an entry has no word"@,
        TableError::EmptyPath(_) => "Not saved: an entry has no sound file"@,
        TableError::NonNumericChannel(_) => "Not saved: a channel id is not numeric"@,
        TableError::DuplicateKey(_, _) => "Not saved: a word is listed twice for one channel"@,
    }
}

impl TableError {
    /// The text of the report, for the status line.
    pub fn describe(&self) -> (text: String)
        ensures
            text@ == rejection_text(*self),
    {
        match self {
            TableError::EmptyWord(_) => String::from_str("Not saved: an entry has no word"),
            TableError::EmptyPath(_) => String::from_str("Not saved: an entry has no sound file"),
            TableError::NonNumericChannel(_) => String::from_str(
                "Not saved: a channel id is not numeric",
            ),
            TableError::DuplicateKey(_, _) => String::from_str(
                "Not saved: a word is listed twice for one channel",
            ),
        }
    }
}

/// The position that a report names first.
pub open spec fn first_position(e: TableError) -> usize {
    match e {
        TableError::EmptyWord(i) => i,
        TableError::EmptyPath(i) => i,
        TableError::NonNumericChannel(i) => i,
        TableError::DuplicateKey(i, _) => i,
    }
}

/// Checks a candidate table: every entry well-formed, no key twice.
pub fn validate(candidate: &Vec<Word>) -> (r: Result<(), TableError>)
    ensures
        r is Ok <==> table_valid(candidate.deep_view()),
        r matches Err(e) ==> rejected_for(candidate.deep_view(), e),
{
    let ghost views = candidate.deep_view();
    let n = candidate.len();
    let mut i: usize = 0;
    while i < n
        invariant
            i <= n,
            n == candidate.len(),
            views == candidate.deep_view(),
            all_valid(views.take(i as int)),
        decreases n - i,
    {
        let entry = &candidate[i];
        assert(views[i as int] == entry@);
        if entry.word.as_str().is_empty() {
            proof {
                lemma_rejected_is_invalid(views, TableError::EmptyWord(i));
            }
            return Err(TableError::EmptyWord(i));
        }
        if entry.path.as_str().is_empty() {
            proof {
                lemma_rejected_is_invalid(views, TableError::EmptyPath(i));
            }
            return Err(TableError::EmptyPath(i));
        }
        if !entry.id_numeric() {
            proof {
                lemma_rejected_is_invalid(views, TableError::NonNumericChannel(i));
            }
            return Err(TableError::NonNumericChannel(i));
        }
        assert(all_valid(views.take(i + 1))) by {
            assert forall|k: int| 0 <= k < i + 1 implies (#[trigger] views.take(i + 1)[k]).is_valid() by {
                if k < i {
                    assert(views.take(i as int)[k].is_valid());
                }
            }
        }
        i += 1;
    }
    assert(views.take(n as int) =~= views);
    let mut j: usize = 0;
    while j < n
        invariant
            j <= n,
            n == candidate.len(),
            views == candidate.deep_view(),
            all_valid(views),
            unique_keys(views.take(j as int)),
        decreases n - j,
    {
        let mut i: usize = 0;
        while i < j
            invariant
                i <= j < n,
                n == candidate.len(),
                views == candidate.deep_view(),
                all_valid(views),
                unique_keys(views.take(j as int)),
                forall|a: int| 0 <= a < i ==> !(#[trigger] views[a]).same_key(views[j as int]),
            decreases j - i,
        {
            assert(views[i as int] == candidate[i as int]@);
            assert(views[j as int] == candidate[j as int]@);
            if candidate[i].same_key(&candidate[j]) {
                proof {
                    lemma_rejected_is_invalid(views, TableError::DuplicateKey(i, j));
                }
                return Err(TableError::DuplicateKey(i, j));
            }
            i += 1;
        }
        assert(unique_keys(views.take(j + 1))) by {
            assert forall|a: int, b: int| 0 <= a < b < j + 1 implies !(#[trigger] views.take(
                j + 1,
            )[a]).same_key(#[trigger] views.take(j + 1)[b]) by {
                if b < j {
                    assert(!views.take(j as int)[a].same_key(views.take(j as int)[b]));
                } else {
                    assert(!views[a].same_key(views[j as int]));
                }
            }
        }
        j += 1;
    }
    assert(views.take(n as int) =~= views);
    Ok(())
}

/// Hands out one more reference to a shared table, by `Arc::clone`.
///
/// Not proved: the new reference points to the same table, so it is equal to
/// the one it was made from.
#[verifier::external_body]
fn share(table: &Arc<Vec<Word>>) -> (snapshot: Arc<Vec<Word>>)
    ensures
        snapshot == *table,
{
    Arc::clone(table)
}

/// The current trigger table.
///
/// The table is replaced as a whole and never changed in place. A snapshot
/// handed out by [`TriggerTable::current`] stays as it was when a later
/// replace makes another table current.
pub struct TriggerTable {
    words: Arc<Vec<Word>>,
}

impl TriggerTable {
    #[verifier::type_invariant]
    spec fn holds_valid_table(self) -> bool {
        table_valid(self.words.deep_view())
    }

    /// The entries of the current table, in order.
    pub closed spec fn view(&self) -> Seq<WordView> {
        self.words.deep_view()
    }

    /// A table without entries.
    pub fn new() -> (table: TriggerTable)
        ensures
            table@ == Seq::<WordView>::empty(),
    {
        let words: Vec<Word> = Vec::new();
        let table = TriggerTable { words: Arc::new(words) };
        assert(table@ =~= Seq::<WordView>::empty());
        table
    }

    /// A snapshot of the table that is current at the time of the call.
    pub fn current(&self) -> (snapshot: Arc<Vec<Word>>)
        ensures
            snapshot.deep_view() == self@,
            table_valid(self@),
    {
        proof {
            use_type_invariant(self);
        }
        share(&self.words)
    }

    /// Makes `new_table` the current table.
    pub fn replace(&mut self, new_table: Vec<Word>)
        requires
            table_valid(new_table.deep_view()),
        ensures
            final(self)@ == new_table.deep_view(),
    {
        self.words = Arc::new(new_table);
    }

    /// Checks `candidate` and, if it passes, makes it the current table.
    /// A candidate that is turned down leaves the current table as it was.
    pub fn submit(&mut self, candidate: Vec<Word>) -> (r: Result<(), TableError>)
        ensures
            r is Ok <==> table_valid(candidate.deep_view()),
            r is Ok ==> final(self)@ == candidate.deep_view(),
            r matches Err(e) ==> rejected_for(candidate.deep_view(), e) && final(self)@ == old(
                self,
            )@,
    {
        match validate(&candidate) {
            Ok(()) => {
                self.replace(candidate);
                Ok(())
            },
            Err(e) => Err(e),
        }
    }
}

} // verus!
