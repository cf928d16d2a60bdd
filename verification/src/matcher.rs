//! The matcher: which triggers of a table fire on a flattened text.

use crate::text::{chars_of, contains, occurs_in};
use crate::word::{Word, WordView};
use vstd::prelude::*;

verus! {

/// The trigger `t` fires on `text` received in `channel`: the channel is
/// covered by its scope, and its word is a contiguous part of the text.
pub open spec fn fires(t: WordView, channel: Seq<char>, text: Seq<char>) -> bool {
    t.covers(channel) && occurs_in(t.word, text)
}

/// The positions in `table` of the triggers that fire, in table order.
pub open spec fn fired(table: Seq<WordView>, channel: Seq<char>, text: Seq<char>) -> Seq<int>
    decreases table.len(),
{
    if table.len() == 0 {
        Seq::empty()
    } else {
        let before = fired(table.drop_last(), channel, text);
        if fires(table.last(), channel, text) {
            before.push(table.len() - 1)
        } else {
            before
        }
    }
}

/// The sounds to play for a text: the paths of the fired triggers, in
/// table order.
pub open spec fn fired_paths(table: Seq<WordView>, channel: Seq<char>, text: Seq<char>) -> Seq<
    Seq<char>,
> {
    fired(table, channel, text).map_values(|i: int| table[i].path)
}

/// A list of positions, read as mathematical integers.
pub open spec fn positions(hits: Seq<usize>) -> Seq<int> {
    hits.map_values(|i: usize| i as int)
}

/// Scanning one more trigger appends its position if it fires and changes
/// nothing otherwise.
pub proof fn lemma_fired_step(table: Seq<WordView>, channel: Seq<char>, text: Seq<char>, n: int)
    requires
        0 <= n < table.len(),
    ensures
        fired(table.take(n + 1), channel, text) == if fires(table[n], channel, text) {
            fired(table.take(n), channel, text).push(n)
        } else {
            fired(table.take(n), channel, text)
        },
{
    assert(table.take(n + 1).drop_last() =~= table.take(n));
}

/// The fired positions are positions of the table, strictly ascending: the
/// result follows table order, and no trigger is listed twice, however often
/// its word occurs in the text.
pub proof fn lemma_fired_ascending(table: Seq<WordView>, channel: Seq<char>, text: Seq<char>)
    ensures
        fired(table, channel, text).len() <= table.len(),
        forall|a: int|
            0 <= a < fired(table, channel, text).len() ==> 0 <= #[trigger] fired(
                table,
                channel,
                text,
            )[a] < table.len(),
        forall|a: int, b: int|
            0 <= a < b < fired(table, channel, text).len() ==> #[trigger] fired(
                table,
                channel,
                text,
            )[a] < #[trigger] fired(table, channel, text)[b],
    decreases table.len(),
{
    if table.len() > 0 {
        lemma_fired_ascending(table.drop_last(), channel, text);
    }
}

/// No position is listed twice: a trigger contributes one entry when its
/// word is present, whether the word occurs once or many times.
pub proof fn lemma_fired_no_duplicates(table: Seq<WordView>, channel: Seq<char>, text: Seq<char>)
    ensures
        fired(table, channel, text).no_duplicates(),
{
    lemma_fired_ascending(table, channel, text);
    let f = fired(table, channel, text);
    assert forall|a: int, b: int| 0 <= a < f.len() && 0 <= b < f.len() && a != b implies f[a]
        != f[b] by {
        if a < b {
            assert(f[a] < f[b]);
        } else {
            assert(f[b] < f[a]);
        }
    }
}

/// The sounds follow the fired positions: the sound at place `k` is the
/// sound of the trigger that fired at place `k`.
pub proof fn lemma_fired_paths(table: Seq<WordView>, channel: Seq<char>, text: Seq<char>)
    ensures
        fired_paths(table, channel, text).len() == fired(table, channel, text).len(),
        forall|k: int|
            0 <= k < fired(table, channel, text).len() ==> #[trigger] fired_paths(
                table,
                channel,
                text,
            )[k] == table[fired(table, channel, text)[k]].path,
{
}

/// A trigger's position is listed if and only if the trigger fires.
pub proof fn lemma_fired_iff_fires(
    table: Seq<WordView>,
    channel: Seq<char>,
    text: Seq<char>,
    i: int,
)
    ensures
        fired(table, channel, text).contains(i) <==> (0 <= i < table.len() && fires(
            table[i],
            channel,
            text,
        )),
    decreases table.len(),
{
    if table.len() > 0 {
        let before = fired(table.drop_last(), channel, text);
        lemma_fired_iff_fires(table.drop_last(), channel, text, i);
        if fires(table.last(), channel, text) {
            let all = before.push(table.len() - 1);
            if before.contains(i) {
                let k = choose|k: int| 0 <= k < before.len() && before[k] == i;
                assert(all[k] == i);
            }
            if i == table.len() - 1 {
                assert(all[before.len() as int] == i);
            }
        }
    }
}

/// A table of one trigger yields one entry when the trigger fires and none
/// when it does not: firing is a matter of presence, not of counting
/// occurrences.
pub proof fn lemma_fired_single(t: WordView, channel: Seq<char>, text: Seq<char>)
    ensures
        fired(seq![t], channel, text) == if fires(t, channel, text) {
            seq![0int]
        } else {
            Seq::<int>::empty()
        },
{
    let table = seq![t];
    assert(table.drop_last() =~= Seq::<WordView>::empty());
    assert(fired(table.drop_last(), channel, text) =~= Seq::<int>::empty());
    assert(Seq::<int>::empty().push(0) =~= seq![0int]);
}

/// No well-formed trigger fires on the empty text.
pub proof fn lemma_empty_text_fires_nothing(table: Seq<WordView>, channel: Seq<char>)
    requires
        forall|i: int| 0 <= i < table.len() ==> (#[trigger] table[i]).is_valid(),
    ensures
        fired(table, channel, Seq::<char>::empty()) == Seq::<int>::empty(),
    decreases table.len(),
{
    if table.len() > 0 {
        lemma_empty_text_fires_nothing(table.drop_last(), channel);
        assert(table.last().is_valid());
    }
}

/// Scans `table` in its stored order and returns the positions of the
/// triggers that fire on `text` in channel `channel_id`.
///
/// `text` is compared as it stands: flatten a message first to match without
/// regard to case.
pub fn find_matches(text: &str, channel_id: &str, table: &Vec<Word>) -> (hits: Vec<usize>)
    ensures
        positions(hits@) == fired(table.deep_view(), channel_id@, text@),
        hits.len() <= table.len(),
        forall|a: int| 0 <= a < hits.len() ==> #[trigger] hits[a] < table.len(),
        forall|a: int, b: int| 0 <= a < b < hits.len() ==> #[trigger] hits[a] < #[trigger] hits[b],
        forall|i: int|
            0 <= i < table.len() ==> (hits@.contains(i as usize) <==> fires(
                #[trigger] table[i]@,
                channel_id@,
                text@,
            )),
{
    let ghost views = table.deep_view();
    let text_chars = chars_of(text);
    let channel = channel_id.to_owned();
    let mut hits: Vec<usize> = Vec::new();
    let mut i: usize = 0;
    while i < table.len()
        invariant
            i <= table.len(),
            views == table.deep_view(),
            text_chars@ == text@,
            channel@ == channel_id@,
            positions(hits@) == fired(views.take(i as int), channel_id@, text@),
        decreases table.len() - i,
    {
        let trigger = &table[i];
        let covered = trigger.chn_id.as_str().is_empty() || trigger.chn_id == channel;
        let mut hit = false;
        if covered {
            let word_chars = chars_of(trigger.word.as_str());
            hit = contains(&text_chars, &word_chars);
        }
        proof {
            assert(views[i as int] == table[i as int]@);
            assert(hit == fires(views[i as int], channel_id@, text@));
            lemma_fired_step(views, channel_id@, text@, i as int);
        }
        if hit {
            let ghost before = hits@;
            hits.push(i);
            assert(positions(hits@) =~= positions(before).push(i as int));
        }
        i += 1;
    }
    proof {
        assert(views.take(table.len() as int) =~= views);
        lemma_fired_ascending(views, channel_id@, text@);
        let f = fired(views, channel_id@, text@);
        assert forall|a: int| 0 <= a < hits.len() implies #[trigger] hits[a] < table.len() by {
            assert(positions(hits@)[a] == f[a]);
        }
        assert forall|a: int, b: int| 0 <= a < b < hits.len() implies #[trigger] hits[a]
            < #[trigger] hits[b] by {
            assert(positions(hits@)[a] == f[a]);
            assert(positions(hits@)[b] == f[b]);
        }
        assert forall|i: int| 0 <= i < table.len() implies (hits@.contains(i as usize) <==> fires(
            #[trigger] table[i]@,
            channel_id@,
            text@,
        )) by {
            lemma_fired_iff_fires(views, channel_id@, text@, i);
            assert(views[i] == table[i]@);
            if hits@.contains(i as usize) {
                let k = choose|k: int| 0 <= k < hits@.len() && hits@[k] == i as usize;
                assert(positions(hits@)[k] == i);
                assert(f.contains(i));
            }
            if f.contains(i) {
                let k = choose|k: int| 0 <= k < f.len() && f[k] == i;
                assert(positions(hits@)[k] == i);
                assert(hits@[k] == i as usize);
            }
        }
    }
    hits
}

} // verus!
