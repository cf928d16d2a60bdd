//! The responder: its lifecycle, and what it does with one inbound message.

use crate::extract::{
    embeds_pieces, flatten, flattened, lemma_flattened_plain, pieces_of, Embed, RichField,
    RichFieldView,
};
use crate::matcher::{find_matches, fired, fired_paths, lemma_fired_iff_fires, positions};
use crate::status::{
    busy_status, busy_text, connected_status, connected_text, found_status, found_text,
    start_error_status, start_error_text, starting_status, starting_text, StatusChannel,
};
use crate::text::{lowercase, occurs_in};
use crate::word::{Word, WordView};
use vstd::prelude::*;

verus! {

/// Where the responder stands.
#[derive(Debug, Clone, Copy, PartialEq, Eq, Structural)]
pub enum Lifecycle {
    /// No connection has been asked for, or the last run was stopped.
    Idle,
    /// A connection has been asked for and is not yet established.
    Starting,
    /// Connected, and handling messages.
    Running,
    /// The last run ended in an error. A new start may be requested.
    Failed,
}

impl Lifecycle {
    /// A run is under way: a further start request is turned down.
    pub open spec fn busy(self) -> bool {
        self is Starting || self is Running
    }

    /// The state after a start request.
    pub open spec fn after_start(self) -> Lifecycle {
        if self.busy() {
            self
        } else {
            Lifecycle::Starting
        }
    }

    /// The state after the connection has been established.
    pub open spec fn after_connected(self) -> Lifecycle {
        if self is Starting {
            Lifecycle::Running
        } else {
            self
        }
    }

    /// The state after a connection or transport error.
    pub open spec fn after_failure(self) -> Lifecycle {
        if self.busy() {
            Lifecycle::Failed
        } else {
            self
        }
    }

    /// The state after an explicit stop.
    pub open spec fn after_stop(self) -> Lifecycle {
        if self.busy() {
            Lifecycle::Idle
        } else {
            self
        }
    }
}

/// The lifecycle of one responder.
#[derive(Debug)]
pub struct Responder {
    state: Lifecycle,
}

impl View for Responder {
    type V = Lifecycle;

    closed spec fn view(&self) -> Lifecycle {
        self.state
    }
}

impl Responder {
    /// A responder for which no connection has been asked yet.
    pub fn new() -> (responder: Responder)
        ensures
            responder@ == Lifecycle::Idle,
    {
        Responder { state: Lifecycle::Idle }
    }

    /// The current state.
    pub fn state(&self) -> (state: Lifecycle)
        ensures
            state == self@,
    {
        self.state
    }

    /// Tests whether a run is under way.
    pub fn is_busy(&self) -> (b: bool)
        ensures
            b == self@.busy(),
    {
        match self.state {
            Lifecycle::Starting => true,
            Lifecycle::Running => true,
            Lifecycle::Idle => false,
            Lifecycle::Failed => false,
        }
    }

    /// Handles a start request. While a run is under way the request is
    /// turned down: the state stays, the status reports that the responder
    /// is busy, and no second connection is to be attempted. Otherwise the
    /// responder is starting, and the caller is to connect.
    pub fn request_start(&mut self, status: &mut StatusChannel) -> (accepted: bool)
        ensures
            accepted == !old(self)@.busy(),
            final(self)@ == old(self)@.after_start(),
            final(status)@ == if accepted {
                starting_text()
            } else {
                busy_text()
            },
    {
        if self.is_busy() {
            status.set(busy_status());
            false
        } else {
            self.state = Lifecycle::Starting;
            status.set(starting_status());
            true
        }
    }

    /// Records that the connection has been established as `identity`.
    pub fn connected(&mut self, identity: &str, status: &mut StatusChannel)
        ensures
            final(self)@ == old(self)@.after_connected(),
            final(status)@ == connected_text(identity@),
    {
        match self.state {
            Lifecycle::Starting => {
                self.state = Lifecycle::Running;
            },
            _ => {},
        }
        status.set(connected_status(identity));
    }

    /// Records that the connection could not be made or was lost.
    pub fn failed(&mut self, status: &mut StatusChannel)
        ensures
            final(self)@ == old(self)@.after_failure(),
            final(status)@ == start_error_text(),
    {
        if self.is_busy() {
            self.state = Lifecycle::Failed;
        }
        status.set(start_error_status());
    }

    /// Records an explicit stop.
    pub fn stopped(&mut self)
        ensures
            final(self)@ == old(self)@.after_stop(),
    {
        if self.is_busy() {
            self.state = Lifecycle::Idle;
        }
    }
}

/// The status after the triggers at the positions `hits` of `table` have
/// fired, one after the other: each overwrites the status, so the last one
/// stays. Without a hit the status is what it was.
pub open spec fn status_after(before: Seq<char>, table: Seq<WordView>, hits: Seq<int>) -> Seq<
    char,
> {
    if hits.len() == 0 {
        before
    } else {
        found_text(table[hits.last()].word)
    }
}

/// A trigger fires on a message if and only if its scope covers the
/// message's channel and its word is a contiguous part of the message's
/// flattened text.
pub proof fn lemma_fires_on_message(
    table: Seq<WordView>,
    channel: Seq<char>,
    body: Seq<char>,
    fields: Seq<RichFieldView>,
    i: int,
)
    requires
        0 <= i < table.len(),
    ensures
        fired(table, channel, flattened(body, fields)).contains(i) <==> ((!table[i].scoped()
            || table[i].chn_id == channel) && occurs_in(table[i].word, flattened(body, fields))),
{
    lemma_fired_iff_fires(table, channel, flattened(body, fields), i);
}

/// Matching takes no account of case: a trigger whose word is kept as the
/// editor stores it, in the lowercase of what was typed, fires on a body
/// exactly when the lowercase of what was typed is a contiguous part of the
/// lowercase of the body.
pub proof fn lemma_fires_whatever_the_case(
    table: Seq<WordView>,
    channel: Seq<char>,
    body: Seq<char>,
    i: int,
    typed: Seq<char>,
)
    requires
        0 <= i < table.len(),
        table[i].word == lowercase(typed),
    ensures
        fired(table, channel, flattened(body, Seq::empty())).contains(i) <==> (table[i].covers(
            channel,
        ) && occurs_in(lowercase(typed), lowercase(body))),
{
    lemma_flattened_plain(body);
    lemma_fired_iff_fires(table, channel, flattened(body, Seq::empty()), i);
}

/// Without a hit the status stays; with hits it names the word of the
/// trigger that fired last in table order.
pub proof fn lemma_last_hit_wins(before: Seq<char>, table: Seq<WordView>, hits: Seq<int>, last: int)
    ensures
        status_after(before, table, Seq::empty()) == before,
        status_after(before, table, hits.push(last)) == found_text(table[last].word),
{
}

/// The status text owed for the triggers at the positions `hits` of
/// `table`: none without a hit, else the report of the last hit.
pub open spec fn status_for(table: Seq<WordView>, hits: Seq<int>) -> Option<Seq<char>> {
    if hits.len() == 0 {
        None
    } else {
        Some(found_text(table[hits.last()].word))
    }
}

/// Writing the status owed, if one is owed, gives the status after the hits.
pub proof fn lemma_status_for(before: Seq<char>, table: Seq<WordView>, hits: Seq<int>)
    ensures
        status_after(before, table, hits) == match status_for(table, hits) {
            Some(text) => text,
            None => before,
        },
{
}

/// Plans the answer to a flattened text received in `channel_id`: the
/// sounds of the triggers of `table` that fire, in table order, and the
/// status to write, which is none exactly when no trigger fires.
pub fn plan(text: &str, channel_id: &str, table: &Vec<Word>) -> (answer: (
    Vec<String>,
    Option<String>,
))
    ensures
        answer.0.deep_view() == fired_paths(table.deep_view(), channel_id@, text@),
        answer.1.deep_view() == status_for(
            table.deep_view(),
            fired(table.deep_view(), channel_id@, text@),
        ),
        answer.1 is None <==> fired(table.deep_view(), channel_id@, text@).len() == 0,
{
    let ghost views = table.deep_view();
    let ghost hits_spec = fired(views, channel_id@, text@);
    let hits = find_matches(text, channel_id, table);
    let mut sounds: Vec<String> = Vec::new();
    let mut status: Option<String> = None;
    let mut k: usize = 0;
    while k < hits.len()
        invariant
            k <= hits.len(),
            views == table.deep_view(),
            hits_spec == positions(hits@),
            hits_spec == fired(views, channel_id@, text@),
            forall|a: int| 0 <= a < hits.len() ==> #[trigger] hits[a] < table.len(),
            sounds.deep_view() == fired_paths(views, channel_id@, text@).take(k as int),
            status.deep_view() == status_for(views, hits_spec.take(k as int)),
        decreases hits.len() - k,
    {
        let trigger = &table[hits[k]];
        assert(hits_spec[k as int] == hits[k as int]);
        assert(views[hits[k as int] as int] == trigger@);
        status = Some(found_status(trigger.word.as_str()));
        let ghost before = sounds.deep_view();
        sounds.push(trigger.path.clone());
        proof {
            let all = fired_paths(views, channel_id@, text@);
            assert(all[k as int] == trigger@.path);
            assert(sounds.deep_view() =~= before.push(trigger@.path));
            assert(all.take(k + 1) =~= all.take(k as int).push(all[k as int]));
            assert(hits_spec.take(k + 1).last() == hits_spec[k as int]);
        }
        k += 1;
    }
    proof {
        let all = fired_paths(views, channel_id@, text@);
        assert(all.take(hits.len() as int) =~= all);
        assert(hits_spec.take(hits.len() as int) =~= hits_spec);
    }
    (sounds, status)
}

/// Plans the answer to one inbound message, given as the event source
/// delivers it: lists the pieces of its attachments, flattens body and
/// pieces, and plans the answer to the flattened text.
pub fn answer(channel_id: &str, body: &str, embeds: &Vec<Embed>, table: &Vec<Word>) -> (answer: (
    Vec<String>,
    Option<String>,
))
    ensures
        answer.0.deep_view() == fired_paths(
            table.deep_view(),
            channel_id@,
            flattened(body@, embeds_pieces(embeds.deep_view())),
        ),
        answer.1.deep_view() == status_for(
            table.deep_view(),
            fired(
                table.deep_view(),
                channel_id@,
                flattened(body@, embeds_pieces(embeds.deep_view())),
            ),
        ),
        answer.1 is None <==> fired(
            table.deep_view(),
            channel_id@,
            flattened(body@, embeds_pieces(embeds.deep_view())),
        ).len() == 0,
{
    let pieces = pieces_of(embeds);
    let text = flatten(body, &pieces);
    plan(text.as_str(), channel_id, table)
}

/// Answers a flattened text received in `channel_id`: finds the triggers of
/// `table` that fire, reports each in the status, and returns their sounds
/// in table order. The caller enqueues the sounds in the order returned.
pub fn dispatch(text: &str, channel_id: &str, table: &Vec<Word>, status: &mut StatusChannel) -> (sounds:
    Vec<String>)
    ensures
        sounds.deep_view() == fired_paths(table.deep_view(), channel_id@, text@),
        final(status)@ == status_after(
            old(status)@,
            table.deep_view(),
            fired(table.deep_view(), channel_id@, text@),
        ),
{
    let (sounds, report) = plan(text, channel_id, table);
    status.apply(report);
    sounds
}

/// Answers one inbound message: flattens its body and rich content, then
/// dispatches the flattened text.
pub fn respond(
    channel_id: &str,
    body: &str,
    fields: &Vec<RichField>,
    table: &Vec<Word>,
    status: &mut StatusChannel,
) -> (sounds: Vec<String>)
    ensures
        sounds.deep_view() == fired_paths(
            table.deep_view(),
            channel_id@,
            flattened(body@, fields.deep_view()),
        ),
        final(status)@ == status_after(
            old(status)@,
            table.deep_view(),
            fired(table.deep_view(), channel_id@, flattened(body@, fields.deep_view())),
        ),
{
    let text = flatten(body, fields);
    dispatch(text.as_str(), channel_id, table, status)
}

} // verus!
