//! The text extractor: flattens a message and its rich content into the one
//! lowercase text that the matcher scans.

use crate::text::{line, lowercase, push_line, to_lowercase};
use vstd::prelude::*;

verus! {

/// One piece of rich content attached to a message. A piece that the
/// message lacks is simply not listed.
#[derive(Debug)]
pub enum RichField {
    Title(String),
    Description(String),
    Footer(String),
    Named { name: String, value: String },
}

/// A piece of rich content as sequences of characters.
pub enum RichFieldView {
    Title(Seq<char>),
    Description(Seq<char>),
    Footer(Seq<char>),
    Named { name: Seq<char>, value: Seq<char> },
}

impl View for RichField {
    type V = RichFieldView;

    open spec fn view(&self) -> RichFieldView {
        match self {
            RichField::Title(t) => RichFieldView::Title(t@),
            RichField::Description(t) => RichFieldView::Description(t@),
            RichField::Footer(t) => RichFieldView::Footer(t@),
            RichField::Named { name, value } => RichFieldView::Named {
                name: name@,
                value: value@,
            },
        }
    }
}

impl DeepView for RichField {
    type V = RichFieldView;

    open spec fn deep_view(&self) -> RichFieldView {
        self@
    }
}

/// What one piece contributes: its text in lowercase on a line of its own;
/// a named field contributes its name and its value, on two lines.
pub open spec fn field_text(field: RichFieldView) -> Seq<char> {
    match field {
        RichFieldView::Title(t) => line(lowercase(t)),
        RichFieldView::Description(t) => line(lowercase(t)),
        RichFieldView::Footer(t) => line(lowercase(t)),
        RichFieldView::Named { name, value } => line(lowercase(name)) + line(lowercase(value)),
    }
}

/// What a list of pieces contributes: the contribution of each, in the
/// order of the list.
pub open spec fn fields_text(fields: Seq<RichFieldView>) -> Seq<char>
    decreases fields.len(),
{
    if fields.len() == 0 {
        Seq::empty()
    } else {
        fields_text(fields.drop_last()) + field_text(fields.last())
    }
}

/// The flattened text of a message: the body in lowercase, with no line
/// break of its own, followed by the contribution of its rich content.
pub open spec fn flattened(body: Seq<char>, fields: Seq<RichFieldView>) -> Seq<char> {
    lowercase(body) + fields_text(fields)
}

/// A message without rich content flattens to its body in lowercase.
pub proof fn lemma_flattened_plain(body: Seq<char>)
    ensures
        flattened(body, Seq::empty()) == lowercase(body),
{
    assert(lowercase(body) + Seq::<char>::empty() =~= lowercase(body));
}

/// Rich content is flattened piece by piece: a further piece appends its
/// own lines and leaves the text before it as it was.
pub proof fn lemma_flattened_push(body: Seq<char>, fields: Seq<RichFieldView>, next: RichFieldView)
    ensures
        flattened(body, fields.push(next)) == flattened(body, fields) + field_text(next),
{
    assert(fields.push(next).drop_last() =~= fields);
    assert(lowercase(body) + (fields_text(fields) + field_text(next)) =~= (lowercase(body)
        + fields_text(fields)) + field_text(next));
}

/// The rich content of one attachment, as the event source delivers it:
/// three optional texts and a list of named fields, each a name and a value.
#[derive(Debug)]
pub struct Embed {
    pub title: Option<String>,
    pub description: Option<String>,
    pub footer: Option<String>,
    pub fields: Vec<(String, String)>,
}

/// An attachment as sequences of characters.
pub struct EmbedView {
    pub title: Option<Seq<char>>,
    pub description: Option<Seq<char>>,
    pub footer: Option<Seq<char>>,
    pub fields: Seq<(Seq<char>, Seq<char>)>,
}

impl View for Embed {
    type V = EmbedView;

    open spec fn view(&self) -> EmbedView {
        EmbedView {
            title: self.title.deep_view(),
            description: self.description.deep_view(),
            footer: self.footer.deep_view(),
            fields: self.fields.deep_view(),
        }
    }
}

impl DeepView for Embed {
    type V = EmbedView;

    open spec fn deep_view(&self) -> EmbedView {
        self@
    }
}

/// The description of an attachment as a list of pieces: one piece if it is
/// there, none if it is missing.
pub open spec fn description_piece(text: Option<Seq<char>>) -> Seq<RichFieldView> {
    match text {
        Some(t) => seq![RichFieldView::Description(t)],
        None => Seq::empty(),
    }
}

/// The footer of an attachment as a list of pieces.
pub open spec fn footer_piece(text: Option<Seq<char>>) -> Seq<RichFieldView> {
    match text {
        Some(t) => seq![RichFieldView::Footer(t)],
        None => Seq::empty(),
    }
}

/// The title of an attachment as a list of pieces.
pub open spec fn title_piece(text: Option<Seq<char>>) -> Seq<RichFieldView> {
    match text {
        Some(t) => seq![RichFieldView::Title(t)],
        None => Seq::empty(),
    }
}

/// The named fields of an attachment as pieces, in their order. A named
/// field is a piece whenever it is there, blank or not.
pub open spec fn named_pieces(fields: Seq<(Seq<char>, Seq<char>)>) -> Seq<RichFieldView> {
    fields.map_values(|f: (Seq<char>, Seq<char>)| RichFieldView::Named { name: f.0, value: f.1 })
}

/// The pieces of one attachment: its description, its footer, its title,
/// then its named fields. A missing text gives no piece.
pub open spec fn embed_pieces(embed: EmbedView) -> Seq<RichFieldView> {
    description_piece(embed.description) + footer_piece(embed.footer) + title_piece(embed.title)
        + named_pieces(embed.fields)
}

/// The pieces of a list of attachments: those of each, in the order of the
/// list.
pub open spec fn embeds_pieces(embeds: Seq<EmbedView>) -> Seq<RichFieldView>
    decreases embeds.len(),
{
    if embeds.len() == 0 {
        Seq::empty()
    } else {
        embeds_pieces(embeds.drop_last()) + embed_pieces(embeds.last())
    }
}

/// An attachment without texts and without named fields has no pieces, and
/// so adds nothing to a flattened text, not even a blank line.
pub proof fn lemma_blank_embed_has_no_pieces(embed: EmbedView)
    requires
        embed.title is None,
        embed.description is None,
        embed.footer is None,
        embed.fields.len() == 0,
    ensures
        embed_pieces(embed) == Seq::<RichFieldView>::empty(),
{
    assert(embed_pieces(embed) =~= Seq::<RichFieldView>::empty());
}

/// Appends the pieces of `embed` to `pieces`.
pub fn push_embed(pieces: &mut Vec<RichField>, embed: &Embed)
    ensures
        final(pieces).deep_view() == old(pieces).deep_view() + embed_pieces(embed@),
{
    let ghost before = pieces.deep_view();
    match &embed.description {
        Some(t) => {
            pieces.push(RichField::Description(t.clone()));
        },
        None => {},
    }
    assert(pieces.deep_view() =~= before + description_piece(embed@.description));
    let ghost with_description = pieces.deep_view();
    match &embed.footer {
        Some(t) => {
            pieces.push(RichField::Footer(t.clone()));
        },
        None => {},
    }
    assert(pieces.deep_view() =~= with_description + footer_piece(embed@.footer));
    let ghost with_footer = pieces.deep_view();
    match &embed.title {
        Some(t) => {
            pieces.push(RichField::Title(t.clone()));
        },
        None => {},
    }
    assert(pieces.deep_view() =~= with_footer + title_piece(embed@.title));
    let ghost with_title = pieces.deep_view();
    let ghost named = named_pieces(embed@.fields);
    let mut i: usize = 0;
    while i < embed.fields.len()
        invariant
            i <= embed.fields.len(),
            named == named_pieces(embed@.fields),
            pieces.deep_view() == with_title + named.take(i as int),
        decreases embed.fields.len() - i,
    {
        let field = &embed.fields[i];
        let ghost so_far = pieces.deep_view();
        pieces.push(RichField::Named { name: field.0.clone(), value: field.1.clone() });
        proof {
            assert(embed@.fields[i as int] == (field.0@, field.1@));
            assert(pieces.deep_view() =~= so_far.push(named[i as int]));
            assert(named.take(i + 1) =~= named.take(i as int).push(named[i as int]));
            assert(pieces.deep_view() =~= with_title + named.take(i + 1));
        }
        i += 1;
    }
    assert(named.take(embed.fields.len() as int) =~= named);
    assert(pieces.deep_view() =~= before + embed_pieces(embed@));
}

/// Lists the rich content of a message's attachments piece by piece, in the
/// order in which it is flattened.
pub fn pieces_of(embeds: &Vec<Embed>) -> (pieces: Vec<RichField>)
    ensures
        pieces.deep_view() == embeds_pieces(embeds.deep_view()),
{
    let ghost views = embeds.deep_view();
    let mut pieces: Vec<RichField> = Vec::new();
    let mut i: usize = 0;
    assert(views.take(0) =~= Seq::<EmbedView>::empty());
    assert(pieces.deep_view() =~= embeds_pieces(views.take(0)));
    while i < embeds.len()
        invariant
            i <= embeds.len(),
            views == embeds.deep_view(),
            pieces.deep_view() == embeds_pieces(views.take(i as int)),
        decreases embeds.len() - i,
    {
        push_embed(&mut pieces, &embeds[i]);
        proof {
            assert(views[i as int] == embeds[i as int]@);
            assert(views.take(i + 1).drop_last() =~= views.take(i as int));
            assert(views.take(i + 1).last() == views[i as int]);
        }
        i += 1;
    }
    assert(views.take(embeds.len() as int) =~= views);
    pieces
}

/// Appends the contribution of `field` to `text`.
pub fn push_field(text: &mut String, field: &RichField)
    ensures
        final(text)@ == old(text)@ + field_text(field@),
{
    match field {
        RichField::Title(t) => {
            let lower = to_lowercase(t.as_str());
            push_line(text, lower.as_str());
        },
        RichField::Description(t) => {
            let lower = to_lowercase(t.as_str());
            push_line(text, lower.as_str());
        },
        RichField::Footer(t) => {
            let lower = to_lowercase(t.as_str());
            push_line(text, lower.as_str());
        },
        RichField::Named { name, value } => {
            let lower_name = to_lowercase(name.as_str());
            let lower_value = to_lowercase(value.as_str());
            push_line(text, lower_name.as_str());
            push_line(text, lower_value.as_str());
            assert(text@ =~= old(text)@ + (line(lowercase(name@)) + line(lowercase(value@))));
        },
    }
}

/// Flattens a message body and its rich content, in the order given, into
/// the text that the matcher scans.
pub fn flatten(body: &str, fields: &Vec<RichField>) -> (text: String)
    ensures
        text@ == flattened(body@, fields.deep_view()),
{
    let ghost views = fields.deep_view();
    let mut text = to_lowercase(body);
    let mut i: usize = 0;
    assert(views.take(0) =~= Seq::<RichFieldView>::empty());
    assert(text@ =~= flattened(body@, views.take(0)));
    while i < fields.len()
        invariant
            i <= fields.len(),
            views == fields.deep_view(),
            text@ == flattened(body@, views.take(i as int)),
        decreases fields.len() - i,
    {
        push_field(&mut text, &fields[i]);
        proof {
            assert(views[i as int] == fields[i as int]@);
            assert(views.take(i + 1) =~= views.take(i as int).push(views[i as int]));
            lemma_flattened_push(body@, views.take(i as int), views[i as int]);
        }
        i += 1;
    }
    assert(views.take(fields.len() as int) =~= views);
    text
}

} // verus!
