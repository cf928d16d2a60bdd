use soundboard::extract::{flatten, pieces_of, push_embed, push_field, Embed, RichField};

fn title(t: &str) -> RichField {
    RichField::Title(t.to_string())
}

fn description(t: &str) -> RichField {
    RichField::Description(t.to_string())
}

fn footer(t: &str) -> RichField {
    RichField::Footer(t.to_string())
}

fn named(name: &str, value: &str) -> RichField {
    RichField::Named { name: name.to_string(), value: value.to_string() }
}

#[test]
fn body_alone_is_lowercased_without_a_line_break() {
    assert_eq!(flatten("OOF that Hurts", &Vec::new()), "oof that hurts");
}

#[test]
fn empty_message_flattens_to_the_empty_text() {
    assert_eq!(flatten("", &Vec::new()), "");
}

#[test]
fn each_piece_ends_its_own_line() {
    let fields = vec![description("A Description"), footer("The Footer"), title("Title")];
    assert_eq!(flatten("Body", &fields), "bodya description\nthe footer\ntitle\n");
}

#[test]
fn pieces_keep_the_order_given() {
    let fields = vec![title("T"), description("D")];
    assert_eq!(flatten("", &fields), "t\nd\n");
    let fields = vec![description("D"), title("T")];
    assert_eq!(flatten("", &fields), "d\nt\n");
}

#[test]
fn named_field_gives_two_lines() {
    let fields = vec![named("Name", "Value")];
    assert_eq!(flatten("x", &fields), "xname\nvalue\n");
}

#[test]
fn named_field_with_blank_parts_still_gives_two_lines() {
    let fields = vec![named("", "")];
    assert_eq!(flatten("x", &fields), "x\n\n");
}

#[test]
fn missing_pieces_give_nothing() {
    let fields = vec![title("only")];
    assert_eq!(flatten("b", &fields), "bonly\n");
}

#[test]
fn several_attachments_follow_one_another() {
    let fields = vec![
        description("First"),
        named("K", "V"),
        description("Second"),
        footer("F"),
    ];
    assert_eq!(flatten("Hi ", &fields), "hi first\nk\nv\nsecond\nf\n");
}

#[test]
fn lowercasing_goes_beyond_ascii() {
    assert_eq!(flatten("ÄÖÜ Straße", &Vec::new()), "äöü straße");
}

#[test]
fn push_field_appends_to_what_is_there() {
    let mut text = String::from("Kept");
    push_field(&mut text, &title("NEW"));
    assert_eq!(text, "Keptnew\n");
    push_field(&mut text, &named("A", "B"));
    assert_eq!(text, "Keptnew\na\nb\n");
}

fn shown(pieces: &Vec<RichField>) -> Vec<String> {
    pieces.iter().map(|p| format!("{:?}", p)).collect()
}

fn full_embed() -> Embed {
    Embed {
        title: Some("T".to_string()),
        description: Some("D".to_string()),
        footer: Some("F".to_string()),
        fields: vec![("N1".to_string(), "V1".to_string()), ("N2".to_string(), "V2".to_string())],
    }
}

fn blank_embed() -> Embed {
    Embed { title: None, description: None, footer: None, fields: Vec::new() }
}

#[test]
fn pieces_come_as_description_footer_title_fields() {
    let pieces = pieces_of(&vec![full_embed()]);
    let expected = vec![
        description("D"),
        footer("F"),
        title("T"),
        named("N1", "V1"),
        named("N2", "V2"),
    ];
    assert_eq!(shown(&pieces), shown(&expected));
    assert_eq!(flatten("Body", &pieces), "bodyd\nf\nt\nn1\nv1\nn2\nv2\n");
}

#[test]
fn missing_texts_give_no_piece() {
    assert!(pieces_of(&vec![blank_embed()]).is_empty());
    assert!(pieces_of(&Vec::new()).is_empty());
    let mut only_title = blank_embed();
    only_title.title = Some("T".to_string());
    assert_eq!(shown(&pieces_of(&vec![only_title])), shown(&vec![title("T")]));
    assert_eq!(flatten("b", &pieces_of(&vec![blank_embed(), blank_embed()])), "b");
}

#[test]
fn blank_named_field_is_still_a_piece() {
    let mut embed = blank_embed();
    embed.fields.push((String::new(), String::new()));
    let pieces = pieces_of(&vec![embed]);
    assert_eq!(shown(&pieces), shown(&vec![named("", "")]));
    assert_eq!(flatten("b", &pieces), "b\n\n");
}

#[test]
fn attachments_keep_their_order() {
    let mut first = blank_embed();
    first.footer = Some("one".to_string());
    let mut second = blank_embed();
    second.description = Some("two".to_string());
    let pieces = pieces_of(&vec![first, second]);
    assert_eq!(shown(&pieces), shown(&vec![footer("one"), description("two")]));
}

#[test]
fn push_embed_appends_to_what_is_there() {
    let mut pieces = vec![title("kept")];
    push_embed(&mut pieces, &full_embed());
    assert_eq!(pieces.len(), 6);
    assert_eq!(shown(&pieces)[0], shown(&vec![title("kept")])[0]);
    assert_eq!(shown(&pieces)[1], shown(&vec![description("D")])[0]);
}
