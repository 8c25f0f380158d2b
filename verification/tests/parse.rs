use parse_wiktionary_de::util::Context;
use parse_wiktionary_de::{
    parse, DefinitionListItem, DefinitionListItemType, Flowing, Language, Node, Parameter, Pos,
    WarningMessage,
};

fn text(value: &str) -> Node {
    Node::Text { value: value.to_owned(), start: 0, end: 0 }
}

fn unnamed(value: Vec<Node>) -> Parameter {
    Parameter { name: None, value, start: 0, end: 0 }
}

fn template(name: &str, parameters: Vec<Parameter>) -> Node {
    Node::Template { name: vec![text(name)], parameters, start: 0, end: 0 }
}

fn heading(level: u8, nodes: Vec<Node>) -> Node {
    Node::Heading { level, nodes, start: 0, end: 0 }
}

fn details_item(nodes: Vec<Node>) -> DefinitionListItem {
    DefinitionListItem { type_: DefinitionListItemType::Details, nodes, start: 0, end: 0 }
}

fn empty_context() -> Context<'static> {
    Context { language: None, warnings: vec![], wiki_text: "" }
}

#[test]
fn main() {
    let output = parse("", "", &[]);
    assert!(output.language_entries.is_empty());
    assert!(output.warnings.is_empty());
}

#[test]
fn scenario_noun_with_example() {
    let title = "Ausstellungswohnen";
    let nodes = vec![
        heading(
            2,
            vec![
                text("Ausstellungswohnen ("),
                template("Sprache", vec![unnamed(vec![text("Deutsch")])]),
                text(")"),
            ],
        ),
        heading(
            3,
            vec![template(
                "Wortart",
                vec![unnamed(vec![text("Substantiv")]), unnamed(vec![text("Deutsch")])],
            )],
        ),
        template("Beispiele", vec![]),
        Node::DefinitionList {
            items: vec![details_item(vec![text("Das Haus sei geeignet.")])],
            start: 0,
            end: 0,
        },
    ];
    let output = parse(title, "", &nodes);
    assert_eq!(output.language_entries.len(), 1);
    let language_entry = &output.language_entries[0];
    assert!(matches!(language_entry.language, Language::De));
    assert_eq!(language_entry.pos_entries.len(), 1);
    let pos_entry = &language_entry.pos_entries[0];
    assert!(matches!(pos_entry.pos, Pos::Noun));
    assert_eq!(pos_entry.examples.len(), 1);
    let example = &pos_entry.examples[0];
    assert_eq!(example.example.len(), 1);
    match &example.example[0] {
        Flowing::Text { value } => assert_eq!(value, "Das Haus sei geeignet."),
        other => panic!("expected a text element, got {:?}", other),
    }
    assert!(example.translation.is_empty());
}

#[test]
fn simple_marker_with_parameter_is_fallback() {
    let mut context = empty_context();
    let node = template("Gen.", vec![]);
    let parameters = vec![unnamed(vec![text("x")])];
    let result = parse_wiktionary_de::util::parse_simple_template(
        &mut context,
        &node,
        &parameters,
        Flowing::Genitive,
    );
    assert!(matches!(result, Flowing::Unknown { .. }));
    assert_eq!(context.warnings.len(), 1);
    assert!(matches!(context.warnings[0].message, WarningMessage::ValueUnrecognized));
}

#[test]
fn simple_marker_without_parameter_is_kept() {
    let mut context = empty_context();
    let node = template("Gen.", vec![]);
    let result = parse_wiktionary_de::util::parse_simple_template(
        &mut context,
        &node,
        &vec![],
        Flowing::Genitive,
    );
    assert!(matches!(result, Flowing::Genitive));
    assert!(context.warnings.is_empty());
}

#[test]
fn duplicate_translations_heading_aborts_body() {
    let mut context = Context { language: Some(Language::De), warnings: vec![], wiki_text: "" };
    let translations = heading(4, vec![template("\u{dc}bersetzungen", vec![])]);
    let translations2 = heading(4, vec![template("\u{dc}bersetzungen", vec![])]);
    let nodes = vec![translations, translations2];
    let mut pos_entries = vec![];
    let consumed = parse_wiktionary_de::pos_section::parse_pos_section(
        &mut context,
        &nodes,
        0,
        &mut pos_entries,
        Pos::Noun,
        vec![],
    );
    assert_eq!(consumed, 0);
    assert!(pos_entries.is_empty());
    let duplicates = context
        .warnings
        .iter()
        .filter(|w| matches!(w.message, WarningMessage::Duplicate))
        .count();
    assert_eq!(duplicates, 1);
    assert!(matches!(context.warnings.last().unwrap().message, WarningMessage::Duplicate));
}

#[test]
fn duplicate_section_resets_slot() {
    let mut context = Context { language: Some(Language::De), warnings: vec![], wiki_text: "" };
    let marker = template("Synonyme", vec![]);
    let nodes = vec![Node::DefinitionList {
        items: vec![details_item(vec![text("anders")])],
        start: 0,
        end: 0,
    }];
    let mut output = Some(vec![vec![Flowing::Italic]]);
    let consumed = parse_wiktionary_de::list::parse_list(
        &mut context,
        &marker,
        &vec![],
        &nodes,
        0,
        &mut output,
    );
    assert_eq!(consumed, 0);
    assert!(output.unwrap().is_empty());
    assert_eq!(context.warnings.len(), 1);
    assert!(matches!(context.warnings[0].message, WarningMessage::Duplicate));
}

#[test]
fn conflicting_pos_language_yields_no_entry() {
    let mut context = Context { language: Some(Language::De), warnings: vec![], wiki_text: "" };
    let marker = template("Wortart", vec![]);
    let parameters = vec![unnamed(vec![text("Substantiv")]), unnamed(vec![text("Englisch")])];
    let result = parse_wiktionary_de::pos_template::parse_pos_template(
        &mut context,
        &marker,
        &parameters,
    );
    assert!(result.is_none());
    assert_eq!(context.warnings.len(), 1);
    assert!(matches!(context.warnings[0].message, WarningMessage::ValueConflicting));
}

#[test]
fn empty_language_section_is_discarded() {
    let title = "Wort";
    let nodes = vec![heading(
        2,
        vec![
            text("Wort ("),
            template("Sprache", vec![unnamed(vec![text("Deutsch")])]),
            text(")"),
        ],
    )];
    let output = parse(title, "", &nodes);
    assert!(output.language_entries.is_empty());
    let section_empty = output
        .warnings
        .iter()
        .filter(|w| matches!(w.message, WarningMessage::SectionEmpty))
        .count();
    assert_eq!(section_empty, 1);
}

#[test]
fn unknown_element_preserves_source_text() {
    let wiki_text = "Hello, world";
    let mut context = Context { language: None, warnings: vec![], wiki_text };
    let nodes = vec![Node::Other { start: 3, end: 8 }];
    let row = parse_wiktionary_de::list::parse_list_item(&mut context, &nodes, true);
    assert_eq!(row.len(), 1);
    match &row[0] {
        Flowing::Unknown { value } => assert_eq!(value, "lo, w"),
        other => panic!("expected an unknown element, got {:?}", other),
    }
    assert_eq!(context.warnings.len(), 1);
    assert!(matches!(context.warnings[0].message, WarningMessage::Unrecognized));
    assert_eq!(context.warnings[0].start, 3);
    assert_eq!(context.warnings[0].end, 8);
}

#[test]
fn language_lookup() {
    assert!(matches!(Language::from_name("Deutsch"), Some(Language::De)));
    assert!(matches!(Language::from_name("Englisch"), Some(Language::En)));
    assert!(matches!(Language::from_name("isiZulu"), Some(Language::Zu)));
    assert!(Language::from_name("Klingonisch").is_none());
    assert!(Language::from_name("").is_none());
}

#[test]
fn text_coercion() {
    let nodes = vec![text("a"), Node::CharacterEntity { character: '\u{e4}', start: 0, end: 0 }];
    let joined = parse_wiktionary_de::util::parse_text(&nodes).unwrap();
    assert_eq!(joined, "a\u{e4}");
    assert!(parse_wiktionary_de::util::parse_text(&[Node::Bold { start: 0, end: 0 }]).is_none());
    assert_eq!(parse_wiktionary_de::util::parse_text(&[]).unwrap(), "");
    assert!(parse_wiktionary_de::util::text_equals(&[text("ab")], "ab"));
    assert!(!parse_wiktionary_de::util::text_equals(&[text("ab")], "ac"));
    assert!(parse_wiktionary_de::util::parse_text_not_empty(&[text("")]).is_none());
}

#[test]
fn term_markers() {
    let mut context = empty_context();
    let node = template(
        "\u{dc}",
        vec![unnamed(vec![text("en")]), unnamed(vec![text("house")])],
    );
    let row = parse_wiktionary_de::list::parse_list_item(
        &mut context,
        std::slice::from_ref(&node),
        true,
    );
    assert_eq!(row.len(), 1);
    match &row[0] {
        Flowing::Term { language, term, transliteration } => {
            assert_eq!(language, "en");
            assert_eq!(term, "house");
            assert!(transliteration.is_none());
        },
        other => panic!("expected a term element, got {:?}", other),
    }
    assert!(context.warnings.is_empty());
}

#[test]
fn language_code_marker() {
    let mut context = empty_context();
    let node = template("en", vec![]);
    let row = parse_wiktionary_de::list::parse_list_item(
        &mut context,
        std::slice::from_ref(&node),
        true,
    );
    assert_eq!(row.len(), 1);
    match &row[0] {
        Flowing::Language { language } => assert_eq!(language, "en"),
        other => panic!("expected a language element, got {:?}", other),
    }
}

#[test]
fn rhyme_language_must_match() {
    let mut context = Context { language: Some(Language::De), warnings: vec![], wiki_text: "" };
    let item = details_item(vec![
        template("Reime", vec![]),
        template(
            "Reim",
            vec![unnamed(vec![text("-ort")]), unnamed(vec![text("Englisch")])],
        ),
    ]);
    let marker = template("Aussprache", vec![]);
    let nodes = vec![Node::DefinitionList { items: vec![item], start: 0, end: 0 }];
    let mut output = None;
    let consumed = parse_wiktionary_de::pronunciation::parse_pronunciation(
        &mut context,
        &marker,
        &vec![],
        &nodes,
        0,
        &mut output,
    );
    assert_eq!(consumed, 1);
    let pron = output.unwrap();
    assert_eq!(pron.rhymes.len(), 1);
    assert!(matches!(pron.rhymes[0], Flowing::Unknown { .. }));
    assert!(context
        .warnings
        .iter()
        .any(|w| matches!(w.message, WarningMessage::ValueConflicting)));
}

#[test]
fn overview_parameters_carried_through() {
    let mut context = Context { language: Some(Language::De), warnings: vec![], wiki_text: "" };
    let node = template("Deutsch Substantiv \u{dc}bersicht", vec![]);
    let parameters = vec![
        Parameter {
            name: Some(vec![text("Genus")]),
            value: vec![text("n")],
            start: 0,
            end: 0,
        },
        unnamed(vec![text("frei")]),
    ];
    let mut output = None;
    let recognized = parse_wiktionary_de::overview::parse_overview(
        &mut context,
        &node,
        "Deutsch Substantiv \u{dc}bersicht".to_owned(),
        &parameters,
        &mut output,
    );
    assert!(recognized);
    let overview = output.unwrap().unwrap();
    assert_eq!(overview.name, "Deutsch Substantiv \u{dc}bersicht");
    assert_eq!(overview.named_parameters, vec![("Genus".to_owned(), "n".to_owned())]);
    assert_eq!(overview.unnamed_parameters.len(), 1);
}

#[test]
fn gender_combination_expands() {
    let nodes = vec![
        heading(
            2,
            vec![
                text("Wort ("),
                template("Sprache", vec![unnamed(vec![text("Deutsch")])]),
                text(")"),
            ],
        ),
        heading(
            3,
            vec![
                template(
                    "Wortart",
                    vec![unnamed(vec![text("Substantiv")]), unnamed(vec![text("Deutsch")])],
                ),
                template("fm", vec![]),
            ],
        ),
        template("Beispiele", vec![]),
        Node::DefinitionList {
            items: vec![details_item(vec![text("Beleg")])],
            start: 0,
            end: 0,
        },
    ];
    let output = parse("Wort", "", &nodes);
    assert_eq!(output.language_entries.len(), 1);
    let entry = &output.language_entries[0].pos_entries[0];
    assert_eq!(entry.details.len(), 3);
    assert!(matches!(entry.details[0], Flowing::FeminineGender));
    match &entry.details[1] {
        Flowing::Text { value } => assert_eq!(value, ", "),
        other => panic!("expected separator text, got {:?}", other),
    }
    assert!(matches!(entry.details[2], Flowing::MasculineGender));
}
