use xsd_parser::dedup::{dedupe, is_hidden_name, Document};
use xsd_parser::types::{RsEntity, Struct};

fn named_struct(name: &str) -> RsEntity {
    RsEntity::Struct(Struct {
        name: String::from(name),
        comment: None,
        fields: vec![],
        subtypes: vec![],
    })
}

fn doc(name: &str, entities: Vec<RsEntity>) -> Document {
    Document { name: String::from(name), entities }
}

fn names_of(entities: &[RsEntity]) -> Vec<&str> {
    entities
        .iter()
        .map(|e| match e {
            RsEntity::Struct(s) => s.name.as_str(),
            RsEntity::Enum(en) => en.name.as_str(),
            RsEntity::TupleStruct(t) => t.name.as_str(),
            RsEntity::Alias(a) => a.name.as_str(),
        })
        .collect()
}

#[test]
fn test_dedupe_three_documents() {
    let docs = vec![
        doc("a.xsd", vec![named_struct("Address"), named_struct("Document")]),
        doc("b.xsd", vec![named_struct("Address"), named_struct("Document")]),
        doc("c.xsd", vec![named_struct("Document")]),
    ];
    let (kept, shared) = dedupe(&docs);
    assert_eq!(kept.len(), 3);
    assert_eq!(names_of(&kept[0].entities), vec!["Document"]);
    assert_eq!(names_of(&kept[1].entities), vec!["Document"]);
    assert_eq!(names_of(&kept[2].entities), vec!["Document"]);
    assert_eq!(names_of(&shared), vec!["Address"]);
}

#[test]
fn test_dedupe_reserved_name_any_casing() {
    let docs = vec![
        doc("a.xsd", vec![named_struct("DOCUMENT")]),
        doc("b.xsd", vec![named_struct("DOCUMENT")]),
    ];
    let (kept, shared) = dedupe(&docs);
    assert_eq!(names_of(&kept[0].entities), vec!["DOCUMENT"]);
    assert_eq!(names_of(&kept[1].entities), vec!["DOCUMENT"]);
    assert!(shared.is_empty());
}

#[test]
fn test_dedupe_single_definition_stays() {
    let docs = vec![
        doc("a.xsd", vec![named_struct("Only")]),
        doc("b.xsd", vec![named_struct("Other")]),
    ];
    let (kept, shared) = dedupe(&docs);
    assert_eq!(names_of(&kept[0].entities), vec!["Only"]);
    assert_eq!(names_of(&kept[1].entities), vec!["Other"]);
    assert!(shared.is_empty());
}

#[test]
fn test_dedupe_last_definition_wins() {
    let first = RsEntity::Struct(Struct {
        name: String::from("Shape"),
        comment: Some(String::from("first")),
        fields: vec![],
        subtypes: vec![],
    });
    let last = RsEntity::Struct(Struct {
        name: String::from("Shape"),
        comment: Some(String::from("last")),
        fields: vec![],
        subtypes: vec![],
    });
    let docs = vec![doc("a.xsd", vec![first]), doc("b.xsd", vec![last])];
    let (_, shared) = dedupe(&docs);
    assert_eq!(shared.len(), 1);
    match &shared[0] {
        RsEntity::Struct(s) => assert_eq!(s.comment.as_deref(), Some("last")),
        other => panic!("expected a struct, got {:?}", other),
    }
}

#[test]
fn test_hidden_name_dot_prefix() {
    assert!(is_hidden_name(".hidden.xsd"));
    assert!(is_hidden_name("."));
    assert!(!is_hidden_name("visible.xsd"));
    assert!(!is_hidden_name(""));
}

#[test]
fn test_dedupe_shared_order_of_first_definition() {
    let docs = vec![
        doc("a.xsd", vec![named_struct("Beta"), named_struct("Alpha")]),
        doc("b.xsd", vec![named_struct("Alpha"), named_struct("Beta")]),
    ];
    let (_, shared) = dedupe(&docs);
    assert_eq!(names_of(&shared), vec!["Beta", "Alpha"]);
}
