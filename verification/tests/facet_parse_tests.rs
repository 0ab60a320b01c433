use xsd_parser::xml_to_xsd::{parse_bool, ElementKind, XmlAttribute, XmlNode};
use xsd_parser::xsd_model::Facet;

fn attr(name: &str, value: &str) -> XmlAttribute {
    XmlAttribute { name: String::from(name), value: String::from(value) }
}

fn node(kind: ElementKind, attributes: Vec<XmlAttribute>, children: Vec<XmlNode>) -> XmlNode {
    XmlNode { kind, attributes, children }
}

#[test]
fn test_facet_parse_attributes() {
    let n = node(
        ElementKind::Other(String::from("maxLength")),
        vec![attr("value", "50"), attr("fixed", "true"), attr("custom", "x")],
        vec![],
    );
    let f = Facet::parse(&n).unwrap();
    assert_eq!(f.value, "50");
    assert!(f.fixed);
    assert_eq!(f.id, None);
    assert!(f.annotation.is_none());
    assert_eq!(f.attributes.len(), 1);
    assert_eq!(f.attributes[0].name, "custom");
}

#[test]
fn test_facet_parse_defaults() {
    let n = node(ElementKind::Other(String::from("length")), vec![], vec![]);
    let f = Facet::parse(&n).unwrap();
    assert_eq!(f.value, "");
    assert!(!f.fixed);
    assert_eq!(f.id, None);
}

#[test]
fn test_facet_parse_annotation_child() {
    let ann = node(ElementKind::Annotation, vec![attr("id", "a1"), attr("note", "n")], vec![]);
    let n = node(ElementKind::Other(String::from("length")), vec![attr("id", "f1")], vec![ann]);
    let f = Facet::parse(&n).unwrap();
    assert_eq!(f.id.as_deref(), Some("f1"));
    let a = f.annotation.unwrap();
    assert_eq!(a.id.as_deref(), Some("a1"));
    assert_eq!(a.attributes.len(), 1);
    assert_eq!(a.attributes[0].name, "note");
}

#[test]
fn test_facet_parse_rejects_other_child() {
    let bad = node(ElementKind::Sequence, vec![], vec![]);
    let n = node(ElementKind::Other(String::from("length")), vec![], vec![bad]);
    assert!(Facet::parse(&n).is_err());
}

#[test]
fn test_facet_parse_rejects_bad_fixed_literal() {
    let n = node(
        ElementKind::Other(String::from("length")),
        vec![attr("fixed", "maybe")],
        vec![],
    );
    assert!(Facet::parse(&n).is_err());
}

#[test]
fn test_facet_parse_last_attribute_wins() {
    let n = node(
        ElementKind::Other(String::from("length")),
        vec![attr("value", "1"), attr("value", "2")],
        vec![],
    );
    let f = Facet::parse(&n).unwrap();
    assert_eq!(f.value, "2");
}

#[test]
fn test_parse_bool_literals() {
    assert_eq!(parse_bool("true"), Some(true));
    assert_eq!(parse_bool("false"), Some(false));
    assert_eq!(parse_bool("TRUE"), None);
    assert_eq!(parse_bool("1"), None);
}
