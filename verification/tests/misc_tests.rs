use xsd_parser::abstract_code_model::{AbstractField, Comment, Enumeration, TypeName};
use xsd_parser::strutil::{join_with, parse_u32, str_eq, u32_to_string};
use xsd_parser::xsd_model::{ElementModel, ElementModelChoice, LocalSimpleType};

#[test]
fn test_parse_u32_values() {
    assert_eq!(parse_u32("0"), Some(0));
    assert_eq!(parse_u32("050"), Some(50));
    assert_eq!(parse_u32("4294967295"), Some(4294967295));
    assert_eq!(parse_u32("4294967296"), None);
    assert_eq!(parse_u32(""), None);
    assert_eq!(parse_u32("12a"), None);
    assert_eq!(parse_u32("-1"), None);
}

#[test]
fn test_u32_to_string_values() {
    assert_eq!(u32_to_string(0), "0");
    assert_eq!(u32_to_string(7), "7");
    assert_eq!(u32_to_string(1050), "1050");
    assert_eq!(u32_to_string(4294967295), "4294967295");
}

#[test]
fn test_str_eq() {
    assert!(str_eq("abc", "abc"));
    assert!(!str_eq("abc", "abd"));
    assert!(!str_eq("abc", "ab"));
    assert!(str_eq("", ""));
}

#[test]
fn test_join_with() {
    let parts = vec![String::from("a"), String::from("b"), String::from("c")];
    assert_eq!(join_with(&parts, ", "), "a, b, c");
    let one = vec![String::from("a")];
    assert_eq!(join_with(&one, ", "), "a");
    let none: Vec<String> = vec![];
    assert_eq!(join_with(&none, ", "), "");
}

#[test]
fn test_enumeration_model() {
    let e = Enumeration {
        name: Some(String::from("color")),
        variants: vec![AbstractField {
            name: Some(String::from("red")),
            typename: None,
            comment: Comment { text: None },
        }],
        comment: Comment { text: Some(String::from("doc")) },
        typename: Some(TypeName { name: String::from("String") }),
        subtypes: vec![],
    };
    assert_eq!(e.variants.len(), 1);
    assert_eq!(e.variants[0].name.as_deref(), Some("red"));
    let d = Enumeration::default();
    assert!(d.name.is_none());
    assert!(d.variants.is_empty());
}

#[test]
fn test_element_model() {
    let m = ElementModel {
        choice: Some(ElementModelChoice::SimpleType(LocalSimpleType { id: None })),
        identity_constraint: vec![],
    };
    match m.choice {
        Some(ElementModelChoice::SimpleType(t)) => assert!(t.id.is_none()),
        _ => panic!("expected the inline simple type alternative"),
    }
}
