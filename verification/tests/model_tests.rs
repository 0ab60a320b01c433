use xsd_parser::types::{
    constraint_for, decode_literal, extend_fields, length_allows, multiplicity, Constraint,
    DecodedCase, Enum, EnumCase, EnumSource, FacetType, MaxOccurs, Multiplicity, StructField,
};

fn field(name: &str) -> StructField {
    StructField {
        name: String::from(name),
        typename: String::from("string"),
        comment: None,
        multiplicity: Multiplicity::Required,
        is_attribute: false,
        facets: vec![],
    }
}

#[test]
fn test_multiplicity_optional() {
    assert_eq!(multiplicity(0, MaxOccurs::Bounded(1)), Multiplicity::Optional);
}

#[test]
fn test_multiplicity_required() {
    assert_eq!(multiplicity(1, MaxOccurs::Bounded(1)), Multiplicity::Required);
}

#[test]
fn test_multiplicity_repeated_bounded() {
    assert_eq!(multiplicity(1, MaxOccurs::Bounded(2)), Multiplicity::Repeated);
}

#[test]
fn test_multiplicity_repeated_unbounded() {
    assert_eq!(multiplicity(0, MaxOccurs::Unbounded), Multiplicity::Repeated);
}

#[test]
fn test_extend_fields_order() {
    let base = vec![field("a"), field("b")];
    let ext = vec![field("c")];
    let all = extend_fields(base, ext);
    let names: Vec<&str> = all.iter().map(|f| f.name.as_str()).collect();
    assert_eq!(names, vec!["a", "b", "c"]);
}

fn color_enum() -> Enum {
    Enum {
        name: String::from("color"),
        cases: vec![
            EnumCase {
                name: String::from("red"),
                comment: None,
                value: String::from("red"),
                typename: None,
            },
            EnumCase {
                name: String::from("blue"),
                comment: None,
                value: String::from("blue"),
                typename: None,
            },
        ],
        comment: None,
        typename: String::from("String"),
        subtypes: vec![],
        source: EnumSource::Restriction,
    }
}

#[test]
fn test_decode_literal_declared() {
    let e = color_enum();
    assert_eq!(decode_literal(&e, "blue"), DecodedCase::Declared(1));
}

#[test]
fn test_decode_literal_unknown_never_fails() {
    let e = color_enum();
    match decode_literal(&e, "chartreuse") {
        DecodedCase::Unknown(s) => assert_eq!(s, "chartreuse"),
        other => panic!("expected the unknown-fallback case, got {:?}", other),
    }
}

#[test]
fn test_min_length_zero_records_no_constraint() {
    assert_eq!(constraint_for(&FacetType::MinLength(String::from("0"))), None);
}

#[test]
fn test_min_length_one_boundary() {
    let c = constraint_for(&FacetType::MinLength(String::from("1"))).unwrap();
    assert_eq!(c, Constraint::MinLength(1));
    assert!(!length_allows(&c, 0));
    assert!(length_allows(&c, 1));
}

#[test]
fn test_max_length_fifty_boundary() {
    let c = constraint_for(&FacetType::MaxLength(String::from("50"))).unwrap();
    assert_eq!(c, Constraint::MaxLength(50));
    assert!(length_allows(&c, 50));
    assert!(!length_allows(&c, 51));
}

#[test]
fn test_constraint_for_bounds_keep_literals() {
    assert_eq!(
        constraint_for(&FacetType::MinInclusive(String::from("-5"))),
        Some(Constraint::MinInclusive(String::from("-5")))
    );
    assert_eq!(
        constraint_for(&FacetType::Enumeration(String::from("x"))),
        None
    );
}
