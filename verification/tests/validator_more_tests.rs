use xsd_parser::generator::Generator;
use xsd_parser::types::{Enum, EnumCase, EnumSource, FacetType};
use xsd_parser::validator::{
    gen_digits_validation, gen_enum_validation, gen_facet_validation, gen_regex_validation,
    gen_validate_impl, gen_validation_functions, gen_validation_macro,
};

#[test]
fn test_gen_validate_impl_empty_body() {
    assert_eq!(gen_validate_impl("Point", ""), "impl Validate for Point {}");
}

#[test]
fn test_gen_validate_impl_with_body() {
    let expected = "impl Validate for Point {\n    fn validate(&self) -> Result<(), String> { X\n        Ok(())\n    }\n}\n";
    assert_eq!(gen_validate_impl("Point", "X"), expected);
}

#[test]
fn test_gen_facet_validation_dispatch() {
    let facet = FacetType::MaxLength(String::from("50"));
    let expected = r#"
        if self.name.len() > 50 {
            return Err(format!("MaxLength validation error. \nExpected: name length <= 50 \nActual: name length == {}", self.name.len()));
        }"#;
    assert_eq!(gen_facet_validation(&facet, "name", "i32"), expected);
}

#[test]
fn test_gen_facet_validation_silent_facets() {
    assert_eq!(
        gen_facet_validation(&FacetType::Enumeration(String::from("x")), "name", "i32"),
        ""
    );
    assert_eq!(
        gen_facet_validation(&FacetType::FractionDigits(String::from("2")), "name", "i32"),
        ""
    );
    assert_eq!(
        gen_facet_validation(&FacetType::WhiteSpace(String::from("collapse")), "name", "i32"),
        ""
    );
}

#[test]
fn test_gen_facet_validation_normalizes_number() {
    let facet = FacetType::Length(String::from("050"));
    let out = gen_facet_validation(&facet, "name", "i32");
    assert!(out.contains("self.name.len() != 50 "));
    assert!(!out.contains("050"));
}

#[test]
fn test_gen_validation_macro_groups() {
    let facets = vec![
        FacetType::MaxLength(String::from("50")),
        FacetType::MinInclusive(String::from("2")),
        FacetType::Length(String::from("10")),
    ];
    let expected = "  #[validate(length(max = 50, equal = 10), range(min = 2))]\n";
    assert_eq!(gen_validation_macro(&facets, "count", "  "), expected);
}

#[test]
fn test_gen_validation_macro_empty() {
    let facets = vec![FacetType::Enumeration(String::from("x"))];
    assert_eq!(gen_validation_macro(&facets, "count", "  "), "");
}

#[test]
fn test_gen_validation_macro_regex_and_custom() {
    let facets = vec![
        FacetType::Pattern(String::from("[a-z]+")),
        FacetType::FractionDigits(String::from("2")),
    ];
    let expected =
        "#[validate(regex(path = *SOME_NAME_REGEX), custom(function = some_name_digits_validator))]\n";
    assert_eq!(gen_validation_macro(&facets, "SomeName", ""), expected);
}

#[test]
fn test_gen_regex_validation_upper_snake() {
    let out = gen_regex_validation("[0-9]{2}", "someName");
    let expected = "\nstatic SOME_NAME_REGEX: Lazy<Regex> = Lazy::new(|| {\n    Regex::new(r\"[0-9]{2}\").unwrap()\n});\n        ";
    assert_eq!(out, expected);
}

#[test]
fn test_gen_digits_validation_snake_name() {
    let out = gen_digits_validation("2", "5", "SomeName");
    assert!(out.starts_with("\nfn some_name_digits_validator(num: &BigDecimal)"));
    assert!(out.contains("num.fractional_digit_count() > 2"));
    assert!(out.contains("num.digits() > 5"));
}

#[test]
fn test_gen_validation_functions_digit_pair() {
    let facets = vec![
        FacetType::FractionDigits(String::from("2")),
        FacetType::TotalDigits(String::from("5")),
    ];
    let out = gen_validation_functions(&facets, "price");
    assert!(out.contains("fn price_digits_validator"));
}

#[test]
fn test_gen_validation_functions_lone_digit_facet() {
    let facets = vec![FacetType::FractionDigits(String::from("2"))];
    assert_eq!(gen_validation_functions(&facets, "price"), "");
}

#[test]
fn test_gen_validation_functions_pattern_then_digits() {
    let facets = vec![
        FacetType::Pattern(String::from("x+")),
        FacetType::TotalDigits(String::from("5")),
        FacetType::FractionDigits(String::from("2")),
    ];
    let out = gen_validation_functions(&facets, "price");
    let parts: Vec<&str> = out.split("\n\n").collect();
    assert_eq!(parts.len(), 2);
    assert!(parts[0].contains("PRICE_REGEX"));
    assert!(parts[1].contains("price_digits_validator"));
}

#[test]
fn test_gen_enum_validation_payload_case() {
    let entity = Enum {
        name: String::from("color"),
        cases: vec![
            EnumCase {
                name: String::from("deep_red"),
                comment: None,
                value: String::from("deepRed"),
                typename: Some(String::from("String")),
            },
            EnumCase {
                name: String::from("blue"),
                comment: None,
                value: String::from("blue"),
                typename: None,
            },
        ],
        comment: None,
        typename: String::from("String"),
        subtypes: vec![],
        source: EnumSource::Restriction,
    };
    let gen = Generator::default();
    let out = gen_enum_validation(&entity, "ColorChoice", &gen);
    assert!(out.contains("impl Validate for ColorChoice {"));
    assert!(out.contains("Self::DeepRed(val) => { err.merge_self(\"DeepRed\", val.validate()); },"));
    assert!(out.contains("Self::__Unknown__(val) => {"));
    assert!(!out.contains("_ => {},"));
}

#[test]
fn test_gen_enum_validation_no_payload_cases() {
    let entity = Enum {
        name: String::from("color"),
        cases: vec![EnumCase {
            name: String::from("blue"),
            comment: None,
            value: String::from("blue"),
            typename: None,
        }],
        comment: None,
        typename: String::from("String"),
        subtypes: vec![],
        source: EnumSource::Restriction,
    };
    let gen = Generator::default();
    let out = gen_enum_validation(&entity, "ColorChoice", &gen);
    assert!(out.contains("_ => {},"));
}

#[test]
fn test_gen_digits_validation_exact() {
    let expected = r#"
fn some_name_digits_validator(num: &BigDecimal) -> Result<(), ValidationError> {
    if num.fractional_digit_count() > 2 {
        let mut err = ValidationError::new("fractional_digits");
        err.add_param("max".into(), &2);
        err.add_param("value".into(), &num);
        return Err(err);
    }
    if num.digits() > 5 {
        let mut err = ValidationError::new("total_digits");
        err.add_param("max".into(), &5);
        err.add_param("value".into(), &num);
        return Err(err);
    }
    Ok(())
}
        "#;
    assert_eq!(gen_digits_validation("2", "5", "SomeName"), expected);
}

#[test]
fn test_gen_enum_validation_exact() {
    let entity = Enum {
        name: String::from("color"),
        cases: vec![EnumCase {
            name: String::from("blue"),
            comment: None,
            value: String::from("blue"),
            typename: None,
        }],
        comment: None,
        typename: String::from("String"),
        subtypes: vec![],
        source: EnumSource::Restriction,
    };
    let gen = Generator::default();
    let out = gen_enum_validation(&entity, "ColorChoice", &gen);
    let expected = "\nimpl Validate for ColorChoice {\n    fn validate(&self) -> Result<(), ValidationErrors> {\n        let mut err = ValidationErrors::new();\n        match self {\n            \n            Self::__Unknown__(val) => {\n                let mut field_err = ValidationError::new(\"unknown_enum\");\n                field_err.add_param(\"value\".into(), &val);\n                err.add(\"unknown\", field_err);\n            },\n            _ => {},\n        }\n        if err.is_empty() { Ok(()) } else { Err(err) }\n    }\n}\n        ";
    assert_eq!(out, expected);
}
