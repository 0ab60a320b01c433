use xsd_parser::enum_gen::{DefaultEnumGen, EnumGenerator};
use xsd_parser::generator::{Generator, TargetNamespace};
use xsd_parser::types::{
    Alias, Enum, EnumCase, EnumSource, FacetType, Multiplicity, RsEntity, Struct, StructField,
};

fn sample_enum(source: EnumSource) -> Enum {
    Enum {
        name: String::from("color"),
        cases: vec![
            EnumCase {
                name: String::from("deep_red"),
                comment: None,
                value: String::from("deepRed"),
                typename: None,
            },
            EnumCase {
                name: String::from("blue"),
                comment: None,
                value: String::from("blue"),
                typename: Some(String::from("String")),
            },
        ],
        comment: Some(String::from("a colour")),
        typename: String::from("String"),
        subtypes: vec![],
        source,
    }
}

fn sample_struct() -> RsEntity {
    RsEntity::Struct(Struct {
        name: String::from("shipping_address"),
        comment: Some(String::from("where it goes")),
        fields: vec![
            StructField {
                name: String::from("streetName"),
                typename: String::from("string"),
                comment: None,
                multiplicity: Multiplicity::Required,
                is_attribute: false,
                facets: vec![FacetType::MaxLength(String::from("50"))],
            },
            StructField {
                name: String::from("flags"),
                typename: String::from("string"),
                comment: None,
                multiplicity: Multiplicity::Repeated,
                is_attribute: true,
                facets: vec![],
            },
        ],
        subtypes: vec![],
    })
}

#[test]
fn test_generate_deterministic() {
    let gen = Generator::default();
    let e1 = sample_struct();
    let a = gen.generate(&e1);
    let b = gen.generate(&e1);
    assert_eq!(a, b);
    let en = RsEntity::Enum(sample_enum(EnumSource::Restriction));
    assert_eq!(gen.generate(&en), gen.generate(&en));
}

#[test]
fn test_generate_struct_fields() {
    let gen = Generator::default();
    let out = gen.generate(&sample_struct());
    assert!(out.starts_with("// where it goes\n"));
    assert!(out.contains(
        "#[derive(Default, PartialEq, Debug, Clone, Serialize, Deserialize, Validate)]\n"
    ));
    assert!(out.contains("pub struct ShippingAddress {\n"));
    assert!(out.contains("    #[validate(length(max = 50))]\n"));
    assert!(out.contains("    #[serde(rename = \"streetName\")]\n"));
    assert!(out.contains("    pub street_name: String,\n"));
    assert!(out.contains("    #[serde(attribute, rename = \"flags\")]\n"));
    assert!(out.contains("    pub flags: Vec<String>,\n"));
}

#[test]
fn test_generate_enum_restriction_wrapper() {
    let gen = Generator::default();
    let entity = sample_enum(EnumSource::Restriction);
    let out = DefaultEnumGen.generate(&entity, &gen);
    assert!(out.contains("pub enum ColorChoice {\n"));
    assert!(out.contains("    DeepRed,\n"));
    assert!(out.contains("    Blue(String),"));
    assert!(out.contains("    __Unknown__(String),\n"));
    assert!(out.contains("impl Default for ColorChoice {"));
    assert!(out.contains("Self::__Unknown__(\"No valid variants\".into())"));
    assert!(out.contains("pub struct Color {\n"));
    assert!(out.contains("#[serde(rename = \"$text\")]\n"));
    assert!(out.contains("pub color_choice: ColorChoice\n"));
}

#[test]
fn test_generate_enum_union_custom_derive() {
    let gen = Generator::default();
    let entity = sample_enum(EnumSource::Union);
    let out = DefaultEnumGen.generate(&entity, &gen);
    assert!(out.contains("#[derive(PartialEq, Debug, UtilsUnionSerDe)]"));
    assert!(out.contains("pub enum Color {\n"));
    assert!(!out.contains("ColorChoice"));
}

#[test]
fn test_enum_generator_parts() {
    let gen = Generator::default();
    let entity = sample_enum(EnumSource::Restriction);
    assert_eq!(DefaultEnumGen.get_name(&entity, &gen), "Color");
    assert_eq!(DefaultEnumGen.get_type_name(&entity, &gen), "String");
    assert_eq!(DefaultEnumGen.format_comment(&entity, &gen), "// a colour\n");
    assert_eq!(
        DefaultEnumGen.validation(&entity, &gen),
        "impl Validate for Color {}"
    );
    assert_eq!(DefaultEnumGen.cases(&entity, &gen), "    DeepRed,\n    Blue(String),");
}

#[test]
fn test_generate_alias() {
    let gen = Generator::default();
    let out = gen.generate(&RsEntity::Alias(Alias {
        name: String::from("short_name"),
        original: String::from("token"),
        comment: None,
    }));
    assert_eq!(out, "pub type ShortName = Token;\n\n");
}

#[test]
fn test_generate_with_target_namespace() {
    let gen = Generator {
        indent: String::from("    "),
        target_ns: Some(TargetNamespace {
            prefix: Some(String::from("tns")),
            uri: String::from("http://example.com/ns"),
        }),
    };
    let out = gen.generate(&sample_struct());
    assert!(out.contains(
        "#[serde(prefix = \"tns\", namespace = \"tns: http://example.com/ns\")]\n"
    ));
}

#[test]
fn test_generate_all_concatenates() {
    let gen = Generator::default();
    let types = vec![
        RsEntity::Alias(Alias {
            name: String::from("a"),
            original: String::from("b"),
            comment: None,
        }),
        RsEntity::Alias(Alias {
            name: String::from("c"),
            original: String::from("d"),
            comment: None,
        }),
    ];
    assert_eq!(gen.generate_all(&types), "pub type A = B;\n\npub type C = D;\n\n");
}

#[test]
fn test_generate_nested_subtypes() {
    let gen = Generator::default();
    let inner = RsEntity::Alias(Alias {
        name: String::from("inner"),
        original: String::from("token"),
        comment: None,
    });
    let outer = RsEntity::Struct(Struct {
        name: String::from("outer"),
        comment: None,
        fields: vec![],
        subtypes: vec![inner],
    });
    let out = gen.generate(&outer);
    assert!(out.contains("pub mod outer {\npub type Inner = Token;\n\n\n}\n\n"));
}

#[test]
fn test_generate_enum_exact() {
    let entity = Enum {
        name: String::from("color"),
        cases: vec![EnumCase {
            name: String::from("blue"),
            comment: None,
            value: String::from("blue"),
            typename: None,
        }],
        comment: None,
        typename: String::from("String"),
        subtypes: vec![],
        source: EnumSource::Restriction,
    };
    let gen = Generator::default();
    let out = DefaultEnumGen.generate(&entity, &gen);
    let validation = "\nimpl Validate for ColorChoice {\n    fn validate(&self) -> Result<(), ValidationErrors> {\n        let mut err = ValidationErrors::new();\n        match self {\n            \n            Self::__Unknown__(val) => {\n                let mut field_err = ValidationError::new(\"unknown_enum\");\n                field_err.add_param(\"value\".into(), &val);\n                err.add(\"unknown\", field_err);\n            },\n            _ => {},\n        }\n        if err.is_empty() { Ok(()) } else { Err(err) }\n    }\n}\n        ";
    let expected = String::new()
        + "#[derive(PartialEq, Debug, Clone, Serialize, Deserialize)]\n"
        + "pub enum ColorChoice {\n"
        + "    Blue,\n"
        + "    __Unknown__(String),\n"
        + "}\n\n"
        + validation
        + "\n\n"
        + "impl Default for ColorChoice {\n"
        + "    fn default() -> ColorChoice {\n"
        + "        Self::__Unknown__(\"No valid variants\".into())\n"
        + "    }\n"
        + "}"
        + "\n\n"
        + "\n\n"
        + "#[derive(Default, PartialEq, Debug, Clone, Serialize, Deserialize, Validate)]\n"
        + "pub struct Color {\n"
        + "    #[serde(rename = \"$text\")]\n"
        + "    #[validate(nested)]\n"
        + "    pub color_choice: ColorChoice\n"
        + "}\n\n";
    assert_eq!(out, expected);
}
