use vstd::prelude::*;

verus! {

use vstd::string::StringExecFns;
use crate::strutil::{views, join_texts, join_with};
use crate::casing::{snake_of, pascal_of, to_snake, to_pascal};
use crate::types::{
    RsEntity,
    Struct,
    StructField,
    TupleStruct,
    Alias,
    Enum,
    EnumCase,
    EnumSource,
    Multiplicity,
};
use crate::validator::{
    validation_macro_text,
    gen_validation_macro,
    validate_impl_text,
    gen_validate_impl,
    enum_validation_text,
    gen_enum_validation,
};

/// The target namespace a schema document declares, when it declares one.
#[derive(Debug, Clone, PartialEq)]
pub struct TargetNamespace {
    pub prefix: Option<String>,
    pub uri: String,
}

/// Rendering settings shared by every entity renderer.
#[derive(Debug, Clone, PartialEq)]
pub struct Generator {
    pub indent: String,
    pub target_ns: Option<TargetNamespace>,
}

impl Default for Generator {
    /// The stock renderer: four-space indentation, no target namespace.
    fn default() -> (r: Generator)
        ensures
            r.indent@ == "    "@,
            r.target_ns is None,
    {
        Generator { indent: String::from_str("    "), target_ns: None }
    }
}

/// A documentation comment rendered as one leading comment line; absent or
/// empty documentation renders as nothing.
pub open spec fn comment_text(c: Option<String>) -> Seq<char> {
    match c {
        Some(t) => if t@.len() == 0 {
            Seq::<char>::empty()
        } else {
            "// "@ + t@ + "\n"@
        },
        None => Seq::<char>::empty(),
    }
}

/// The serialization-annotation header of a rendered type: its derive list,
/// then namespace metadata when the document declares a target namespace.
pub open spec fn serde_header(ns: Option<TargetNamespace>, with_default: bool) -> Seq<char> {
    let derives = if with_default {
        "#[derive(Default, PartialEq, Debug, Clone, Serialize, Deserialize, Validate)]"@
    } else {
        "#[derive(PartialEq, Debug, Clone, Serialize, Deserialize)]"@
    };
    match ns {
        Some(tn) => match tn.prefix {
            Some(p) => derives + "#[serde(prefix = \""@ + p@ + "\", namespace = \""@ + p@ + ": "@
                + tn.uri@ + "\")]\n"@,
            None => derives + "#[serde(namespace = \""@ + tn.uri@ + "\")]\n"@,
        },
        None => derives + "\n"@,
    }
}

/// The annotation header of an enumeration: union-sourced enumerations get
/// the custom serialization derive, every other source the standard header.
pub open spec fn enum_macros_text(
    source: EnumSource,
    ns: Option<TargetNamespace>,
    with_default: bool,
) -> Seq<char> {
    if source == EnumSource::Union {
        "#[derive(PartialEq, Debug, UtilsUnionSerDe)]"@
    } else {
        serde_header(ns, with_default)
    }
}

/// The type a field's multiplicity wraps its item type in.
pub open spec fn multiplicity_type(m: Multiplicity, item: Seq<char>) -> Seq<char> {
    match m {
        Multiplicity::Required => item,
        Multiplicity::Optional => "Option<"@ + item + ">"@,
        Multiplicity::Repeated => "Vec<"@ + item + ">"@,
    }
}

/// One rendered struct field: its comment, its validation attribute, its
/// serialization attribute naming the declared name, then the field itself.
pub open spec fn field_text(f: StructField, indent: Seq<char>) -> Seq<char> {
    comment_field_text(f.comment, indent) + validation_macro_text(f.facets@, f.name@, indent)
        + indent + "#[serde("@ + (if f.is_attribute {
        "attribute, "@
    } else {
        Seq::<char>::empty()
    }) + "rename = \""@ + f.name@ + "\")]\n"@ + indent + "pub "@ + snake_of(f.name@) + ": "@
        + multiplicity_type(f.multiplicity, pascal_of(f.typename@)) + ",\n"@
}

/// A field's documentation comment, indented to the field.
pub open spec fn comment_field_text(c: Option<String>, indent: Seq<char>) -> Seq<char> {
    match c {
        Some(t) => if t@.len() == 0 {
            Seq::<char>::empty()
        } else {
            indent + "// "@ + t@ + "\n"@
        },
        None => Seq::<char>::empty(),
    }
}

/// All rendered fields of a struct, in declaration order.
pub open spec fn fields_text(fs: Seq<StructField>, indent: Seq<char>) -> Seq<char>
    decreases fs.len(),
{
    if fs.len() == 0 {
        Seq::<char>::empty()
    } else {
        fields_text(fs.drop_last(), indent) + field_text(fs.last(), indent)
    }
}

/// One rendered enumeration case line.
pub open spec fn case_line(c: EnumCase, indent: Seq<char>) -> Seq<char> {
    indent + pascal_of(c.name@) + (match c.typename {
        Some(t) => "("@ + pascal_of(t@) + ")"@,
        None => Seq::<char>::empty(),
    }) + ","@
}

/// All rendered case lines of an enumeration, in declaration order.
pub open spec fn case_lines(cs: Seq<EnumCase>, indent: Seq<char>) -> Seq<Seq<char>>
    decreases cs.len(),
{
    if cs.len() == 0 {
        Seq::<Seq<char>>::empty()
    } else {
        case_lines(cs.drop_last(), indent) + seq![case_line(cs.last(), indent)]
    }
}

/// The default implementation of an enumeration: the unknown-fallback case.
pub open spec fn enum_default_text(name: Seq<char>, indent: Seq<char>) -> Seq<char> {
    "impl Default for "@ + name + " {\n"@ + indent + "fn default() -> "@ + name + " {\n"@ + indent
        + indent + "Self::__Unknown__(\"No valid variants\".into())\n"@ + indent + "}\n}"@
}

/// The auxiliary one-field struct wrapping a restriction-sourced
/// enumeration, bound to the leaf text content of the element.
pub open spec fn enum_wrapper_text(
    wrapper_name: Seq<char>,
    name: Seq<char>,
    ns: Option<TargetNamespace>,
    indent: Seq<char>,
) -> Seq<char> {
    serde_header(ns, true) + "pub struct "@ + wrapper_name + " {\n"@ + indent
        + "#[serde(rename = \"$text\")]\n"@ + indent + "#[validate(nested)]\n"@ + indent + "pub "@
        + snake_of(name) + ": "@ + name + "\n}\n\n"@
}

/// The rendered name of an enumeration: restriction-sourced enumerations
/// carry a fixed suffix, their bare name going to the wrapper struct.
pub open spec fn enum_name_text(e: Enum) -> Seq<char> {
    if e.source == EnumSource::Restriction {
        pascal_of(e.name@) + "Choice"@
    } else {
        pascal_of(e.name@)
    }
}

/// One whole rendered entity.
pub open spec fn entity_text(
    e: RsEntity,
    ns: Option<TargetNamespace>,
    indent: Seq<char>,
) -> Seq<char>
    decreases e, 0int,
{
    match e {
        RsEntity::Struct(s) => struct_text(s, ns, indent),
        RsEntity::TupleStruct(t) => tuple_text(t, ns, indent),
        RsEntity::Enum(en) => enum_text(en, ns, indent),
        RsEntity::Alias(a) => alias_text(a),
    }
}

/// The rendered texts of a run of entities, in order.
pub open spec fn entity_texts(
    es: Seq<RsEntity>,
    ns: Option<TargetNamespace>,
    indent: Seq<char>,
) -> Seq<Seq<char>>
    decreases es, 0int,
{
    if es.len() == 0 {
        Seq::<Seq<char>>::empty()
    } else {
        entity_texts(es.drop_last(), ns, indent) + seq![entity_text(es.last(), ns, indent)]
    }
}

/// A run of owned subtypes rendered recursively, separated by blank lines.
pub open spec fn subtypes_text(
    es: Seq<RsEntity>,
    ns: Option<TargetNamespace>,
    indent: Seq<char>,
) -> Seq<char>
    decreases es, 1int,
{
    join_texts(entity_texts(es, ns, indent), "\n\n"@)
}

/// A rendered struct: documentation, annotation header, fields, then a
/// nested scope holding its owned subtypes when it has any.
pub open spec fn struct_text(s: Struct, ns: Option<TargetNamespace>, indent: Seq<char>) -> Seq<
    char,
>
    decreases s, 0int,
{
    comment_text(s.comment) + serde_header(ns, true) + "pub struct "@ + pascal_of(s.name@)
        + " {\n"@ + fields_text(s.fields@, indent) + "}\n\n"@ + (if s.subtypes@.len() == 0 {
        Seq::<char>::empty()
    } else {
        "pub mod "@ + snake_of(s.name@) + " {\n"@ + subtypes_text(s.subtypes@, ns, indent)
            + "\n}\n\n"@
    })
}

/// A rendered one-field wrapper type with an empty validation binding.
pub open spec fn tuple_text(t: TupleStruct, ns: Option<TargetNamespace>, indent: Seq<char>) -> Seq<
    char,
>
    decreases t, 0int,
{
    comment_text(t.comment) + serde_header(ns, true) + "pub struct "@ + pascal_of(t.name@)
        + " (pub "@ + pascal_of(t.typename@) + ");\n\n"@ + validate_impl_text(
        pascal_of(t.name@),
        Seq::<char>::empty(),
    ) + "\n\n"@ + (if t.subtypes@.len() == 0 {
        Seq::<char>::empty()
    } else {
        subtypes_text(t.subtypes@, ns, indent) + "\n\n"@
    })
}

/// A rendered alias of an existing type.
pub open spec fn alias_text(a: Alias) -> Seq<char> {
    comment_text(a.comment) + "pub type "@ + pascal_of(a.name@) + " = "@ + pascal_of(a.original@)
        + ";\n\n"@
}

/// A rendered enumeration: header and case list with the trailing
/// unknown-fallback case, its validation implementation, its default
/// implementation, its owned subtypes, and for a restriction source the
/// auxiliary wrapper struct.
pub open spec fn enum_text(e: Enum, ns: Option<TargetNamespace>, indent: Seq<char>) -> Seq<char>
    decreases e, 0int,
{
    let name = enum_name_text(e);
    comment_text(e.comment) + enum_macros_text(e.source, ns, false) + "pub enum "@ + name + " {\n"@
        + join_texts(case_lines(e.cases@, indent), "\n"@) + "\n"@ + indent + "__Unknown__("@
        + pascal_of(e.typename@) + "),\n}\n\n"@ + enum_validation_text(e, name, indent) + "\n\n"@
        + enum_default_text(name, indent) + "\n\n"@ + subtypes_text(e.subtypes@, ns, indent)
        + "\n\n"@ + (if e.source == EnumSource::Restriction {
        enum_wrapper_text(pascal_of(e.name@), name, ns, indent)
    } else {
        Seq::<char>::empty()
    })
}

/// Rendering is deterministic: any two renderings of one entity under the
/// same settings are byte-identical, whatever was rendered before or
/// between them.
pub proof fn lemma_generate_deterministic(
    e: RsEntity,
    ns: Option<TargetNamespace>,
    indent: Seq<char>,
    r1: Seq<char>,
    r2: Seq<char>,
)
    requires
        r1 == entity_text(e, ns, indent),
        r2 == entity_text(e, ns, indent),
    ensures
        r1 == r2,
{
}

/// Renders a documentation comment as one leading comment line.
pub fn gen_comment(c: &Option<String>) -> (r: String)
    ensures
        r@ == comment_text(*c),
{
    let mut s = String::new();
    match c {
        Some(t) => {
            if !t.as_str().is_empty() {
                s.append("// ");
                s.append(t.as_str());
                s.append("\n");
            }
        },
        None => {},
    }
    proof {
        assert(s@ =~= comment_text(*c));
    }
    s
}

/// Renders a field's documentation comment at the field's indentation.
fn gen_field_comment(c: &Option<String>, indent: &str) -> (r: String)
    ensures
        r@ == comment_field_text(*c, indent@),
{
    let mut s = String::new();
    match c {
        Some(t) => {
            if !t.as_str().is_empty() {
                s.append(indent);
                s.append("// ");
                s.append(t.as_str());
                s.append("\n");
            }
        },
        None => {},
    }
    proof {
        assert(s@ =~= comment_field_text(*c, indent@));
    }
    s
}

/// Renders the serialization-annotation header for the declared namespace.
pub fn gen_serde_header(ns: &Option<TargetNamespace>, with_default: bool) -> (r: String)
    ensures
        r@ == serde_header(*ns, with_default),
{
    let mut s = String::new();
    if with_default {
        s.append("#[derive(Default, PartialEq, Debug, Clone, Serialize, Deserialize, Validate)]");
    } else {
        s.append("#[derive(PartialEq, Debug, Clone, Serialize, Deserialize)]");
    }
    match ns {
        Some(tn) => {
            match &tn.prefix {
                Some(p) => {
                    s.append("#[serde(prefix = \"");
                    s.append(p.as_str());
                    s.append("\", namespace = \"");
                    s.append(p.as_str());
                    s.append(": ");
                    s.append(tn.uri.as_str());
                    s.append("\")]\n");
                },
                None => {
                    s.append("#[serde(namespace = \"");
                    s.append(tn.uri.as_str());
                    s.append("\")]\n");
                },
            }
        },
        None => {
            s.append("\n");
        },
    }
    proof {
        assert(s@ =~= serde_header(*ns, with_default));
    }
    s
}

/// Renders one struct field with its attributes.
fn gen_field(f: &StructField, gen: &Generator) -> (r: String)
    ensures
        r@ == field_text(*f, gen.indent@),
{
    let mut s = gen_field_comment(&f.comment, gen.indent.as_str());
    let vm = gen_validation_macro(&f.facets, f.name.as_str(), gen.indent.as_str());
    s.append(vm.as_str());
    s.append(gen.indent.as_str());
    s.append("#[serde(");
    if f.is_attribute {
        s.append("attribute, ");
    }
    s.append("rename = \"");
    s.append(f.name.as_str());
    s.append("\")]\n");
    s.append(gen.indent.as_str());
    s.append("pub ");
    let sn = to_snake(f.name.as_str());
    s.append(sn.as_str());
    s.append(": ");
    let tp = to_pascal(f.typename.as_str());
    match f.multiplicity {
        Multiplicity::Required => {
            s.append(tp.as_str());
        },
        Multiplicity::Optional => {
            s.append("Option<");
            s.append(tp.as_str());
            s.append(">");
        },
        Multiplicity::Repeated => {
            s.append("Vec<");
            s.append(tp.as_str());
            s.append(">");
        },
    }
    s.append(",\n");
    proof {
        assert(s@ =~= field_text(*f, gen.indent@));
    }
    s
}

/// Renders a run of owned subtypes, separated by blank lines.
pub fn join_subtypes(gen: &Generator, subtypes: &Vec<RsEntity>) -> (r: String)
    ensures
        r@ == subtypes_text(subtypes@, gen.target_ns, gen.indent@),
    decreases subtypes@, 1int,
{
    let mut parts: Vec<String> = Vec::new();
    let n = subtypes.len();
    for i in 0..n
        invariant
            n == subtypes@.len(),
            views(parts@) == entity_texts(
                subtypes@.subrange(0, i as int),
                gen.target_ns,
                gen.indent@,
            ),
    {
        let t = gen.generate(&subtypes[i]);
        parts.push(t);
        proof {
            let cur = subtypes@.subrange(0, i + 1);
            assert(cur.drop_last() =~= subtypes@.subrange(0, i as int));
            assert(cur.last() == subtypes@[i as int]);
            assert(views(parts@) =~= entity_texts(cur, gen.target_ns, gen.indent@));
        }
    }
    proof {
        assert(subtypes@.subrange(0, subtypes@.len() as int) =~= subtypes@);
    }
    join_with(&parts, "\n\n")
}

/// Renders one struct entity.
fn gen_struct(gen: &Generator, s: &Struct) -> (r: String)
    ensures
        r@ == struct_text(*s, gen.target_ns, gen.indent@),
    decreases *s, 0int,
{
    let mut out = gen_comment(&s.comment);
    let hdr = gen_serde_header(&gen.target_ns, true);
    out.append(hdr.as_str());
    out.append("pub struct ");
    let pn = to_pascal(s.name.as_str());
    out.append(pn.as_str());
    out.append(" {\n");
    let n = s.fields.len();
    for i in 0..n
        invariant
            n == s.fields@.len(),
            out@ == comment_text(s.comment) + serde_header(gen.target_ns, true) + "pub struct "@
                + pascal_of(s.name@) + " {\n"@ + fields_text(
                s.fields@.subrange(0, i as int),
                gen.indent@,
            ),
    {
        let ft = gen_field(&s.fields[i], gen);
        out.append(ft.as_str());
        proof {
            let cur = s.fields@.subrange(0, i + 1);
            assert(cur.drop_last() =~= s.fields@.subrange(0, i as int));
            assert(cur.last() == s.fields@[i as int]);
        }
    }
    proof {
        assert(s.fields@.subrange(0, s.fields@.len() as int) =~= s.fields@);
    }
    out.append("}\n\n");
    if s.subtypes.len() > 0 {
        out.append("pub mod ");
        let sn = to_snake(s.name.as_str());
        out.append(sn.as_str());
        out.append(" {\n");
        let sub = join_subtypes(gen, &s.subtypes);
        out.append(sub.as_str());
        out.append("\n}\n\n");
    }
    proof {
        assert(out@ =~= struct_text(*s, gen.target_ns, gen.indent@));
    }
    out
}

/// Renders one one-field wrapper entity.
fn gen_tuple(gen: &Generator, t: &TupleStruct) -> (r: String)
    ensures
        r@ == tuple_text(*t, gen.target_ns, gen.indent@),
    decreases *t, 0int,
{
    let mut out = gen_comment(&t.comment);
    let hdr = gen_serde_header(&gen.target_ns, true);
    out.append(hdr.as_str());
    out.append("pub struct ");
    let pn = to_pascal(t.name.as_str());
    out.append(pn.as_str());
    out.append(" (pub ");
    let tp = to_pascal(t.typename.as_str());
    out.append(tp.as_str());
    out.append(");\n\n");
    let vi = gen_validate_impl(pn.as_str(), "");
    proof {
        reveal_strlit("");
        assert(""@ =~= Seq::<char>::empty());
    }
    out.append(vi.as_str());
    out.append("\n\n");
    if t.subtypes.len() > 0 {
        let sub = join_subtypes(gen, &t.subtypes);
        out.append(sub.as_str());
        out.append("\n\n");
    }
    proof {
        assert(out@ =~= tuple_text(*t, gen.target_ns, gen.indent@));
    }
    out
}

/// Renders one alias entity.
fn gen_alias(a: &Alias) -> (r: String)
    ensures
        r@ == alias_text(*a),
{
    let mut out = gen_comment(&a.comment);
    out.append("pub type ");
    let pn = to_pascal(a.name.as_str());
    out.append(pn.as_str());
    out.append(" = ");
    let po = to_pascal(a.original.as_str());
    out.append(po.as_str());
    out.append(";\n\n");
    proof {
        assert(out@ =~= alias_text(*a));
    }
    out
}

/// Renders the case lines of an enumeration joined by line breaks.
pub fn gen_enum_cases(gen: &Generator, entity: &Enum) -> (r: String)
    ensures
        r@ == join_texts(case_lines(entity.cases@, gen.indent@), "\n"@),
{
    let mut parts: Vec<String> = Vec::new();
    let n = entity.cases.len();
    for i in 0..n
        invariant
            n == entity.cases@.len(),
            views(parts@) == case_lines(entity.cases@.subrange(0, i as int), gen.indent@),
    {
        let c = &entity.cases[i];
        let mut line = String::new();
        line.append(gen.indent.as_str());
        let pn = to_pascal(c.name.as_str());
        line.append(pn.as_str());
        match &c.typename {
            Some(t) => {
                line.append("(");
                let tp = to_pascal(t.as_str());
                line.append(tp.as_str());
                line.append(")");
            },
            None => {},
        }
        line.append(",");
        proof {
            assert(line@ =~= case_line(entity.cases@[i as int], gen.indent@));
        }
        parts.push(line);
        proof {
            let cur = entity.cases@.subrange(0, i + 1);
            assert(cur.drop_last() =~= entity.cases@.subrange(0, i as int));
            assert(cur.last() == entity.cases@[i as int]);
            assert(views(parts@) =~= case_lines(cur, gen.indent@));
        }
    }
    proof {
        assert(entity.cases@.subrange(0, entity.cases@.len() as int) =~= entity.cases@);
    }
    join_with(&parts, "\n")
}

/// Renders the annotation header of an enumeration.
pub fn gen_enum_macros(gen: &Generator, entity: &Enum, with_default: bool) -> (r: String)
    ensures
        r@ == enum_macros_text(entity.source, gen.target_ns, with_default),
{
    match entity.source {
        EnumSource::Union => {
            let mut s = String::new();
            s.append("#[derive(PartialEq, Debug, UtilsUnionSerDe)]");
            proof {
                assert(s@ =~= enum_macros_text(entity.source, gen.target_ns, with_default));
            }
            s
        },
        _ => gen_serde_header(&gen.target_ns, with_default),
    }
}

/// Renders one enumeration entity.
#[verifier::rlimit(50)]
pub fn gen_enum(gen: &Generator, entity: &Enum) -> (r: String)
    ensures
        r@ == enum_text(*entity, gen.target_ns, gen.indent@),
    decreases *entity, 0int,
{
    let mut name = to_pascal(entity.name.as_str());
    match entity.source {
        EnumSource::Restriction => {
            name.append("Choice");
        },
        _ => {},
    }
    proof {
        assert(name@ =~= enum_name_text(*entity));
    }
    let mut out = gen_comment(&entity.comment);
    let macros = gen_enum_macros(gen, entity, false);
    out.append(macros.as_str());
    out.append("pub enum ");
    out.append(name.as_str());
    out.append(" {\n");
    let cases = gen_enum_cases(gen, entity);
    out.append(cases.as_str());
    out.append("\n");
    out.append(gen.indent.as_str());
    out.append("__Unknown__(");
    let tp = to_pascal(entity.typename.as_str());
    out.append(tp.as_str());
    out.append("),\n}\n\n");
    let validation = gen_enum_validation(entity, name.as_str(), gen);
    out.append(validation.as_str());
    out.append("\n\n");
    let mut dflt = String::new();
    dflt.append("impl Default for ");
    dflt.append(name.as_str());
    dflt.append(" {\n");
    dflt.append(gen.indent.as_str());
    dflt.append("fn default() -> ");
    dflt.append(name.as_str());
    dflt.append(" {\n");
    dflt.append(gen.indent.as_str());
    dflt.append(gen.indent.as_str());
    dflt.append("Self::__Unknown__(\"No valid variants\".into())\n");
    dflt.append(gen.indent.as_str());
    dflt.append("}\n}");
    proof {
        assert(dflt@ =~= enum_default_text(name@, gen.indent@));
    }
    out.append(dflt.as_str());
    out.append("\n\n");
    let sub = join_subtypes(gen, &entity.subtypes);
    out.append(sub.as_str());
    out.append("\n\n");
    match entity.source {
        EnumSource::Restriction => {
            let mut wrapper = gen_serde_header(&gen.target_ns, true);
            wrapper.append("pub struct ");
            let wn = to_pascal(entity.name.as_str());
            wrapper.append(wn.as_str());
            wrapper.append(" {\n");
            wrapper.append(gen.indent.as_str());
            wrapper.append("#[serde(rename = \"$text\")]\n");
            wrapper.append(gen.indent.as_str());
            wrapper.append("#[validate(nested)]\n");
            wrapper.append(gen.indent.as_str());
            wrapper.append("pub ");
            let fieldn = to_snake(name.as_str());
            wrapper.append(fieldn.as_str());
            wrapper.append(": ");
            wrapper.append(name.as_str());
            wrapper.append("\n}\n\n");
            proof {
                assert(wrapper@ =~= enum_wrapper_text(
                    pascal_of(entity.name@),
                    name@,
                    gen.target_ns,
                    gen.indent@,
                ));
            }
            out.append(wrapper.as_str());
        },
        _ => {},
    }
    proof {
        assert(out@ =~= enum_text(*entity, gen.target_ns, gen.indent@));
    }
    out
}

/// The whole rendered output of a run of top-level entities.
pub open spec fn file_text(
    es: Seq<RsEntity>,
    ns: Option<TargetNamespace>,
    indent: Seq<char>,
) -> Seq<char>
    decreases es.len(),
{
    if es.len() == 0 {
        Seq::<char>::empty()
    } else {
        file_text(es.drop_last(), ns, indent) + entity_text(es.last(), ns, indent)
    }
}

impl Generator {
    /// Renders one entity; identical entities always render to identical
    /// text, whatever was rendered before.
    pub fn generate(&self, entity: &RsEntity) -> (r: String)
        ensures
            r@ == entity_text(*entity, self.target_ns, self.indent@),
        decreases *entity, 0int,
    {
        match entity {
            RsEntity::Struct(s) => gen_struct(self, s),
            RsEntity::TupleStruct(t) => gen_tuple(self, t),
            RsEntity::Enum(e) => gen_enum(self, e),
            RsEntity::Alias(a) => gen_alias(a),
        }
    }

    /// Renders a whole run of entities in order, concatenated.
    pub fn generate_all(&self, types: &Vec<RsEntity>) -> (r: String)
        ensures
            r@ == file_text(types@, self.target_ns, self.indent@),
    {
        let mut out = String::new();
        let n = types.len();
        for i in 0..n
            invariant
                n == types@.len(),
                out@ == file_text(types@.subrange(0, i as int), self.target_ns, self.indent@),
        {
            let t = self.generate(&types[i]);
            out.append(t.as_str());
            proof {
                let cur = types@.subrange(0, i + 1);
                assert(cur.drop_last() =~= types@.subrange(0, i as int));
                assert(cur.last() == types@[i as int]);
            }
        }
        proof {
            assert(types@.subrange(0, types@.len() as int) =~= types@);
        }
        out
    }
}

} // verus!
