use vstd::prelude::*;

verus! {

use crate::casing::{pascal_of, to_pascal};
use crate::types::Enum;
use crate::generator::{
    Generator,
    enum_text,
    enum_macros_text,
    comment_text,
    case_lines,
    subtypes_text,
    gen_enum,
    gen_enum_cases,
    gen_enum_macros,
    gen_comment,
    join_subtypes,
};
use crate::strutil::join_texts;
use crate::validator::{validate_impl_text, gen_validate_impl};

/// Renders enumeration entities; every method is a pure function of the
/// entity and the rendering settings.
pub trait EnumGenerator {
    /// Renders the whole enumeration: header, case list with the trailing
    /// unknown-fallback case, validation and default implementations, owned
    /// subtypes, and for a restriction source the auxiliary wrapper struct.
    fn generate(&self, entity: &Enum, gen: &Generator) -> (r: String)
        ensures
            r@ == enum_text(*entity, gen.target_ns, gen.indent@),
    {
        gen_enum(gen, entity)
    }

    /// Renders the declared case lines, joined by line breaks.
    fn cases(&self, entity: &Enum, gen: &Generator) -> (r: String)
        ensures
            r@ == join_texts(case_lines(entity.cases@, gen.indent@), "\n"@),
    {
        gen_enum_cases(gen, entity)
    }

    /// Renders the owned subtypes, separated by blank lines.
    fn subtypes(&self, entity: &Enum, gen: &Generator) -> (r: String)
        ensures
            r@ == subtypes_text(entity.subtypes@, gen.target_ns, gen.indent@),
    {
        join_subtypes(gen, &entity.subtypes)
    }

    /// The rendered payload type name of the unknown-fallback case.
    fn get_type_name(&self, entity: &Enum, gen: &Generator) -> (r: String)
        ensures
            r@ == pascal_of(entity.typename@),
    {
        to_pascal(entity.typename.as_str())
    }

    /// The rendered bare name of the enumeration.
    fn get_name(&self, entity: &Enum, gen: &Generator) -> (r: String)
        ensures
            r@ == pascal_of(entity.name@),
    {
        to_pascal(entity.name.as_str())
    }

    /// The annotation header for the enumeration's source kind.
    fn macros(&self, entity: &Enum, gen: &Generator, with_default: bool) -> (r: String)
        ensures
            r@ == enum_macros_text(entity.source, gen.target_ns, with_default),
    {
        gen_enum_macros(gen, entity, with_default)
    }

    /// The enumeration's documentation comment line.
    fn format_comment(&self, entity: &Enum, gen: &Generator) -> (r: String)
        ensures
            r@ == comment_text(entity.comment),
    {
        gen_comment(&entity.comment)
    }

    /// An empty validation binding for the enumeration's bare name.
    fn validation(&self, entity: &Enum, gen: &Generator) -> (r: String)
        ensures
            r@ == validate_impl_text(pascal_of(entity.name@), Seq::<char>::empty()),
    {
        let n = to_pascal(entity.name.as_str());
        let r = gen_validate_impl(n.as_str(), "");
        proof {
            reveal_strlit("");
            assert(""@ =~= Seq::<char>::empty());
        }
        r
    }
}

/// The stock enumeration renderer.
pub struct DefaultEnumGen;

impl EnumGenerator for DefaultEnumGen {

}

} // verus!
