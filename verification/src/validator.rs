use vstd::prelude::*;

verus! {

use vstd::pervasive::unreached;
use vstd::string::StrSliceExecFns;
use vstd::string::StringExecFns;
use crate::strutil::{parses_u32, dec_val, dec_str, parse_u32, u32_to_string, views, join_texts, join_with, upper_seq, to_ascii_upper};
use crate::casing::{snake_of, pascal_of, to_snake, to_pascal};
use crate::types::{FacetType, Enum, EnumCase};
use crate::generator::Generator;

/// Emitted types implement this to check their facet-derived constraints.
pub trait Validate {
    fn validate(&self) -> Result<(), String> {
        Ok(())
    }
}

/// Marker for renderers that emit validation code.
pub trait ValidateGenerator {

}

/// The implementation block binding a type to its validation body; a type
/// without constraints gets an empty implementation.
pub open spec fn validate_impl_text(name: Seq<char>, body: Seq<char>) -> Seq<char> {
    if body.len() == 0 {
        "impl Validate for "@ + name + " {}"@
    } else {
        "impl Validate for "@ + name
            + " {\n    fn validate(&self) -> Result<(), String> { "@ + body
            + "\n        Ok(())\n    }\n}\n"@
    }
}

/// Renders the validation implementation block for a named type.
pub fn gen_validate_impl(name: &str, body: &str) -> (r: String)
    ensures
        r@ == validate_impl_text(name@, body@),
{
    let mut s = String::new();
    s.append("impl Validate for ");
    s.append(name);
    if body.is_empty() {
        s.append(" {}");
    } else {
        s.append(" {\n    fn validate(&self) -> Result<(), String> { ");
        s.append(body);
        s.append("\n        Ok(())\n    }\n}\n");
    }
    proof {
        assert(s@ =~= validate_impl_text(name@, body@));
    }
    s
}

/// The exclusive upper bound check on a numeric field.
pub open spec fn max_exclusive_text(value: Seq<char>, name: Seq<char>, typename: Seq<char>) -> Seq<
    char,
> {
    "\n        if self."@ + name + " >= \""@ + value + "\".parse::<"@ + typename
        + ">().unwrap() {\n            return Err(format!(\"MaxExclusive validation error: invalid value of "@
        + name + "! \\nExpected: "@ + name + " < "@ + value + ".\\nActual: "@ + name
        + " == {}\", self."@ + name + "));\n        }"@
}

/// Renders the exclusive upper bound check of a numeric facet.
pub fn gen_max_exclusive_validation(value: &str, name: &str, typename: &str) -> (r: String)
    ensures
        r@ == max_exclusive_text(value@, name@, typename@),
{
    let mut s = String::new();
    s.append("\n        if self.");
    s.append(name);
    s.append(" >= \"");
    s.append(value);
    s.append("\".parse::<");
    s.append(typename);
    s.append(">().unwrap() {\n            return Err(format!(\"MaxExclusive validation error: invalid value of ");
    s.append(name);
    s.append("! \\nExpected: ");
    s.append(name);
    s.append(" < ");
    s.append(value);
    s.append(".\\nActual: ");
    s.append(name);
    s.append(" == {}\", self.");
    s.append(name);
    s.append("));\n        }");
    proof {
        assert(s@ =~= max_exclusive_text(value@, name@, typename@));
    }
    s
}

/// The inclusive upper bound check on a numeric field.
pub open spec fn max_inclusive_text(value: Seq<char>, name: Seq<char>, typename: Seq<char>) -> Seq<
    char,
> {
    "\n        if self."@ + name + " > \""@ + value + "\".parse::<"@ + typename
        + ">().unwrap() {\n            return Err(format!(\"MaxInclusive validation error: invalid value of "@
        + name + "! \\nExpected: "@ + name + " <= "@ + value + ".\\nActual: "@ + name
        + " == {}\", self."@ + name + "));\n        }"@
}

/// Renders the inclusive upper bound check of a numeric facet.
pub fn gen_max_inclusive_validation(value: &str, name: &str, typename: &str) -> (r: String)
    ensures
        r@ == max_inclusive_text(value@, name@, typename@),
{
    let mut s = String::new();
    s.append("\n        if self.");
    s.append(name);
    s.append(" > \"");
    s.append(value);
    s.append("\".parse::<");
    s.append(typename);
    s.append(">().unwrap() {\n            return Err(format!(\"MaxInclusive validation error: invalid value of ");
    s.append(name);
    s.append("! \\nExpected: ");
    s.append(name);
    s.append(" <= ");
    s.append(value);
    s.append(".\\nActual: ");
    s.append(name);
    s.append(" == {}\", self.");
    s.append(name);
    s.append("));\n        }");
    proof {
        assert(s@ =~= max_inclusive_text(value@, name@, typename@));
    }
    s
}

/// The exclusive lower bound check on a numeric field.
pub open spec fn min_exclusive_text(value: Seq<char>, name: Seq<char>, typename: Seq<char>) -> Seq<
    char,
> {
    "\n        if self."@ + name + " <= \""@ + value + "\".parse::<"@ + typename
        + ">().unwrap() {\n            return Err(format!(\"MinExclusive validation error: invalid value of "@
        + name + "! \\nExpected: "@ + name + " > "@ + value + ".\\nActual: "@ + name
        + " == {}\", self."@ + name + "));\n        }"@
}

/// Renders the exclusive lower bound check of a numeric facet.
pub fn gen_min_exclusive_validation(value: &str, name: &str, typename: &str) -> (r: String)
    ensures
        r@ == min_exclusive_text(value@, name@, typename@),
{
    let mut s = String::new();
    s.append("\n        if self.");
    s.append(name);
    s.append(" <= \"");
    s.append(value);
    s.append("\".parse::<");
    s.append(typename);
    s.append(">().unwrap() {\n            return Err(format!(\"MinExclusive validation error: invalid value of ");
    s.append(name);
    s.append("! \\nExpected: ");
    s.append(name);
    s.append(" > ");
    s.append(value);
    s.append(".\\nActual: ");
    s.append(name);
    s.append(" == {}\", self.");
    s.append(name);
    s.append("));\n        }");
    proof {
        assert(s@ =~= min_exclusive_text(value@, name@, typename@));
    }
    s
}

/// The inclusive lower bound check on a numeric field.
pub open spec fn min_inclusive_text(value: Seq<char>, name: Seq<char>, typename: Seq<char>) -> Seq<
    char,
> {
    "\n        if self."@ + name + " < \""@ + value + "\".parse::<"@ + typename
        + ">().unwrap() {\n            return Err(format!(\"MinInclusive validation error: invalid value of "@
        + name + "! \\nExpected: "@ + name + " >= "@ + value + ".\\nActual: "@ + name
        + " == {}\", self."@ + name + "));\n        }"@
}

/// Renders the inclusive lower bound check of a numeric facet.
pub fn gen_min_inclusive_validation(value: &str, name: &str, typename: &str) -> (r: String)
    ensures
        r@ == min_inclusive_text(value@, name@, typename@),
{
    let mut s = String::new();
    s.append("\n        if self.");
    s.append(name);
    s.append(" < \"");
    s.append(value);
    s.append("\".parse::<");
    s.append(typename);
    s.append(">().unwrap() {\n            return Err(format!(\"MinInclusive validation error: invalid value of ");
    s.append(name);
    s.append("! \\nExpected: ");
    s.append(name);
    s.append(" >= ");
    s.append(value);
    s.append(".\\nActual: ");
    s.append(name);
    s.append(" == {}\", self.");
    s.append(name);
    s.append("));\n        }");
    proof {
        assert(s@ =~= min_inclusive_text(value@, name@, typename@));
    }
    s
}

/// The exact length check on a field, with the bound in canonical decimal.
pub open spec fn length_text(value: nat, name: Seq<char>) -> Seq<char> {
    "\n        if self."@ + name + ".len() != "@ + dec_str(value)
        + " {\n            return Err(format!(\"Length validation error. \\nExpected: "@ + name
        + " length == "@ + dec_str(value) + " \\nActual: "@ + name
        + " length == {}\", self."@ + name + ".len()));\n        }"@
}

/// Renders the exact length check of a length facet.
pub fn gen_length_validation(value: &str, name: &str) -> (r: String)
    requires
        parses_u32(value@),
    ensures
        r@ == length_text(dec_val(value@), name@),
{
    let v = match parse_u32(value) {
        Some(v) => v,
        None => unreached(),
    };
    let num = u32_to_string(v);
    let mut s = String::new();
    s.append("\n        if self.");
    s.append(name);
    s.append(".len() != ");
    s.append(num.as_str());
    s.append(" {\n            return Err(format!(\"Length validation error. \\nExpected: ");
    s.append(name);
    s.append(" length == ");
    s.append(num.as_str());
    s.append(" \\nActual: ");
    s.append(name);
    s.append(" length == {}\", self.");
    s.append(name);
    s.append(".len()));\n        }");
    proof {
        assert(s@ =~= length_text(dec_val(value@), name@));
    }
    s
}

/// The inclusive upper length check on a field.
pub open spec fn max_length_text(value: nat, name: Seq<char>) -> Seq<char> {
    "\n        if self."@ + name + ".len() > "@ + dec_str(value)
        + " {\n            return Err(format!(\"MaxLength validation error. \\nExpected: "@ + name
        + " length <= "@ + dec_str(value) + " \\nActual: "@ + name
        + " length == {}\", self."@ + name + ".len()));\n        }"@
}

/// Renders the upper length check of a maxLength facet.
pub fn gen_max_length_validation(value: &str, name: &str) -> (r: String)
    requires
        parses_u32(value@),
    ensures
        r@ == max_length_text(dec_val(value@), name@),
{
    let v = match parse_u32(value) {
        Some(v) => v,
        None => unreached(),
    };
    let num = u32_to_string(v);
    let mut s = String::new();
    s.append("\n        if self.");
    s.append(name);
    s.append(".len() > ");
    s.append(num.as_str());
    s.append(" {\n            return Err(format!(\"MaxLength validation error. \\nExpected: ");
    s.append(name);
    s.append(" length <= ");
    s.append(num.as_str());
    s.append(" \\nActual: ");
    s.append(name);
    s.append(" length == {}\", self.");
    s.append(name);
    s.append(".len()));\n        }");
    proof {
        assert(s@ =~= max_length_text(dec_val(value@), name@));
    }
    s
}

/// The strict lower length check on a field; a zero bound constrains nothing
/// and yields no text at all.
pub open spec fn min_length_text(value: nat, name: Seq<char>) -> Seq<char> {
    if value == 0 {
        Seq::<char>::empty()
    } else {
        "\n        #[allow(clippy::len_zero)]\n        if self."@ + name + ".len() < "@ + dec_str(
            value,
        ) + " {\n            return Err(format!(\"MinLength validation error. \\nExpected: "@
            + name + " length >= "@ + dec_str(value) + " \\nActual: "@ + name
            + " length == {}\", self."@ + name + ".len()));\n        }"@
    }
}

/// Renders the lower length check of a minLength facet; a bound of zero
/// yields the empty text.
pub fn gen_min_length_validation(value: &str, name: &str) -> (r: String)
    requires
        parses_u32(value@),
    ensures
        r@ == min_length_text(dec_val(value@), name@),
{
    let v = match parse_u32(value) {
        Some(v) => v,
        None => unreached(),
    };
    if v == 0 {
        let r = String::new();
        return r;
    }
    let num = u32_to_string(v);
    let mut s = String::new();
    s.append("\n        #[allow(clippy::len_zero)]\n        if self.");
    s.append(name);
    s.append(".len() < ");
    s.append(num.as_str());
    s.append(" {\n            return Err(format!(\"MinLength validation error. \\nExpected: ");
    s.append(name);
    s.append(" length >= ");
    s.append(num.as_str());
    s.append(" \\nActual: ");
    s.append(name);
    s.append(" length == {}\", self.");
    s.append(name);
    s.append(".len()));\n        }");
    proof {
        assert(s@ =~= min_length_text(dec_val(value@), name@));
    }
    s
}

/// The inline check a single facet contributes to a field's validation body:
/// bound facets and length facets produce their check, every other facet
/// produces nothing here.
pub open spec fn facet_validation_text(
    facet: FacetType,
    name: Seq<char>,
    typename: Seq<char>,
) -> Seq<char> {
    match facet {
        FacetType::Length(v) => length_text(dec_val(v@), name),
        FacetType::MaxExclusive(v) => max_exclusive_text(v@, name, typename),
        FacetType::MaxInclusive(v) => max_inclusive_text(v@, name, typename),
        FacetType::MaxLength(v) => max_length_text(dec_val(v@), name),
        FacetType::MinExclusive(v) => min_exclusive_text(v@, name, typename),
        FacetType::MinInclusive(v) => min_inclusive_text(v@, name, typename),
        FacetType::MinLength(v) => min_length_text(dec_val(v@), name),
        _ => Seq::<char>::empty(),
    }
}

/// Renders the inline validation check a facet contributes to a field.
pub fn gen_facet_validation(facet: &FacetType, name: &str, typename: &str) -> (r: String)
    requires
        *facet matches FacetType::Length(v) ==> parses_u32(v@),
        *facet matches FacetType::MaxLength(v) ==> parses_u32(v@),
        *facet matches FacetType::MinLength(v) ==> parses_u32(v@),
    ensures
        r@ == facet_validation_text(*facet, name@, typename@),
{
    match facet {
        FacetType::Length(v) => gen_length_validation(v.as_str(), name),
        FacetType::MaxExclusive(v) => gen_max_exclusive_validation(v.as_str(), name, typename),
        FacetType::MaxInclusive(v) => gen_max_inclusive_validation(v.as_str(), name, typename),
        FacetType::MaxLength(v) => gen_max_length_validation(v.as_str(), name),
        FacetType::MinExclusive(v) => gen_min_exclusive_validation(v.as_str(), name, typename),
        FacetType::MinInclusive(v) => gen_min_inclusive_validation(v.as_str(), name, typename),
        FacetType::MinLength(v) => gen_min_length_validation(v.as_str(), name),
        _ => String::new(),
    }
}

/// The shared name of the compiled pattern emitted for a constrained field:
/// the snake-cased field name with a fixed suffix, ASCII upper-cased.
pub open spec fn regex_name_of(name: Seq<char>) -> Seq<char> {
    upper_seq(snake_of(name) + "_regex"@)
}

/// The length-family items a facet contributes to the validation attribute.
pub open spec fn length_macro_items(f: FacetType) -> Seq<Seq<char>> {
    match f {
        FacetType::Length(v) => seq!["equal = "@ + v@],
        FacetType::MaxLength(v) => seq!["max = "@ + v@],
        FacetType::MinLength(v) => seq!["min = "@ + v@],
        _ => Seq::<Seq<char>>::empty(),
    }
}

/// The range-family items a facet contributes to the validation attribute.
pub open spec fn range_macro_items(f: FacetType) -> Seq<Seq<char>> {
    match f {
        FacetType::MaxExclusive(v) => seq!["exclusive_max = "@ + v@],
        FacetType::MinExclusive(v) => seq!["exclusive_min = "@ + v@],
        FacetType::MaxInclusive(v) => seq!["max = "@ + v@],
        FacetType::MinInclusive(v) => seq!["min = "@ + v@],
        _ => Seq::<Seq<char>>::empty(),
    }
}

/// The custom-function items a facet contributes to the validation attribute.
pub open spec fn custom_macro_items(f: FacetType, name: Seq<char>) -> Seq<Seq<char>> {
    match f {
        FacetType::FractionDigits(_) => seq![
            "function = "@ + snake_of(name) + "_digits_validator"@,
        ],
        _ => Seq::<Seq<char>>::empty(),
    }
}

/// The compiled-pattern items a facet contributes to the validation attribute.
pub open spec fn regex_macro_items(f: FacetType, name: Seq<char>) -> Seq<Seq<char>> {
    match f {
        FacetType::Pattern(_) => seq!["path = *"@ + regex_name_of(name)],
        _ => Seq::<Seq<char>>::empty(),
    }
}

/// All length-family items of a facet run, in declaration order.
pub open spec fn length_items(facets: Seq<FacetType>) -> Seq<Seq<char>>
    decreases facets.len(),
{
    if facets.len() == 0 {
        Seq::<Seq<char>>::empty()
    } else {
        length_items(facets.drop_last()) + length_macro_items(facets.last())
    }
}

/// All range-family items of a facet run, in declaration order.
pub open spec fn range_items(facets: Seq<FacetType>) -> Seq<Seq<char>>
    decreases facets.len(),
{
    if facets.len() == 0 {
        Seq::<Seq<char>>::empty()
    } else {
        range_items(facets.drop_last()) + range_macro_items(facets.last())
    }
}

/// All custom-function items of a facet run, in declaration order.
pub open spec fn custom_items(facets: Seq<FacetType>, name: Seq<char>) -> Seq<Seq<char>>
    decreases facets.len(),
{
    if facets.len() == 0 {
        Seq::<Seq<char>>::empty()
    } else {
        custom_items(facets.drop_last(), name) + custom_macro_items(facets.last(), name)
    }
}

/// All compiled-pattern items of a facet run, in declaration order.
pub open spec fn regex_items(facets: Seq<FacetType>, name: Seq<char>) -> Seq<Seq<char>>
    decreases facets.len(),
{
    if facets.len() == 0 {
        Seq::<Seq<char>>::empty()
    } else {
        regex_items(facets.drop_last(), name) + regex_macro_items(facets.last(), name)
    }
}

/// Appends the length-family attribute items of one facet to a list.
pub fn gen_length_validation_macro(facet: &FacetType, list: &mut Vec<String>)
    ensures
        views(final(list)@) == views(old(list)@) + length_macro_items(*facet),
{
    match facet {
        FacetType::Length(val) => {
            let mut s = String::new();
            s.append("equal = ");
            s.append(val.as_str());
            list.push(s);
        },
        FacetType::MaxLength(val) => {
            let mut s = String::new();
            s.append("max = ");
            s.append(val.as_str());
            list.push(s);
        },
        FacetType::MinLength(val) => {
            let mut s = String::new();
            s.append("min = ");
            s.append(val.as_str());
            list.push(s);
        },
        _ => {},
    }
    proof {
        assert(views(list@) =~= views(old(list)@) + length_macro_items(*facet));
    }
}

/// Appends the range-family attribute items of one facet to a list.
pub fn gen_range_validation_macro(facet: &FacetType, list: &mut Vec<String>)
    ensures
        views(final(list)@) == views(old(list)@) + range_macro_items(*facet),
{
    match facet {
        FacetType::MaxExclusive(val) => {
            let mut s = String::new();
            s.append("exclusive_max = ");
            s.append(val.as_str());
            list.push(s);
        },
        FacetType::MinExclusive(val) => {
            let mut s = String::new();
            s.append("exclusive_min = ");
            s.append(val.as_str());
            list.push(s);
        },
        FacetType::MaxInclusive(val) => {
            let mut s = String::new();
            s.append("max = ");
            s.append(val.as_str());
            list.push(s);
        },
        FacetType::MinInclusive(val) => {
            let mut s = String::new();
            s.append("min = ");
            s.append(val.as_str());
            list.push(s);
        },
        _ => {},
    }
    proof {
        assert(views(list@) =~= views(old(list)@) + range_macro_items(*facet));
    }
}

/// Appends the custom-function attribute items of one facet to a list.
pub fn gen_custom_validation_macro(facet: &FacetType, name: &str, list: &mut Vec<String>)
    ensures
        views(final(list)@) == views(old(list)@) + custom_macro_items(*facet, name@),
{
    match facet {
        FacetType::FractionDigits(_) => {
            let sn = to_snake(name);
            let mut s = String::new();
            s.append("function = ");
            s.append(sn.as_str());
            s.append("_digits_validator");
            list.push(s);
        },
        _ => {},
    }
    proof {
        assert(views(list@) =~= views(old(list)@) + custom_macro_items(*facet, name@));
    }
}

/// Appends the compiled-pattern attribute items of one facet to a list.
pub fn gen_regex_validation_macro(facet: &FacetType, name: &str, list: &mut Vec<String>)
    ensures
        views(final(list)@) == views(old(list)@) + regex_macro_items(*facet, name@),
{
    match facet {
        FacetType::Pattern(_) => {
            let mut sn = to_snake(name);
            sn.append("_regex");
            let up = to_ascii_upper(sn.as_str());
            let mut s = String::new();
            s.append("path = *");
            s.append(up.as_str());
            list.push(s);
        },
        _ => {},
    }
    proof {
        assert(views(list@) =~= views(old(list)@) + regex_macro_items(*facet, name@));
    }
}

/// One group of the validation attribute, absent when it has no items.
pub open spec fn macro_segment(opening: Seq<char>, items: Seq<Seq<char>>) -> Seq<Seq<char>> {
    if items.len() == 0 {
        Seq::<Seq<char>>::empty()
    } else {
        seq![opening + join_texts(items, ", "@) + ")"@]
    }
}

/// The whole validation attribute line of a field: its facet-derived groups
/// in the fixed order length, range, regex, custom; empty when no facet
/// contributes an item.
pub open spec fn validation_macro_text(
    facets: Seq<FacetType>,
    name: Seq<char>,
    indent: Seq<char>,
) -> Seq<char> {
    let segs = macro_segment("length("@, length_items(facets)) + macro_segment(
        "range("@,
        range_items(facets),
    ) + macro_segment("regex("@, regex_items(facets, name)) + macro_segment(
        "custom("@,
        custom_items(facets, name),
    );
    if segs.len() == 0 {
        Seq::<char>::empty()
    } else {
        indent + "#[validate("@ + join_texts(segs, ", "@) + ")]\n"@
    }
}

/// Renders the validation attribute line of a field from its facet run.
pub fn gen_validation_macro(facets: &Vec<FacetType>, name: &str, indent: &str) -> (r: String)
    ensures
        r@ == validation_macro_text(facets@, name@, indent@),
{
    let mut length_vec: Vec<String> = Vec::new();
    let mut range_vec: Vec<String> = Vec::new();
    let mut regex_vec: Vec<String> = Vec::new();
    let mut custom_vec: Vec<String> = Vec::new();
    for i in 0..facets.len()
        invariant
            views(length_vec@) == length_items(facets@.subrange(0, i as int)),
            views(range_vec@) == range_items(facets@.subrange(0, i as int)),
            views(regex_vec@) == regex_items(facets@.subrange(0, i as int), name@),
            views(custom_vec@) == custom_items(facets@.subrange(0, i as int), name@),
    {
        let facet = &facets[i];
        gen_length_validation_macro(facet, &mut length_vec);
        gen_range_validation_macro(facet, &mut range_vec);
        gen_custom_validation_macro(facet, name, &mut custom_vec);
        gen_regex_validation_macro(facet, name, &mut regex_vec);
        proof {
            let cur = facets@.subrange(0, i + 1);
            assert(cur.drop_last() =~= facets@.subrange(0, i as int));
            assert(cur.last() == facets@[i as int]);
        }
    }
    proof {
        assert(facets@.subrange(0, facets@.len() as int) =~= facets@);
    }
    let mut segs: Vec<String> = Vec::new();
    if length_vec.len() > 0 {
        let j = join_with(&length_vec, ", ");
        let mut s = String::new();
        s.append("length(");
        s.append(j.as_str());
        s.append(")");
        segs.push(s);
    }
    if range_vec.len() > 0 {
        let j = join_with(&range_vec, ", ");
        let mut s = String::new();
        s.append("range(");
        s.append(j.as_str());
        s.append(")");
        segs.push(s);
    }
    if regex_vec.len() > 0 {
        let j = join_with(&regex_vec, ", ");
        let mut s = String::new();
        s.append("regex(");
        s.append(j.as_str());
        s.append(")");
        segs.push(s);
    }
    if custom_vec.len() > 0 {
        let j = join_with(&custom_vec, ", ");
        let mut s = String::new();
        s.append("custom(");
        s.append(j.as_str());
        s.append(")");
        segs.push(s);
    }
    proof {
        assert(views(segs@) =~= macro_segment("length("@, length_items(facets@)) + macro_segment(
            "range("@,
            range_items(facets@),
        ) + macro_segment("regex("@, regex_items(facets@, name@)) + macro_segment(
            "custom("@,
            custom_items(facets@, name@),
        ));
    }
    if segs.len() == 0 {
        String::new()
    } else {
        let j = join_with(&segs, ", ");
        let mut r = String::new();
        r.append(indent);
        r.append("#[validate(");
        r.append(j.as_str());
        r.append(")]\n");
        proof {
            assert(r@ =~= validation_macro_text(facets@, name@, indent@));
        }
        r
    }
}

/// The shared digit-count validator function emitted when both digit facets
/// are present, named after the snake-cased field name.
pub open spec fn digits_text(frac: Seq<char>, total: Seq<char>, sname: Seq<char>) -> Seq<char> {
    "\nfn "@ + sname
        + "_digits_validator(num: &BigDecimal) -> Result<(), ValidationError> {\n    if num.fractional_digit_count() > "@
        + frac
        + " {\n        let mut err = ValidationError::new(\"fractional_digits\");\n        err.add_param(\"max\".into(), &"@
        + frac
        + ");\n        err.add_param(\"value\".into(), &num);\n        return Err(err);\n    }\n    if num.digits() > "@
        + total
        + " {\n        let mut err = ValidationError::new(\"total_digits\");\n        err.add_param(\"max\".into(), &"@
        + total
        + ");\n        err.add_param(\"value\".into(), &num);\n        return Err(err);\n    }\n    Ok(())\n}\n        "@
}

/// Renders the digit-count validator function for a pair of digit facets.
pub fn gen_digits_validation(frac_value: &str, total_value: &str, name: &str) -> (r: String)
    ensures
        r@ == digits_text(frac_value@, total_value@, snake_of(name@)),
{
    let sn = to_snake(name);
    let mut s = String::new();
    s.append("\nfn ");
    s.append(sn.as_str());
    s.append("_digits_validator(num: &BigDecimal) -> Result<(), ValidationError> {\n    if num.fractional_digit_count() > ");
    s.append(frac_value);
    s.append(" {\n        let mut err = ValidationError::new(\"fractional_digits\");\n        err.add_param(\"max\".into(), &");
    s.append(frac_value);
    s.append(");\n        err.add_param(\"value\".into(), &num);\n        return Err(err);\n    }\n    if num.digits() > ");
    s.append(total_value);
    s.append(" {\n        let mut err = ValidationError::new(\"total_digits\");\n        err.add_param(\"max\".into(), &");
    s.append(total_value);
    s.append(");\n        err.add_param(\"value\".into(), &num);\n        return Err(err);\n    }\n    Ok(())\n}\n        ");
    proof {
        assert(s@ =~= digits_text(frac_value@, total_value@, snake_of(name@)));
    }
    s
}

/// The compiled-pattern binding emitted once for a pattern-constrained field.
pub open spec fn regex_text(value: Seq<char>, name: Seq<char>) -> Seq<char> {
    "\nstatic "@ + regex_name_of(name) + ": Lazy<Regex> = Lazy::new(|| {\n    Regex::new(r\""@
        + value + "\").unwrap()\n});\n        "@
}

/// Renders the compiled-pattern binding of a pattern facet.
pub fn gen_regex_validation(value: &str, name: &str) -> (r: String)
    ensures
        r@ == regex_text(value@, name@),
{
    let mut sn = to_snake(name);
    sn.append("_regex");
    let up = to_ascii_upper(sn.as_str());
    let mut s = String::new();
    s.append("\nstatic ");
    s.append(up.as_str());
    s.append(": Lazy<Regex> = Lazy::new(|| {\n    Regex::new(r\"");
    s.append(value);
    s.append("\").unwrap()\n});\n        ");
    proof {
        assert(s@ =~= regex_text(value@, name@));
    }
    s
}

/// The compiled-pattern bindings a facet run asks for, in declaration order.
pub open spec fn regex_texts(facets: Seq<FacetType>, name: Seq<char>) -> Seq<Seq<char>>
    decreases facets.len(),
{
    if facets.len() == 0 {
        Seq::<Seq<char>>::empty()
    } else {
        regex_texts(facets.drop_last(), name) + (match facets.last() {
            FacetType::Pattern(v) => seq![regex_text(v@, name)],
            _ => Seq::<Seq<char>>::empty(),
        })
    }
}

/// The value of the last fractionDigits facet of a run, when there is one.
pub open spec fn last_frac(facets: Seq<FacetType>) -> Option<Seq<char>>
    decreases facets.len(),
{
    if facets.len() == 0 {
        None
    } else {
        match facets.last() {
            FacetType::FractionDigits(v) => Some(v@),
            _ => last_frac(facets.drop_last()),
        }
    }
}

/// The value of the last totalDigits facet of a run, when there is one.
pub open spec fn last_total(facets: Seq<FacetType>) -> Option<Seq<char>>
    decreases facets.len(),
{
    if facets.len() == 0 {
        None
    } else {
        match facets.last() {
            FacetType::TotalDigits(v) => Some(v@),
            _ => last_total(facets.drop_last()),
        }
    }
}

/// The standalone validator items of a facet run: one compiled-pattern
/// binding per pattern facet, then one digit-count validator exactly when
/// both digit facets are present, joined by blank lines.
pub open spec fn validation_functions_text(facets: Seq<FacetType>, name: Seq<char>) -> Seq<char> {
    let digits = match (last_frac(facets), last_total(facets)) {
        (Some(f), Some(t)) => seq![digits_text(f, t, snake_of(name))],
        _ => Seq::<Seq<char>>::empty(),
    };
    join_texts(regex_texts(facets, name) + digits, "\n\n"@)
}

/// Renders the standalone validator items a facet run asks for.
pub fn gen_validation_functions(facets: &Vec<FacetType>, name: &str) -> (r: String)
    ensures
        r@ == validation_functions_text(facets@, name@),
{
    let mut res: Vec<String> = Vec::new();
    let mut frac_digit: Option<String> = None;
    let mut tot_digit: Option<String> = None;
    for i in 0..facets.len()
        invariant
            views(res@) == regex_texts(facets@.subrange(0, i as int), name@),
            match frac_digit {
                Some(s) => last_frac(facets@.subrange(0, i as int)) == Some(s@),
                None => last_frac(facets@.subrange(0, i as int)) is None,
            },
            match tot_digit {
                Some(s) => last_total(facets@.subrange(0, i as int)) == Some(s@),
                None => last_total(facets@.subrange(0, i as int)) is None,
            },
    {
        let facet = &facets[i];
        match facet {
            FacetType::FractionDigits(val) => {
                frac_digit = Some(val.clone());
            },
            FacetType::TotalDigits(val) => {
                tot_digit = Some(val.clone());
            },
            FacetType::Pattern(val) => {
                res.push(gen_regex_validation(val.as_str(), name));
            },
            _ => {},
        }
        proof {
            let cur = facets@.subrange(0, i + 1);
            assert(cur.drop_last() =~= facets@.subrange(0, i as int));
            assert(cur.last() == facets@[i as int]);
            assert(views(res@) =~= regex_texts(cur, name@));
        }
    }
    proof {
        assert(facets@.subrange(0, facets@.len() as int) =~= facets@);
    }
    match (&frac_digit, &tot_digit) {
        (Some(f_val), Some(t_val)) => {
            res.push(gen_digits_validation(f_val.as_str(), t_val.as_str(), name));
        },
        _ => {},
    }
    proof {
        assert(views(res@) =~= regex_texts(facets@, name@) + (match (
            last_frac(facets@),
            last_total(facets@),
        ) {
            (Some(f), Some(t)) => seq![digits_text(f, t, snake_of(name@))],
            _ => Seq::<Seq<char>>::empty(),
        }));
    }
    join_with(&res, "\n\n")
}


/// The validation match arm of one enumeration case: cases with a payload
/// recurse into the payload's own validation, bare cases contribute nothing.
pub open spec fn enum_case_validation_text(c: EnumCase) -> Option<Seq<char>> {
    match c.typename {
        Some(_) => Some(
            "Self::"@ + pascal_of(c.name@) + "(val) => { err.merge_self(\""@ + pascal_of(c.name@)
                + "\", val.validate()); },"@,
        ),
        None => None,
    }
}

/// The validation match arms of a case run, in declaration order.
pub open spec fn case_validation_texts(cs: Seq<EnumCase>) -> Seq<Seq<char>>
    decreases cs.len(),
{
    if cs.len() == 0 {
        Seq::<Seq<char>>::empty()
    } else {
        case_validation_texts(cs.drop_last()) + (match enum_case_validation_text(cs.last()) {
            Some(t) => seq![t],
            None => Seq::<Seq<char>>::empty(),
        })
    }
}

/// The validation implementation of an enumeration: one arm per payload
/// case, the unknown-fallback arm that records an error and aggregates,
/// and a wildcard arm exactly when no payload case produced an arm.
pub open spec fn enum_validation_text(e: Enum, name: Seq<char>, indent: Seq<char>) -> Seq<char> {
    let joined = join_texts(case_validation_texts(e.cases@), "\n"@ + indent + indent + indent);
    let default_case = if joined.len() == 0 {
        "_ => {},"@
    } else {
        Seq::<char>::empty()
    };
    "\nimpl Validate for "@ + name
        + " {\n    fn validate(&self) -> Result<(), ValidationErrors> {\n        let mut err = ValidationErrors::new();\n        match self {\n            "@
        + joined
        + "\n            Self::__Unknown__(val) => {\n                let mut field_err = ValidationError::new(\"unknown_enum\");\n                field_err.add_param(\"value\".into(), &val);\n                err.add(\"unknown\", field_err);\n            },\n            "@
        + default_case
        + "\n        }\n        if err.is_empty() { Ok(()) } else { Err(err) }\n    }\n}\n        "@
}

/// Renders the validation match arm of one enumeration case.
fn gen_enum_case_validation(entity: &EnumCase) -> (r: Option<String>)
    ensures
        match r {
            Some(s) => enum_case_validation_text(*entity) == Some(s@),
            None => enum_case_validation_text(*entity) is None,
        },
{
    match &entity.typename {
        Some(_) => {
            let p = to_pascal(entity.name.as_str());
            let mut s = String::new();
            s.append("Self::");
            s.append(p.as_str());
            s.append("(val) => { err.merge_self(\"");
            s.append(p.as_str());
            s.append("\", val.validate()); },");
            proof {
                assert(enum_case_validation_text(*entity) == Some(s@)) by {
                    assert(s@ =~= "Self::"@ + pascal_of(entity.name@) + "(val) => { err.merge_self(\""@
                        + pascal_of(entity.name@) + "\", val.validate()); },"@);
                }
            }
            Some(s)
        },
        None => None,
    }
}

/// Renders the validation implementation of an enumeration.
pub fn gen_enum_validation(entity: &Enum, name: &str, gen: &Generator) -> (r: String)
    ensures
        r@ == enum_validation_text(*entity, name@, gen.indent@),
{
    let mut parts: Vec<String> = Vec::new();
    for i in 0..entity.cases.len()
        invariant
            views(parts@) == case_validation_texts(entity.cases@.subrange(0, i as int)),
    {
        let c = &entity.cases[i];
        match gen_enum_case_validation(c) {
            Some(s) => parts.push(s),
            None => {},
        }
        proof {
            let cur = entity.cases@.subrange(0, i + 1);
            assert(cur.drop_last() =~= entity.cases@.subrange(0, i as int));
            assert(cur.last() == entity.cases@[i as int]);
            assert(views(parts@) =~= case_validation_texts(cur));
        }
    }
    proof {
        assert(entity.cases@.subrange(0, entity.cases@.len() as int) =~= entity.cases@);
    }
    let mut sep = String::new();
    sep.append("\n");
    sep.append(gen.indent.as_str());
    sep.append(gen.indent.as_str());
    sep.append(gen.indent.as_str());
    proof {
        assert(sep@ =~= "\n"@ + gen.indent@ + gen.indent@ + gen.indent@);
    }
    let joined = join_with(&parts, sep.as_str());
    let mut s = String::new();
    s.append("\nimpl Validate for ");
    s.append(name);
    s.append(" {\n    fn validate(&self) -> Result<(), ValidationErrors> {\n        let mut err = ValidationErrors::new();\n        match self {\n            ");
    s.append(joined.as_str());
    s.append("\n            Self::__Unknown__(val) => {\n                let mut field_err = ValidationError::new(\"unknown_enum\");\n                field_err.add_param(\"value\".into(), &val);\n                err.add(\"unknown\", field_err);\n            },\n            ");
    if joined.as_str().is_empty() {
        s.append("_ => {},");
    }
    s.append("\n        }\n        if err.is_empty() { Ok(()) } else { Err(err) }\n    }\n}\n        ");
    proof {
        assert(s@ =~= enum_validation_text(*entity, name@, gen.indent@));
    }
    s
}

} // verus!
