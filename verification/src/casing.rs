use vstd::prelude::*;

verus! {

/// The lower snake_case rendering the case-conversion library gives a string.
pub uninterp spec fn snake_of(s: Seq<char>) -> Seq<char>;

/// The UpperCamelCase rendering the case-conversion library gives a string.
pub uninterp spec fn pascal_of(s: Seq<char>) -> Seq<char>;

/// Relies on inflector's to_snake_case: the result depends on the characters
/// of the input alone, uses locale-independent ASCII folding, and never fails.
#[verifier::external_body]
pub fn to_snake(s: &str) -> (r: String)
    ensures
        r@ == snake_of(s@),
        s@.len() == 0 ==> r@.len() == 0,
{
    inflector::cases::snakecase::to_snake_case(s)
}

/// Relies on inflector's to_pascal_case: the result depends on the characters
/// of the input alone, uses locale-independent ASCII folding, and never fails.
#[verifier::external_body]
pub fn to_pascal(s: &str) -> (r: String)
    ensures
        r@ == pascal_of(s@),
        s@.len() == 0 ==> r@.len() == 0,
{
    inflector::cases::pascalcase::to_pascal_case(s)
}

} // verus!
