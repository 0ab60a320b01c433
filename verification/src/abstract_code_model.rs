use vstd::prelude::*;

verus! {

/// A documentation comment attached to an abstract entity.
#[derive(Debug, Clone, PartialEq, Default)]
pub struct Comment {
    pub text: Option<String>,
}

/// A reference to a named type.
#[derive(Debug, Clone, PartialEq)]
pub struct TypeName {
    pub name: String,
}

/// One abstract field: its name, its type reference and its documentation.
#[derive(Debug, Clone, PartialEq)]
pub struct AbstractField {
    pub name: Option<String>,
    pub typename: Option<TypeName>,
    pub comment: Comment,
}

/// One item of an abstract enumeration.
pub type EnumItem = AbstractField;

/// An abstract entity owned by another entity as a subtype.
#[derive(Debug)]
pub enum Entity {
    Enumeration(Enumeration),
    Field(AbstractField),
}

/// An abstract enumeration: its optional name, its items in declaration
/// order, its documentation, the type its unknown values carry, and the
/// subtypes it owns.
#[derive(Debug, Default)]
pub struct Enumeration {
    pub name: Option<String>,
    pub variants: Vec<EnumItem>,
    pub comment: Comment,
    pub typename: Option<TypeName>,
    pub subtypes: Vec<Entity>,
}

} // verus!
