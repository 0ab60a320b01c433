use vstd::prelude::*;

verus! {

use crate::xml_to_xsd::XmlAttribute;

/// An annotation read from a schema node: its id attribute and its other
/// attributes.
#[derive(Debug)]
pub struct Annotation {
    pub id: Option<String>,
    pub attributes: Vec<XmlAttribute>,
}

/// A facet read from a schema node: its standard attributes, its annotation
/// when it carries one, and its remaining attributes.
#[derive(Debug)]
pub struct Facet {
    pub id: Option<String>,
    pub value: String,
    pub fixed: bool,
    pub annotation: Option<Annotation>,
    pub attributes: Vec<XmlAttribute>,
}

/// An inline simple type declaration owned by an element declaration.
#[derive(Debug)]
pub struct LocalSimpleType {
    pub id: Option<String>,
}

/// An inline complex type declaration owned by an element declaration.
#[derive(Debug)]
pub struct LocalComplexType {
    pub id: Option<String>,
}

/// One identity constraint declared under an element.
#[derive(Debug, Clone, Copy, PartialEq, Eq, Structural)]
pub enum IdentityConstraint {
    Unique,
    Key,
    Keyref,
}

/// The inline type alternative of an element declaration: at most one of an
/// inline simple type or an inline complex type.
#[derive(Debug)]
pub enum ElementModelChoice {
    SimpleType(LocalSimpleType),
    ComplexType(LocalComplexType),
}

/// The content model of an element declaration: its optional inline type
/// followed by its identity constraints.
#[derive(Debug)]
pub struct ElementModel {
    pub choice: Option<ElementModelChoice>,
    pub identity_constraint: Vec<IdentityConstraint>,
}

} // verus!
