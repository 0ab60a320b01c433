use vstd::prelude::*;

verus! {

use vstd::seq_lib::*;
use vstd::string::StringExecFns;
use crate::strutil::str_eq;
use crate::xsd_model::{Annotation, Facet};

/// One attribute of a schema node, as plain text.
#[derive(Debug, Clone, PartialEq)]
pub struct XmlAttribute {
    pub name: String,
    pub value: String,
}

/// The schema element kind a node's tag resolves to; a tag outside the
/// schema vocabulary keeps its name.
#[derive(Debug, Clone, PartialEq)]
pub enum ElementKind {
    Annotation,
    AppInfo,
    Documentation,
    SimpleType,
    ComplexType,
    Restriction,
    Extension,
    Union,
    List,
    Sequence,
    Choice,
    All,
    Element,
    Attribute,
    Other(String),
}

/// One element node of a schema document: its resolved kind, its attributes
/// in document order, and its element children in document order.
#[derive(Debug)]
pub struct XmlNode {
    pub kind: ElementKind,
    pub attributes: Vec<XmlAttribute>,
    pub children: Vec<XmlNode>,
}

/// The value of the last attribute of this name, when one is present.
pub open spec fn last_attr(attrs: Seq<XmlAttribute>, name: Seq<char>) -> Option<Seq<char>>
    decreases attrs.len(),
{
    if attrs.len() == 0 {
        None
    } else if attrs.last().name@ == name {
        Some(attrs.last().value@)
    } else {
        last_attr(attrs.drop_last(), name)
    }
}

/// The boolean a literal denotes, when it denotes one.
pub open spec fn bool_of(s: Seq<char>) -> Option<bool> {
    if s == "true"@ {
        Some(true)
    } else if s == "false"@ {
        Some(false)
    } else {
        None
    }
}

/// Reads a boolean literal.
pub fn parse_bool(s: &str) -> (r: Option<bool>)
    ensures
        r == bool_of(s@),
{
    if str_eq(s, "true") {
        Some(true)
    } else if str_eq(s, "false") {
        Some(false)
    } else {
        None
    }
}

/// True for an attribute that no named field of a facet captures.
pub open spec fn other_attr(a: XmlAttribute) -> bool {
    a.name@ != "id"@ && a.name@ != "value"@ && a.name@ != "fixed"@
}

/// The predicate keeping the attributes no named field captures.
pub open spec fn other_attr_pred() -> spec_fn(XmlAttribute) -> bool {
    |a: XmlAttribute| other_attr(a)
}

/// True when an annotation record holds exactly what the node carries: the
/// last id attribute, and every other attribute in order.
pub open spec fn annotation_matches(a: Annotation, attrs: Seq<XmlAttribute>) -> bool {
    &&& (match a.id {
        Some(s) => last_attr(attrs, "id"@) == Some(s@),
        None => last_attr(attrs, "id"@) is None,
    })
    &&& a.attributes@ == attrs.filter(|x: XmlAttribute| x.name@ != "id"@)
}

impl Annotation {
    /// Reads an annotation node: its id attribute is captured by name,
    /// every other attribute is kept as it stands.
    pub fn parse(node: &XmlNode) -> (r: Annotation)
        ensures
            annotation_matches(r, node.attributes@),
    {
        let mut id: Option<String> = None;
        let mut attributes: Vec<XmlAttribute> = Vec::new();
        let n = node.attributes.len();
        for i in 0..n
            invariant
                n == node.attributes@.len(),
                match id {
                    Some(s) => last_attr(node.attributes@.subrange(0, i as int), "id"@) == Some(
                        s@,
                    ),
                    None => last_attr(node.attributes@.subrange(0, i as int), "id"@) is None,
                },
                attributes@ == node.attributes@.subrange(0, i as int).filter(
                    |x: XmlAttribute| x.name@ != "id"@,
                ),
        {
            let a = &node.attributes[i];
            let ghost pre = attributes@;
            if str_eq(a.name.as_str(), "id") {
                id = Some(a.value.clone());
            } else {
                attributes.push(XmlAttribute { name: a.name.clone(), value: a.value.clone() });
            }
            proof {
                reveal_strlit("id");
                reveal_with_fuel(Seq::filter, 2);
                let cur = node.attributes@.subrange(0, i + 1);
                assert(cur.drop_last() =~= node.attributes@.subrange(0, i as int));
                assert(cur.last() == node.attributes@[i as int]);
                if cur.last().name@ != "id"@ {
                    assert(attributes@.drop_last() =~= pre);
                    assert(attributes@.last() == node.attributes@[i as int]);
                    assert(attributes@ =~= cur.filter(|x: XmlAttribute| x.name@ != "id"@));
                }
            }
        }
        proof {
            assert(node.attributes@.subrange(0, node.attributes@.len() as int)
                =~= node.attributes@);
        }
        Annotation { id, attributes }
    }
}

/// True when every fixed attribute of the run denotes a boolean.
pub open spec fn fixed_attrs_ok(attrs: Seq<XmlAttribute>) -> bool {
    forall|i: int|
        0 <= i < attrs.len() && (#[trigger] attrs[i]).name@ == "fixed"@ ==> bool_of(attrs[i].value@)
            is Some
}

/// True when every child of the run is an annotation node.
pub open spec fn facet_children_ok(children: Seq<XmlNode>) -> bool {
    forall|i: int| 0 <= i < children.len() ==> (#[trigger] children[i]).kind is Annotation
}

impl Facet {
    /// Reads a facet node. Its children may hold nothing but annotations;
    /// any other child aborts the read. The id, value and fixed attributes
    /// are captured by name, the last occurrence winning; a fixed attribute
    /// that does not denote a boolean aborts the read; every remaining
    /// attribute is kept as it stands.
    pub fn parse(node: &XmlNode) -> (r: Result<Facet, String>)
        ensures
            r is Ok <==> facet_children_ok(node.children@) && fixed_attrs_ok(node.attributes@),
            r matches Ok(f) ==> {
                &&& (match f.id {
                    Some(s) => last_attr(node.attributes@, "id"@) == Some(s@),
                    None => last_attr(node.attributes@, "id"@) is None,
                })
                &&& f.value@ == (match last_attr(node.attributes@, "value"@) {
                    Some(v) => v,
                    None => Seq::<char>::empty(),
                })
                &&& f.fixed == (match last_attr(node.attributes@, "fixed"@) {
                    Some(v) => bool_of(v)->0,
                    None => false,
                })
                &&& f.attributes@ == node.attributes@.filter(other_attr_pred())
                &&& (match f.annotation {
                    Some(a) => node.children@.len() > 0 && annotation_matches(
                        a,
                        node.children@.last().attributes@,
                    ),
                    None => node.children@.len() == 0,
                })
            },
    {
        let mut annotation: Option<Annotation> = None;
        let nc = node.children.len();
        for i in 0..nc
            invariant
                nc == node.children@.len(),
                forall|j: int| 0 <= j < i ==> (#[trigger] node.children@[j]).kind is Annotation,
                match annotation {
                    Some(a) => i > 0 && annotation_matches(
                        a,
                        node.children@[i - 1].attributes@,
                    ),
                    None => i == 0,
                },
        {
            let ch = &node.children[i];
            match &ch.kind {
                ElementKind::Annotation => {
                    annotation = Some(Annotation::parse(ch));
                },
                _ => {
                    return Err(String::from_str("Invalid child node for xsd:facet type"));
                },
            }
        }
        let mut id: Option<String> = None;
        let mut value = String::new();
        let mut fixed = false;
        let mut attributes: Vec<XmlAttribute> = Vec::new();
        let na = node.attributes.len();
        for i in 0..na
            invariant
                na == node.attributes@.len(),
                nc == node.children@.len(),
                facet_children_ok(node.children@),
                match annotation {
                    Some(a) => nc > 0 && annotation_matches(
                        a,
                        node.children@[nc - 1].attributes@,
                    ),
                    None => nc == 0,
                },
                forall|j: int|
                    0 <= j < i && (#[trigger] node.attributes@[j]).name@ == "fixed"@ ==> bool_of(
                        node.attributes@[j].value@,
                    ) is Some,
                match id {
                    Some(s) => last_attr(node.attributes@.subrange(0, i as int), "id"@) == Some(
                        s@,
                    ),
                    None => last_attr(node.attributes@.subrange(0, i as int), "id"@) is None,
                },
                value@ == (match last_attr(node.attributes@.subrange(0, i as int), "value"@) {
                    Some(v) => v,
                    None => Seq::<char>::empty(),
                }),
                fixed == (match last_attr(node.attributes@.subrange(0, i as int), "fixed"@) {
                    Some(v) => bool_of(v)->0,
                    None => false,
                }),
                attributes@ == node.attributes@.subrange(0, i as int).filter(other_attr_pred()),
        {
            let a = &node.attributes[i];
            let ghost pre = attributes@;
            if str_eq(a.name.as_str(), "id") {
                id = Some(a.value.clone());
            } else if str_eq(a.name.as_str(), "value") {
                value = a.value.clone();
            } else if str_eq(a.name.as_str(), "fixed") {
                match parse_bool(a.value.as_str()) {
                    Some(b) => {
                        fixed = b;
                    },
                    None => {
                        return Err(String::from_str("invalid boolean literal"));
                    },
                }
            } else {
                attributes.push(XmlAttribute { name: a.name.clone(), value: a.value.clone() });
            }
            proof {
                reveal_strlit("id");
                reveal_strlit("value");
                reveal_strlit("fixed");
                assert("id"@.len() == 2 && "value"@.len() == 5 && "fixed"@.len() == 5);
                assert("value"@[0] == 'v' && "fixed"@[0] == 'f');
                assert("id"@ != "value"@ && "id"@ != "fixed"@ && "value"@ != "fixed"@);
                reveal_with_fuel(Seq::filter, 2);
                let cur = node.attributes@.subrange(0, i + 1);
                assert(cur.drop_last() =~= node.attributes@.subrange(0, i as int));
                assert(cur.last() == node.attributes@[i as int]);
                if other_attr(cur.last()) {
                    assert(attributes@.drop_last() =~= pre);
                    assert(attributes@.last() == node.attributes@[i as int]);
                    assert(attributes@ =~= cur.filter(other_attr_pred()));
                }
            }
        }
        proof {
            assert(node.attributes@.subrange(0, node.attributes@.len() as int)
                =~= node.attributes@);
            if nc > 0 {
                assert(node.children@[nc - 1] == node.children@.last());
            }
        }
        Ok(Facet { id, value, fixed, annotation, attributes })
    }
}

} // verus!
