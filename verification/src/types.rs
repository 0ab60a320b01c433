use vstd::prelude::*;

verus! {

use vstd::string::StringExecFns;
use crate::strutil::{str_eq, parses_u32, dec_val, parse_u32};

/// A single constraining facet of a simple-type restriction, carrying the
/// literal value text it was declared with.
#[derive(Debug, Clone, PartialEq)]
pub enum FacetType {
    Enumeration(String),
    FractionDigits(String),
    Length(String),
    MaxExclusive(String),
    MaxInclusive(String),
    MaxLength(String),
    MinExclusive(String),
    MinInclusive(String),
    MinLength(String),
    Pattern(String),
    TotalDigits(String),
    WhiteSpace(String),
}

/// The derivation an enumeration entity was produced from.
#[derive(Debug, Clone, Copy, PartialEq, Eq, Structural)]
pub enum EnumSource {
    Restriction,
    Extension,
    Union,
}

/// How often a resolved field may occur in an instance document.
#[derive(Debug, Clone, Copy, PartialEq, Eq, Structural)]
pub enum Multiplicity {
    Required,
    Optional,
    Repeated,
}

/// The declared upper occurrence bound of an element or attribute.
#[derive(Debug, Clone, Copy, PartialEq, Eq, Structural)]
pub enum MaxOccurs {
    Bounded(u32),
    Unbounded,
}

/// One case of a generated enumeration.
#[derive(Debug, Clone, PartialEq)]
pub struct EnumCase {
    pub name: String,
    pub comment: Option<String>,
    pub value: String,
    pub typename: Option<String>,
}

/// A generated enumeration entity.
#[derive(Debug)]
pub struct Enum {
    pub name: String,
    pub cases: Vec<EnumCase>,
    pub comment: Option<String>,
    pub typename: String,
    pub subtypes: Vec<RsEntity>,
    pub source: EnumSource,
}

/// A resolved field of a generated struct.
#[derive(Debug, Clone, PartialEq)]
pub struct StructField {
    pub name: String,
    pub typename: String,
    pub comment: Option<String>,
    pub multiplicity: Multiplicity,
    pub is_attribute: bool,
    pub facets: Vec<FacetType>,
}

/// A generated struct entity.
#[derive(Debug)]
pub struct Struct {
    pub name: String,
    pub comment: Option<String>,
    pub fields: Vec<StructField>,
    pub subtypes: Vec<RsEntity>,
}

/// A generated one-field wrapper entity around a single inner type.
#[derive(Debug)]
pub struct TupleStruct {
    pub name: String,
    pub comment: Option<String>,
    pub typename: String,
    pub facets: Vec<FacetType>,
    pub subtypes: Vec<RsEntity>,
}

/// A generated alias of an existing type.
#[derive(Debug, Clone, PartialEq)]
pub struct Alias {
    pub name: String,
    pub original: String,
    pub comment: Option<String>,
}

/// One resolved target entity.
#[derive(Debug)]
pub enum RsEntity {
    Struct(Struct),
    TupleStruct(TupleStruct),
    Enum(Enum),
    Alias(Alias),
}

/// The multiplicity a pair of occurrence bounds resolves to: repeated when
/// more than one occurrence is allowed, optional when none is required,
/// required otherwise.
pub open spec fn multiplicity_of(min_occurs: u32, max_occurs: MaxOccurs) -> Multiplicity {
    if max_occurs matches MaxOccurs::Unbounded || (max_occurs matches MaxOccurs::Bounded(n)
        && n > 1) {
        Multiplicity::Repeated
    } else if min_occurs == 0 {
        Multiplicity::Optional
    } else {
        Multiplicity::Required
    }
}

/// Resolves declared occurrence bounds into a field multiplicity.
pub fn multiplicity(min_occurs: u32, max_occurs: MaxOccurs) -> (r: Multiplicity)
    ensures
        r == multiplicity_of(min_occurs, max_occurs),
{
    match max_occurs {
        MaxOccurs::Unbounded => Multiplicity::Repeated,
        MaxOccurs::Bounded(n) => {
            if n > 1 {
                Multiplicity::Repeated
            } else if min_occurs == 0 {
                Multiplicity::Optional
            } else {
                Multiplicity::Required
            }
        },
    }
}

/// A field is repeated exactly when its upper bound exceeds one occurrence,
/// optional exactly when it needs no occurrence and allows at most one, and
/// required in every remaining case.
pub proof fn lemma_multiplicity_cases(min_occurs: u32, max_occurs: MaxOccurs)
    ensures
        multiplicity_of(min_occurs, max_occurs) == Multiplicity::Repeated <==> (max_occurs
            == MaxOccurs::Unbounded || exists|n: u32| max_occurs == MaxOccurs::Bounded(n) && n > 1),
        multiplicity_of(min_occurs, max_occurs) == Multiplicity::Optional <==> (min_occurs == 0
            && (max_occurs == MaxOccurs::Bounded(0u32) || max_occurs == MaxOccurs::Bounded(1u32))),
        multiplicity_of(min_occurs, max_occurs) == Multiplicity::Required <==> (min_occurs != 0
            && (max_occurs == MaxOccurs::Bounded(0u32) || max_occurs == MaxOccurs::Bounded(1u32))),
{
    match max_occurs {
        MaxOccurs::Unbounded => {},
        MaxOccurs::Bounded(n) => {
            if n > 1 {
                assert(max_occurs == MaxOccurs::Bounded(n) && n > 1);
            } else {
                assert(n == 0 || n == 1);
            }
        },
    }
}


/// The spec-level image of a struct field, with its facet run as a sequence.
pub struct FieldV {
    pub name: String,
    pub typename: String,
    pub comment: Option<String>,
    pub multiplicity: Multiplicity,
    pub is_attribute: bool,
    pub facets: Seq<FacetType>,
}

/// The spec-level image of an entity, with every owned vector as a sequence.
pub enum EntityV {
    Struct {
        name: String,
        comment: Option<String>,
        fields: Seq<FieldV>,
        subtypes: Seq<EntityV>,
    },
    TupleStruct {
        name: String,
        comment: Option<String>,
        typename: String,
        facets: Seq<FacetType>,
        subtypes: Seq<EntityV>,
    },
    Enum {
        name: String,
        cases: Seq<EnumCase>,
        comment: Option<String>,
        typename: String,
        subtypes: Seq<EntityV>,
        source: EnumSource,
    },
    Alias { name: String, original: String, comment: Option<String> },
}

/// The image of one struct field.
pub open spec fn field_v(f: StructField) -> FieldV {
    FieldV {
        name: f.name,
        typename: f.typename,
        comment: f.comment,
        multiplicity: f.multiplicity,
        is_attribute: f.is_attribute,
        facets: f.facets@,
    }
}

/// The images of a run of struct fields, in order.
pub open spec fn fields_v(fs: Seq<StructField>) -> Seq<FieldV>
    decreases fs.len(),
{
    if fs.len() == 0 {
        Seq::<FieldV>::empty()
    } else {
        fields_v(fs.drop_last()).push(field_v(fs.last()))
    }
}

/// The image of one entity.
pub open spec fn entity_v(e: RsEntity) -> EntityV
    decreases e, 0int,
{
    match e {
        RsEntity::Struct(s) => EntityV::Struct {
            name: s.name,
            comment: s.comment,
            fields: fields_v(s.fields@),
            subtypes: entities_v(s.subtypes@),
        },
        RsEntity::TupleStruct(t) => EntityV::TupleStruct {
            name: t.name,
            comment: t.comment,
            typename: t.typename,
            facets: t.facets@,
            subtypes: entities_v(t.subtypes@),
        },
        RsEntity::Enum(en) => EntityV::Enum {
            name: en.name,
            cases: en.cases@,
            comment: en.comment,
            typename: en.typename,
            subtypes: entities_v(en.subtypes@),
            source: en.source,
        },
        RsEntity::Alias(a) => EntityV::Alias {
            name: a.name,
            original: a.original,
            comment: a.comment,
        },
    }
}

/// The images of a run of entities, in order.
pub open spec fn entities_v(es: Seq<RsEntity>) -> Seq<EntityV>
    decreases es, 1int,
{
    if es.len() == 0 {
        Seq::<EntityV>::empty()
    } else {
        entities_v(es.drop_last()).push(entity_v(es.last()))
    }
}

/// Copies an optional string, preserving its value.
pub fn clone_opt_string(o: &Option<String>) -> (r: Option<String>)
    ensures
        r == *o,
{
    match o {
        Some(s) => Some(s.clone()),
        None => None,
    }
}

/// Copies a facet, preserving its value.
pub fn clone_facet(f: &FacetType) -> (r: FacetType)
    ensures
        r == *f,
{
    match f {
        FacetType::Enumeration(v) => FacetType::Enumeration(v.clone()),
        FacetType::FractionDigits(v) => FacetType::FractionDigits(v.clone()),
        FacetType::Length(v) => FacetType::Length(v.clone()),
        FacetType::MaxExclusive(v) => FacetType::MaxExclusive(v.clone()),
        FacetType::MaxInclusive(v) => FacetType::MaxInclusive(v.clone()),
        FacetType::MaxLength(v) => FacetType::MaxLength(v.clone()),
        FacetType::MinExclusive(v) => FacetType::MinExclusive(v.clone()),
        FacetType::MinInclusive(v) => FacetType::MinInclusive(v.clone()),
        FacetType::MinLength(v) => FacetType::MinLength(v.clone()),
        FacetType::Pattern(v) => FacetType::Pattern(v.clone()),
        FacetType::TotalDigits(v) => FacetType::TotalDigits(v.clone()),
        FacetType::WhiteSpace(v) => FacetType::WhiteSpace(v.clone()),
    }
}

/// Copies a run of facets, preserving every value and the order.
pub fn clone_facets(v: &Vec<FacetType>) -> (r: Vec<FacetType>)
    ensures
        r@ == v@,
{
    let mut r: Vec<FacetType> = Vec::new();
    let n = v.len();
    for i in 0..n
        invariant
            n == v@.len(),
            r@ == v@.subrange(0, i as int),
    {
        r.push(clone_facet(&v[i]));
        proof {
            assert(r@ =~= v@.subrange(0, i + 1));
        }
    }
    proof {
        assert(v@.subrange(0, v@.len() as int) =~= v@);
    }
    r
}

/// Copies an enumeration case, preserving its value.
pub fn clone_case(c: &EnumCase) -> (r: EnumCase)
    ensures
        r == *c,
{
    EnumCase {
        name: c.name.clone(),
        comment: clone_opt_string(&c.comment),
        value: c.value.clone(),
        typename: clone_opt_string(&c.typename),
    }
}

/// Copies a run of enumeration cases, preserving values and order.
pub fn clone_cases(v: &Vec<EnumCase>) -> (r: Vec<EnumCase>)
    ensures
        r@ == v@,
{
    let mut r: Vec<EnumCase> = Vec::new();
    let n = v.len();
    for i in 0..n
        invariant
            n == v@.len(),
            r@ == v@.subrange(0, i as int),
    {
        r.push(clone_case(&v[i]));
        proof {
            assert(r@ =~= v@.subrange(0, i + 1));
        }
    }
    proof {
        assert(v@.subrange(0, v@.len() as int) =~= v@);
    }
    r
}

/// Copies a struct field, preserving its value.
pub fn clone_field(f: &StructField) -> (r: StructField)
    ensures
        field_v(r) == field_v(*f),
{
    let facets = clone_facets(&f.facets);
    StructField {
        name: f.name.clone(),
        typename: f.typename.clone(),
        comment: clone_opt_string(&f.comment),
        multiplicity: f.multiplicity,
        is_attribute: f.is_attribute,
        facets,
    }
}

/// Copies a run of struct fields, preserving values and order.
pub fn clone_fields(v: &Vec<StructField>) -> (r: Vec<StructField>)
    ensures
        fields_v(r@) == fields_v(v@),
{
    let mut r: Vec<StructField> = Vec::new();
    let n = v.len();
    for i in 0..n
        invariant
            n == v@.len(),
            fields_v(r@) == fields_v(v@.subrange(0, i as int)),
    {
        let c = clone_field(&v[i]);
        let ghost pre = r@;
        r.push(c);
        proof {
            let cur = v@.subrange(0, i + 1);
            assert(cur.drop_last() =~= v@.subrange(0, i as int));
            assert(cur.last() == v@[i as int]);
            assert(r@.drop_last() =~= pre);
            assert(fields_v(r@) == fields_v(cur));
        }
    }
    proof {
        assert(v@.subrange(0, v@.len() as int) =~= v@);
    }
    r
}

/// Copies an entity, its fields and all of its owned subtypes.
pub fn clone_entity(e: &RsEntity) -> (r: RsEntity)
    ensures
        entity_v(r) == entity_v(*e),
    decreases *e, 0int,
{
    match e {
        RsEntity::Struct(s) => {
            let fields = clone_fields(&s.fields);
            let subtypes = clone_entities(&s.subtypes);
            RsEntity::Struct(
                Struct {
                    name: s.name.clone(),
                    comment: clone_opt_string(&s.comment),
                    fields,
                    subtypes,
                },
            )
        },
        RsEntity::TupleStruct(t) => {
            let facets = clone_facets(&t.facets);
            let subtypes = clone_entities(&t.subtypes);
            RsEntity::TupleStruct(
                TupleStruct {
                    name: t.name.clone(),
                    comment: clone_opt_string(&t.comment),
                    typename: t.typename.clone(),
                    facets,
                    subtypes,
                },
            )
        },
        RsEntity::Enum(en) => {
            let cases = clone_cases(&en.cases);
            let subtypes = clone_entities(&en.subtypes);
            RsEntity::Enum(
                Enum {
                    name: en.name.clone(),
                    cases,
                    comment: clone_opt_string(&en.comment),
                    typename: en.typename.clone(),
                    subtypes,
                    source: en.source,
                },
            )
        },
        RsEntity::Alias(a) => RsEntity::Alias(
            Alias {
                name: a.name.clone(),
                original: a.original.clone(),
                comment: clone_opt_string(&a.comment),
            },
        ),
    }
}

/// Copies a run of entities, preserving values and order.
pub fn clone_entities(v: &Vec<RsEntity>) -> (r: Vec<RsEntity>)
    ensures
        entities_v(r@) == entities_v(v@),
    decreases v@, 1int,
{
    let mut r: Vec<RsEntity> = Vec::new();
    let n = v.len();
    for i in 0..n
        invariant
            n == v@.len(),
            entities_v(r@) == entities_v(v@.subrange(0, i as int)),
    {
        let c = clone_entity(&v[i]);
        let ghost pre = r@;
        r.push(c);
        proof {
            let cur = v@.subrange(0, i + 1);
            assert(cur.drop_last() =~= v@.subrange(0, i as int));
            assert(cur.last() == v@[i as int]);
            assert(r@.drop_last() =~= pre);
            assert(entities_v(r@) == entities_v(cur));
        }
    }
    proof {
        assert(v@.subrange(0, v@.len() as int) =~= v@);
    }
    r
}

/// Lays out the resolved fields of an extension: every base field first, in
/// base order, then every extension field, in extension order.
pub fn extend_fields(base: Vec<StructField>, extension: Vec<StructField>) -> (r: Vec<StructField>)
    ensures
        r@ == base@ + extension@,
{
    let mut r = base;
    let mut e = extension;
    r.append(&mut e);
    r
}

/// What a leaf text literal decodes to against an enumeration's declared
/// cases.
#[derive(Debug, PartialEq)]
pub enum DecodedCase {
    Declared(usize),
    Unknown(String),
}

/// Decodes a leaf text literal against an enumeration's declared cases: the
/// first case whose literal matches wins; a literal absent from every
/// declared case resolves to the unknown-fallback case carrying the literal
/// itself, never a failure.
pub fn decode_literal(e: &Enum, literal: &str) -> (r: DecodedCase)
    ensures
        match r {
            DecodedCase::Declared(i) => i < e.cases@.len() && e.cases@[i as int].value@ == literal@
                && (forall|j: int|
                0 <= j < i ==> (#[trigger] e.cases@[j]).value@ != literal@),
            DecodedCase::Unknown(s) => s@ == literal@ && (forall|j: int|
                0 <= j < e.cases@.len() ==> (#[trigger] e.cases@[j]).value@ != literal@),
        },
{
    let n = e.cases.len();
    for i in 0..n
        invariant
            n == e.cases@.len(),
            forall|j: int| 0 <= j < i ==> (#[trigger] e.cases@[j]).value@ != literal@,
    {
        if str_eq(e.cases[i].value.as_str(), literal) {
            return DecodedCase::Declared(i);
        }
    }
    DecodedCase::Unknown(String::from_str(literal))
}

/// One validation constraint recorded on a field, consumed later by the
/// renderer and never evaluated here.
#[derive(Debug, PartialEq)]
pub enum Constraint {
    ExactLength(u32),
    MinLength(u32),
    MaxLength(u32),
    MinInclusive(String),
    MaxInclusive(String),
    MinExclusive(String),
    MaxExclusive(String),
    Pattern(String),
    DigitCount(u32, u32),
}

/// The constraint a single facet records: length facets give length bounds,
/// with a lower length bound of zero recording nothing; value bound facets
/// and pattern facets carry their literal; an enumeration, whiteSpace or
/// lone digit facet records nothing here.
pub open spec fn constraint_of(f: FacetType) -> Option<Constraint> {
    match f {
        FacetType::Length(v) => Some(Constraint::ExactLength(dec_val(v@) as u32)),
        FacetType::MinLength(v) => if dec_val(v@) == 0 {
            None
        } else {
            Some(Constraint::MinLength(dec_val(v@) as u32))
        },
        FacetType::MaxLength(v) => Some(Constraint::MaxLength(dec_val(v@) as u32)),
        FacetType::MinInclusive(v) => Some(Constraint::MinInclusive(v)),
        FacetType::MaxInclusive(v) => Some(Constraint::MaxInclusive(v)),
        FacetType::MinExclusive(v) => Some(Constraint::MinExclusive(v)),
        FacetType::MaxExclusive(v) => Some(Constraint::MaxExclusive(v)),
        FacetType::Pattern(v) => Some(Constraint::Pattern(v)),
        _ => None,
    }
}

/// Derives the constraint a single facet records.
pub fn constraint_for(facet: &FacetType) -> (r: Option<Constraint>)
    requires
        *facet matches FacetType::Length(v) ==> parses_u32(v@),
        *facet matches FacetType::MinLength(v) ==> parses_u32(v@),
        *facet matches FacetType::MaxLength(v) ==> parses_u32(v@),
    ensures
        r == constraint_of(*facet),
{
    match facet {
        FacetType::Length(v) => {
            let n = match parse_u32(v.as_str()) {
                Some(n) => n,
                None => vstd::pervasive::unreached(),
            };
            Some(Constraint::ExactLength(n))
        },
        FacetType::MinLength(v) => {
            let n = match parse_u32(v.as_str()) {
                Some(n) => n,
                None => vstd::pervasive::unreached(),
            };
            if n == 0 {
                None
            } else {
                Some(Constraint::MinLength(n))
            }
        },
        FacetType::MaxLength(v) => {
            let n = match parse_u32(v.as_str()) {
                Some(n) => n,
                None => vstd::pervasive::unreached(),
            };
            Some(Constraint::MaxLength(n))
        },
        FacetType::MinInclusive(v) => Some(Constraint::MinInclusive(v.clone())),
        FacetType::MaxInclusive(v) => Some(Constraint::MaxInclusive(v.clone())),
        FacetType::MinExclusive(v) => Some(Constraint::MinExclusive(v.clone())),
        FacetType::MaxExclusive(v) => Some(Constraint::MaxExclusive(v.clone())),
        FacetType::Pattern(v) => Some(Constraint::Pattern(v.clone())),
        _ => None,
    }
}

/// Whether a value of the given length passes a length-family constraint;
/// constraints of other families do not restrict a length.
pub open spec fn length_constraint_allows(c: Constraint, len: nat) -> bool {
    match c {
        Constraint::ExactLength(v) => len == v,
        Constraint::MinLength(v) => len >= v,
        Constraint::MaxLength(v) => len <= v,
        _ => true,
    }
}

/// Decides whether a value of the given length passes a constraint.
pub fn length_allows(c: &Constraint, len: u32) -> (b: bool)
    ensures
        b == length_constraint_allows(*c, len as nat),
{
    match c {
        Constraint::ExactLength(v) => len == *v,
        Constraint::MinLength(v) => len >= *v,
        Constraint::MaxLength(v) => len <= *v,
        _ => true,
    }
}

} // verus!
