use vstd::prelude::*;

verus! {

use vstd::seq_lib::*;
use vstd::string::StrSliceExecFns;
use crate::strutil::{str_eq, lower_seq, to_ascii_lower};
use crate::types::{RsEntity, entity_v, entities_v, clone_entity};

/// One schema document's resolved entities, keyed by the document's name.
#[derive(Debug)]
pub struct Document {
    pub name: String,
    pub entities: Vec<RsEntity>,
}

/// The name under which an entity takes part in deduplication; aliases
/// never take part.
pub open spec fn entity_name(e: RsEntity) -> Option<Seq<char>> {
    match e {
        RsEntity::Struct(s) => Some(s.name@),
        RsEntity::Enum(en) => Some(en.name@),
        RsEntity::TupleStruct(t) => Some(t.name@),
        RsEntity::Alias(_) => None,
    }
}

/// True for the reserved document name, under any ASCII casing.
pub open spec fn is_reserved_name(n: Seq<char>) -> bool {
    lower_seq(n) == "document"@
}

/// True when some entity of the document takes part under this name.
pub open spec fn doc_defines(doc: Seq<RsEntity>, n: Seq<char>) -> bool {
    exists|i: int| 0 <= i < doc.len() && entity_name(#[trigger] doc[i]) == Some(n)
}

/// How many of the documents define an entity of this name.
pub open spec fn doc_count(docs: Seq<Document>, n: Seq<char>) -> nat
    decreases docs.len(),
{
    if docs.len() == 0 {
        0
    } else {
        doc_count(docs.drop_last(), n) + (if doc_defines(docs.last().entities@, n) {
            1nat
        } else {
            0nat
        })
    }
}

/// A name is shared when more than one document defines it and it is not
/// the reserved document name.
pub open spec fn is_shared(docs: Seq<Document>, n: Seq<char>) -> bool {
    doc_count(docs, n) >= 2 && !is_reserved_name(n)
}

/// True when an entity stays in its own document's sequence.
pub open spec fn keeps(docs: Seq<Document>, e: RsEntity) -> bool {
    match entity_name(e) {
        Some(n) => !is_shared(docs, n),
        None => true,
    }
}

/// The predicate that keeps an entity in its own document.
pub open spec fn keep_pred(docs: Seq<Document>) -> spec_fn(RsEntity) -> bool {
    |e: RsEntity| keeps(docs, e)
}

/// The last entity of the document defining this name.
pub open spec fn last_def_in_doc(doc: Seq<RsEntity>, n: Seq<char>) -> RsEntity
    decreases doc.len(),
{
    if doc.len() == 0 {
        arbitrary()
    } else if entity_name(doc.last()) == Some(n) {
        doc.last()
    } else {
        last_def_in_doc(doc.drop_last(), n)
    }
}

/// The definition of this name encountered last over all documents in order.
pub open spec fn last_def(docs: Seq<Document>, n: Seq<char>) -> RsEntity
    decreases docs.len(),
{
    if docs.len() == 0 {
        arbitrary()
    } else if doc_defines(docs.last().entities@, n) {
        last_def_in_doc(docs.last().entities@, n)
    } else {
        last_def(docs.drop_last(), n)
    }
}

/// True when a directory entry's name marks it hidden: it starts with a dot.
pub open spec fn hidden_name(n: Seq<char>) -> bool {
    n.len() > 0 && n[0] == '.'
}

/// Decides whether a directory entry is hidden and must not be read.
pub fn is_hidden_name(name: &str) -> (b: bool)
    ensures
        b == hidden_name(name@),
{
    if name.unicode_len() == 0 {
        false
    } else {
        name.get_char(0) == '.'
    }
}

/// The position of the first document defining the name; meaningful only
/// when some document does.
pub open spec fn first_doc_idx(docs: Seq<Document>, n: Seq<char>) -> int
    decreases docs.len(),
{
    if docs.len() == 0 {
        0
    } else if doc_defines(docs.first().entities@, n) {
        0
    } else {
        1 + first_doc_idx(docs.drop_first(), n)
    }
}

/// The position of the first entity of the document carrying the name;
/// meaningful only when some entity does.
pub open spec fn first_ent_idx(doc: Seq<RsEntity>, n: Seq<char>) -> int
    decreases doc.len(),
{
    if doc.len() == 0 {
        0
    } else if entity_name(doc.first()) == Some(n) {
        0
    } else {
        1 + first_ent_idx(doc.drop_first(), n)
    }
}

/// True when the first definition of one name comes before the first
/// definition of another, in document-then-entity order.
pub open spec fn defined_before(docs: Seq<Document>, n1: Seq<char>, n2: Seq<char>) -> bool {
    let a1 = first_doc_idx(docs, n1);
    let a2 = first_doc_idx(docs, n2);
    a1 < a2 || (a1 == a2 && first_ent_idx(docs[a1].entities@, n1) < first_ent_idx(
        docs[a2].entities@,
        n2,
    ))
}

/// True when the first definition of the name comes before position (i, k)
/// in document-then-entity order.
pub open spec fn first_def_before(docs: Seq<Document>, n: Seq<char>, i: int, k: int) -> bool {
    first_doc_idx(docs, n) < i || (first_doc_idx(docs, n) == i && first_ent_idx(
        docs[i].entities@,
        n,
    ) < k)
}

/// A count of zero means no document of the run defines the name.
proof fn lemma_count_zero_no_defines(docs: Seq<Document>, n: Seq<char>)
    requires
        doc_count(docs, n) == 0,
    ensures
        forall|a: int| 0 <= a < docs.len() ==> !doc_defines(#[trigger] docs[a].entities@, n),
    decreases docs.len(),
{
    if docs.len() > 0 {
        lemma_count_zero_no_defines(docs.drop_last(), n);
        assert(forall|a: int|
            0 <= a < docs.drop_last().len() ==> docs.drop_last()[a] == docs[a]);
    }
}

/// The first defining document is the one at which the earlier documents
/// all fail to define the name.
proof fn lemma_first_doc_idx_at(docs: Seq<Document>, i: int, n: Seq<char>)
    requires
        0 <= i < docs.len(),
        forall|a: int| 0 <= a < i ==> !doc_defines(#[trigger] docs[a].entities@, n),
        doc_defines(docs[i].entities@, n),
    ensures
        first_doc_idx(docs, n) == i,
    decreases docs.len(),
{
    if i == 0 {
    } else {
        assert(!doc_defines(docs.first().entities@, n));
        assert(forall|a: int|
            0 <= a < docs.drop_first().len() ==> docs.drop_first()[a] == docs[a + 1]);
        lemma_first_doc_idx_at(docs.drop_first(), i - 1, n);
    }
}

/// The first carrying entity is the one at which the earlier entities all
/// fail to carry the name.
proof fn lemma_first_ent_idx_at(doc: Seq<RsEntity>, k: int, n: Seq<char>)
    requires
        0 <= k < doc.len(),
        forall|b: int| 0 <= b < k ==> entity_name(#[trigger] doc[b]) != Some(n),
        entity_name(doc[k]) == Some(n),
    ensures
        first_ent_idx(doc, n) == k,
    decreases doc.len(),
{
    if k == 0 {
    } else {
        assert(entity_name(doc.first()) != Some(n));
        assert(forall|b: int| 0 <= b < doc.drop_first().len() ==> doc.drop_first()[b] == doc[b + 1]);
        lemma_first_ent_idx_at(doc.drop_first(), k - 1, n);
    }
}

/// True when the entity takes part in deduplication under exactly this name.
fn entity_name_matches(e: &RsEntity, name: &str) -> (b: bool)
    ensures
        b == (entity_name(*e) == Some(name@)),
{
    match e {
        RsEntity::Struct(s) => str_eq(s.name.as_str(), name),
        RsEntity::Enum(en) => str_eq(en.name.as_str(), name),
        RsEntity::TupleStruct(t) => str_eq(t.name.as_str(), name),
        RsEntity::Alias(_) => false,
    }
}

/// The name under which the entity takes part, when it takes part.
fn entity_name_exec<'a>(e: &'a RsEntity) -> (r: Option<&'a String>)
    ensures
        match r {
            Some(s) => entity_name(*e) == Some(s@),
            None => entity_name(*e) is None,
        },
{
    match e {
        RsEntity::Struct(s) => Some(&s.name),
        RsEntity::Enum(en) => Some(&en.name),
        RsEntity::TupleStruct(t) => Some(&t.name),
        RsEntity::Alias(_) => None,
    }
}

/// Decides whether a document defines an entity of this name.
fn doc_defines_exec(doc: &Vec<RsEntity>, name: &str) -> (b: bool)
    ensures
        b == doc_defines(doc@, name@),
{
    let n = doc.len();
    for k in 0..n
        invariant
            n == doc@.len(),
            forall|j: int| 0 <= j < k ==> entity_name(#[trigger] doc@[j]) != Some(name@),
    {
        if entity_name_matches(&doc[k], name) {
            return true;
        }
    }
    false
}

/// Counts the documents defining an entity of this name.
fn count_defining(docs: &Vec<Document>, name: &str) -> (c: usize)
    ensures
        c == doc_count(docs@, name@),
{
    let mut c: usize = 0;
    let n = docs.len();
    for i in 0..n
        invariant
            n == docs@.len(),
            c <= i,
            c == doc_count(docs@.subrange(0, i as int), name@),
    {
        if doc_defines_exec(&docs[i].entities, name) {
            c = c + 1;
        }
        proof {
            let cur = docs@.subrange(0, i + 1);
            assert(cur.drop_last() =~= docs@.subrange(0, i as int));
            assert(cur.last() == docs@[i as int]);
        }
    }
    proof {
        assert(docs@.subrange(0, docs@.len() as int) =~= docs@);
    }
    c
}

/// Decides whether a name is the reserved document name under any casing.
fn is_reserved_exec(name: &str) -> (b: bool)
    ensures
        b == is_reserved_name(name@),
{
    let low = to_ascii_lower(name);
    str_eq(low.as_str(), "document")
}

/// True when the list already holds this name.
fn contains_name(names: &Vec<String>, name: &str) -> (b: bool)
    ensures
        b == (exists|j: int| 0 <= j < names@.len() && names@[j]@ == name@),
{
    let n = names.len();
    for j in 0..n
        invariant
            n == names@.len(),
            forall|t: int| 0 <= t < j ==> names@[t]@ != name@,
    {
        if str_eq(names[j].as_str(), name) {
            return true;
        }
    }
    false
}

/// Collects each shared name once, in order of first definition.
fn shared_names(docs: &Vec<Document>) -> (names: Vec<String>)
    ensures
        forall|j: int| 0 <= j < names@.len() ==> is_shared(docs@, #[trigger] names@[j]@),
        forall|n: Seq<char>| #[trigger]
            is_shared(docs@, n) ==> exists|j: int| 0 <= j < names@.len() && names@[j]@ == n,
        forall|j1: int, j2: int|
            0 <= j1 < names@.len() && 0 <= j2 < names@.len() && j1 != j2 ==> names@[j1]@
                != names@[j2]@,
        forall|j1: int, j2: int|
            0 <= j1 < j2 < names@.len() ==> defined_before(docs@, names@[j1]@, names@[j2]@),
{
    let mut names: Vec<String> = Vec::new();
    let nd = docs.len();
    for i in 0..nd
        invariant
            nd == docs@.len(),
            forall|j: int| 0 <= j < names@.len() ==> is_shared(docs@, #[trigger] names@[j]@),
            forall|n: Seq<char>|
                #[trigger] is_shared(docs@, n) && doc_count(docs@.subrange(0, i as int), n) >= 1
                    ==> exists|j: int| 0 <= j < names@.len() && names@[j]@ == n,
            forall|j1: int, j2: int|
                0 <= j1 < names@.len() && 0 <= j2 < names@.len() && j1 != j2 ==> names@[j1]@
                    != names@[j2]@,
            forall|j1: int, j2: int|
                0 <= j1 < j2 < names@.len() ==> defined_before(docs@, names@[j1]@, names@[j2]@),
            forall|j: int|
                0 <= j < names@.len() ==> first_def_before(
                    docs@,
                    #[trigger] names@[j]@,
                    i as int,
                    0,
                ),
    {
        let ne = docs[i].entities.len();
        for k in 0..ne
            invariant
                nd == docs@.len(),
                i < nd,
                ne == docs@[i as int].entities@.len(),
                forall|j: int| 0 <= j < names@.len() ==> is_shared(docs@, #[trigger] names@[j]@),
                forall|n: Seq<char>|
                    #[trigger] is_shared(docs@, n) && (doc_count(docs@.subrange(0, i as int), n)
                        >= 1 || doc_defines(
                        docs@[i as int].entities@.subrange(0, k as int),
                        n,
                    )) ==> exists|j: int| 0 <= j < names@.len() && names@[j]@ == n,
                forall|j1: int, j2: int|
                    0 <= j1 < names@.len() && 0 <= j2 < names@.len() && j1 != j2 ==> names@[j1]@
                        != names@[j2]@,
                forall|j1: int, j2: int|
                    0 <= j1 < j2 < names@.len() ==> defined_before(docs@, names@[j1]@, names@[j2]@),
                forall|j: int|
                    0 <= j < names@.len() ==> first_def_before(
                        docs@,
                        #[trigger] names@[j]@,
                        i as int,
                        k as int,
                    ),
        {
            let ghost pre_names = names@;
            match entity_name_exec(&docs[i].entities[k]) {
                Some(nm) => {
                    let had = contains_name(&names, nm.as_str());
                    if !had {
                        if !is_reserved_exec(nm.as_str()) {
                            let c = count_defining(docs, nm.as_str());
                            if c >= 2 {
                                names.push(nm.clone());
                                proof {
                                    let n = nm@;
                                    let doc_i = docs@[i as int].entities@;
                                    assert(is_shared(docs@, n));
                                    assert(doc_count(docs@.subrange(0, i as int), n) == 0) by {
                                        if doc_count(docs@.subrange(0, i as int), n) >= 1 {
                                            assert(exists|j: int|
                                                0 <= j < pre_names.len() && pre_names[j]@ == n);
                                        }
                                    }
                                    assert(!doc_defines(doc_i.subrange(0, k as int), n)) by {
                                        if doc_defines(doc_i.subrange(0, k as int), n) {
                                            assert(exists|j: int|
                                                0 <= j < pre_names.len() && pre_names[j]@ == n);
                                        }
                                    }
                                    lemma_count_zero_no_defines(docs@.subrange(0, i as int), n);
                                    assert(forall|a: int|
                                        0 <= a < i ==> docs@.subrange(0, i as int)[a] == docs@[a]);
                                    assert(entity_name(doc_i[k as int]) == Some(n));
                                    assert(doc_defines(doc_i, n));
                                    lemma_first_doc_idx_at(docs@, i as int, n);
                                    assert(forall|b: int|
                                        0 <= b < k ==> doc_i.subrange(0, k as int)[b] == doc_i[b]);
                                    assert(forall|b: int|
                                        0 <= b < k ==> entity_name(#[trigger] doc_i[b]) != Some(
                                            n,
                                        ));
                                    lemma_first_ent_idx_at(doc_i, k as int, n);
                                    assert(first_doc_idx(docs@, n) == i as int);
                                    assert(first_ent_idx(doc_i, n) == k as int);
                                }
                            }
                        }
                    }
                },
                None => {},
            }
            proof {
                assert(forall|j: int|
                    0 <= j < pre_names.len() ==> names@[j] == #[trigger] pre_names[j]);
                assert forall|n: Seq<char>|
                    #[trigger] is_shared(docs@, n) && (doc_count(docs@.subrange(0, i as int), n)
                        >= 1 || doc_defines(
                        docs@[i as int].entities@.subrange(0, k + 1),
                        n,
                    )) implies exists|j: int| 0 <= j < names@.len() && names@[j]@ == n by {
                    if doc_count(docs@.subrange(0, i as int), n) >= 1 || doc_defines(
                        docs@[i as int].entities@.subrange(0, k as int),
                        n,
                    ) {
                        let j = choose|j: int| 0 <= j < pre_names.len() && pre_names[j]@ == n;
                        assert(names@[j]@ == n);
                    } else {
                        let sub = docs@[i as int].entities@.subrange(0, k + 1);
                        let b = choose|b: int|
                            0 <= b < sub.len() && entity_name(#[trigger] sub[b]) == Some(n);
                        assert(sub[b] == docs@[i as int].entities@[b]);
                        if b < k {
                            assert(docs@[i as int].entities@.subrange(0, k as int)[b] == sub[b]);
                            assert(doc_defines(
                                docs@[i as int].entities@.subrange(0, k as int),
                                n,
                            ));
                        } else {
                            assert(entity_name(docs@[i as int].entities@[k as int]) == Some(n));
                            if pre_names.len() < names@.len() {
                                assert(names@[names@.len() - 1]@ == n);
                            } else {
                                let j = choose|j: int|
                                    0 <= j < pre_names.len() && pre_names[j]@ == n;
                                assert(names@[j]@ == n);
                            }
                        }
                    }
                }
                assert forall|j: int| 0 <= j < names@.len() implies first_def_before(
                    docs@,
                    #[trigger] names@[j]@,
                    i as int,
                    k + 1,
                ) by {
                    if j < pre_names.len() {
                        assert(names@[j]@ == pre_names[j]@);
                        assert(first_def_before(docs@, names@[j]@, i as int, k as int));
                    } else {
                        assert(first_doc_idx(docs@, names@[j]@) == i as int);
                        assert(first_ent_idx(docs@[i as int].entities@, names@[j]@) == k as int);
                    }
                }
                assert forall|j1: int, j2: int| 0 <= j1 < j2 < names@.len() implies defined_before(
                    docs@,
                    names@[j1]@,
                    names@[j2]@,
                ) by {
                    if j2 < pre_names.len() {
                        assert(defined_before(docs@, pre_names[j1]@, pre_names[j2]@));
                    } else {
                        assert(first_def_before(docs@, pre_names[j1]@, i as int, k as int));
                        assert(first_doc_idx(docs@, names@[j2]@) == i as int);
                        assert(first_ent_idx(docs@[i as int].entities@, names@[j2]@) == k as int);
                    }
                }
            }
        }
        proof {
            let cur = docs@.subrange(0, i + 1);
            assert(cur.drop_last() =~= docs@.subrange(0, i as int));
            assert(cur.last() == docs@[i as int]);
            assert(docs@[i as int].entities@.subrange(0, ne as int) =~= docs@[i as int].entities@);
        }
    }
    proof {
        assert(docs@.subrange(0, docs@.len() as int) =~= docs@);
    }
    names
}

/// Documents after this one do not define the name, so the overall last
/// definition lies within the prefix.
proof fn lemma_last_def_skip(docs: Seq<Document>, i: int, n: Seq<char>)
    requires
        0 <= i < docs.len(),
        forall|a: int| i < a < docs.len() ==> !doc_defines(#[trigger] docs[a].entities@, n),
    ensures
        last_def(docs, n) == last_def(docs.subrange(0, i + 1), n),
    decreases docs.len(),
{
    if docs.len() > 0 {
        if i + 1 == docs.len() {
            assert(docs.subrange(0, i + 1) =~= docs);
        } else {
            assert(!doc_defines(docs.last().entities@, n));
            lemma_last_def_skip(docs.drop_last(), i, n);
            assert(docs.drop_last().subrange(0, i + 1) =~= docs.subrange(0, i + 1));
        }
    }
}

/// Entities after this one do not carry the name and this one does, so it
/// is the document's last definition.
proof fn lemma_last_def_in_doc_at(doc: Seq<RsEntity>, k: int, n: Seq<char>)
    requires
        0 <= k < doc.len(),
        entity_name(doc[k]) == Some(n),
        forall|b: int| k < b < doc.len() ==> entity_name(#[trigger] doc[b]) != Some(n),
    ensures
        last_def_in_doc(doc, n) == doc[k],
    decreases doc.len(),
{
    if k + 1 == doc.len() {
    } else {
        lemma_last_def_in_doc_at(doc.drop_last(), k, n);
    }
}

/// Finds the definition of a name encountered last over all documents.
fn find_last_def(docs: &Vec<Document>, name: &str) -> (r: RsEntity)
    requires
        doc_count(docs@, name@) >= 1,
    ensures
        entity_v(r) == entity_v(last_def(docs@, name@)),
        entity_name(r) == Some(name@),
{
    let mut i: usize = docs.len();
    proof {
        if docs@.len() == 0 {
            assert(doc_count(docs@, name@) == 0);
        }
    }
    while i > 0
        invariant
            i <= docs@.len(),
            doc_count(docs@, name@) >= 1,
            forall|a: int| i <= a < docs@.len() ==> !doc_defines(#[trigger] docs@[a].entities@, name@),
        decreases i,
    {
        i = i - 1;
        if doc_defines_exec(&docs[i].entities, name) {
            proof {
                lemma_last_def_skip(docs@, i as int, name@);
                assert(docs@.subrange(0, i + 1).last() == docs@[i as int]);
                assert(docs@.subrange(0, i + 1).len() > 0);
                assert(last_def(docs@, name@) == last_def_in_doc(docs@[i as int].entities@, name@));
            }
            let d = &docs[i];
            let mut k: usize = d.entities.len();
            while k > 0
                invariant
                    k <= d.entities@.len(),
                    doc_defines(d.entities@, name@),
                    last_def(docs@, name@) == last_def_in_doc(d.entities@, name@),
                    forall|b: int|
                        k <= b < d.entities@.len() ==> entity_name(#[trigger] d.entities@[b])
                            != Some(name@),
                decreases k,
            {
                k = k - 1;
                if entity_name_matches(&d.entities[k], name) {
                    proof {
                        lemma_last_def_in_doc_at(d.entities@, k as int, name@);
                    }
                    let r = clone_entity(&d.entities[k]);
                    proof {
                        assert(entity_name(r) == Some(name@));
                    }
                    return r;
                }
            }
            proof {
                assert(!doc_defines(d.entities@, name@));
            }
        }
    }
    proof {
        assert(doc_count(docs@.subrange(0, 0), name@) == 0);
        assert(docs@.subrange(0, docs@.len() as int) =~= docs@);
        lemma_no_docs_no_count(docs@, name@);
    }
    vstd::pervasive::unreached()
}

/// A name no document defines is counted zero times.
proof fn lemma_no_docs_no_count(docs: Seq<Document>, n: Seq<char>)
    requires
        forall|a: int| 0 <= a < docs.len() ==> !doc_defines(#[trigger] docs[a].entities@, n),
    ensures
        doc_count(docs, n) == 0,
    decreases docs.len(),
{
    if docs.len() > 0 {
        assert(forall|a: int|
            0 <= a < docs.drop_last().len() ==> docs.drop_last()[a] == docs[a]);
        lemma_no_docs_no_count(docs.drop_last(), n);
        assert(!doc_defines(docs.last().entities@, n));
    }
}

/// Splits the documents' entities: every entity whose name more than one
/// document defines, other than the reserved document name, leaves every
/// document and stands once in the shared sequence, as the definition
/// encountered last; the shared sequence lists names in the order of their
/// first definition; everything else stays, in order.
pub fn dedupe(docs: &Vec<Document>) -> (r: (Vec<Document>, Vec<RsEntity>))
    ensures
        r.0@.len() == docs@.len(),
        forall|i: int| 0 <= i < docs@.len() ==> (#[trigger] r.0@[i]).name@ == docs@[i].name@,
        forall|i: int|
            0 <= i < docs@.len() ==> entities_v((#[trigger] r.0@[i]).entities@) == entities_v(
                docs@[i].entities@.filter(keep_pred(docs@)),
            ),
        forall|j: int|
            0 <= j < r.1@.len() ==> {
                &&& entity_name(#[trigger] r.1@[j]) is Some
                &&& is_shared(docs@, entity_name(r.1@[j])->0)
                &&& entity_v(r.1@[j]) == entity_v(last_def(docs@, entity_name(r.1@[j])->0))
            },
        forall|n: Seq<char>| #[trigger]
            is_shared(docs@, n) ==> exists|j: int| 0 <= j < r.1@.len() && entity_name(r.1@[j])
                == Some(n),
        forall|j1: int, j2: int|
            0 <= j1 < r.1@.len() && 0 <= j2 < r.1@.len() && j1 != j2 ==> entity_name(r.1@[j1])
                != entity_name(r.1@[j2]),
        forall|j1: int, j2: int|
            0 <= j1 < j2 < r.1@.len() ==> defined_before(
                docs@,
                entity_name(r.1@[j1])->0,
                entity_name(r.1@[j2])->0,
            ),
{
    let names = shared_names(docs);
    let mut shared: Vec<RsEntity> = Vec::new();
    let nn = names.len();
    for j in 0..nn
        invariant
            nn == names@.len(),
            shared@.len() == j,
            forall|t: int| 0 <= t < names@.len() ==> is_shared(docs@, #[trigger] names@[t]@),
            forall|n: Seq<char>| #[trigger]
                is_shared(docs@, n) ==> exists|t: int| 0 <= t < names@.len() && names@[t]@ == n,
            forall|t1: int, t2: int|
                0 <= t1 < names@.len() && 0 <= t2 < names@.len() && t1 != t2 ==> names@[t1]@
                    != names@[t2]@,
            forall|t: int|
                0 <= t < j ==> entity_name(#[trigger] shared@[t]) == Some(names@[t]@) && entity_v(
                    shared@[t],
                ) == entity_v(last_def(docs@, names@[t]@)),
    {
        let e = find_last_def(docs, names[j].as_str());
        shared.push(e);
    }
    let mut kept: Vec<Document> = Vec::new();
    let nd = docs.len();
    for i in 0..nd
        invariant
            nd == docs@.len(),
            kept@.len() == i,
            forall|t: int| 0 <= t < i ==> (#[trigger] kept@[t]).name@ == docs@[t].name@,
            forall|t: int|
                0 <= t < i ==> entities_v((#[trigger] kept@[t]).entities@) == entities_v(
                    docs@[t].entities@.filter(keep_pred(docs@)),
                ),
    {
        let d = &docs[i];
        let mut out: Vec<RsEntity> = Vec::new();
        let ne = d.entities.len();
        for k in 0..ne
            invariant
                nd == docs@.len(),
                i < nd,
                ne == d.entities@.len(),
                d == &docs@[i as int],
                entities_v(out@) == entities_v(
                    d.entities@.subrange(0, k as int).filter(keep_pred(docs@)),
                ),
        {
            let e = &d.entities[k];
            let keep: bool = match entity_name_exec(e) {
                Some(nm) => {
                    if is_reserved_exec(nm.as_str()) {
                        true
                    } else {
                        let c = count_defining(docs, nm.as_str());
                        c < 2
                    }
                },
                None => true,
            };
            proof {
                assert(keep == keeps(docs@, d.entities@[k as int]));
            }
            let ghost pre = out@;
            if keep {
                let c = clone_entity(e);
                out.push(c);
            }
            proof {
                reveal_with_fuel(Seq::filter, 2);
                let cur = d.entities@.subrange(0, k + 1);
                assert(cur.drop_last() =~= d.entities@.subrange(0, k as int));
                assert(cur.last() == d.entities@[k as int]);
                if keep {
                    assert(out@.drop_last() =~= pre);
                    assert(cur.filter(keep_pred(docs@)) == cur.drop_last().filter(
                        keep_pred(docs@),
                    ).push(cur.last()));
                    let fcur = cur.filter(keep_pred(docs@));
                    assert(fcur.drop_last() =~= cur.drop_last().filter(keep_pred(docs@)));
                    assert(entities_v(out@) == entities_v(fcur));
                } else {
                    assert(cur.filter(keep_pred(docs@)) == cur.drop_last().filter(
                        keep_pred(docs@),
                    ));
                }
            }
        }
        proof {
            assert(d.entities@.subrange(0, d.entities@.len() as int) =~= d.entities@);
        }
        kept.push(Document { name: d.name.clone(), entities: out });
    }
    proof {
        assert forall|n: Seq<char>| #[trigger] is_shared(docs@, n) implies exists|j: int|
            0 <= j < shared@.len() && entity_name(shared@[j]) == Some(n) by {
            let t = choose|t: int| 0 <= t < names@.len() && names@[t]@ == n;
            assert(entity_name(shared@[t]) == Some(n));
        }
        assert forall|j1: int, j2: int| 0 <= j1 < j2 < shared@.len() implies defined_before(
            docs@,
            entity_name(shared@[j1])->0,
            entity_name(shared@[j2])->0,
        ) by {
            assert(entity_name(shared@[j1]) == Some(names@[j1]@));
            assert(entity_name(shared@[j2]) == Some(names@[j2]@));
            assert(defined_before(docs@, names@[j1]@, names@[j2]@));
        }
    }
    (kept, shared)
}

} // verus!
