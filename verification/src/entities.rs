//! The store of entities, built in one go from a decoded document and, where
//! a schema is given, held to that schema.

use vstd::prelude::*;
use vstd::string::*;
use cedar_policy_core::entities::Entities;
use cedar_policy_core::validator::ValidatorSchema;
use crate::entity_uid::{
    canonical_text,
    contains_uid,
    euid_of_json,
    euids_view,
    EntityUidWrapper,
    EuidView,
};
use crate::error::{DocumentError, DocumentErrorView};
use crate::json::{
    items_of,
    member_of,
    strict_json,
    tree_outcome,
    tree_view,
    trees_view,
    JsonTree,
};
use crate::schema::{strings_view, RSchema};

verus! {

/// `cedar_policy_core::entities::Entities`, a store of entities. The proofs
/// see it only through the identifiers that it holds.
#[verifier::external_type_specification]
#[verifier::external_body]
pub struct ExEntities(Entities);

/// A store of entities. It does not change once built.
pub struct EntitiesWrapper {
    inner: Entities,
}

impl View for EntitiesWrapper {
    type V = Entities;

    closed spec fn view(&self) -> Entities {
        self.inner
    }
}

/// The schema that a store is held to, as the proofs see it.
pub open spec fn schema_view(schema: Option<&RSchema>) -> Option<ValidatorSchema> {
    match schema {
        Some(s) => Some(s@),
        None => None,
    }
}

/// The document in which the record `record` names its entity: its member
/// `uid` where the record is an object, its first item where it is a list.
pub open spec fn named_uid(record: serde_json::Value) -> Option<serde_json::Value> {
    match member_of(record, "uid"@) {
        Some(uid) => Some(uid),
        None => match items_of(record) {
            Some(parts) => if parts.len() > 0 {
                Some(parts[0])
            } else {
                None
            },
            None => None,
        },
    }
}

/// The identifier that the record `record` of a document names, where it
/// names one that can be read.
pub open spec fn record_uid(record: serde_json::Value) -> Option<EuidView> {
    match named_uid(record) {
        Some(uid) => match euid_of_json(uid) {
            Ok(e) => Some(e),
            Err(_) => None,
        },
        None => None,
    }
}

/// The identifiers that the records `items` name, in their order.
pub open spec fn listed_uids(items: Seq<serde_json::Value>) -> Seq<EuidView>
    decreases items.len(),
{
    if items.len() == 0 {
        Seq::empty()
    } else {
        let before = listed_uids(items.drop_last());
        match record_uid(items.last()) {
            Some(e) => before.push(e),
            None => before,
        }
    }
}

/// The identifiers that the records of `document` name, in their order.
pub open spec fn document_uids(document: serde_json::Value) -> Seq<EuidView> {
    match items_of(document) {
        Some(items) => listed_uids(items),
        None => Seq::empty(),
    }
}

/// `j` is the place of the first identifier of `s` that stands at an earlier
/// place too.
pub open spec fn is_first_twice(s: Seq<EuidView>, j: int) -> bool {
    &&& 0 <= j < s.len()
    &&& s.take(j).no_duplicates()
    &&& s.take(j).contains(s[j])
}

/// The place of the first identifier of `s` that comes a second time, where
/// there is one.
pub open spec fn first_twice(s: Seq<EuidView>) -> int {
    choose|j: int| is_first_twice(s, j)
}

/// The reports `parts` in one line, a colon and a blank between two of them.
pub open spec fn joined(parts: Seq<Seq<char>>) -> Seq<char>
    decreases parts.len(),
{
    if parts.len() == 0 {
        Seq::empty()
    } else if parts.len() == 1 {
        parts[0]
    } else {
        joined(parts.drop_last()) + ": "@ + parts.last()
    }
}

/// The error for the first identifier that `document` lists twice, where it
/// lists one twice.
pub open spec fn listed_twice(document: serde_json::Value) -> Option<DocumentErrorView> {
    let uids = document_uids(document);
    if uids.no_duplicates() {
        None
    } else {
        Some(DocumentErrorView::DuplicateEntity(canonical_text(uids[first_twice(uids)])))
    }
}

/// What holds of the outcome `r` of building a store from `document`, held
/// to `schema`.
///
/// Where the document lists an identifier twice, `r` is the error that names
/// the first such identifier. Else a store comes out exactly where Cedar
/// loads one from the document, and it is that store; it holds every
/// identifier that the document lists, and without a schema no other. A
/// failure of the loader comes out as a failure of validation.
pub open spec fn holds_of_store(
    r: Result<Entities, DocumentErrorView>,
    document: serde_json::Value,
    schema: Option<ValidatorSchema>,
) -> bool {
    match listed_twice(document) {
        Some(e) => r == Err::<Entities, DocumentErrorView>(e),
        None => match r {
            Ok(store) => {
                &&& loaded_entities(document, schema) == Some(store)
                &&& document_uids(document).to_set().subset_of(entity_ids(store))
                &&& schema is None ==> entity_ids(store) == document_uids(document).to_set()
            },
            Err(e) => loaded_entities(document, schema) is None && e is Validation,
        },
    }
}

/// What holds of the outcome `r` of building a store from the text `raw`:
/// the decoder's error where the text is turned down, else what holds of the
/// outcome for the decoded document.
pub open spec fn holds_of_text(
    r: Result<Entities, DocumentErrorView>,
    raw: Seq<char>,
    schema: Option<ValidatorSchema>,
) -> bool {
    match tree_outcome(strict_json(raw)) {
        Ok(document) => holds_of_store(r, document, schema),
        Err(e) => r == Err::<Entities, DocumentErrorView>(e),
    }
}

/// A sequence has at most one first identifier that comes twice, and one
/// shows that the sequence holds an identifier twice.
pub proof fn lemma_first_twice(s: Seq<EuidView>, j: int)
    requires
        is_first_twice(s, j),
    ensures
        !s.no_duplicates(),
        first_twice(s) == j,
{
    let i = choose|i: int| 0 <= i < s.take(j).len() && s.take(j)[i] == s[j];
    assert(s[i] == s[j]);
    let k = first_twice(s);
    if k < j {
        let a = choose|a: int| 0 <= a < s.take(k).len() && s.take(k)[a] == s[k];
        assert(s.take(j)[a] == s.take(j)[k]);
    } else if j < k {
        assert(s.take(k)[i] == s.take(k)[j]);
    }
}

/// A result of building a store, over what the proofs can see.
pub open spec fn store_outcome_view(r: Result<EntitiesWrapper, DocumentError>) -> Result<
    Entities,
    DocumentErrorView,
> {
    match r {
        Ok(s) => Ok(s@),
        Err(e) => Err(e@),
    }
}

/// The place in `v` of the first identifier that stands at an earlier place
/// too, if there is one.
pub fn find_first_twice(v: &Vec<EntityUidWrapper>) -> (res: Option<usize>)
    ensures
        res is None <==> euids_view(v@).no_duplicates(),
        res matches Some(j) ==> is_first_twice(euids_view(v@), j as int),
{
    let ghost s = euids_view(v@);
    let n = v.len();
    let mut j: usize = 0;
    while j < n
        invariant
            j <= n,
            n == v@.len(),
            s == euids_view(v@),
            s.take(j as int).no_duplicates(),
        decreases n - j,
    {
        let mut i: usize = 0;
        while i < j
            invariant
                i <= j < n,
                n == v@.len(),
                s == euids_view(v@),
                s.take(j as int).no_duplicates(),
                forall|k: int| 0 <= k < i ==> s[k] != s[j as int],
            decreases j - i,
        {
            if v[i].same(&v[j]) {
                proof {
                    assert(s.take(j as int)[i as int] == s[j as int]);
                    lemma_first_twice(s, j as int);
                }
                return Some(j);
            }
            i += 1;
        }
        proof {
            let t = s.take(j + 1);
            assert forall|a: int, b: int| 0 <= a < t.len() && 0 <= b < t.len() && a != b implies t[a]
                != t[b] by {
                if a < j && b < j {
                    assert(s.take(j as int)[a] != s.take(j as int)[b]);
                }
            }
        }
        j += 1;
    }
    proof {
        assert(s.take(n as int) =~= s);
    }
    None
}

/// The reports `parts` in one line, a colon and a blank between two of them.
pub fn join_reports(parts: &Vec<String>) -> (res: String)
    ensures
        res@ == joined(strings_view(parts@)),
{
    let ghost s = strings_view(parts@);
    let n = parts.len();
    if n == 0 {
        return String::new();
    }
    let mut out = parts[0].clone();
    let mut i: usize = 1;
    assert(s.take(1).len() == 1 && s.take(1)[0] == s[0]);
    while i < n
        invariant
            1 <= i <= n,
            n == parts@.len(),
            s == strings_view(parts@),
            out@ == joined(s.take(i as int)),
        decreases n - i,
    {
        proof {
            assert(s.take(i + 1).drop_last() =~= s.take(i as int));
            assert(s.take(i + 1).last() == parts@[i as int]@);
        }
        out.append(": ");
        out.append(parts[i].as_str());
        i += 1;
    }
    assert(s.take(n as int) =~= s);
    out
}

/// The first item of `record`, where it is a list that has one.
pub fn first_item(record: &JsonTree) -> (res: Option<JsonTree>)
    ensures
        tree_view(res) == (match items_of(record@) {
            Some(parts) => if parts.len() > 0 {
                Some(parts[0])
            } else {
                None
            },
            None => None,
        }),
{
    match record.items() {
        Some(mut parts) => if parts.len() > 0 {
            let first = parts.swap_remove(0);
            Some(first)
        } else {
            None
        },
        None => None,
    }
}

/// The identifiers that the records of `document` name, in their order. A
/// record that names none that can be read is passed over.
pub fn read_uids(document: &JsonTree) -> (res: Vec<EntityUidWrapper>)
    ensures
        euids_view(res@) == document_uids(document@),
{
    let mut out: Vec<EntityUidWrapper> = Vec::new();
    match document.items() {
        None => {
            assert(euids_view(out@) =~= Seq::<EuidView>::empty());
        },
        Some(items) => {
            let ghost s = trees_view(items@);
            let n = items.len();
            let mut i: usize = 0;
            assert(euids_view(out@) =~= listed_uids(s.take(0)));
            while i < n
                invariant
                    i <= n,
                    n == items@.len(),
                    s == trees_view(items@),
                    euids_view(out@) == listed_uids(s.take(i as int)),
                decreases n - i,
            {
                let ghost before = euids_view(out@);
                proof {
                    assert(s.take(i + 1).drop_last() =~= s.take(i as int));
                    assert(s.take(i + 1).last() == items@[i as int]@);
                }
                let named = match items[i].member("uid") {
                    Some(uid) => Some(uid),
                    None => first_item(&items[i]),
                };
                match named {
                    None => {},
                    Some(uid) => match EntityUidWrapper::from_json(&uid) {
                        Err(_) => {},
                        Ok(e) => {
                            out.push(e);
                            assert(euids_view(out@) =~= before.push(e@));
                        },
                    },
                }
                i += 1;
            }
            assert(s.take(n as int) =~= s);
        },
    }
    out
}

impl EntitiesWrapper {
    /// The store of the entities that `document` lists. It fails where the
    /// document lists one identifier twice. With a schema every entity has to
    /// conform to it, and the schema's actions join the store; without one
    /// only the shape of the document is asked for.
    pub fn from_document(document: &JsonTree, schema: Option<&RSchema>) -> (res: Result<
        Self,
        DocumentError,
    >)
        ensures
            holds_of_store(store_outcome_view(res), document@, schema_view(schema)),
    {
        let uids = read_uids(document);
        match find_first_twice(&uids) {
            Some(j) => {
                proof {
                    lemma_first_twice(euids_view(uids@), j as int);
                }
                return Err(DocumentError::DuplicateEntity(uids[j].to_string()));
            },
            None => {},
        }
        let held_to = match schema {
            Some(s) => Some(s.inner()),
            None => None,
        };
        match entities_from_value(document, held_to) {
            Ok(inner) => Ok(EntitiesWrapper { inner }),
            Err(parts) => Err(DocumentError::Validation(join_reports(&parts))),
        }
    }

    /// Decodes `raw` strictly and builds the store of the entities that it
    /// lists.
    pub fn from_json(raw: &str, schema: Option<&RSchema>) -> (res: Result<Self, DocumentError>)
        ensures
            holds_of_text(store_outcome_view(res), raw@, schema_view(schema)),
    {
        match JsonTree::decode(raw) {
            Ok(document) => EntitiesWrapper::from_document(&document, schema),
            Err(e) => Err(e),
        }
    }

    /// The store as the Cedar crate holds it.
    pub fn inner(&self) -> (res: &Entities)
        ensures
            *res == self@,
    {
        &self.inner
    }

    /// The identifiers of the entities of the store.
    pub fn uids(&self) -> (res: Vec<EntityUidWrapper>)
        ensures
            euids_view(res@).to_set() == entity_ids(self@),
    {
        entities_uids(&self.inner)
    }

    /// Whether the store holds an entity under the identifier `uid`.
    pub fn contains(&self, uid: &EntityUidWrapper) -> (res: bool)
        ensures
            res == entity_ids(self@).contains(uid@),
    {
        let all = entities_uids(&self.inner);
        contains_uid(&all, uid)
    }
}

/// The store of entities that Cedar loads from `document`, held to `schema`,
/// if it loads one. What the loader says of a document that it turns down
/// has no name: it may find the faults of one document in more than one
/// order.
pub uninterp spec fn loaded_entities(
    document: serde_json::Value,
    schema: Option<ValidatorSchema>,
) -> Option<Entities>;

/// The identifiers of the entities that `entities` holds.
pub uninterp spec fn entity_ids(entities: Entities) -> Set<EuidView>;

/// The store that a result of the loader's wrapper holds, if it holds one.
pub open spec fn found_store(r: Result<Entities, Vec<String>>) -> Option<Entities> {
    match r {
        Ok(e) => Some(e),
        Err(_) => None,
    }
}

/// What holds of the store `r` that the loader made of `document`: it holds
/// every identifier that the document lists, and without a schema no other.
pub open spec fn holds_listed(
    r: Result<Entities, Vec<String>>,
    document: serde_json::Value,
    schema: Option<ValidatorSchema>,
) -> bool {
    match r {
        Ok(store) => {
            &&& document_uids(document).to_set().subset_of(entity_ids(store))
            &&& schema is None ==> entity_ids(store) == document_uids(document).to_set()
        },
        Err(parts) => parts@.len() >= 1,
    }
}

/// The schema handed to the loader, as the proofs see it.
pub open spec fn held_to_view(schema: Option<&ValidatorSchema>) -> Option<ValidatorSchema> {
    match schema {
        Some(s) => Some(*s),
        None => None,
    }
}

/// Calls `cedar_policy_core::entities::EntityJsonParser::from_json_value`, on
/// a parser made for `schema` with all extensions, which computes the
/// ancestors of each entity itself.
///
/// Not proved: that a store comes back exactly where the loader makes one,
/// that it is the loader's, and that this depends on the document and the
/// schema alone; that the store holds an entity for each record of the
/// document, and with a schema the schema's actions besides, without one
/// nothing besides. Of a failure only that the error's text comes first in
/// the list, before the texts of the errors that `std::error::Error::source`
/// names one after the other: which fault the loader reports is not claimed.
#[verifier::external_body]
fn entities_from_value(document: &JsonTree, schema: Option<&ValidatorSchema>) -> (res: Result<
    Entities,
    Vec<String>,
>)
    ensures
        found_store(res) == loaded_entities(document@, held_to_view(schema)),
        holds_listed(res, document@, held_to_view(schema)),
{
    let core = schema.map(cedar_policy_core::validator::CoreSchema::new);
    cedar_policy_core::entities::EntityJsonParser::new(
        core.as_ref(),
        cedar_policy_core::extensions::Extensions::all_available(),
        cedar_policy_core::entities::TCComputation::ComputeNow,
    ).from_json_value(document.value().clone()).map_err(
        |e|
            std::iter::successors(
                Some(&e as &dyn std::error::Error),
                |c| c.source(),
            ).map(|c| c.to_string()).collect(),
    )
}

/// Calls `Entities::iter`, and takes each entity's identifier apart.
///
/// Not proved: that the identifiers handed back are those of the entities of
/// the store. The store walks a hash map, so nothing is said of their order.
#[verifier::external_body]
fn entities_uids(entities: &Entities) -> (res: Vec<EntityUidWrapper>)
    ensures
        euids_view(res@).to_set() == entity_ids(*entities),
{
    entities.iter().map(
        |e|
            EntityUidWrapper::new(
                e.uid().entity_type().to_string(),
                AsRef::<str>::as_ref(e.uid().eid()).to_string(),
            ),
    ).collect()
}

} // verus!
