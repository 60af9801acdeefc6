//! Entity identifiers: a type name and an id.

use vstd::prelude::*;
use vstd::string::*;
use crate::error::{DocumentError, DocumentErrorView};
use crate::json::JsonTree;
use crate::once::kept_once;

verus! {

/// What an entity identifier is, over sequences of characters.
pub struct EuidView {
    pub entity_type: Seq<char>,
    pub id: Seq<char>,
}

/// The identifier of an entity: the name of its type, and its id within the
/// type. Two identifiers are the same where both parts are.
#[derive(Clone, Debug, PartialEq, Eq)]
pub struct EntityUidWrapper {
    entity_type: String,
    id: String,
}

impl View for EntityUidWrapper {
    type V = EuidView;

    closed spec fn view(&self) -> EuidView {
        EuidView { entity_type: self.entity_type@, id: self.id@ }
    }
}

/// The canonical text of an identifier: the type name, two colons, and the
/// escaped id between double quotes.
pub open spec fn canonical_text(e: EuidView) -> Seq<char> {
    e.entity_type + "::\""@ + escaped_eid(e.id) + "\""@
}

/// What `from_json` returns for each outcome of the reader.
pub open spec fn euid_outcome(read: Result<EuidView, Seq<char>>) -> Result<
    EuidView,
    DocumentErrorView,
> {
    match read {
        Ok(e) => Ok(e),
        Err(report) => Err(DocumentErrorView::Validation(report)),
    }
}

/// A result of reading an identifier, over sequences of characters.
pub open spec fn euid_outcome_view(r: Result<EntityUidWrapper, DocumentError>) -> Result<
    EuidView,
    DocumentErrorView,
> {
    match r {
        Ok(e) => Ok(e@),
        Err(e) => Err(e@),
    }
}

impl EntityUidWrapper {
    /// The identifier of the entity `id` of the type `entity_type`.
    pub fn new(entity_type: String, id: String) -> (res: Self)
        ensures
            res@ == (EuidView { entity_type: entity_type@, id: id@ }),
    {
        EntityUidWrapper { entity_type, id }
    }

    /// The name of the entity's type.
    pub fn entity_type(&self) -> (res: String)
        ensures
            res@ == self@.entity_type,
    {
        self.entity_type.clone()
    }

    /// The entity's id within its type.
    pub fn id(&self) -> (res: String)
        ensures
            res@ == self@.id,
    {
        self.id.clone()
    }

    /// Whether this identifier and `other` name the same entity.
    pub fn same(&self, other: &EntityUidWrapper) -> (res: bool)
        ensures
            res == (self@ == other@),
    {
        self.entity_type == other.entity_type && self.id == other.id
    }

    /// The canonical text of the identifier.
    pub fn to_string(&self) -> (res: String)
        ensures
            res@ == canonical_text(self@),
    {
        let mut s = self.entity_type.clone();
        s.append("::\"");
        let escaped = eid_escaped(self.id.as_str());
        s.append(escaped.as_str());
        s.append("\"");
        s
    }

    /// The JSON form of the identifier: an object of the two members `type`
    /// and `id`.
    pub fn to_json(&self) -> (res: JsonTree)
        ensures
            res@ == json_of_members("type"@, self@.entity_type, "id"@, self@.id),
    {
        JsonTree::from_value(
            json_string_members("type", self.entity_type.as_str(), "id", self.id.as_str()),
        )
    }

    /// Reads an identifier from its JSON form.
    pub fn from_json(tree: &JsonTree) -> (res: Result<Self, DocumentError>)
        ensures
            euid_outcome_view(res) == euid_outcome(euid_of_json(tree@)),
    {
        match euid_from_value(tree) {
            Ok(e) => Ok(e),
            Err(report) => Err(DocumentError::Validation(report)),
        }
    }
}

/// The identifiers of `v`, each taken as its view.
pub open spec fn euids_view(v: Seq<EntityUidWrapper>) -> Seq<EuidView> {
    Seq::new(v.len(), |i: int| v[i]@)
}

/// Whether `v` holds the identifier `uid`.
pub fn contains_uid(v: &Vec<EntityUidWrapper>, uid: &EntityUidWrapper) -> (res: bool)
    ensures
        res == euids_view(v@).contains(uid@),
{
    let n = v.len();
    let mut i: usize = 0;
    while i < n
        invariant
            i <= n,
            n == v@.len(),
            forall|k: int| 0 <= k < i ==> euids_view(v@)[k] != uid@,
        decreases n - i,
    {
        if v[i].same(uid) {
            assert(euids_view(v@)[i as int] == uid@);
            return true;
        }
        i += 1;
    }
    false
}

/// The identifiers of `v` in the order of their first occurrence, each once.
pub fn dedupe_uids(v: &Vec<EntityUidWrapper>) -> (res: Vec<EntityUidWrapper>)
    ensures
        euids_view(res@) == kept_once(euids_view(v@)),
{
    let ghost s = euids_view(v@);
    let mut out: Vec<EntityUidWrapper> = Vec::new();
    let n = v.len();
    let mut i: usize = 0;
    assert(euids_view(out@) =~= kept_once(s.take(0)));
    while i < n
        invariant
            i <= n,
            n == v@.len(),
            s == euids_view(v@),
            euids_view(out@) == kept_once(s.take(i as int)),
        decreases n - i,
    {
        let ghost before = euids_view(out@);
        proof {
            assert(s.take(i + 1).drop_last() =~= s.take(i as int));
            assert(s.take(i + 1).last() == v@[i as int]@);
        }
        if !contains_uid(&out, &v[i]) {
            out.push(EntityUidWrapper::new(v[i].entity_type(), v[i].id()));
            assert(euids_view(out@) =~= before.push(v@[i as int]@));
        }
        i += 1;
    }
    assert(s.take(n as int) =~= s);
    out
}

/// The id `id` as Cedar writes it between double quotes.
pub uninterp spec fn escaped_eid(id: Seq<char>) -> Seq<char>;

/// Calls `cedar_policy_core::ast::Eid::escaped`.
///
/// Not proved: that the text handed back is what that function makes of
/// `id`, and that it depends on `id` alone.
#[verifier::external_body]
fn eid_escaped(id: &str) -> (res: String)
    ensures
        res@ == escaped_eid(id@),
{
    cedar_policy_core::ast::Eid::new(id).escaped().to_string()
}

/// The JSON object of two members, `k1` with the string `v1` and `k2` with
/// the string `v2`.
pub uninterp spec fn json_of_members(
    k1: Seq<char>,
    v1: Seq<char>,
    k2: Seq<char>,
    v2: Seq<char>,
) -> serde_json::Value;

/// Calls `serde_json::Map::insert`, twice on one new map.
///
/// Not proved: that the value handed back is the object of these two members,
/// and that it depends on the four strings alone.
#[verifier::external_body]
fn json_string_members(k1: &str, v1: &str, k2: &str, v2: &str) -> (res: serde_json::Value)
    ensures
        res == json_of_members(k1@, v1@, k2@, v2@),
{
    let mut map = serde_json::Map::new();
    map.insert(k1.to_string(), serde_json::Value::String(v1.to_string()));
    map.insert(k2.to_string(), serde_json::Value::String(v2.to_string()));
    serde_json::Value::Object(map)
}

/// What Cedar reads from the document `value` as an entity identifier: the
/// identifier, or the reader's report.
pub uninterp spec fn euid_of_json(value: serde_json::Value) -> Result<EuidView, Seq<char>>;

/// Calls `serde_json::from_value` at `cedar_policy_core::entities::EntityUidJson`
/// and then `EntityUidJson::into_euid`, as Cedar's own reader of identifiers
/// does.
///
/// Not proved: that the two parts handed back are those of the identifier
/// that was read, or else the text of the error of the call that failed, and
/// that they depend on the document alone.
#[verifier::external_body]
fn euid_from_value(tree: &JsonTree) -> (res: Result<EntityUidWrapper, String>)
    ensures
        read_view(res) == euid_of_json(tree@),
{
    let parsed = serde_json::from_value::<cedar_policy_core::entities::EntityUidJson>(
        tree.value().clone(),
    ).map_err(|e| e.to_string())?;
    let uid = parsed.into_euid(
        &|| cedar_policy_core::entities::json::err::JsonDeserializationErrorContext::EntityUid,
    ).map_err(|e| e.to_string())?;
    Ok(EntityUidWrapper::new(
        uid.entity_type().to_string(),
        AsRef::<str>::as_ref(uid.eid()).to_string(),
    ))
}

/// A result of the reader's wrapper, over sequences of characters.
pub open spec fn read_view(r: Result<EntityUidWrapper, String>) -> Result<EuidView, Seq<char>> {
    match r {
        Ok(e) => Ok(e@),
        Err(report) => Err(report@),
    }
}

} // verus!
