//! The strict decoder of JSON documents: an object that holds one key twice
//! is turned down, at whatever depth it stands.

use vstd::prelude::*;
use crate::error::{DocumentError, DocumentErrorView};

verus! {

/// `serde_json::Value`, a decoded JSON document. Nothing of it is visible to
/// the proofs: it is carried from the decoder to the readers of documents.
#[verifier::external_type_specification]
#[verifier::external_body]
pub struct ExJsonValue(serde_json::Value);

/// A decoded document, in which no object holds a key twice.
pub struct JsonTree {
    value: serde_json::Value,
}

impl View for JsonTree {
    type V = serde_json::Value;

    closed spec fn view(&self) -> serde_json::Value {
        self.value
    }
}

/// What the decoder reports of a document that it turns down: whether the
/// fault lies in what the document says, and the report's text.
pub struct DecodeFault {
    pub in_data: bool,
    pub report: String,
}

/// What the strict decoder makes of `raw`: the document, or, for a document
/// that it turns down, whether the fault lies in what the document says
/// (a key that comes twice) and the text of its report.
pub uninterp spec fn strict_json(raw: Seq<char>) -> Result<serde_json::Value, (bool, Seq<char>)>;

/// A result of the decoder's wrapper, the report taken as its characters.
pub open spec fn decoded_view(r: Result<serde_json::Value, DecodeFault>) -> Result<
    serde_json::Value,
    (bool, Seq<char>),
> {
    match r {
        Ok(v) => Ok(v),
        Err(f) => Err((f.in_data, f.report@)),
    }
}

/// What `decode` returns for each outcome of the decoder: a fault in what the
/// document says is a key that comes twice, any other is a fault of syntax.
pub open spec fn tree_outcome(decoded: Result<serde_json::Value, (bool, Seq<char>)>) -> Result<
    serde_json::Value,
    DocumentErrorView,
> {
    match decoded {
        Ok(v) => Ok(v),
        Err((in_data, report)) => if in_data {
            Err(DocumentErrorView::DuplicateKey(report))
        } else {
            Err(DocumentErrorView::Syntax(report))
        },
    }
}

/// A result of decoding, over what the proofs can see.
pub open spec fn tree_outcome_view(r: Result<JsonTree, DocumentError>) -> Result<
    serde_json::Value,
    DocumentErrorView,
> {
    match r {
        Ok(t) => Ok(t@),
        Err(e) => Err(e@),
    }
}

impl JsonTree {
    /// The tree that holds `value`. A `serde_json::Value` cannot hold a key
    /// twice, so every one of them is a tree.
    pub fn from_value(value: serde_json::Value) -> (res: Self)
        ensures
            res@ == value,
    {
        JsonTree { value }
    }

    /// The document that the tree holds, to look at.
    pub fn value(&self) -> (res: &serde_json::Value)
        ensures
            *res == self@,
    {
        &self.value
    }

    /// The document that the tree holds.
    pub fn into_value(self) -> (res: serde_json::Value)
        ensures
            res == self@,
    {
        self.value
    }

    /// The items of the document, where it is an array.
    pub fn items(&self) -> (res: Option<Vec<JsonTree>>)
        ensures
            items_view(res) == items_of(self@),
    {
        json_items(self)
    }

    /// The member `key` of the document, where it is an object that has one.
    pub fn member(&self, key: &str) -> (res: Option<JsonTree>)
        ensures
            tree_view(res) == member_of(self@, key@),
    {
        json_member(self, key)
    }

    /// The tree, or the error, that an outcome of the decoder stands for.
    pub fn from_decoded(decoded: Result<serde_json::Value, DecodeFault>) -> (res: Result<
        Self,
        DocumentError,
    >)
        ensures
            tree_outcome_view(res) == tree_outcome(decoded_view(decoded)),
    {
        match decoded {
            Ok(value) => Ok(JsonTree { value }),
            Err(fault) => if fault.in_data {
                Err(DocumentError::DuplicateKey(fault.report))
            } else {
                Err(DocumentError::Syntax(fault.report))
            },
        }
    }

    /// Decodes `raw`. It fails on the first object that holds a key twice,
    /// and on text that is not JSON.
    pub fn decode(raw: &str) -> (res: Result<Self, DocumentError>)
        ensures
            tree_outcome_view(res) == tree_outcome(strict_json(raw@)),
    {
        JsonTree::from_decoded(decode_strict(raw))
    }
}

/// The items of the document `value`, where it is an array.
pub uninterp spec fn items_of(value: serde_json::Value) -> Option<Seq<serde_json::Value>>;

/// The member `key` of the document `value`, where it is an object that has
/// one.
pub uninterp spec fn member_of(value: serde_json::Value, key: Seq<char>) -> Option<
    serde_json::Value,
>;

/// The documents that the trees of `v` hold.
pub open spec fn trees_view(v: Seq<JsonTree>) -> Seq<serde_json::Value> {
    Seq::new(v.len(), |i: int| v[i]@)
}

/// An optional list of trees, as the documents that they hold.
pub open spec fn items_view(o: Option<Vec<JsonTree>>) -> Option<Seq<serde_json::Value>> {
    match o {
        Some(v) => Some(trees_view(v@)),
        None => None,
    }
}

/// An optional tree, as the document that it holds.
pub open spec fn tree_view(o: Option<JsonTree>) -> Option<serde_json::Value> {
    match o {
        Some(t) => Some(t@),
        None => None,
    }
}

/// Calls `serde_json::Value::as_array`, and copies each item.
///
/// Not proved: that the trees handed back hold the items of the array, in
/// its order, and that there is none where the document is no array.
#[verifier::external_body]
fn json_items(tree: &JsonTree) -> (res: Option<Vec<JsonTree>>)
    ensures
        items_view(res) == items_of(tree@),
{
    tree.value.as_array().map(|a| a.iter().map(|v| JsonTree::from_value(v.clone())).collect())
}

/// Calls `serde_json::Value::get` with a string, and copies what it finds.
///
/// Not proved: that the tree handed back holds the member `key` of the
/// object, and that there is none where the document is no object or has no
/// such member.
#[verifier::external_body]
fn json_member(tree: &JsonTree, key: &str) -> (res: Option<JsonTree>)
    ensures
        tree_view(res) == member_of(tree@, key@),
{
    tree.value.get(key).map(|v| JsonTree::from_value(v.clone()))
}

/// Calls `str::parse` at `cedar_policy_core::jsonvalue::JsonValueWithNoDuplicateKeys`,
/// whose `FromStr` is `serde_json::from_str`.
///
/// Not proved: that what comes back is the decoder's document, or else what
/// `serde_json::Error::is_data` and the error's text say of its error, and
/// that it depends on `raw` alone.
#[verifier::external_body]
fn decode_strict(raw: &str) -> (res: Result<serde_json::Value, DecodeFault>)
    ensures
        decoded_view(res) == strict_json(raw@),
{
    match raw.parse::<cedar_policy_core::jsonvalue::JsonValueWithNoDuplicateKeys>() {
        Ok(v) => Ok(v.into()),
        Err(e) => Err(DecodeFault { in_data: e.is_data(), report: e.to_string() }),
    }
}

} // verus!
