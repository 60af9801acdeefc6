//! The failures that policy operations report.

use vstd::prelude::*;
use vstd::string::*;

verus! {

/// Why a policy, or a set of policies, could not be built.
#[derive(Clone, Debug, PartialEq, Eq)]
pub enum PolicyError {
    /// The text is not a policy: the parser's diagnostic.
    Parse(String),
    /// A policy with this identifier is already in the set.
    DuplicateId(String),
    /// Renaming after `annotation` would give two policies the identifier `id`.
    RewriteCollision { annotation: String, id: String },
}

/// What a `PolicyError` is, over sequences of characters.
pub enum PolicyErrorView {
    Parse(Seq<char>),
    DuplicateId(Seq<char>),
    RewriteCollision { annotation: Seq<char>, id: Seq<char> },
}

impl View for PolicyError {
    type V = PolicyErrorView;

    open spec fn view(&self) -> PolicyErrorView {
        match self {
            PolicyError::Parse(m) => PolicyErrorView::Parse(m@),
            PolicyError::DuplicateId(id) => PolicyErrorView::DuplicateId(id@),
            PolicyError::RewriteCollision { annotation, id } => PolicyErrorView::RewriteCollision {
                annotation: annotation@,
                id: id@,
            },
        }
    }
}

/// The text that reports `e` to a person.
pub open spec fn message_of(e: PolicyErrorView) -> Seq<char> {
    match e {
        PolicyErrorView::Parse(m) => m,
        PolicyErrorView::DuplicateId(id) => "duplicate policy id "@ + id,
        PolicyErrorView::RewriteCollision { annotation, id } => "failed to add policy with id "@
            + id + " (duplicate?) while renaming by annotation "@ + annotation,
    }
}

impl PolicyError {
    /// The text that reports this error to a person.
    pub fn message(&self) -> (res: String)
        ensures
            res@ == message_of(self@),
    {
        match self {
            PolicyError::Parse(m) => m.clone(),
            PolicyError::DuplicateId(id) => {
                let mut s = String::from_str("duplicate policy id ");
                s.append(id.as_str());
                s
            },
            PolicyError::RewriteCollision { annotation, id } => {
                let mut s = String::from_str("failed to add policy with id ");
                s.append(id.as_str());
                s.append(" (duplicate?) while renaming by annotation ");
                s.append(annotation.as_str());
                s
            },
        }
    }
}

/// Why a document of entity data was turned down.
#[derive(Clone, Debug, PartialEq, Eq)]
pub enum DocumentError {
    /// An object of the document holds one key twice: the decoder's report,
    /// which names the key and the place.
    DuplicateKey(String),
    /// The document is not JSON: the decoder's report.
    Syntax(String),
    /// The document lists one entity twice: the canonical text of its
    /// identifier.
    DuplicateEntity(String),
    /// The document does not describe what was asked for, or does not conform
    /// to the schema: the report, which names what does not fit.
    Validation(String),
}

/// What a `DocumentError` is, over sequences of characters.
pub enum DocumentErrorView {
    DuplicateKey(Seq<char>),
    Syntax(Seq<char>),
    DuplicateEntity(Seq<char>),
    Validation(Seq<char>),
}

impl View for DocumentError {
    type V = DocumentErrorView;

    open spec fn view(&self) -> DocumentErrorView {
        match self {
            DocumentError::DuplicateKey(m) => DocumentErrorView::DuplicateKey(m@),
            DocumentError::Syntax(m) => DocumentErrorView::Syntax(m@),
            DocumentError::DuplicateEntity(m) => DocumentErrorView::DuplicateEntity(m@),
            DocumentError::Validation(m) => DocumentErrorView::Validation(m@),
        }
    }
}

impl DocumentError {
    /// The report that the error carries.
    pub fn message(&self) -> (res: String)
        ensures
            res@ == (match self@ {
                DocumentErrorView::DuplicateKey(m) => m,
                DocumentErrorView::Syntax(m) => m,
                DocumentErrorView::DuplicateEntity(uid) => "duplicate entity "@ + uid,
                DocumentErrorView::Validation(m) => m,
            }),
    {
        match self {
            DocumentError::DuplicateKey(m) => m.clone(),
            DocumentError::Syntax(m) => m.clone(),
            DocumentError::DuplicateEntity(uid) => {
                let mut s = String::from_str("duplicate entity ");
                s.append(uid.as_str());
                s
            },
            DocumentError::Validation(m) => m.clone(),
        }
    }
}

} // verus!
