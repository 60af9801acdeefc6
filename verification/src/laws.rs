//! What holds of renaming a set of policies after an annotation, and of
//! building a store of entities, proved from the definitions that the
//! contracts use.

use vstd::prelude::*;
use cedar_policy_core::validator::ValidatorSchema;
use cedar_policy_core::entities::Entities;
use crate::entities::{document_uids, entity_ids, first_twice, holds_of_store};
use crate::entity_uid::canonical_text;
use crate::error::{DocumentErrorView, PolicyErrorView};
use crate::policy::{lookup, PolicyView};
use crate::policy_set::{
    collected,
    distinct_ids,
    renamed,
    renamed_all,
    rewritten,
};

verus! {

/// Renaming keeps the number of policies, and the text and the annotations of
/// each of them.
pub proof fn lemma_renaming_keeps_bodies(s: Seq<PolicyView>, name: Seq<char>, i: int)
    requires
        0 <= i < s.len(),
    ensures
        renamed_all(s, name).len() == s.len(),
        renamed_all(s, name)[i].text == s[i].text,
        renamed_all(s, name)[i].annotations == s[i].annotations,
{
}

/// A policy without the annotation keeps its identifier, and a policy with it
/// gets the annotation's value.
pub proof fn lemma_renamed_id(p: PolicyView, name: Seq<char>)
    ensures
        lookup(p.annotations, name) is None ==> renamed(p, name) == p,
        lookup(p.annotations, name) matches Some(v) ==> renamed(p, name).id == v,
{
}

/// Renaming is idempotent: where renaming after `name` succeeds, renaming
/// the outcome after `name` once more succeeds and gives that same outcome.
pub proof fn lemma_rewrite_idempotent(s: Seq<PolicyView>, name: Seq<char>)
    requires
        rewritten(s, name) is Ok,
    ensures
        rewritten(rewritten(s, name)->Ok_0, name) == rewritten(s, name),
{
    let t = renamed_all(s, name);
    assert(renamed_all(t, name) =~= t);
}

/// Two policies with the same value of the annotation `name` make renaming
/// after `name` fail: no set comes out of it.
pub proof fn lemma_shared_annotation_collides(
    s: Seq<PolicyView>,
    name: Seq<char>,
    i: int,
    j: int,
)
    requires
        0 <= i < j < s.len(),
        lookup(s[i].annotations, name) is Some,
        lookup(s[i].annotations, name) == lookup(s[j].annotations, name),
    ensures
        rewritten(s, name) is Err,
{
    let t = renamed_all(s, name);
    assert(t[i].id == t[j].id);
}

/// An annotation value that is another policy's untouched identifier makes
/// renaming fail as well.
pub proof fn lemma_annotation_meets_id(s: Seq<PolicyView>, name: Seq<char>, i: int, j: int)
    requires
        0 <= i < s.len(),
        0 <= j < s.len(),
        i != j,
        lookup(s[i].annotations, name) == Some(s[j].id),
        lookup(s[j].annotations, name) is None,
    ensures
        rewritten(s, name) is Err,
{
    let t = renamed_all(s, name);
    assert(t[i].id == t[j].id);
}

/// Renaming succeeds exactly where the renamed policies carry distinct
/// identifiers, and then hands out every one of them.
pub proof fn lemma_rewrite_all_or_nothing(s: Seq<PolicyView>, name: Seq<char>)
    ensures
        rewritten(s, name) is Ok <==> distinct_ids(renamed_all(s, name)),
        rewritten(s, name) matches Ok(t) ==> t == renamed_all(s, name) && t.len() == s.len()
            && distinct_ids(t),
        rewritten(s, name) matches Err(e) ==> e matches PolicyErrorView::RewriteCollision {
            annotation,
            id,
        } && annotation == name,
{
}

/// Where no policy has the annotation, renaming changes nothing.
pub proof fn lemma_rewrite_without_annotation(s: Seq<PolicyView>, name: Seq<char>)
    requires
        distinct_ids(s),
        forall|i: int| 0 <= i < s.len() ==> lookup(#[trigger] s[i].annotations, name) is None,
    ensures
        rewritten(s, name) == Ok::<Seq<PolicyView>, PolicyErrorView>(s),
{
    assert(renamed_all(s, name) =~= s);
}

/// A set collected from policies holds each of them, and their identifiers
/// are distinct.
pub proof fn lemma_collected_is_distinct(s: Seq<PolicyView>)
    ensures
        collected(s) matches Ok(t) ==> t == s && distinct_ids(t),
        collected(s) is Ok <==> distinct_ids(s),
{
}

/// A store comes out of a document only where the document lists no
/// identifier twice, and it then holds every identifier that the document
/// lists; where the document lists one twice, the error names the first that
/// comes a second time, whatever the schema.
pub proof fn lemma_store_lists_no_identifier_twice(
    r: Result<Entities, DocumentErrorView>,
    document: serde_json::Value,
    schema: Option<ValidatorSchema>,
)
    requires
        holds_of_store(r, document, schema),
    ensures
        r matches Ok(store) ==> document_uids(document).no_duplicates() && document_uids(
            document,
        ).to_set().subset_of(entity_ids(store)),
        !document_uids(document).no_duplicates() ==> r == Err::<Entities, DocumentErrorView>(
            DocumentErrorView::DuplicateEntity(
                canonical_text(document_uids(document)[first_twice(document_uids(document))]),
            ),
        ),
{
}

} // verus!
