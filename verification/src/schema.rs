//! A parsed schema, and what it declares: the types of principals and of
//! resources, the actions and the groups of actions.

use vstd::prelude::*;
use vstd::string::*;
use cedar_policy_core::validator::ValidatorSchema;
use crate::entity_uid::{dedupe_uids, euids_view, EntityUidWrapper, EuidView};
use crate::error::{PolicyError, PolicyErrorView};
use crate::once::{kept_once, lemma_kept_once};

verus! {

/// `cedar_policy_core::validator::ValidatorSchema`, a parsed schema. The
/// proofs see it only through what the names below say that it declares.
#[verifier::external_type_specification]
#[verifier::external_body]
pub struct ExValidatorSchema(ValidatorSchema);

/// The strings of `v`, each taken as its characters.
pub open spec fn strings_view(v: Seq<String>) -> Seq<Seq<char>> {
    Seq::new(v.len(), |i: int| v[i]@)
}

/// Whether `v` holds the string `s`.
pub fn contains_string(v: &Vec<String>, s: &String) -> (res: bool)
    ensures
        res == strings_view(v@).contains(s@),
{
    let n = v.len();
    let mut i: usize = 0;
    while i < n
        invariant
            i <= n,
            n == v@.len(),
            forall|k: int| 0 <= k < i ==> strings_view(v@)[k] != s@,
        decreases n - i,
    {
        if v[i] == *s {
            assert(strings_view(v@)[i as int] == s@);
            return true;
        }
        i += 1;
    }
    false
}

/// The strings of `v` in the order of their first occurrence, each once.
pub fn dedupe(v: &Vec<String>) -> (res: Vec<String>)
    ensures
        strings_view(res@) == kept_once(strings_view(v@)),
{
    let ghost s = strings_view(v@);
    let mut out: Vec<String> = Vec::new();
    let n = v.len();
    let mut i: usize = 0;
    assert(strings_view(out@) =~= kept_once(s.take(0)));
    while i < n
        invariant
            i <= n,
            n == v@.len(),
            s == strings_view(v@),
            strings_view(out@) == kept_once(s.take(i as int)),
        decreases n - i,
    {
        let ghost before = strings_view(out@);
        proof {
            assert(s.take(i + 1).drop_last() =~= s.take(i as int));
            assert(s.take(i + 1).last() == v@[i as int]@);
        }
        if !contains_string(&out, &v[i]) {
            out.push(v[i].clone());
            assert(strings_view(out@) =~= before.push(v@[i as int]@));
        }
        i += 1;
    }
    assert(s.take(n as int) =~= s);
    out
}

/// A parsed schema. It does not change once parsed.
pub struct RSchema {
    inner: ValidatorSchema,
}

impl View for RSchema {
    type V = ValidatorSchema;

    closed spec fn view(&self) -> ValidatorSchema {
        self.inner
    }
}

/// The schema that a result of building one holds, if it holds one.
pub open spec fn built_schema(r: Result<RSchema, PolicyError>) -> Option<ValidatorSchema> {
    match r {
        Ok(s) => Some(s@),
        Err(_) => None,
    }
}

/// Where `r` is a failure, it is a failure to parse.
pub open spec fn fails_as_parse(r: Result<RSchema, PolicyError>) -> bool {
    match r {
        Ok(_) => true,
        Err(e) => e is Parse,
    }
}

/// The complaint of `RSchema::new` about text that is not there.
pub open spec fn missing_text() -> PolicyErrorView {
    PolicyErrorView::Parse("you must supply schema contents"@)
}

/// A failure of building a schema, over sequences of characters.
pub open spec fn schema_failure(r: Result<RSchema, PolicyError>) -> Option<PolicyErrorView> {
    match r {
        Ok(_) => None,
        Err(e) => Some(e@),
    }
}

impl RSchema {
    /// The schema that a caller asks for. Without text it fails with the
    /// complaint that there is none. With text a schema comes out exactly
    /// where the parser finds one in the text, and it is that schema; else
    /// the failure is one to parse and carries the parser's diagnostic.
    pub fn new(text: Option<&str>) -> (res: Result<Self, PolicyError>)
        ensures
            text is None ==> schema_failure(res) == Some(missing_text()),
            text matches Some(t) ==> built_schema(res) == parsed_schema(t@),
            fails_as_parse(res),
    {
        match text {
            Some(t) => RSchema::from_str(t),
            None => Err(PolicyError::Parse(String::from_str("you must supply schema contents"))),
        }
    }

    /// Parses `text`, a schema in Cedar's schema syntax. A schema comes out
    /// exactly where the parser finds one in the text, and it is that schema;
    /// else the failure is one to parse and carries the parser's diagnostic.
    pub fn from_str(text: &str) -> (res: Result<Self, PolicyError>)
        ensures
            built_schema(res) == parsed_schema(text@),
            fails_as_parse(res),
    {
        match parse_schema_text(text) {
            Ok(inner) => Ok(RSchema { inner }),
            Err(diagnostic) => Err(PolicyError::Parse(diagnostic)),
        }
    }

    /// The schema as the Cedar crate holds it.
    pub fn inner(&self) -> (res: &ValidatorSchema)
        ensures
            *res == self@,
    {
        &self.inner
    }

    /// The names of the types that some action takes as its principal, each
    /// once.
    pub fn principals(&self) -> (res: Vec<String>)
        ensures
            strings_view(res@).no_duplicates(),
            strings_view(res@).to_set() == principal_types(self@),
    {
        let all = schema_principals(&self.inner);
        proof {
            lemma_kept_once(strings_view(all@));
        }
        dedupe(&all)
    }

    /// The names of the types that some action takes as its resource, each
    /// once.
    pub fn resources(&self) -> (res: Vec<String>)
        ensures
            strings_view(res@).no_duplicates(),
            strings_view(res@).to_set() == resource_types(self@),
    {
        let all = schema_resources(&self.inner);
        proof {
            lemma_kept_once(strings_view(all@));
        }
        dedupe(&all)
    }

    /// The identifiers of the actions that the schema declares, each once.
    pub fn actions(&self) -> (res: Vec<EntityUidWrapper>)
        ensures
            euids_view(res@).no_duplicates(),
            euids_view(res@).to_set() == action_ids(self@),
    {
        let all = schema_actions(&self.inner);
        proof {
            lemma_kept_once(euids_view(all@));
        }
        dedupe_uids(&all)
    }

    /// The identifiers of the declared actions that are groups of actions,
    /// each once.
    pub fn action_groups(&self) -> (res: Vec<EntityUidWrapper>)
        ensures
            euids_view(res@).no_duplicates(),
            euids_view(res@).to_set() == action_group_ids(self@),
    {
        let all = schema_action_groups(&self.inner);
        proof {
            lemma_kept_once(euids_view(all@));
        }
        dedupe_uids(&all)
    }
}

/// The schema that the Cedar parser finds in `text`, if it finds one. What
/// the parser says of a text in which it finds none has no name: it may list
/// the faults of one text in more than one order.
pub uninterp spec fn parsed_schema(text: Seq<char>) -> Option<ValidatorSchema>;

/// The names of the types that some action of `schema` takes as its
/// principal.
pub uninterp spec fn principal_types(schema: ValidatorSchema) -> Set<Seq<char>>;

/// The names of the types that some action of `schema` takes as its resource.
pub uninterp spec fn resource_types(schema: ValidatorSchema) -> Set<Seq<char>>;

/// The identifiers of the actions that `schema` declares.
pub uninterp spec fn action_ids(schema: ValidatorSchema) -> Set<EuidView>;

/// The identifiers of the actions of `schema` that have members.
pub uninterp spec fn action_group_ids(schema: ValidatorSchema) -> Set<EuidView>;

/// The schema that a result of the parser's wrapper holds, if it holds one.
pub open spec fn found_schema(r: Result<ValidatorSchema, String>) -> Option<ValidatorSchema> {
    match r {
        Ok(s) => Some(s),
        Err(_) => None,
    }
}

/// Calls `str::parse` at `ValidatorSchema`, whose `FromStr` reads Cedar's
/// schema syntax with all extensions.
///
/// Not proved: that a schema comes back exactly where the parser finds one,
/// that it is the parser's, and that this depends on `text` alone. Of the
/// diagnostic nothing is claimed.
#[verifier::external_body]
fn parse_schema_text(text: &str) -> (res: Result<ValidatorSchema, String>)
    ensures
        found_schema(res) == parsed_schema(text@),
{
    text.parse::<ValidatorSchema>().map_err(|e| e.to_string())
}

/// Calls `ValidatorSchema::principals`, and writes each type's name out.
///
/// Not proved: that the names handed back are those of the schema's
/// principal types. The schema walks a hash map, so nothing is said of their
/// order, nor of how often one comes.
#[verifier::external_body]
fn schema_principals(schema: &ValidatorSchema) -> (res: Vec<String>)
    ensures
        strings_view(res@).to_set() == principal_types(*schema),
{
    schema.principals().map(|t| t.to_string()).collect()
}

/// Calls `ValidatorSchema::resources`, and writes each type's name out.
///
/// Not proved: that the names handed back are those of the schema's
/// resource types. Nothing is said of their order, nor of how often one
/// comes.
#[verifier::external_body]
fn schema_resources(schema: &ValidatorSchema) -> (res: Vec<String>)
    ensures
        strings_view(res@).to_set() == resource_types(*schema),
{
    schema.resources().map(|t| t.to_string()).collect()
}

/// Calls `ValidatorSchema::actions`, and takes each identifier apart.
///
/// Not proved: that the identifiers handed back are those of the schema's
/// actions. Nothing is said of their order.
#[verifier::external_body]
fn schema_actions(schema: &ValidatorSchema) -> (res: Vec<EntityUidWrapper>)
    ensures
        euids_view(res@).to_set() == action_ids(*schema),
{
    schema.actions().map(
        |a|
            EntityUidWrapper::new(
                a.entity_type().to_string(),
                AsRef::<str>::as_ref(a.eid()).to_string(),
            ),
    ).collect()
}

/// Calls `ValidatorSchema::action_groups`, and takes each identifier apart.
///
/// Not proved: that the identifiers handed back are those of the schema's
/// groups of actions. Nothing is said of their order.
#[verifier::external_body]
fn schema_action_groups(schema: &ValidatorSchema) -> (res: Vec<EntityUidWrapper>)
    ensures
        euids_view(res@).to_set() == action_group_ids(*schema),
{
    schema.action_groups().map(
        |a|
            EntityUidWrapper::new(
                a.entity_type().to_string(),
                AsRef::<str>::as_ref(a.eid()).to_string(),
            ),
    ).collect()
}

} // verus!
