//! One parsed policy: its identifier, its canonical text and its annotations.

use vstd::prelude::*;
use vstd::string::*;
use crate::error::{PolicyError, PolicyErrorView};

verus! {

/// What a policy is, over sequences of characters. The annotations are pairs
/// of a name and a value; a parsed policy holds them in the order of their
/// names.
pub struct PolicyView {
    pub id: Seq<char>,
    pub text: Seq<char>,
    pub annotations: Seq<(Seq<char>, Seq<char>)>,
}

/// The value of the first annotation called `name`, if there is one.
pub open spec fn lookup(annotations: Seq<(Seq<char>, Seq<char>)>, name: Seq<char>) -> Option<
    Seq<char>,
>
    decreases annotations.len(),
{
    if annotations.len() == 0 {
        None
    } else if annotations[0].0 == name {
        Some(annotations[0].1)
    } else {
        lookup(annotations.drop_first(), name)
    }
}

/// The pairs of `v`, each string taken as its characters.
pub open spec fn pairs_view(v: Seq<(String, String)>) -> Seq<(Seq<char>, Seq<char>)> {
    Seq::new(v.len(), |i: int| (v[i].0@, v[i].1@))
}

/// A parsed policy. It does not change once built: renaming gives a new value.
#[derive(Clone, Debug, PartialEq, Eq)]
pub struct RPolicy {
    id: String,
    text: String,
    annotations: Vec<(String, String)>,
}

impl View for RPolicy {
    type V = PolicyView;

    closed spec fn view(&self) -> PolicyView {
        PolicyView { id: self.id@, text: self.text@, annotations: pairs_view(self.annotations@) }
    }
}

impl RPolicy {
    /// A policy made of its three parts.
    pub fn from_parts(id: String, text: String, annotations: Vec<(String, String)>) -> (res: Self)
        ensures
            res@ == (PolicyView { id: id@, text: text@, annotations: pairs_view(annotations@) }),
    {
        RPolicy { id, text, annotations }
    }

    /// The identifier.
    pub fn id(&self) -> (res: String)
        ensures
            res@ == self@.id,
    {
        self.id.clone()
    }

    /// The canonical text of the policy.
    pub fn to_string(&self) -> (res: String)
        ensures
            res@ == self@.text,
    {
        self.text.clone()
    }

    /// The annotations, as pairs of a name and a value, in the order in which
    /// the policy holds them.
    pub fn annotations(&self) -> (res: Vec<(String, String)>)
        ensures
            pairs_view(res@) == self@.annotations,
    {
        clone_pairs(&self.annotations)
    }

    /// The value of the annotation called `name`, if the policy has one.
    pub fn annotation(&self, name: &str) -> (res: Option<String>)
        ensures
            opt_view(res) == lookup(self@.annotations, name@),
    {
        let wanted = String::from_str(name);
        let n = self.annotations.len();
        let mut i: usize = 0;
        assert(self@.annotations.skip(0) =~= self@.annotations);
        while i < n
            invariant
                i <= n,
                n == self.annotations@.len(),
                wanted@ == name@,
                lookup(self@.annotations, name@) == lookup(self@.annotations.skip(i as int), name@),
            decreases n - i,
        {
            let ghost rest = self@.annotations.skip(i as int);
            assert(rest[0] == self@.annotations[i as int]);
            assert(rest.drop_first() =~= self@.annotations.skip(i + 1));
            if self.annotations[i].0 == wanted {
                return Some(self.annotations[i].1.clone());
            }
            i += 1;
        }
        None
    }

    /// Whether this policy and `other` carry the same identifier.
    pub fn same_id(&self, other: &RPolicy) -> (res: bool)
        ensures
            res == (self@.id == other@.id),
    {
        self.id == other.id
    }

    /// Whether this policy carries the identifier `id`.
    pub fn has_id(&self, id: &String) -> (res: bool)
        ensures
            res == (self@.id == id@),
    {
        self.id == *id
    }

    /// The same policy under the identifier `id`.
    pub fn new_id(&self, id: String) -> (res: Self)
        ensures
            res@ == (PolicyView { id: id@, ..self@ }),
    {
        RPolicy { id, text: self.text.clone(), annotations: clone_pairs(&self.annotations) }
    }

    /// Parses `text` as one policy. With `id` the policy gets that identifier,
    /// without it the identifier `policy0`.
    pub fn new(text: &str, id: Option<&str>) -> (res: Result<Self, PolicyError>)
        ensures
            policy_outcome_view(res) == new_outcome(parsed_policy(text@, opt_str_view(id))),
            res matches Ok(p) ==> p@.id == given_or_default(opt_str_view(id)),
    {
        match parse_policy_text(id, text) {
            Ok(p) => Ok(p),
            Err(diagnostic) => {
                let mut m = String::from_str("Unable to parse policy: ");
                m.append(diagnostic.as_str());
                Err(PolicyError::Parse(m))
            },
        }
    }
}

/// What `RPolicy::new` returns for each outcome of the parser.
pub open spec fn new_outcome(parsed: Result<PolicyView, Seq<char>>) -> Result<
    PolicyView,
    PolicyErrorView,
> {
    match parsed {
        Ok(p) => Ok(p),
        Err(d) => Err(PolicyErrorView::Parse("Unable to parse policy: "@ + d)),
    }
}

/// A result of building a policy, over sequences of characters.
pub open spec fn policy_outcome_view(r: Result<RPolicy, PolicyError>) -> Result<
    PolicyView,
    PolicyErrorView,
> {
    match r {
        Ok(p) => Ok(p@),
        Err(e) => Err(e@),
    }
}

/// An optional string, taken as its characters.
pub open spec fn opt_view(o: Option<String>) -> Option<Seq<char>> {
    match o {
        Some(s) => Some(s@),
        None => None,
    }
}

/// An optional string slice, taken as its characters.
pub open spec fn opt_str_view(o: Option<&str>) -> Option<Seq<char>> {
    match o {
        Some(s) => Some(s@),
        None => None,
    }
}

/// The identifier of a policy parsed alone: the one asked for, else `policy0`.
pub open spec fn given_or_default(id: Option<Seq<char>>) -> Seq<char> {
    match id {
        Some(i) => i,
        None => "policy0"@,
    }
}

/// A copy of `v`.
pub fn clone_pairs(v: &Vec<(String, String)>) -> (res: Vec<(String, String)>)
    ensures
        pairs_view(res@) == pairs_view(v@),
{
    let mut out: Vec<(String, String)> = Vec::new();
    let n = v.len();
    let mut i: usize = 0;
    while i < n
        invariant
            i <= n,
            n == v@.len(),
            out@.len() == i,
            forall|j: int| 0 <= j < i ==> out@[j].0@ == v@[j].0@ && out@[j].1@ == v@[j].1@,
        decreases n - i,
    {
        out.push((v[i].0.clone(), v[i].1.clone()));
        i += 1;
    }
    assert(pairs_view(out@) =~= pairs_view(v@));
    out
}

/// What the Cedar parser makes of `text` as one policy that is asked to carry
/// the identifier `id`: the policy, or the parser's diagnostic.
pub uninterp spec fn parsed_policy(text: Seq<char>, id: Option<Seq<char>>) -> Result<
    PolicyView,
    Seq<char>,
>;

/// Calls `cedar_policy_core::parser::parse_policy`.
///
/// Not proved: that the parts handed back are those of the policy that the
/// parser built, or else its first diagnostic, and that they depend on the
/// two arguments alone; and, as the parser's documentation says, that the
/// policy carries the identifier that was given, or `policy0` without one.
#[verifier::external_body]
fn parse_policy_text(id: Option<&str>, text: &str) -> (res: Result<RPolicy, String>)
    ensures
        parts_outcome_view(res) == parsed_policy(text@, opt_str_view(id)),
        res matches Ok(p) ==> p@.id == given_or_default(opt_str_view(id)),
{
    let pid = id.map(cedar_policy_core::ast::PolicyID::from_string);
    match cedar_policy_core::parser::parse_policy(pid, text) {
        Ok(p) => Ok(RPolicy {
            id: AsRef::<str>::as_ref(p.id()).to_string(),
            text: p.to_string(),
            annotations: p.annotations().map(|(k, v)| (k.to_string(), v.val.to_string())).collect(),
        }),
        Err(e) => Err(e.to_string()),
    }
}

/// A result of the parser's wrapper, over sequences of characters.
pub open spec fn parts_outcome_view(r: Result<RPolicy, String>) -> Result<PolicyView, Seq<char>> {
    match r {
        Ok(p) => Ok(p@),
        Err(d) => Err(d@),
    }
}

} // verus!
