//! A set of policies under pairwise distinct identifiers, and the renaming of
//! its policies after one of their annotations.

use vstd::prelude::*;
use vstd::string::*;
use crate::error::{PolicyError, PolicyErrorView};
use crate::policy::{lookup, PolicyView, RPolicy};

verus! {

/// No two policies of `s` carry the same identifier.
pub open spec fn distinct_ids(s: Seq<PolicyView>) -> bool {
    forall|i: int, j: int| 0 <= i < j < s.len() ==> s[i].id != s[j].id
}

/// Some policy of `s` carries the identifier `id`.
pub open spec fn has_id(s: Seq<PolicyView>, id: Seq<char>) -> bool {
    exists|i: int| 0 <= i < s.len() && s[i].id == id
}

/// `j` is the place of the first policy of `s` whose identifier an earlier
/// policy carries already.
pub open spec fn is_first_repeat(s: Seq<PolicyView>, j: int) -> bool {
    &&& 0 <= j < s.len()
    &&& distinct_ids(s.take(j))
    &&& has_id(s.take(j), s[j].id)
}

/// The place of the first repeated identifier of `s`, where there is one.
pub open spec fn first_repeat(s: Seq<PolicyView>) -> int {
    choose|j: int| is_first_repeat(s, j)
}

/// The policy `p` named after its annotation `name`: under that annotation's
/// value where it has the annotation, unchanged where it has not.
pub open spec fn renamed(p: PolicyView, name: Seq<char>) -> PolicyView {
    match lookup(p.annotations, name) {
        Some(v) => PolicyView { id: v, ..p },
        None => p,
    }
}

/// Every policy of `s` named after its annotation `name`, in the same order.
pub open spec fn renamed_all(s: Seq<PolicyView>, name: Seq<char>) -> Seq<PolicyView> {
    Seq::new(s.len(), |i: int| renamed(s[i], name))
}

/// The set made of the policies `s` in this order: `s` itself where the
/// identifiers are distinct, else the first repeated identifier.
pub open spec fn collected(s: Seq<PolicyView>) -> Result<Seq<PolicyView>, PolicyErrorView> {
    if distinct_ids(s) {
        Ok(s)
    } else {
        Err(PolicyErrorView::DuplicateId(s[first_repeat(s)].id))
    }
}

/// What renaming the policies `s` after the annotation `name` gives: all of
/// them renamed, or, where two of the renamed policies would share an
/// identifier, the first identifier that comes a second time.
pub open spec fn rewritten(s: Seq<PolicyView>, name: Seq<char>) -> Result<
    Seq<PolicyView>,
    PolicyErrorView,
> {
    let t = renamed_all(s, name);
    if distinct_ids(t) {
        Ok(t)
    } else {
        Err(PolicyErrorView::RewriteCollision { annotation: name, id: t[first_repeat(t)].id })
    }
}

/// The policies of `v`, each taken as its view.
pub open spec fn policies_view(v: Seq<RPolicy>) -> Seq<PolicyView> {
    Seq::new(v.len(), |i: int| v[i]@)
}

/// A sequence has at most one first repeat.
pub proof fn lemma_first_repeat_unique(s: Seq<PolicyView>, j: int, k: int)
    requires
        is_first_repeat(s, j),
        is_first_repeat(s, k),
    ensures
        j == k,
{
    if j < k {
        let i = choose|i: int| 0 <= i < s.take(j).len() && s.take(j)[i].id == s[j].id;
        assert(s.take(k)[i].id == s.take(k)[j].id);
    } else if k < j {
        let i = choose|i: int| 0 <= i < s.take(k).len() && s.take(k)[i].id == s[k].id;
        assert(s.take(j)[i].id == s.take(j)[k].id);
    }
}

/// A first repeat shows that the identifiers are not distinct, and is the
/// place that `first_repeat` names.
pub proof fn lemma_first_repeat_found(s: Seq<PolicyView>, j: int)
    requires
        is_first_repeat(s, j),
    ensures
        !distinct_ids(s),
        first_repeat(s) == j,
{
    let i = choose|i: int| 0 <= i < s.take(j).len() && s.take(j)[i].id == s[j].id;
    assert(s[i].id == s[j].id);
    lemma_first_repeat_unique(s, first_repeat(s), j);
}

/// What a set is, over sequences of characters: its policies in the order
/// in which they were put in, and the templates that came with them.
pub struct PolicySetView {
    pub policies: Seq<PolicyView>,
    pub templates: Seq<PolicyView>,
}

/// A set of policies, with the templates that its text declared. No two of
/// the policies carry the same identifier.
#[derive(Debug)]
pub struct RPolicySet {
    policies: Vec<RPolicy>,
    templates: Vec<RPolicy>,
}

impl View for RPolicySet {
    type V = PolicySetView;

    closed spec fn view(&self) -> PolicySetView {
        PolicySetView {
            policies: policies_view(self.policies@),
            templates: policies_view(self.templates@),
        }
    }
}

/// The set of the policies `s`, without a template.
pub open spec fn of_policies(s: Seq<PolicyView>) -> PolicySetView {
    PolicySetView { policies: s, templates: Seq::empty() }
}

/// An outcome over policies, as the outcome over sets without templates.
pub open spec fn without_templates(r: Result<Seq<PolicyView>, PolicyErrorView>) -> Result<
    PolicySetView,
    PolicyErrorView,
> {
    match r {
        Ok(s) => Ok(of_policies(s)),
        Err(e) => Err(e),
    }
}

/// Whether `a` holds a policy with the identifier `id`.
pub fn holds_id(a: &Vec<RPolicy>, id: &String) -> (res: bool)
    ensures
        res == has_id(policies_view(a@), id@),
{
    let n = a.len();
    let mut i: usize = 0;
    while i < n
        invariant
            i <= n,
            n == a@.len(),
            forall|k: int| 0 <= k < i ==> policies_view(a@)[k].id != id@,
        decreases n - i,
    {
        if a[i].has_id(id) {
            assert(policies_view(a@)[i as int].id == id@);
            return true;
        }
        i += 1;
    }
    false
}

/// A copy of `a`.
pub fn clone_policies(a: &Vec<RPolicy>) -> (res: Vec<RPolicy>)
    ensures
        policies_view(res@) == policies_view(a@),
{
    let mut out: Vec<RPolicy> = Vec::new();
    let n = a.len();
    let mut i: usize = 0;
    while i < n
        invariant
            i <= n,
            n == a@.len(),
            out@.len() == i,
            forall|k: int| 0 <= k < i ==> out@[k]@ == a@[k]@,
        decreases n - i,
    {
        let p = &a[i];
        out.push(p.new_id(p.id()));
        i += 1;
    }
    assert(policies_view(out@) =~= policies_view(a@));
    out
}

/// The place in `v` of the first policy whose identifier an earlier policy
/// carries already, if there is one.
pub fn find_first_repeat(v: &Vec<RPolicy>) -> (res: Option<usize>)
    ensures
        res is None <==> distinct_ids(policies_view(v@)),
        res matches Some(j) ==> is_first_repeat(policies_view(v@), j as int),
{
    let ghost s = policies_view(v@);
    let n = v.len();
    let mut j: usize = 0;
    while j < n
        invariant
            j <= n,
            n == v@.len(),
            s == policies_view(v@),
            distinct_ids(s.take(j as int)),
        decreases n - j,
    {
        let mut i: usize = 0;
        while i < j
            invariant
                i <= j < n,
                n == v@.len(),
                s == policies_view(v@),
                distinct_ids(s.take(j as int)),
                forall|k: int| 0 <= k < i ==> s[k].id != s[j as int].id,
            decreases j - i,
        {
            if v[i].same_id(&v[j]) {
                proof {
                    assert(s.take(j as int)[i as int].id == s[j as int].id);
                }
                return Some(j);
            }
            i += 1;
        }
        proof {
            let t = s.take(j + 1);
            assert forall|a: int, b: int| 0 <= a < b < t.len() implies t[a].id != t[b].id by {
                if b < j {
                    assert(s.take(j as int)[a].id != s.take(j as int)[b].id);
                }
            }
        }
        j += 1;
    }
    proof {
        assert(s.take(n as int) =~= s);
    }
    None
}

impl RPolicySet {
    #[verifier::type_invariant]
    spec fn ids_are_distinct(self) -> bool {
        distinct_ids(policies_view(self.policies@))
    }

    /// The set without a policy.
    pub fn empty() -> (res: Self)
        ensures
            res@ == of_policies(Seq::empty()),
    {
        let res = RPolicySet { policies: Vec::new(), templates: Vec::new() };
        assert(res@.policies =~= Seq::<PolicyView>::empty());
        assert(res@.templates =~= Seq::<PolicyView>::empty());
        res
    }

    /// The set made of the policies `v`, in their order. It fails where two of
    /// them carry the same identifier, and names the first identifier that
    /// comes a second time.
    pub fn from_policies(v: Vec<RPolicy>) -> (res: Result<Self, PolicyError>)
        ensures
            set_outcome_view(res) == without_templates(collected(policies_view(v@))),
    {
        match find_first_repeat(&v) {
            None => {
                let set = RPolicySet { policies: v, templates: Vec::new() };
                assert(set@.templates =~= Seq::<PolicyView>::empty());
                Ok(set)
            },
            Some(j) => {
                proof {
                    lemma_first_repeat_found(policies_view(v@), j as int);
                }
                Err(PolicyError::DuplicateId(v[j].id()))
            },
        }
    }

    /// Whether the set holds nothing: no policy and no template.
    pub fn is_empty(&self) -> (res: bool)
        ensures
            res == (self@.policies.len() == 0 && self@.templates.len() == 0),
    {
        self.policies.len() == 0 && self.templates.len() == 0
    }

    /// The number of policies.
    pub fn len(&self) -> (res: usize)
        ensures
            res == self@.policies.len(),
    {
        self.policies.len()
    }

    /// The policies, in the order in which they were put in. No two of them
    /// carry the same identifier.
    pub fn policies(&self) -> (res: Vec<RPolicy>)
        ensures
            policies_view(res@) == self@.policies,
            distinct_ids(self@.policies),
    {
        proof {
            use_type_invariant(self);
        }
        clone_policies(&self.policies)
    }

    /// The templates that came with the policies, in the order of the text.
    pub fn templates(&self) -> (res: Vec<RPolicy>)
        ensures
            policies_view(res@) == self@.templates,
    {
        clone_policies(&self.templates)
    }

    /// Whether a policy of the set carries the identifier `id`.
    pub fn contains(&self, id: &str) -> (res: bool)
        ensures
            res == has_id(self@.policies, id@),
    {
        let wanted = String::from_str(id);
        holds_id(&self.policies, &wanted)
    }

    /// Puts `policy` in, behind the others. It fails, and leaves the set as
    /// it was, where a policy or a template of the set carries that
    /// identifier already.
    pub fn add(&mut self, policy: RPolicy) -> (res: Result<(), PolicyError>)
        ensures
            unit_outcome_view(res) == add_outcome(old(self)@, policy@),
            final(self)@ == after_add(old(self)@, policy@),
    {
        proof {
            use_type_invariant(&*self);
        }
        let id = policy.id();
        if holds_id(&self.policies, &id) || holds_id(&self.templates, &id) {
            return Err(PolicyError::DuplicateId(id));
        }
        let ghost before = self@;
        let mut taken = RPolicySet::empty();
        core::mem::swap(self, &mut taken);
        let mut policies = taken.policies;
        let templates = taken.templates;
        policies.push(policy);
        proof {
            let after = policies_view(policies@);
            assert(after =~= before.policies.push(policy@));
            assert forall|a: int, b: int| 0 <= a < b < after.len() implies after[a].id
                != after[b].id by {
                if b < before.policies.len() {
                    assert(before.policies[a].id != before.policies[b].id);
                } else {
                    assert(before.policies[a].id != policy@.id);
                }
            }
        }
        *self = RPolicySet { policies, templates };
        Ok(())
    }

    /// Parses `text`, which may hold any number of policies and templates,
    /// into a set. The parser numbers them in the order of the text to name
    /// them, so a set comes out wherever the parser takes the text: it holds
    /// every policy that the parser found, under pairwise distinct
    /// identifiers.
    pub fn parse(text: &str) -> (res: Result<Self, PolicyError>)
        ensures
            set_outcome_view(res) == parse_outcome(parsed_policy_set(text@)),
            parsed_policy_set(text@) matches Ok(found) ==> distinct_ids(found.0),
    {
        match parse_policy_set_text(text) {
            Ok(found) => {
                let (policies, templates) = found;
                Ok(RPolicySet { policies, templates })
            },
            Err(diagnostic) => Err(PolicyError::Parse(diagnostic)),
        }
    }

    /// A new set in which each policy of `policy_set` that has the annotation
    /// `annotation_name` carries that annotation's value as its identifier,
    /// and each other policy its old identifier, in the old order. The new
    /// set holds no template. It fails, and hands out no set, where two of
    /// the new policies would share an identifier, whichever way that comes
    /// about.
    pub fn rewrite_ids_from_annotation(policy_set: RPolicySet, annotation_name: String) -> (res:
        Result<RPolicySet, PolicyError>)
        ensures
            set_outcome_view(res) == without_templates(
                rewritten(policy_set@.policies, annotation_name@),
            ),
    {
        let ghost s = policy_set@.policies;
        let ghost name = annotation_name@;
        let mut out: Vec<RPolicy> = Vec::new();
        let n = policy_set.policies.len();
        let mut i: usize = 0;
        while i < n
            invariant
                i <= n,
                n == policy_set.policies@.len(),
                s == policy_set@.policies,
                name == annotation_name@,
                out@.len() == i,
                forall|k: int| 0 <= k < i ==> out@[k]@ == renamed(s[k], name),
            decreases n - i,
        {
            let p = &policy_set.policies[i];
            let q = match p.annotation(annotation_name.as_str()) {
                Some(value) => p.new_id(value),
                None => p.new_id(p.id()),
            };
            out.push(q);
            i += 1;
        }
        assert(policies_view(out@) =~= renamed_all(s, name));
        match find_first_repeat(&out) {
            None => {
                let set = RPolicySet { policies: out, templates: Vec::new() };
                assert(set@.templates =~= Seq::<PolicyView>::empty());
                Ok(set)
            },
            Some(j) => {
                proof {
                    lemma_first_repeat_found(policies_view(out@), j as int);
                }
                Err(PolicyError::RewriteCollision { annotation: annotation_name, id: out[j].id() })
            },
        }
    }

    /// The set that a caller asks for: empty without `text`; else the set
    /// parsed from `text`, its policies renamed after the annotation
    /// `id_annotation` where one is given.
    pub fn new(text: Option<&str>, id_annotation: Option<&str>) -> (res: Result<Self, PolicyError>)
        ensures
            set_outcome_view(res) == new_set_outcome(text, id_annotation),
            text matches Some(t) ==> (parsed_policy_set(t@) matches Ok(found) ==> distinct_ids(
                found.0,
            )),
    {
        match text {
            None => Ok(RPolicySet::empty()),
            Some(t) => {
                match RPolicySet::parse(t) {
                    Err(e) => Err(e),
                    Ok(set) => match id_annotation {
                        None => Ok(set),
                        Some(name) => RPolicySet::rewrite_ids_from_annotation(
                            set,
                            String::from_str(name),
                        ),
                    },
                }
            },
        }
    }
}

/// What `add` returns: the error that names the identifier where a policy or
/// a template of the set carries it already.
pub open spec fn add_outcome(set: PolicySetView, policy: PolicyView) -> Result<
    (),
    PolicyErrorView,
> {
    if has_id(set.policies, policy.id) || has_id(set.templates, policy.id) {
        Err(PolicyErrorView::DuplicateId(policy.id))
    } else {
        Ok(())
    }
}

/// The set after `add`: with the policy behind the others where it went in,
/// unchanged where it did not.
pub open spec fn after_add(set: PolicySetView, policy: PolicyView) -> PolicySetView {
    if has_id(set.policies, policy.id) || has_id(set.templates, policy.id) {
        set
    } else {
        PolicySetView { policies: set.policies.push(policy), templates: set.templates }
    }
}

/// What `RPolicySet::new` returns.
pub open spec fn new_set_outcome(text: Option<&str>, id_annotation: Option<&str>) -> Result<
    PolicySetView,
    PolicyErrorView,
> {
    match text {
        None => Ok(of_policies(Seq::empty())),
        Some(t) => match parse_outcome(parsed_policy_set(t@)) {
            Err(e) => Err(e),
            Ok(set) => match id_annotation {
                None => Ok(set),
                Some(name) => without_templates(rewritten(set.policies, name@)),
            },
        },
    }
}

/// What `RPolicySet::parse` returns for each outcome of the parser.
pub open spec fn parse_outcome(
    parsed: Result<(Seq<PolicyView>, Seq<PolicyView>), Seq<char>>,
) -> Result<PolicySetView, PolicyErrorView> {
    match parsed {
        Ok(found) => Ok(PolicySetView { policies: found.0, templates: found.1 }),
        Err(d) => Err(PolicyErrorView::Parse(d)),
    }
}

/// A result of changing a set, over sequences of characters.
pub open spec fn unit_outcome_view(r: Result<(), PolicyError>) -> Result<(), PolicyErrorView> {
    match r {
        Ok(u) => Ok(u),
        Err(e) => Err(e@),
    }
}

/// A result of building a set, over sequences of characters.
pub open spec fn set_outcome_view(r: Result<RPolicySet, PolicyError>) -> Result<
    PolicySetView,
    PolicyErrorView,
> {
    match r {
        Ok(s) => Ok(s@),
        Err(e) => Err(e@),
    }
}

/// What the Cedar parser makes of `text` as a document of policies: its
/// policies and its templates, each list in the order of the text, or the
/// parser's diagnostic.
pub uninterp spec fn parsed_policy_set(text: Seq<char>) -> Result<
    (Seq<PolicyView>, Seq<PolicyView>),
    Seq<char>,
>;

/// Calls `cedar_policy_core::parser::parse_policyset`.
///
/// Not proved: that the parts handed back are those of the policies and of
/// the templates of the set that the parser built, each list in the order in
/// which the set hands it out, or else the parser's first diagnostic, and
/// that they depend on `text` alone; and that no two of the policies carry
/// the same identifier, which the set's own map of policies sees to.
#[verifier::external_body]
fn parse_policy_set_text(text: &str) -> (res: Result<(Vec<RPolicy>, Vec<RPolicy>), String>)
    ensures
        lists_outcome_view(res) == parsed_policy_set(text@),
        res matches Ok(found) ==> distinct_ids(policies_view(found.0@)),
{
    let set = cedar_policy_core::parser::parse_policyset(text).map_err(|e| e.to_string())?;
    Ok((
        set.policies().map(|p| RPolicy::from_parts(
            AsRef::<str>::as_ref(p.id()).to_string(),
            p.to_string(),
            p.annotations().map(|(k, v)| (k.to_string(), v.val.to_string())).collect(),
        )).collect(),
        set.templates().map(|t| RPolicy::from_parts(
            AsRef::<str>::as_ref(t.id()).to_string(),
            t.to_string(),
            t.annotations().map(|(k, v)| (k.to_string(), v.val.to_string())).collect(),
        )).collect(),
    ))
}

/// A result of the parser's wrapper, over sequences of characters.
pub open spec fn lists_outcome_view(r: Result<(Vec<RPolicy>, Vec<RPolicy>), String>) -> Result<
    (Seq<PolicyView>, Seq<PolicyView>),
    Seq<char>,
> {
    match r {
        Ok(found) => Ok((policies_view(found.0@), policies_view(found.1@))),
        Err(d) => Err(d@),
    }
}

} // verus!
