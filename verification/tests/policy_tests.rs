use cedar_corpus::error::PolicyError;
use cedar_corpus::policy::RPolicy;
use cedar_corpus::policy_set::RPolicySet;

fn pair(a: &str, b: &str) -> (String, String) {
    (a.to_string(), b.to_string())
}

fn plain(id: &str, annotations: Vec<(String, String)>) -> RPolicy {
    RPolicy::from_parts(id.to_string(), format!("text of {}", id), annotations)
}

fn ids(set: &RPolicySet) -> Vec<String> {
    set.policies().iter().map(|p| p.id()).collect()
}

#[test]
fn policy_without_id_is_policy0() {
    let p = RPolicy::new("permit(principal,action,resource);", None).unwrap();
    assert_eq!(p.id(), "policy0");
}

#[test]
fn policy_with_id_carries_it() {
    let p = RPolicy::new("permit(principal,action,resource);", Some("front door")).unwrap();
    assert_eq!(p.id(), "front door");
}

#[test]
fn policy_text_is_canonical() {
    let p = RPolicy::new("permit(principal,action,resource);", None).unwrap();
    assert_eq!(p.to_string(), "permit(\n  principal,\n  action,\n  resource\n);");
}

#[test]
fn policy_annotations_come_in_name_order() {
    let text = "@tier(\"gold\") @name(\"alpha\") permit(principal,action,resource);";
    let p = RPolicy::new(text, None).unwrap();
    assert_eq!(p.annotations(), vec![pair("name", "alpha"), pair("tier", "gold")]);
    assert_eq!(p.annotation("name"), Some("alpha".to_string()));
    assert_eq!(p.annotation("tier"), Some("gold".to_string()));
    assert_eq!(p.annotation("owner"), None);
}

#[test]
fn policy_without_annotations_has_none() {
    let p = RPolicy::new("forbid(principal,action,resource);", None).unwrap();
    assert_eq!(p.annotations(), Vec::<(String, String)>::new());
    assert_eq!(p.annotation("name"), None);
}

#[test]
fn policy_parse_failure_is_reported() {
    match RPolicy::new("permit(principal,action", None) {
        Err(PolicyError::Parse(m)) => {
            assert!(m.starts_with("Unable to parse policy: "));
            assert!(m.len() > "Unable to parse policy: ".len());
        }
        other => panic!("expected a parse error, got {:?}", other),
    }
}

#[test]
fn policy_text_parses_back_to_the_same_policy() {
    let text = "@name(\"alpha\") @note(\"say \\\"hi\\\"\") permit(principal,action,resource) when { principal == resource };";
    let p = RPolicy::new(text, Some("p1")).unwrap();
    let id = p.id();
    let q = RPolicy::new(&p.to_string(), Some(id.as_str())).unwrap();
    assert_eq!(q.id(), p.id());
    assert_eq!(q.annotations(), p.annotations());
    assert_eq!(q.to_string(), p.to_string());
    assert_eq!(q, p);
}

#[test]
fn policy_new_id_keeps_text_and_annotations() {
    let p = plain("old", vec![pair("name", "alpha")]);
    let q = p.new_id("new".to_string());
    assert_eq!(q.id(), "new");
    assert_eq!(q.to_string(), p.to_string());
    assert_eq!(q.annotations(), p.annotations());
    assert_eq!(p.id(), "old");
}

#[test]
fn policy_from_parts_hands_the_parts_back() {
    let p = RPolicy::from_parts("a".to_string(), "body".to_string(), vec![pair("k", "v")]);
    assert_eq!(p.id(), "a");
    assert_eq!(p.to_string(), "body");
    assert_eq!(p.annotations(), vec![pair("k", "v")]);
    assert!(p.has_id(&"a".to_string()));
    assert!(!p.has_id(&"b".to_string()));
    assert!(p.same_id(&plain("a", vec![])));
    assert!(!p.same_id(&plain("b", vec![])));
}

#[test]
fn policy_annotation_takes_the_first_of_a_name() {
    let p = plain("a", vec![pair("k", "first"), pair("k", "second")]);
    assert_eq!(p.annotation("k"), Some("first".to_string()));
}

#[test]
fn set_empty_is_empty() {
    let set = RPolicySet::empty();
    assert!(set.is_empty());
    assert_eq!(set.len(), 0);
    assert!(set.policies().is_empty());
}

#[test]
fn set_without_text_is_empty() {
    let set = RPolicySet::new(None, None).unwrap();
    assert!(set.is_empty());
    let named = RPolicySet::new(None, Some("name")).unwrap();
    assert!(named.is_empty());
}

#[test]
fn set_parse_numbers_the_policies() {
    let text = "permit(principal,action,resource);\nforbid(principal,action,resource);\npermit(principal,action,resource) when { true };";
    let set = RPolicySet::parse(text).unwrap();
    assert!(!set.is_empty());
    assert_eq!(set.len(), 3);
    assert_eq!(ids(&set), vec!["policy0", "policy1", "policy2"]);
    assert!(set.contains("policy1"));
    assert!(!set.contains("policy3"));
}

#[test]
fn set_parse_failure_is_reported() {
    match RPolicySet::parse("permit(principal,action,resource") {
        Err(PolicyError::Parse(m)) => assert!(!m.is_empty()),
        other => panic!("expected a parse error, got {:?}", other),
    }
    assert!(matches!(RPolicySet::new(Some("permit("), Some("name")), Err(PolicyError::Parse(_))));
}

#[test]
fn set_add_turns_a_second_id_down() {
    let mut set = RPolicySet::empty();
    assert_eq!(set.add(plain("a", vec![])), Ok(()));
    assert_eq!(set.add(plain("b", vec![])), Ok(()));
    assert_eq!(set.add(plain("a", vec![pair("k", "v")])), Err(PolicyError::DuplicateId("a".to_string())));
    assert_eq!(ids(&set), vec!["a", "b"]);
    assert_eq!(set.policies()[0].annotations(), Vec::<(String, String)>::new());
}

#[test]
fn set_from_policies_keeps_the_order() {
    let set = RPolicySet::from_policies(vec![plain("c", vec![]), plain("a", vec![]), plain("b", vec![])]).unwrap();
    assert_eq!(ids(&set), vec!["c", "a", "b"]);
}

#[test]
fn set_from_policies_names_the_first_repeat() {
    let v = vec![plain("a", vec![]), plain("b", vec![]), plain("c", vec![]), plain("b", vec![]), plain("a", vec![])];
    match RPolicySet::from_policies(v) {
        Err(e) => assert_eq!(e, PolicyError::DuplicateId("b".to_string())),
        Ok(_) => panic!("a set with a repeated id"),
    }
}

#[test]
fn rewrite_takes_the_annotation_as_id() {
    let text = "@name(\"alpha\") permit(principal,action,resource);\n@name(\"beta\") forbid(principal,action,resource);";
    let set = RPolicySet::parse(text).unwrap();
    let before = set.policies();
    let out = RPolicySet::rewrite_ids_from_annotation(set, "name".to_string()).unwrap();
    assert_eq!(ids(&out), vec!["alpha", "beta"]);
    let after = out.policies();
    assert_eq!(after[0].to_string(), before[0].to_string());
    assert_eq!(after[1].annotations(), before[1].annotations());
}

#[test]
fn rewrite_leaves_a_policy_without_the_annotation() {
    let set = RPolicySet::new(Some("permit(principal,action,resource);"), Some("name")).unwrap();
    assert_eq!(ids(&set), vec!["policy0"]);
    let mixed = RPolicySet::from_policies(vec![plain("a", vec![pair("name", "x")]), plain("b", vec![pair("other", "y")])]).unwrap();
    let out = RPolicySet::rewrite_ids_from_annotation(mixed, "name".to_string()).unwrap();
    assert_eq!(ids(&out), vec!["x", "b"]);
}

#[test]
fn rewrite_fails_on_a_shared_annotation_value() {
    let text = "@name(\"same\") permit(principal,action,resource);\n@name(\"same\") forbid(principal,action,resource);";
    let res = RPolicySet::new(Some(text), Some("name"));
    match res {
        Err(e) => assert_eq!(e, PolicyError::RewriteCollision { annotation: "name".to_string(), id: "same".to_string() }),
        Ok(_) => panic!("a set came out of a collision"),
    }
}

#[test]
fn rewrite_fails_where_a_value_meets_an_untouched_id() {
    let text = "permit(principal,action,resource);\n@name(\"policy0\") forbid(principal,action,resource);";
    let set = RPolicySet::parse(text).unwrap();
    match RPolicySet::rewrite_ids_from_annotation(set, "name".to_string()) {
        Err(e) => assert_eq!(e, PolicyError::RewriteCollision { annotation: "name".to_string(), id: "policy0".to_string() }),
        Ok(_) => panic!("a set came out of a collision"),
    }
}

#[test]
fn rewrite_names_the_first_id_that_comes_twice() {
    let v = vec![
        plain("a", vec![pair("n", "x")]),
        plain("b", vec![pair("n", "y")]),
        plain("c", vec![pair("n", "y")]),
        plain("d", vec![pair("n", "x")]),
    ];
    let set = RPolicySet::from_policies(v).unwrap();
    match RPolicySet::rewrite_ids_from_annotation(set, "n".to_string()) {
        Err(e) => assert_eq!(e, PolicyError::RewriteCollision { annotation: "n".to_string(), id: "y".to_string() }),
        Ok(_) => panic!("a set came out of a collision"),
    }
}

#[test]
fn rewrite_twice_is_rewrite_once() {
    let v = vec![plain("a", vec![pair("name", "x")]), plain("b", vec![]), plain("c", vec![pair("name", "a")])];
    let set = RPolicySet::from_policies(v).unwrap();
    let once = RPolicySet::rewrite_ids_from_annotation(set, "name".to_string()).unwrap();
    let first = once.policies();
    let twice = RPolicySet::rewrite_ids_from_annotation(once, "name".to_string()).unwrap();
    assert_eq!(ids(&twice), vec!["x", "b", "a"]);
    assert_eq!(twice.policies(), first);
}

#[test]
fn rewrite_of_the_empty_set_is_empty() {
    let out = RPolicySet::rewrite_ids_from_annotation(RPolicySet::empty(), "name".to_string()).unwrap();
    assert!(out.is_empty());
}

#[test]
fn error_messages_name_what_failed() {
    assert_eq!(PolicyError::Parse("bad".to_string()).message(), "bad");
    assert_eq!(PolicyError::DuplicateId("a".to_string()).message(), "duplicate policy id a");
    let e = PolicyError::RewriteCollision { annotation: "name".to_string(), id: "x".to_string() };
    assert_eq!(e.message(), "failed to add policy with id x (duplicate?) while renaming by annotation name");
}

#[test]
fn set_keeps_the_templates_of_its_text() {
    let only = RPolicySet::parse("permit(principal == ?principal, action, resource);").unwrap();
    assert!(!only.is_empty());
    assert_eq!(only.len(), 0);
    assert!(only.policies().is_empty());
    let templates = only.templates();
    assert_eq!(templates.len(), 1);
    assert_eq!(templates[0].id(), "policy0");
    assert!(!only.contains("policy0"));
}

#[test]
fn set_with_policies_and_templates() {
    let text = "permit(principal,action,resource);\n@name(\"t\") permit(principal == ?principal, action, resource);\nforbid(principal,action,resource);";
    let set = RPolicySet::parse(text).unwrap();
    assert_eq!(ids(&set), vec!["policy0", "policy2"]);
    let templates = set.templates();
    assert_eq!(templates.len(), 1);
    assert_eq!(templates[0].id(), "policy1");
    assert_eq!(templates[0].annotation("name"), Some("t".to_string()));
    assert!(templates[0].to_string().contains("?principal"));
}

#[test]
fn set_add_turns_the_id_of_a_template_down() {
    let mut set = RPolicySet::parse("permit(principal == ?principal, action, resource);").unwrap();
    assert_eq!(set.add(plain("policy0", vec![])), Err(PolicyError::DuplicateId("policy0".to_string())));
    assert_eq!(set.len(), 0);
    assert_eq!(set.add(plain("mine", vec![])), Ok(()));
    assert_eq!(ids(&set), vec!["mine"]);
    assert_eq!(set.templates().len(), 1);
}

#[test]
fn rewrite_hands_no_template_on() {
    let text = "@name(\"a\") permit(principal,action,resource);\npermit(principal == ?principal, action, resource);";
    let set = RPolicySet::parse(text).unwrap();
    assert_eq!(set.templates().len(), 1);
    let out = RPolicySet::rewrite_ids_from_annotation(set, "name".to_string()).unwrap();
    assert_eq!(ids(&out), vec!["a"]);
    assert!(out.templates().is_empty());
    let only = RPolicySet::new(Some("permit(principal == ?principal, action, resource);"), Some("name")).unwrap();
    assert!(only.is_empty());
}

#[test]
fn set_parse_holds_every_policy_of_a_long_text() {
    let mut text = String::new();
    for i in 0..40 {
        text.push_str(&format!("permit(principal,action,resource) when {{ {} == {} }};\n", i, i));
    }
    let set = RPolicySet::new(Some(text.as_str()), None).unwrap();
    assert_eq!(set.len(), 40);
    let mut names = ids(&set);
    names.sort();
    names.dedup();
    assert_eq!(names.len(), 40);
    assert!(set.contains("policy39"));
}
