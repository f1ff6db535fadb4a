use urouter::Agent;
use urouter::Alias;
use urouter::AliasTable;
use urouter::AliasType;
use urouter::ConfigError;
use urouter::Resolver;
use urouter::Verdict;

fn plain(uri: &str, body: &str) -> Alias {
    Alias { uri: uri.to_string(), alias: AliasType::Text(body.to_string()), agent: None }
}

fn ruled(uri: &str, body: &str, regex: &str, only_matching: Option<bool>) -> Alias {
    Alias {
        uri: uri.to_string(),
        alias: AliasType::Text(body.to_string()),
        agent: Some(Agent { regex: regex.to_string(), only_matching }),
    }
}

fn body_of(found: Option<&Alias>) -> Option<String> {
    found.map(|record| match &record.alias {
        AliasType::Text(body) => body.clone(),
        other => panic!("unexpected payload {:?}", other),
    })
}

#[test]
fn unknown_path_resolves_to_none() {
    let resolver = Resolver::new(vec![
        plain("/a", "a"),
        ruled("/b", "b", ".*", None),
        ruled("/c", "c", "curl", Some(true)),
    ])
    .unwrap();
    for path in ["/", "/x", "/A", "/a/", "a", ""] {
        for agent in ["", "curl/8.0", "Mozilla"] {
            assert_eq!(resolver.resolve(path, agent), None);
        }
    }
    let empty = Resolver::new(Vec::new()).unwrap();
    assert_eq!(empty.resolve("/a", "curl"), None);
}

#[test]
fn paths_are_compared_exactly() {
    let resolver = Resolver::new(vec![plain("/Docs", "upper"), plain("/docs/", "slash")]).unwrap();
    assert_eq!(body_of(resolver.resolve("/Docs", "")), Some("upper".to_string()));
    assert_eq!(body_of(resolver.resolve("/docs/", "")), Some("slash".to_string()));
    assert_eq!(resolver.resolve("/docs", ""), None);
    assert_eq!(resolver.resolve("/Docs/", ""), None);
}

#[test]
fn earlier_of_two_matching_rules_wins() {
    let resolver = Resolver::new(vec![
        ruled("/x", "first", "curl", None),
        ruled("/x", "second", "curl/8", None),
    ])
    .unwrap();
    assert_eq!(body_of(resolver.resolve("/x", "curl/8.0")), Some("first".to_string()));
    let swapped = Resolver::new(vec![
        ruled("/x", "second", "curl/8", None),
        ruled("/x", "first", "curl", None),
    ])
    .unwrap();
    assert_eq!(body_of(swapped.resolve("/x", "curl/8.0")), Some("second".to_string()));
}

#[test]
fn match_wins_over_earlier_fallback() {
    let resolver = Resolver::new(vec![
        plain("/x", "generic"),
        ruled("/x", "quiet", "wget", None),
        ruled("/x", "curl", "curl", Some(true)),
        ruled("/x", "late", "curl", None),
    ])
    .unwrap();
    assert_eq!(body_of(resolver.resolve("/x", "curl/8.0")), Some("curl".to_string()));
    assert_eq!(body_of(resolver.resolve("/x", "wget/1.21")), Some("quiet".to_string()));
    assert_eq!(body_of(resolver.resolve("/x", "Mozilla")), Some("generic".to_string()));
}

#[test]
fn records_of_other_paths_do_not_take_part() {
    let resolver = Resolver::new(vec![
        ruled("/y", "other", "curl", None),
        plain("/y", "other fallback"),
        ruled("/x", "mine", "curl", None),
    ])
    .unwrap();
    assert_eq!(body_of(resolver.resolve("/x", "curl")), Some("mine".to_string()));
    assert_eq!(body_of(resolver.resolve("/x", "Mozilla")), Some("mine".to_string()));
}

#[test]
fn strict_rule_that_does_not_match_is_hidden() {
    let alone = Resolver::new(vec![ruled("/x", "strict", "curl", Some(true))]).unwrap();
    assert_eq!(alone.resolve("/x", "Mozilla"), None);
    assert_eq!(body_of(alone.resolve("/x", "curl")), Some("strict".to_string()));
    let followed = Resolver::new(vec![
        ruled("/x", "strict", "curl", Some(true)),
        ruled("/x", "lenient", "wget", Some(false)),
    ])
    .unwrap();
    assert_eq!(body_of(followed.resolve("/x", "Mozilla")), Some("lenient".to_string()));
}

#[test]
fn lenient_rule_that_does_not_match_falls_back_like_no_rule() {
    for only_matching in [None, Some(false)] {
        let with_rule = Resolver::new(vec![
            ruled("/x", "a", "curl", Some(true)),
            ruled("/x", "b", "wget", only_matching),
            plain("/x", "c"),
        ])
        .unwrap();
        let without_rule = Resolver::new(vec![
            ruled("/x", "a", "curl", Some(true)),
            plain("/x", "b"),
            plain("/x", "c"),
        ])
        .unwrap();
        assert_eq!(body_of(with_rule.resolve("/x", "Mozilla")), Some("b".to_string()));
        assert_eq!(
            body_of(with_rule.resolve("/x", "Mozilla")),
            body_of(without_rule.resolve("/x", "Mozilla"))
        );
        assert_eq!(
            body_of(with_rule.resolve("/x", "curl")),
            body_of(without_rule.resolve("/x", "curl"))
        );
    }
}

#[test]
fn resolving_twice_gives_the_same_record() {
    let resolver = Resolver::new(vec![
        ruled("/x", "a", "curl", Some(true)),
        plain("/x", "b"),
        plain("/y", "c"),
    ])
    .unwrap();
    for path in ["/x", "/y", "/z"] {
        for agent in ["curl", "Mozilla"] {
            let first = resolver.resolve(path, agent).cloned();
            let second = resolver.resolve(path, agent).cloned();
            assert_eq!(first, second);
        }
    }
    assert_eq!(resolver.table().records().len(), 3);
}

#[test]
fn resolve_decodes_and_resolve_decoded_does_not() {
    let resolver = Resolver::new(vec![plain("/a b", "space"), plain("/a%20b", "raw")]).unwrap();
    assert_eq!(body_of(resolver.resolve("/a%20b", "")), Some("space".to_string()));
    assert_eq!(body_of(resolver.resolve_decoded("/a%20b", "")), Some("raw".to_string()));
    assert_eq!(body_of(resolver.resolve_decoded("/a b", "")), Some("space".to_string()));
}

#[test]
fn lookup_candidates_keeps_load_order() {
    let table = AliasTable::new(vec![
        plain("/x", "1"),
        plain("/y", "2"),
        ruled("/x", "3", "curl", None),
        plain("/X", "4"),
        plain("/x", "5"),
    ]);
    let found: Vec<Option<String>> =
        table.lookup_candidates("/x").into_iter().map(|record| body_of(Some(record))).collect();
    assert_eq!(
        found,
        vec![Some("1".to_string()), Some("3".to_string()), Some("5".to_string())]
    );
    assert!(table.lookup_candidates("/z").is_empty());
    assert_eq!(table.lookup_candidates("/y").len(), 1);
    assert_eq!(table.records().len(), 5);
}

#[test]
fn verdict_follows_match_and_strictness() {
    for only_matching in [None, Some(false), Some(true)] {
        let agent = Agent { regex: "curl".to_string(), only_matching };
        assert_eq!(agent.verdict(true), Verdict::Claims);
    }
    let strict = Agent { regex: "curl".to_string(), only_matching: Some(true) };
    assert_eq!(strict.verdict(false), Verdict::Excluded);
    let unset = Agent { regex: "curl".to_string(), only_matching: None };
    assert_eq!(unset.verdict(false), Verdict::FallsBack);
    let lenient = Agent { regex: "curl".to_string(), only_matching: Some(false) };
    assert_eq!(lenient.verdict(false), Verdict::FallsBack);
}

#[test]
fn resolver_refuses_a_pattern_that_does_not_compile() {
    let built = Resolver::new(vec![plain("/x", "a"), ruled("/x", "b", "(", None)]);
    match built {
        Err(ConfigError::InvalidPattern(pattern)) => assert_eq!(pattern, "("),
        Ok(_) => panic!("the pattern should have been refused"),
    }
}

#[test]
fn resolver_holds_one_matcher_per_pattern() {
    let resolver = Resolver::new(vec![
        ruled("/x", "a", "curl", None),
        ruled("/y", "b", "curl", Some(true)),
        ruled("/z", "c", "wget", None),
        plain("/z", "d"),
    ])
    .unwrap();
    assert_eq!(resolver.matchers().len(), 2);
    assert!(resolver.matchers().contains("curl"));
    assert!(resolver.matchers().contains("wget"));
    assert!(!resolver.matchers().contains("Mozilla"));
}
