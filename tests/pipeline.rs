use subreader::clash::{
    default_false, default_true, default_u32_zero, transform_to_model_proxy_group,
    transform_to_model_proxy_groups, transform_to_model_ruleset, BalanceStrategy,
    ClashProxyGroup, ClashProxyGroupAndRules, ProxyGroupType, RulesetType,
};
use subreader::reader::{str_contains, Reader};
use subreader::settings::{default_enabled, default_use_rules, Config, Subscribe};

fn group(name: &str, group_type: &str) -> ClashProxyGroup {
    ClashProxyGroup::new(name.to_string(), group_type.to_string())
}

fn document(groups: Vec<ClashProxyGroup>, rules: &[&str]) -> ClashProxyGroupAndRules {
    ClashProxyGroupAndRules {
        proxy_groups: groups,
        rules: rules.iter().map(|r| r.to_string()).collect(),
    }
}

#[test]
fn group_types_round_trip() {
    let cases = [
        ("select", ProxyGroupType::Select),
        ("url-test", ProxyGroupType::URLTest),
        ("fallback", ProxyGroupType::Fallback),
        ("load-balance", ProxyGroupType::LoadBalance),
        ("relay", ProxyGroupType::Relay),
    ];
    for (name, t) in cases {
        assert_eq!(ProxyGroupType::from_name(name), Some(t));
        assert_eq!(t.as_str(), name);
        let g = transform_to_model_proxy_group(group("g", name)).unwrap();
        assert_eq!(g.group_type, t);
        assert_eq!(g.group_type.as_str(), name);
    }
}

#[test]
fn group_type_match_is_exact() {
    assert_eq!(ProxyGroupType::from_name("Select"), None);
    assert_eq!(ProxyGroupType::from_name("url_test"), None);
    assert_eq!(ProxyGroupType::from_name(""), None);
}

#[test]
fn unknown_group_type_is_an_error() {
    let err = transform_to_model_proxy_group(group("g", "bogus")).unwrap_err();
    assert_eq!(err, "Unknown group type: bogus");
}

#[test]
fn group_fields_are_carried_over() {
    let mut g = group("Auto", "url-test");
    g.proxies = vec!["a".to_string(), "b".to_string()];
    g.using_provider = vec!["p".to_string()];
    g.url = "http://www.gstatic.com/generate_204".to_string();
    g.interval = 300;
    g.timeout = 5;
    g.tolerance = 50;
    g.strategy = "round-robin".to_string();
    g.lazy = false;
    g.disable_udp = true;
    g.persistent = true;
    g.evaluate_before_use = true;
    let c = transform_to_model_proxy_group(g).unwrap();
    assert_eq!(c.name, "Auto");
    assert_eq!(c.group_type, ProxyGroupType::URLTest);
    assert_eq!(c.proxies, vec!["a".to_string(), "b".to_string()]);
    assert_eq!(c.using_provider, vec!["p".to_string()]);
    assert_eq!(c.url, "http://www.gstatic.com/generate_204");
    assert_eq!((c.interval, c.timeout, c.tolerance), (300, 5, 50));
    assert_eq!(c.strategy, BalanceStrategy::RoundRobin);
    assert!(!c.lazy);
    assert!(c.disable_udp && c.persistent && c.evaluate_before_use);
}

#[test]
fn strategies_map_with_default() {
    assert_eq!(BalanceStrategy::from_name("round-robin"), BalanceStrategy::RoundRobin);
    assert_eq!(BalanceStrategy::from_name("consistent-hashing"), BalanceStrategy::ConsistentHashing);
    assert_eq!(BalanceStrategy::from_name(""), BalanceStrategy::ConsistentHashing);
    assert_eq!(BalanceStrategy::from_name("bogus"), BalanceStrategy::ConsistentHashing);
    let mut g = group("lb", "load-balance");
    g.strategy = "bogus".to_string();
    let c = transform_to_model_proxy_group(g).unwrap();
    assert_eq!(c.strategy, BalanceStrategy::ConsistentHashing);
}

#[test]
fn defaults_of_a_bare_group() {
    assert!(default_true());
    assert!(!default_false());
    assert_eq!(default_u32_zero(), 0);
    let g = group("g", "select");
    assert!(g.proxies.is_empty() && g.using_provider.is_empty());
    assert_eq!(g.url, "");
    assert_eq!((g.interval, g.timeout, g.tolerance), (0, 0, 0));
    assert_eq!(g.strategy, "");
    assert!(g.lazy);
    assert!(!g.disable_udp && !g.persistent && !g.evaluate_before_use);
}

#[test]
fn bad_group_is_dropped_and_order_kept() {
    let groups = vec![group("first", "select"), group("second", "weird"), group("third", "relay")];
    let out = transform_to_model_proxy_groups(groups);
    assert_eq!(out.len(), 2);
    assert_eq!(out[0].name, "first");
    assert_eq!(out[1].name, "third");
}

#[test]
fn parse_groups_with_three_groups() {
    let reader = Reader::new("sub", "proxies:\n  - a\n".to_string());
    let doc = document(
        vec![group("first", "select"), group("second", "weird"), group("third", "fallback")],
        &["MATCH,DIRECT"],
    );
    let (groups, rulesets) = reader.parse_groups(Some(doc)).unwrap();
    assert_eq!(groups.len(), 2);
    assert_eq!(groups[0].name, "first");
    assert_eq!(groups[0].group_type, ProxyGroupType::Select);
    assert_eq!(groups[1].name, "third");
    assert_eq!(groups[1].group_type, ProxyGroupType::Fallback);
    assert_eq!(rulesets.len(), 1);
    assert_eq!(rulesets[0].group, "sub");
    assert_eq!(rulesets[0].rule_content, "MATCH,DIRECT");
}

#[test]
fn ruleset_joins_with_crlf() {
    let rs = transform_to_model_ruleset("sub", vec!["RULE1".to_string(), "RULE2".to_string()]).unwrap();
    assert_eq!(rs.rule_content, "RULE1\r\nRULE2");
    assert_eq!(rs.group, "sub");
    assert_eq!(rs.rule_path, "");
    assert_eq!(rs.rule_path_typed, "");
    assert_eq!(rs.rule_type, RulesetType::default());
    assert_eq!(rs.update_interval, 0);
}

#[test]
fn empty_rules_still_give_one_ruleset() {
    let rs = transform_to_model_ruleset("sub", Vec::new()).unwrap();
    assert_eq!(rs.rule_content, "");
    let reader = Reader::new("sub", "Proxy:\n".to_string());
    let (groups, rulesets) = reader.parse_groups(Some(document(Vec::new(), &[]))).unwrap();
    assert!(groups.is_empty());
    assert_eq!(rulesets.len(), 1);
    assert_eq!(rulesets[0].rule_content, "");
}

#[test]
fn single_rule_has_no_line_ending() {
    let rs = transform_to_model_ruleset("s", vec!["ONLY".to_string()]).unwrap();
    assert_eq!(rs.rule_content, "ONLY");
    let rs = transform_to_model_ruleset("s", vec!["A".to_string(), "B".to_string(), "C".to_string()]).unwrap();
    assert_eq!(rs.rule_content, "A\r\nB\r\nC");
}

#[test]
fn download_failure_carries_status_and_body() {
    let err = Reader::from_response("sub", 404, "not found".to_string()).unwrap_err();
    assert_eq!(err.status, Some(404));
    assert!(err.message.contains("not found"));
    assert_eq!(err.message, "Failed to download file: not found");
    let err = Reader::from_response("sub", 300, String::new()).unwrap_err();
    assert_eq!(err.status, Some(300));
    assert!(Reader::from_response("sub", 199, String::new()).is_err());
}

#[test]
fn download_success_keeps_body() {
    let reader = Reader::from_response("sub", 200, "body text".to_string()).unwrap();
    assert_eq!(reader.content(), "body text");
    assert_eq!(reader.name(), "sub");
    let reader = Reader::from_response("sub", 299, "x".to_string()).unwrap();
    assert_eq!(reader.content(), "x");
}

#[test]
fn marker_with_failed_parse_gives_nothing() {
    let reader = Reader::new("sub", "proxies: [[[ not yaml".to_string());
    assert!(reader.is_clash_candidate());
    assert!(reader.parse_groups(None).is_none());
}

#[test]
fn no_marker_gives_nothing() {
    let reader = Reader::new("sub", "ss://abc@host:443#node\n".to_string());
    assert!(!reader.is_clash_candidate());
    let doc = document(vec![group("g", "select")], &["R"]);
    assert!(reader.parse_groups(Some(doc)).is_none());
}

#[test]
fn detector_markers() {
    assert!(Reader::new("s", "Proxy:\n - x".to_string()).is_clash_candidate());
    assert!(Reader::new("s", "a\nproxies:".to_string()).is_clash_candidate());
    assert!(!Reader::new("s", "PROXIES:".to_string()).is_clash_candidate());
    assert!(!Reader::new("s", "".to_string()).is_clash_candidate());
}

#[test]
fn substring_search() {
    assert!(str_contains("abc", ""));
    assert!(str_contains("abc", "abc"));
    assert!(str_contains("xxabcxx", "bc"));
    assert!(!str_contains("ab", "abc"));
    assert!(!str_contains("aab", "abb"));
    assert!(str_contains("héllo wörld", "wö"));
}

#[test]
fn subscription_defaults_and_filter() {
    assert!(default_enabled());
    assert!(!default_use_rules());
    let s = Subscribe::new("a".to_string(), "http://a".to_string());
    assert!(s.enabled && !s.use_rules);
    let mut off = Subscribe::new("b".to_string(), "http://b".to_string());
    off.enabled = false;
    let c = Subscribe::new("c".to_string(), "http://c".to_string());
    let config = Config { subscribes: vec![s, off, c] };
    assert_eq!(config.enabled_indices(), vec![0, 2]);
    assert!(Config { subscribes: Vec::new() }.enabled_indices().is_empty());
}
