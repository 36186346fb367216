use greentic_control_chain::cbor::CborValue;
use greentic_control_chain::ingress_control::{
    handle_with_assets, Action, Asset, DenyPayload, PolicyV1, RuleDenyV1, RuleThenV1, RuleV1,
    RuleWhenV1, RulesV1,
};

fn inbound_with_text(text: &str) -> Vec<(String, CborValue)> {
    vec![(
        "message".to_string(),
        CborValue::Mapping(vec![(
            CborValue::Text("text".to_string()),
            CborValue::Text(text.to_string()),
        )]),
    )]
}

fn policy(allow_respond: bool, allow_llm: bool) -> Asset<PolicyV1> {
    Asset::Present(PolicyV1 {
        v: 1,
        allow_respond,
        allow_llm,
    })
}

fn rules(rules: Vec<RuleV1>) -> Asset<RulesV1> {
    Asset::Present(RulesV1 { v: 1, rules })
}

fn undecodable(bytes: &[u8]) -> String {
    serde_cbor::from_slice::<serde_cbor::Value>(bytes)
        .err()
        .map(|e| e.to_string())
        .unwrap_or_else(|| "undecodable asset".to_string())
}

fn keyword_rule(id: &str, keyword: &str, action: &str) -> RuleV1 {
    RuleV1 {
        id: id.to_string(),
        when: RuleWhenV1 {
            keyword: Some(keyword.to_string()),
            regex: None,
            case_sensitive: None,
        },
        effect: RuleThenV1 {
            action: action.to_string(),
            target: None,
            text: None,
            needs_user: None,
            deny: None,
        },
    }
}

fn dispatch_rule(id: &str, keyword: &str, target: &str) -> RuleV1 {
    let mut r = keyword_rule(id, keyword, "dispatch");
    r.effect.target = Some(target.to_string());
    r
}

fn respond_rule(id: &str, keyword: &str, text: &str, needs_user: bool) -> RuleV1 {
    let mut r = keyword_rule(id, keyword, "respond");
    r.effect.text = Some(text.to_string());
    r.effect.needs_user = Some(needs_user);
    r
}

fn deny_detail_text(deny: &DenyPayload, key: &str) -> Option<String> {
    let details = deny.details.as_ref()?;
    let (_, v) = details.iter().find(|(k, _)| k == key)?;
    match v {
        CborValue::Text(s) => Some(s.clone()),
        _ => None,
    }
}

#[test]
fn invalid_explicit_path_returns_continue_with_diag() {
    let mut inbound = inbound_with_text("hello");
    inbound.push((
        "explicit_path".to_string(),
        CborValue::Text("bad/path/with/too-many".to_string()),
    ));
    let directive = handle_with_assets(&inbound, policy(false, false), Asset::Missing);
    assert_eq!(directive.action, Action::Continue);
    let diag = directive.diag.expect("diag");
    assert_eq!(diag.explicit_path_valid, Some(false));
}

#[test]
fn missing_rules_asset_returns_continue() {
    let inbound = inbound_with_text("refund");
    let directive = handle_with_assets(&inbound, policy(false, false), Asset::Missing);
    assert_eq!(directive.action, Action::Continue);
}

#[test]
fn invalid_rules_asset_returns_deny() {
    let inbound = inbound_with_text("refund");
    let directive = handle_with_assets(
        &inbound,
        policy(false, false),
        Asset::Invalid(undecodable(b"not-cbor")),
    );
    assert_eq!(directive.action, Action::Deny);
    let deny = directive.deny.expect("deny payload");
    assert_eq!(deny.code, "invalid_rules_asset");
}

#[test]
fn invalid_policy_asset_returns_deny() {
    let inbound = inbound_with_text("refund");
    let directive = handle_with_assets(
        &inbound,
        Asset::Invalid(undecodable(b"bad-cbor")),
        Asset::Missing,
    );
    assert_eq!(directive.action, Action::Deny);
    let deny = directive.deny.expect("deny payload");
    assert_eq!(deny.code, "invalid_policy_asset");
}

#[test]
fn policy_missing_uses_secure_defaults_and_blocks_respond() {
    let inbound = inbound_with_text("refund please");
    let directive = handle_with_assets(
        &inbound,
        Asset::Missing,
        rules(vec![respond_rule("r1", "refund", "Need more info", true)]),
    );
    assert_eq!(directive.action, Action::Continue);
    let diag = directive.diag.expect("diag");
    assert_eq!(diag.policy_blocked.as_deref(), Some("respond"));
    assert!(!diag.allow_llm);
}

#[test]
fn rule_ordering_is_deterministic_first_match_wins() {
    let inbound = inbound_with_text("refund needed");
    let directive = handle_with_assets(
        &inbound,
        policy(true, false),
        rules(vec![
            dispatch_rule("r1", "refund", "commerce-support/flow_refund"),
            dispatch_rule("r2", "refund", "fallback-pack/flow2"),
        ]),
    );
    assert_eq!(directive.action, Action::Dispatch);
    let dispatch = directive.dispatch.expect("dispatch payload");
    assert_eq!(dispatch.pack, "commerce-support");
    assert_eq!(dispatch.flow.as_deref(), Some("flow_refund"));
}

#[test]
fn policy_disallows_respond_downgrades_to_continue() {
    let inbound = inbound_with_text("refund needed");
    let directive = handle_with_assets(
        &inbound,
        policy(false, false),
        rules(vec![respond_rule("r1", "refund", "Need confirmation", true)]),
    );
    assert_eq!(directive.action, Action::Continue);
    let diag = directive.diag.expect("diag");
    assert_eq!(diag.policy_blocked.as_deref(), Some("respond"));
}

#[test]
fn unsupported_rule_action_is_invalid_rules_asset() {
    let inbound = inbound_with_text("refund");
    let directive = handle_with_assets(
        &inbound,
        policy(true, false),
        rules(vec![keyword_rule("bad-action", "refund", "llm")]),
    );
    assert_eq!(directive.action, Action::Deny);
    let deny = directive.deny.expect("deny payload");
    assert_eq!(deny.code, "invalid_rules_asset");
    assert_eq!(
        deny_detail_text(&deny, "rule_id").as_deref(),
        Some("bad-action")
    );
}

#[test]
fn invalid_regex_rule_returns_deny_with_rule_id() {
    let inbound = inbound_with_text("refund");
    let rule = RuleV1 {
        id: "bad-regex".to_string(),
        when: RuleWhenV1 {
            keyword: None,
            regex: Some("(".to_string()),
            case_sensitive: None,
        },
        effect: RuleThenV1 {
            action: "dispatch".to_string(),
            target: Some("commerce-support/flow_refund".to_string()),
            text: None,
            needs_user: None,
            deny: None,
        },
    };
    let directive = handle_with_assets(&inbound, policy(true, false), rules(vec![rule]));
    assert_eq!(directive.action, Action::Deny);
    let deny = directive.deny.expect("deny payload");
    assert_eq!(deny.code, "invalid_rules_asset");
    assert_eq!(
        deny_detail_text(&deny, "rule_id").as_deref(),
        Some("bad-regex")
    );
}

#[test]
fn invalid_dispatch_target_rule_returns_deny_with_rule_id() {
    let inbound = inbound_with_text("refund");
    let directive = handle_with_assets(
        &inbound,
        policy(true, false),
        rules(vec![dispatch_rule("bad-target", "refund", "BadPack/flow_refund")]),
    );
    assert_eq!(directive.action, Action::Deny);
    let deny = directive.deny.expect("deny payload");
    assert_eq!(deny.code, "invalid_rules_asset");
    assert_eq!(
        deny_detail_text(&deny, "rule_id").as_deref(),
        Some("bad-target")
    );
}

#[test]
fn valid_explicit_path_dispatches() {
    let mut inbound = inbound_with_text("ignored");
    inbound.push((
        "explicit_path".to_string(),
        CborValue::Text("commerce-support/flow_refund".to_string()),
    ));
    let directive = handle_with_assets(&inbound, policy(false, false), Asset::Missing);
    assert_eq!(directive.action, Action::Dispatch);
    let dispatch = directive.dispatch.expect("dispatch");
    assert_eq!(dispatch.pack, "commerce-support");
    assert_eq!(dispatch.flow.as_deref(), Some("flow_refund"));
}

#[test]
fn deny_rule_passes_its_details_through() {
    let inbound = inbound_with_text("please refund");
    let mut rule = keyword_rule("d1", "refund", "deny");
    rule.effect.deny = Some(RuleDenyV1 {
        code: "blocked".to_string(),
        reason: "refunds are handled by phone".to_string(),
        details: Some(vec![("ticket".to_string(), CborValue::Integer(42))]),
    });
    let directive = handle_with_assets(&inbound, policy(true, true), rules(vec![rule]));
    assert_eq!(directive.v, 1);
    assert_eq!(directive.action, Action::Deny);
    let deny = directive.deny.expect("deny payload");
    assert_eq!(deny.code, "blocked");
    assert_eq!(deny.reason, "refunds are handled by phone");
    let details = deny.details.expect("details");
    assert_eq!(details.len(), 1);
    assert_eq!(details[0].0, "ticket");
    assert!(matches!(details[0].1, CborValue::Integer(42)));
    let diag = directive.diag.expect("diag");
    assert_eq!(diag.stage, 1);
    assert_eq!(diag.matched_rule_id.as_deref(), Some("d1"));
    assert!(diag.allow_llm);
}

#[test]
fn allowed_respond_answers_with_rule_text() {
    let inbound = inbound_with_text("Refund?");
    let directive = handle_with_assets(
        &inbound,
        policy(true, false),
        rules(vec![respond_rule("r1", "REFUND", "Need confirmation", true)]),
    );
    assert_eq!(directive.action, Action::Respond);
    let respond = directive.respond.expect("respond payload");
    assert_eq!(respond.text, "Need confirmation");
    assert!(respond.needs_user);
    assert!(directive.dispatch.is_none());
    assert!(directive.deny.is_none());
}

#[test]
fn case_sensitive_keyword_must_match_exactly() {
    let inbound = inbound_with_text("REFUND now");
    let mut rule = dispatch_rule("cs", "refund", "commerce-support/flow_refund");
    rule.when.case_sensitive = Some(true);
    let directive = handle_with_assets(&inbound, policy(true, false), rules(vec![rule]));
    assert_eq!(directive.action, Action::Continue);
    let diag = directive.diag.expect("diag");
    assert_eq!(diag.stage, 0);
    assert!(diag.matched_rule_id.is_none());
}

#[test]
fn regex_rule_matches_case_insensitively_by_default() {
    let inbound = inbound_with_text("I want a REFFUND");
    let rule = RuleV1 {
        id: "re1".to_string(),
        when: RuleWhenV1 {
            keyword: None,
            regex: Some("ref+und".to_string()),
            case_sensitive: None,
        },
        effect: RuleThenV1 {
            action: "dispatch".to_string(),
            target: Some("commerce-support/flow_refund/node-1".to_string()),
            text: None,
            needs_user: None,
            deny: None,
        },
    };
    let directive = handle_with_assets(&inbound, policy(false, false), rules(vec![rule]));
    assert_eq!(directive.action, Action::Dispatch);
    let dispatch = directive.dispatch.expect("dispatch");
    assert_eq!(dispatch.node.as_deref(), Some("node-1"));
}

#[test]
fn regex_error_message_names_the_rule() {
    let inbound = inbound_with_text("refund");
    let rule = RuleV1 {
        id: "bad-regex".to_string(),
        when: RuleWhenV1 {
            keyword: None,
            regex: Some("(".to_string()),
            case_sensitive: Some(true),
        },
        effect: RuleThenV1 {
            action: "continue".to_string(),
            target: None,
            text: None,
            needs_user: None,
            deny: None,
        },
    };
    let directive = handle_with_assets(&inbound, policy(false, false), rules(vec![rule]));
    let deny = directive.deny.expect("deny payload");
    let error = deny_detail_text(&deny, "error").expect("error detail");
    assert!(error.starts_with("invalid regex for rule 'bad-regex': "));
    assert!(error.len() > "invalid regex for rule 'bad-regex': ".len());
    let diag = directive.diag.expect("diag");
    assert_eq!(diag.errors.len(), 1);
    assert_eq!(diag.errors[0].code, "invalid_rules_asset");
    assert_eq!(diag.errors[0].msg, error);
}

#[test]
fn rule_errors_carry_exact_messages() {
    let cases: Vec<(RuleV1, &str, Option<&str>)> = vec![
        (keyword_rule("  ", "x", "continue"), "rule id must not be empty", None),
        (
            {
                let mut r = keyword_rule("both", "x", "continue");
                r.when.regex = Some("x".to_string());
                r
            },
            "rule 'both' must set exactly one of when.keyword or when.regex",
            Some("both"),
        ),
        (
            keyword_rule("nt", "x", "dispatch"),
            "rule 'nt' dispatch missing target",
            Some("nt"),
        ),
        (
            dispatch_rule("bt", "x", "a b"),
            "rule 'bt' target invalid: target contains forbidden characters",
            Some("bt"),
        ),
        (
            keyword_rule("nx", "x", "respond"),
            "rule 'nx' respond missing text",
            Some("nx"),
        ),
        (
            keyword_rule("nd", "x", "deny"),
            "rule 'nd' deny missing deny object",
            Some("nd"),
        ),
        (
            keyword_rule("ua", "x", "llm"),
            "rule 'ua' has unsupported action 'llm'",
            Some("ua"),
        ),
    ];
    for (rule, msg, rule_id) in cases {
        let directive = handle_with_assets(
            &inbound_with_text("x"),
            policy(false, false),
            rules(vec![rule]),
        );
        assert_eq!(directive.action, Action::Deny);
        let deny = directive.deny.expect("deny payload");
        assert_eq!(deny.reason, "rules.cbor failed validation");
        assert_eq!(deny_detail_text(&deny, "error").as_deref(), Some(msg));
        assert_eq!(deny_detail_text(&deny, "rule_id").as_deref(), rule_id);
    }
}

#[test]
fn later_invalid_rule_rejects_whole_asset() {
    let directive = handle_with_assets(
        &inbound_with_text("refund"),
        policy(true, false),
        rules(vec![
            dispatch_rule("ok", "refund", "commerce-support"),
            keyword_rule("broken", "x", "teleport"),
        ]),
    );
    assert_eq!(directive.action, Action::Deny);
    let deny = directive.deny.expect("deny payload");
    assert_eq!(deny_detail_text(&deny, "rule_id").as_deref(), Some("broken"));
}

#[test]
fn asset_versions_must_be_one() {
    let directive = handle_with_assets(
        &inbound_with_text("refund"),
        Asset::Present(PolicyV1 {
            v: 2,
            allow_respond: true,
            allow_llm: true,
        }),
        Asset::Missing,
    );
    let deny = directive.deny.expect("deny payload");
    assert_eq!(deny.code, "invalid_policy_asset");
    assert_eq!(deny.reason, "policy.cbor failed validation");
    assert_eq!(
        deny_detail_text(&deny, "error").as_deref(),
        Some("policy version must be v=1")
    );
    let diag = directive.diag.expect("diag");
    assert!(!diag.allow_llm);

    let directive = handle_with_assets(
        &inbound_with_text("refund"),
        policy(false, false),
        Asset::Present(RulesV1 {
            v: 3,
            rules: Vec::new(),
        }),
    );
    let deny = directive.deny.expect("deny payload");
    assert_eq!(deny.code, "invalid_rules_asset");
    assert_eq!(
        deny_detail_text(&deny, "error").as_deref(),
        Some("rules version must be v=1")
    );
    assert_eq!(deny_detail_text(&deny, "rule_id"), None);
}

#[test]
fn without_message_text_rules_are_not_consulted() {
    let inbound = vec![(
        "message".to_string(),
        CborValue::Mapping(vec![(
            CborValue::Text("text".to_string()),
            CborValue::Text(" \t ".to_string()),
        )]),
    )];
    let directive = handle_with_assets(
        &inbound,
        policy(false, true),
        Asset::Invalid("unreadable".to_string()),
    );
    assert_eq!(directive.action, Action::Continue);
    assert!(directive.diag.expect("diag").allow_llm);
}

#[test]
fn invalid_explicit_path_is_reported_and_rules_still_decide() {
    let mut inbound = inbound_with_text("refund");
    inbound.push((
        "explicit_path".to_string(),
        CborValue::Text("pack/../secret".to_string()),
    ));
    let directive = handle_with_assets(
        &inbound,
        policy(false, false),
        rules(vec![dispatch_rule("r1", "refund", "commerce-support/flow_refund")]),
    );
    assert_eq!(directive.action, Action::Dispatch);
    let diag = directive.diag.expect("diag");
    assert_eq!(diag.stage, 1);
    assert_eq!(diag.explicit_path_valid, Some(false));
    assert_eq!(diag.errors.len(), 1);
    assert_eq!(diag.errors[0].code, "invalid_explicit_path");
    assert_eq!(diag.errors[0].msg, "target contains forbidden characters");
}

#[test]
fn blank_explicit_path_is_ignored() {
    let mut inbound = inbound_with_text("hello");
    inbound.push(("explicit_path".to_string(), CborValue::Text("   ".to_string())));
    let directive = handle_with_assets(&inbound, policy(false, false), Asset::Missing);
    assert_eq!(directive.action, Action::Continue);
    assert_eq!(directive.diag.expect("diag").explicit_path_valid, None);
}

#[test]
fn default_policy_answers_as_a_missing_policy() {
    let shipped = greentic_control_chain::assets::default_policy();
    assert_eq!(shipped.v, 1);
    assert!(!shipped.allow_respond);
    assert!(!shipped.allow_llm);
    for text in ["refund please", "hello"] {
        let with_default = handle_with_assets(
            &inbound_with_text(text),
            Asset::Present(greentic_control_chain::assets::default_policy()),
            rules(vec![respond_rule("r1", "refund", "Need more info", true)]),
        );
        let without = handle_with_assets(
            &inbound_with_text(text),
            Asset::Missing,
            rules(vec![respond_rule("r1", "refund", "Need more info", true)]),
        );
        assert_eq!(format!("{with_default:?}"), format!("{without:?}"));
    }
}
