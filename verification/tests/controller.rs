use greentic_control_chain::controller::{
    describe_payload, ingress_control_handle, parse_dispatch_target, valid_segment,
};
use greentic_control_chain::json::{as_str, get, JsonValue};

fn obj(members: Vec<(&str, JsonValue)>) -> JsonValue {
    JsonValue::Object(
        members
            .into_iter()
            .map(|(k, v)| (k.to_string(), v))
            .collect(),
    )
}

fn text(s: &str) -> JsonValue {
    JsonValue::Text(s.to_string())
}

fn field<'a>(v: &'a JsonValue, path: &[&str]) -> Option<&'a JsonValue> {
    let mut cur = v;
    for key in path {
        cur = get(cur, key)?;
    }
    Some(cur)
}

fn field_str<'a>(v: &'a JsonValue, path: &[&str]) -> Option<&'a str> {
    as_str(field(v, path))
}

#[test]
fn describe_payload_is_json() {
    let payload = describe_payload();
    assert_eq!(field_str(&payload, &["component", "name"]), Some("controller"));
    assert_eq!(field_str(&payload, &["component", "org"]), Some("ai.greentic"));
    assert_eq!(field_str(&payload, &["component", "version"]), Some("0.1.0"));
    assert_eq!(
        field_str(&payload, &["component", "schemas", "input"]),
        Some("schemas/io/input.schema.json")
    );
}

#[test]
fn explicit_path_dispatches() {
    let input = obj(vec![("explicit_path", text("commerce-support/flow_refund"))]);
    let out = ingress_control_handle(&input);
    assert_eq!(field_str(&out, &["action"]), Some("dispatch"));
    assert_eq!(field_str(&out, &["dispatch", "pack"]), Some("commerce-support"));
}

#[test]
fn keyword_dispatches_refund_flow() {
    let input = obj(vec![("message", obj(vec![("text", text("refund needed"))]))]);
    let out = ingress_control_handle(&input);
    assert_eq!(field_str(&out, &["action"]), Some("dispatch"));
    assert_eq!(field_str(&out, &["dispatch", "flow"]), Some("flow_refund"));
    assert_eq!(
        field_str(&out, &["diag", "matched_rule_id"]),
        Some("keyword.refund")
    );
}

#[test]
fn component_explicit_path_without_node_reports_nulls() {
    let input = obj(vec![("explicit_path", text("pack-a"))]);
    let out = ingress_control_handle(&input);
    assert!(matches!(field(&out, &["dispatch", "flow"]), Some(JsonValue::Null)));
    assert!(matches!(field(&out, &["dispatch", "node"]), Some(JsonValue::Null)));
    assert!(matches!(field(&out, &["v"]), Some(JsonValue::Integer(1))));
    assert!(matches!(
        field(&out, &["diag", "explicit_path_valid"]),
        Some(JsonValue::Bool(true))
    ));
}

#[test]
fn component_invalid_explicit_path_returns_continue() {
    let input = obj(vec![
        ("message", obj(vec![("text", text("hello"))])),
        ("explicit_path", text("bad/path/with/too-many")),
    ]);
    let out = ingress_control_handle(&input);
    assert_eq!(field_str(&out, &["action"]), Some("continue"));
    assert!(matches!(
        field(&out, &["diag", "explicit_path_valid"]),
        Some(JsonValue::Bool(false))
    ));
    let errors = field(&out, &["diag", "errors"]).expect("errors");
    match errors {
        JsonValue::Array(items) => {
            assert_eq!(items.len(), 1);
            assert_eq!(as_str(get(&items[0], "code")), Some("invalid_explicit_path"));
            assert_eq!(
                as_str(get(&items[0], "msg")),
                Some("target must have 1 to 3 segments")
            );
        }
        _ => panic!("errors is an array"),
    }
}

#[test]
fn component_refund_keyword_is_case_insensitive_and_trimmed() {
    let input = obj(vec![("message", obj(vec![("text", text("  Need a REFUND  "))]))]);
    let out = ingress_control_handle(&input);
    assert_eq!(field_str(&out, &["action"]), Some("dispatch"));
    let input = obj(vec![("message", obj(vec![("text", text("hello"))]))]);
    let out = ingress_control_handle(&input);
    assert_eq!(field_str(&out, &["action"]), Some("continue"));
    assert!(matches!(field(&out, &["diag", "stage"]), Some(JsonValue::Integer(1))));
    let out = ingress_control_handle(&JsonValue::Null);
    assert_eq!(field_str(&out, &["action"]), Some("continue"));
}

#[test]
fn component_target_parser_splits_segments() {
    assert_eq!(
        parse_dispatch_target("a/b/c"),
        Ok((
            "a".to_string(),
            Some("b".to_string()),
            Some("c".to_string())
        ))
    );
    assert_eq!(
        parse_dispatch_target("a//c"),
        Err("target contains empty segment".to_string())
    );
    assert!(valid_segment("flow_refund"));
    assert!(!valid_segment("Flow"));
}
