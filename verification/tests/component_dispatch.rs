use greentic_control_chain::component_dispatch::{
    keys_array, parse_payload, requested_mode, run_component_cbor,
};
use greentic_control_chain::component_schema::{
    component_descriptor, input_schema_cbor, output_schema_cbor, SchemaSource,
};
use greentic_control_chain::json::{as_str, get, JsonValue};
use greentic_types::cbor::canonical;

fn decode(bytes: &[u8]) -> serde_json::Value {
    canonical::from_cbor(bytes).expect("canonical cbor answer")
}

fn no_qa_spec(_mode: String) -> JsonValue {
    JsonValue::Null
}

fn no_apply_answers(_mode: String, _payload: JsonValue) -> JsonValue {
    JsonValue::Null
}

fn no_i18n_keys() -> Vec<String> {
    Vec::new()
}

fn run(operation: &str, input: &[u8]) -> Result<Vec<u8>, String> {
    run_component_cbor(operation, input, no_qa_spec, no_apply_answers, no_i18n_keys)
}

fn text(s: &str) -> JsonValue {
    JsonValue::Text(s.to_string())
}

/// A small setup questionnaire: the mode and one question per required
/// answer.
fn setup_questions(mode: String) -> JsonValue {
    let questions = ["api_key", "region", "webhook_base_url"]
        .iter()
        .map(|id| JsonValue::Object(vec![("id".to_string(), text(id))]))
        .collect();
    JsonValue::Object(vec![
        ("mode".to_string(), JsonValue::Text(mode)),
        ("questions".to_string(), JsonValue::Array(questions)),
    ])
}

/// Checks the answers of the payload: each required answer must be there.
fn check_answers(mode: String, payload: JsonValue) -> JsonValue {
    let answers = get(&payload, "answers");
    let mut errors = Vec::new();
    let mut config = Vec::new();
    for id in ["api_key", "region", "webhook_base_url"] {
        match answers.and_then(|a| as_str(get(a, id))) {
            Some(v) => config.push((id.to_string(), text(v))),
            None => errors.push(text(&format!("{id} is required"))),
        }
    }
    let ok = errors.is_empty();
    let mut out = vec![
        ("mode".to_string(), JsonValue::Text(mode)),
        ("ok".to_string(), JsonValue::Bool(ok)),
        ("errors".to_string(), JsonValue::Array(errors)),
    ];
    if ok {
        out.push(("config".to_string(), JsonValue::Object(config)));
    }
    JsonValue::Object(out)
}

fn setup_keys() -> Vec<String> {
    vec!["setup.api_key".to_string(), "setup.region".to_string()]
}

fn text_of<'a>(v: &'a serde_json::Value, path: &[&str]) -> Option<&'a str> {
    let mut cur = v;
    for k in path {
        cur = cur.get(*k)?;
    }
    cur.as_str()
}

#[test]
fn json_payload_runs_the_ingress_handler() {
    let out = run("ingress_control.handle", br#"{"message":{"text":"refund needed"}}"#)
        .expect("answer");
    let v = decode(&out);
    assert_eq!(text_of(&v, &["action"]), Some("dispatch"));
    assert_eq!(text_of(&v, &["dispatch", "pack"]), Some("commerce-support"));
    assert_eq!(text_of(&v, &["dispatch", "flow"]), Some("flow_refund"));
}

#[test]
fn cbor_payload_is_decoded_first() {
    let mut payload = serde_json::Map::new();
    payload.insert(
        "explicit_path".to_string(),
        serde_json::Value::String("pack-a/flow-b".to_string()),
    );
    let bytes = canonical::to_canonical_cbor_allow_floats(&serde_json::Value::Object(payload))
        .expect("encode");
    let parsed = parse_payload(&bytes);
    assert_eq!(as_str(get(&parsed, "explicit_path")), Some("pack-a/flow-b"));
    let out = run("anything-else", &bytes).expect("answer");
    let v = decode(&out);
    assert_eq!(text_of(&v, &["action"]), Some("dispatch"));
    assert_eq!(text_of(&v, &["dispatch", "flow"]), Some("flow-b"));
    assert_eq!(v["dispatch"]["node"], serde_json::Value::Null);
    assert_eq!(v["v"], serde_json::Value::from(1));
}

#[test]
fn undecodable_payload_is_an_empty_object() {
    let parsed = parse_payload(&[0xff, 0x00, 0x13]);
    assert!(matches!(parsed, JsonValue::Object(ref m) if m.is_empty()));
    let out = run("ingress_control.handle", &[0xff, 0x00, 0x13]).expect("answer");
    let v = decode(&out);
    assert_eq!(text_of(&v, &["action"]), Some("continue"));
    assert_eq!(v["diag"]["stage"], serde_json::Value::from(1));
}

#[test]
fn json_numbers_keep_their_values() {
    let parsed = parse_payload(br#"{"n": 7, "f": 1.5}"#);
    assert!(matches!(get(&parsed, "n"), Some(JsonValue::Integer(7))));
    assert!(matches!(get(&parsed, "f"), Some(JsonValue::Float(t)) if t == "1.5"));
}

#[test]
fn qa_spec_goes_to_the_questionnaire_with_the_requested_mode() {
    let out = run_component_cbor("qa-spec", br#"{"mode":"setup"}"#, setup_questions, no_apply_answers, no_i18n_keys)
        .expect("answer");
    let v = decode(&out);
    assert_eq!(text_of(&v, &["mode"]), Some("setup"));
    assert!(v["questions"].as_array().map(|qs| !qs.is_empty()).unwrap_or(false));
    let out = run_component_cbor("qa-spec", br#"{"operation":"update"}"#, setup_questions, no_apply_answers, no_i18n_keys)
        .expect("answer");
    assert_eq!(text_of(&decode(&out), &["mode"]), Some("update"));
}

#[test]
fn apply_answers_gets_the_whole_payload() {
    let out = run_component_cbor(
        "apply-answers",
        br#"{"mode":"setup","answers":{}}"#,
        no_qa_spec,
        check_answers,
        no_i18n_keys,
    )
    .expect("answer");
    let v = decode(&out);
    assert_eq!(v["ok"], serde_json::Value::Bool(false));
    assert!(v["errors"].as_array().map(|e| !e.is_empty()).unwrap_or(false));
    let out = run_component_cbor(
        "apply-answers",
        br#"{"mode":"setup","answers":{"api_key":"key123","region":"us-east-1","webhook_base_url":"https://example.invalid/hook","enabled":true}}"#,
        no_qa_spec,
        check_answers,
        no_i18n_keys,
    )
    .expect("answer");
    let v = decode(&out);
    assert_eq!(v["ok"], serde_json::Value::Bool(true));
    assert_eq!(text_of(&v, &["config", "api_key"]), Some("key123"));
    assert_eq!(text_of(&v, &["config", "region"]), Some("us-east-1"));
    assert_eq!(
        text_of(&v, &["config", "webhook_base_url"]),
        Some("https://example.invalid/hook")
    );
}

#[test]
fn i18n_keys_are_an_array_of_strings() {
    let out = run_component_cbor("i18n-keys", b"{}", no_qa_spec, no_apply_answers, setup_keys)
        .expect("answer");
    let expected = serde_json::Value::Array(vec![
        serde_json::Value::String("setup.api_key".to_string()),
        serde_json::Value::String("setup.region".to_string()),
    ]);
    assert_eq!(decode(&out), expected);
}

#[test]
fn requested_mode_falls_back_to_operation_then_setup() {
    assert_eq!(requested_mode(&parse_payload(br#"{"mode":"update"}"#)), "update");
    assert_eq!(requested_mode(&parse_payload(br#"{"mode":3,"operation":"upgrade"}"#)), "upgrade");
    assert_eq!(requested_mode(&parse_payload(br#"{"operation":"install"}"#)), "install");
    assert_eq!(requested_mode(&parse_payload(br#"{"mode":"default","operation":"x"}"#)), "default");
    assert_eq!(requested_mode(&parse_payload(b"{}")), "setup");
    assert_eq!(requested_mode(&JsonValue::Text("mode".to_string())), "setup");
}

#[test]
fn keys_array_keeps_order() {
    let v = keys_array(vec!["b".to_string(), "a".to_string()]);
    match v {
        JsonValue::Array(items) => {
            assert_eq!(items.len(), 2);
            assert!(matches!(&items[0], JsonValue::Text(t) if t == "b"));
            assert!(matches!(&items[1], JsonValue::Text(t) if t == "a"));
        }
        _ => panic!("not an array"),
    }
    assert!(matches!(keys_array(Vec::new()), JsonValue::Array(items) if items.is_empty()));
}

#[test]
fn descriptor_lists_four_cbor_operations() {
    let d = component_descriptor().expect("descriptor");
    assert_eq!(d.name, "controller");
    assert_eq!(d.version, "0.1.0");
    assert_eq!(d.summary.as_deref(), Some("Greentic component controller"));
    assert!(d.capabilities.is_empty());
    assert!(d.schemas.is_empty());
    assert!(d.setup.is_none());
    let names: Vec<&str> = d.operations.iter().map(|o| o.name.as_str()).collect();
    assert_eq!(
        names,
        vec!["ingress_control.handle", "qa-spec", "apply-answers", "i18n-keys"]
    );
    let input = input_schema_cbor().expect("input");
    let output = output_schema_cbor().expect("output");
    for op in &d.operations {
        assert!(matches!(&op.input.schema, SchemaSource::InlineCbor(b) if *b == input));
        assert!(matches!(&op.output.schema, SchemaSource::InlineCbor(b) if *b == output));
        assert_eq!(op.input.content_type, "application/cbor");
        assert_eq!(op.output.content_type, "application/cbor");
        assert!(op.input.schema_version.is_none());
        assert!(op.output.schema_version.is_none());
        assert!(op.examples.is_empty());
    }
    assert_eq!(
        d.operations[0].summary.as_deref(),
        Some("Evaluate ingress control and emit directive")
    );
    assert_eq!(
        d.operations[3].summary.as_deref(),
        Some("Return i18n keys referenced by QA/setup")
    );
}
