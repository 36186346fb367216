//! The controller component's operation dispatcher: it decodes a payload
//! (canonical CBOR, else JSON), runs the operation, and encodes the answer
//! as canonical CBOR.
use vstd::prelude::*;
use crate::component_schema::bytes_result_view;
use crate::controller::{ingress_control_handle, spec_controller_handle};
use crate::json::{array, as_str, get, items_view, json_as_str, json_get, JsonValue, JsonView};
use crate::text::{owned, same_text};
use serde_json::{from_str, Number, Value};

verus! {

#[verifier::external_type_specification]
#[verifier::external_body]
pub struct ExSerdeJsonValue(Value);

/// What `greentic_types::cbor::canonical::from_cbor` decodes from `input`
/// as a `serde_json::Value`, in the library's form; `None` when decoding
/// fails.
pub uninterp spec fn cbor_payload(input: Seq<u8>) -> Option<JsonView>;

/// What `serde_json::from_slice` decodes from `input` as a
/// `serde_json::Value`, in the library's form; `None` when decoding fails.
pub uninterp spec fn json_payload(input: Seq<u8>) -> Option<JsonView>;

/// What `greentic_types::cbor::canonical::to_canonical_cbor_allow_floats`
/// gives for the `serde_json::Value` of `v`: its canonical CBOR bytes, or
/// the display text of the error.
pub uninterp spec fn canonical_json_cbor(v: JsonView) -> Result<Seq<u8>, Seq<char>>;

/// Converts a `serde_json::Value` into the library's form, member for
/// member and item for item: numbers that fit an `i64` or `u64` become
/// integers, the others their decimal text.
#[verifier::external_body]
fn from_serde_json(v: &Value) -> JsonValue {
    match v {
        Value::Null => JsonValue::Null,
        Value::Bool(b) => JsonValue::Bool(*b),
        Value::Number(n) => match n.as_i64().map(i128::from).or(n.as_u64().map(i128::from)) {
            Some(i) => JsonValue::Integer(i),
            None => JsonValue::Float(n.to_string()),
        },
        Value::String(s) => JsonValue::Text(s.clone()),
        Value::Array(a) => JsonValue::Array(a.iter().map(from_serde_json).collect()),
        Value::Object(m) => JsonValue::Object(m.iter().map(|(k, x)| (k.clone(), from_serde_json(x))).collect()),
    }
}

/// Converts the library's form into a `serde_json::Value`, member for
/// member and item for item: numbers are read back from their decimal
/// text by `serde_json` (an `i64` or `u64` where they fit), null when the
/// text does not read as a number.
#[verifier::external_body]
fn to_serde_json(v: &JsonValue) -> Value {
    match v {
        JsonValue::Null => Value::Null,
        JsonValue::Bool(b) => Value::Bool(*b),
        JsonValue::Integer(n) => from_str::<Number>(&n.to_string()).map_or(Value::Null, Value::Number),
        JsonValue::Float(t) => from_str::<Number>(t).map_or(Value::Null, Value::Number),
        JsonValue::Text(s) => Value::String(s.clone()),
        JsonValue::Array(a) => Value::Array(a.iter().map(to_serde_json).collect()),
        JsonValue::Object(m) => Value::Object(m.iter().map(|(k, x)| (k.clone(), to_serde_json(x))).collect()),
    }
}

/// Calls `greentic_types::cbor::canonical::from_cbor` on `input`, decoding
/// a `serde_json::Value`; the outcome is `cbor_payload` of the bytes.
#[verifier::external_body]
fn decode_cbor_payload(input: &[u8]) -> (r: Option<JsonValue>)
    ensures
        match r {
            Some(v) => cbor_payload(input@) == Some(v@),
            None => cbor_payload(input@) is None,
        },
{
    greentic_types::cbor::canonical::from_cbor::<serde_json::Value>(input).ok().map(|v| from_serde_json(&v))
}

/// Calls `serde_json::from_slice` on `input`, decoding a
/// `serde_json::Value`; the outcome is `json_payload` of the bytes.
#[verifier::external_body]
fn decode_json_payload(input: &[u8]) -> (r: Option<JsonValue>)
    ensures
        match r {
            Some(v) => json_payload(input@) == Some(v@),
            None => json_payload(input@) is None,
        },
{
    serde_json::from_slice::<serde_json::Value>(input).ok().map(|v| from_serde_json(&v))
}

/// Calls `to_canonical_cbor_allow_floats` on the `serde_json::Value` of `v`;
/// the outcome is `canonical_json_cbor` of `v`.
#[verifier::external_body]
fn encode_json_cbor(v: &JsonValue) -> (r: Result<Vec<u8>, String>)
    ensures
        bytes_result_view(r) == canonical_json_cbor(v@),
{
    greentic_types::cbor::canonical::to_canonical_cbor_allow_floats(&to_serde_json(v)).map_err(|e| e.to_string())
}

/// The value a payload carries: canonical CBOR first, then JSON, else an
/// empty object.
pub open spec fn spec_parse_payload(input: Seq<u8>) -> JsonView {
    match cbor_payload(input) {
        Some(j) => j,
        None => match json_payload(input) {
            Some(j) => j,
            None => JsonView::Object(Seq::empty()),
        },
    }
}

/// Decodes a payload: canonical CBOR first, then JSON for local debugging,
/// else an empty object.
pub fn parse_payload(input: &[u8]) -> (v: JsonValue)
    ensures
        v@ == spec_parse_payload(input@),
{
    if let Some(v) = decode_cbor_payload(input) {
        return v;
    }
    match decode_json_payload(input) {
        Some(v) => v,
        None => {
            let v = JsonValue::Object(Vec::new());
            assert(v@ == JsonView::Object(Seq::empty())) by {
                if let JsonView::Object(m) = v@ {
                    assert(m =~= Seq::<(Seq<char>, JsonView)>::empty());
                }
            }
            v
        },
    }
}

/// An operation answered by the component's setup questionnaire.
pub open spec fn is_qa_operation(op: Seq<char>) -> bool {
    op == "qa-spec"@ || op == "apply-answers"@ || op == "i18n-keys"@
}

/// The mode a questionnaire request names: the payload's `mode` text,
/// else its `operation` text, else `setup`.
pub open spec fn spec_requested_mode(payload: JsonView) -> Seq<char> {
    match json_as_str(json_get(payload, "mode"@)) {
        Some(m) => m,
        None => match json_as_str(json_get(payload, "operation"@)) {
            Some(m) => m,
            None => "setup"@,
        },
    }
}

/// The mode a questionnaire request names: the payload's `mode` text,
/// else its `operation` text, else `setup`.
pub fn requested_mode(payload: &JsonValue) -> (m: String)
    ensures
        m@ == spec_requested_mode(payload@),
{
    if let Some(m) = as_str(get(payload, "mode")) {
        return owned(m);
    }
    match as_str(get(payload, "operation")) {
        Some(m) => owned(m),
        None => owned("setup"),
    }
}

/// The JSON array of the given keys, each a JSON string.
pub open spec fn keys_document(keys: Seq<String>) -> JsonView {
    JsonView::Array(Seq::new(keys.len(), |i: int| JsonView::Text(keys[i]@)))
}

/// The JSON array of the given keys, each a JSON string, in order.
pub fn keys_array(keys: Vec<String>) -> (v: JsonValue)
    ensures
        v@ == keys_document(keys@),
{
    let ghost all = keys@;
    let mut items: Vec<JsonValue> = Vec::new();
    for key in it: keys.into_iter()
        invariant
            it.seq() == all,
            items_view(items@) == keys_document(all.take(it.index()))->Array_0,
    {
        let ghost k = it.index();
        let ghost before = items_view(items@);
        assert(all.take(k + 1).last() == key);
        items.push(JsonValue::Text(key));
        assert(items_view(items@) =~= before.push(JsonView::Text(key@)));
        assert(keys_document(all.take(k + 1))->Array_0 =~= before.push(JsonView::Text(key@)));
    }
    assert(all.take(all.len() as int) =~= all);
    array(items)
}

/// Runs an operation on a payload and encodes the answer as canonical
/// CBOR. The questionnaire operations go to the questionnaire the caller
/// supplies: `qa-spec` to `qa_spec` with the requested mode,
/// `apply-answers` to `apply_answers` with the requested mode and the whole
/// payload, `i18n-keys` to `i18n_keys`, whose keys are answered as an array
/// of strings. Every other operation, `ingress_control.handle` and unknown
/// names alike, goes to the ingress handler.
pub fn run_component_cbor<S, A, K>(
    operation: &str,
    input: &[u8],
    qa_spec: S,
    apply_answers: A,
    i18n_keys: K,
) -> (r: Result<Vec<u8>, String>) where
    S: Fn(String) -> JsonValue,
    A: Fn(String, JsonValue) -> JsonValue,
    K: Fn() -> Vec<String>,

    requires
        forall|mode: String| #[trigger] qa_spec.requires((mode,)),
        forall|mode: String, payload: JsonValue| #[trigger] apply_answers.requires((mode, payload)),
        i18n_keys.requires(()),
    ensures
        operation@ == "qa-spec"@ ==> exists|mode: String, doc: JsonValue|
            #[trigger] qa_spec.ensures((mode,), doc) && mode@ == spec_requested_mode(
                spec_parse_payload(input@),
            ) && bytes_result_view(r) == canonical_json_cbor(doc@),
        operation@ == "apply-answers"@ ==> exists|mode: String, payload: JsonValue, doc: JsonValue|
            #[trigger] apply_answers.ensures((mode, payload), doc) && mode@ == spec_requested_mode(
                spec_parse_payload(input@),
            ) && payload@ == spec_parse_payload(input@) && bytes_result_view(r)
                == canonical_json_cbor(doc@),
        operation@ == "i18n-keys"@ ==> exists|keys: Vec<String>|
            #[trigger] i18n_keys.ensures((), keys) && bytes_result_view(r) == canonical_json_cbor(
                keys_document(keys@),
            ),
        !is_qa_operation(operation@) ==> bytes_result_view(r) == canonical_json_cbor(
            spec_controller_handle(spec_parse_payload(input@)),
        ),
{
    proof {
        reveal_strlit("qa-spec");
        reveal_strlit("apply-answers");
        reveal_strlit("i18n-keys");
        assert("qa-spec"@.len() == 7 && "apply-answers"@.len() == 13 && "i18n-keys"@.len() == 9);
    }
    let value = parse_payload(input);
    if same_text(operation, "qa-spec") {
        let mode = requested_mode(&value);
        let doc = qa_spec(mode);
        encode_json_cbor(&doc)
    } else if same_text(operation, "apply-answers") {
        let mode = requested_mode(&value);
        let doc = apply_answers(mode, value);
        encode_json_cbor(&doc)
    } else if same_text(operation, "i18n-keys") {
        let keys = i18n_keys();
        let doc = keys_array(keys);
        encode_json_cbor(&doc)
    } else {
        let output = ingress_control_handle(&value);
        encode_json_cbor(&output)
    }
}

} // verus!
