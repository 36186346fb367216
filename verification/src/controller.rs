//! The controller component's host-side logic: its metadata and a minimal
//! ingress handler over JSON that routes by explicit path or by the
//! `refund` keyword.
use vstd::prelude::*;
use crate::dispatch_target::{TargetView, render_target, spec_parse_target};
use crate::json::{
    JsonValue, JsonView, object, array, text, text_or_null, add_member, get, as_str, json_get,
    json_as_str, members_view, items_view,
};
use crate::dispatch_target::parse_dispatch_target as parse_target;
use crate::text::{seq_contains, trimmed, lowercase, trim_text, to_lowercase, contains_text};

verus! {

/// The component's name.
pub const COMPONENT_NAME: &'static str = "controller";

/// The component's organisation.
pub const COMPONENT_ORG: &'static str = "ai.greentic";

/// The component's version.
pub const COMPONENT_VERSION: &'static str = "0.1.0";

/// A JSON object of the given members, as a view.
pub open spec fn jobj(m: Seq<(Seq<char>, JsonView)>) -> JsonView {
    JsonView::Object(m)
}

/// A JSON string, as a view.
pub open spec fn jtext(s: Seq<char>) -> JsonView {
    JsonView::Text(s)
}

/// A JSON string or null, as a view.
pub open spec fn jopt(s: Option<Seq<char>>) -> JsonView {
    match s {
        Some(t) => JsonView::Text(t),
        None => JsonView::Null,
    }
}

/// The component's metadata document.
pub open spec fn spec_describe() -> JsonView {
    jobj(
        seq![
            (
                "component"@,
                jobj(
                    seq![
                        ("name"@, jtext(COMPONENT_NAME@)),
                        ("org"@, jtext(COMPONENT_ORG@)),
                        ("version"@, jtext(COMPONENT_VERSION@)),
                        ("world"@, jtext("greentic:component/component@0.6.0"@)),
                        (
                            "schemas"@,
                            jobj(
                                seq![
                                    ("component"@, jtext("schemas/component.schema.json"@)),
                                    ("input"@, jtext("schemas/io/input.schema.json"@)),
                                    ("output"@, jtext("schemas/io/output.schema.json"@)),
                                ],
                            ),
                        ),
                    ],
                ),
            ),
        ],
    )
}

/// The component's metadata: name, organisation, version, world and schema
/// locations.
pub fn describe_payload() -> (d: JsonValue)
    ensures
        d@ == spec_describe(),
{
    let mut schemas: Vec<(String, JsonValue)> = Vec::new();
    assert(members_view(schemas@) =~= Seq::empty());
    add_member(&mut schemas, "component", text("schemas/component.schema.json"));
    add_member(&mut schemas, "input", text("schemas/io/input.schema.json"));
    add_member(&mut schemas, "output", text("schemas/io/output.schema.json"));
    assert(members_view(schemas@) =~= seq![
        ("component"@, jtext("schemas/component.schema.json"@)),
        ("input"@, jtext("schemas/io/input.schema.json"@)),
        ("output"@, jtext("schemas/io/output.schema.json"@)),
    ]);
    let mut component: Vec<(String, JsonValue)> = Vec::new();
    assert(members_view(component@) =~= Seq::empty());
    add_member(&mut component, "name", text(COMPONENT_NAME));
    add_member(&mut component, "org", text(COMPONENT_ORG));
    add_member(&mut component, "version", text(COMPONENT_VERSION));
    add_member(&mut component, "world", text("greentic:component/component@0.6.0"));
    add_member(&mut component, "schemas", object(schemas));
    let ghost sv = members_view(schemas@);
    assert(members_view(component@) =~= seq![
        ("name"@, jtext(COMPONENT_NAME@)),
        ("org"@, jtext(COMPONENT_ORG@)),
        ("version"@, jtext(COMPONENT_VERSION@)),
        ("world"@, jtext("greentic:component/component@0.6.0"@)),
        ("schemas"@, jobj(sv)),
    ]);
    let mut top: Vec<(String, JsonValue)> = Vec::new();
    assert(members_view(top@) =~= Seq::empty());
    add_member(&mut top, "component", object(component));
    let d = object(top);
    assert(members_view(top@) =~= seq![("component"@, JsonView::Object(members_view(component@)))]);
    d
}

/// The text of the message, when the input's `message` member holds a
/// string member `text`; the empty text otherwise.
pub open spec fn message_of(input: JsonView) -> Seq<char> {
    let t = match json_get(input, "message"@) {
        Some(m) => json_get(m, "text"@),
        None => None,
    };
    match json_as_str(t) {
        Some(s) => s,
        None => Seq::empty(),
    }
}

/// The text the keyword is searched in: the message, trimmed and lowercased.
pub open spec fn routing_text(input: JsonView) -> Seq<char> {
    lowercase(trimmed(message_of(input)))
}

/// The answer to a valid explicit path.
pub open spec fn dispatch_response(t: TargetView) -> JsonView {
    jobj(
        seq![
            ("v"@, JsonView::Integer(1)),
            ("action"@, jtext("dispatch"@)),
            (
                "dispatch"@,
                jobj(seq![("pack"@, jtext(t.pack)), ("flow"@, jopt(t.flow)), ("node"@, jopt(t.node))]),
            ),
            (
                "diag"@,
                jobj(
                    seq![
                        ("stage"@, JsonView::Integer(0)),
                        ("explicit_path_valid"@, JsonView::Bool(true)),
                        ("allow_llm"@, JsonView::Bool(false)),
                    ],
                ),
            ),
        ],
    )
}

/// The answer to an invalid explicit path: go on, reporting the error.
pub open spec fn invalid_path_response(e: Seq<char>) -> JsonView {
    jobj(
        seq![
            ("v"@, JsonView::Integer(1)),
            ("action"@, jtext("continue"@)),
            (
                "diag"@,
                jobj(
                    seq![
                        ("stage"@, JsonView::Integer(0)),
                        ("explicit_path_valid"@, JsonView::Bool(false)),
                        ("allow_llm"@, JsonView::Bool(false)),
                        (
                            "errors"@,
                            JsonView::Array(
                                seq![
                                    jobj(
                                        seq![
                                            ("code"@, jtext("invalid_explicit_path"@)),
                                            ("msg"@, jtext(e)),
                                        ],
                                    ),
                                ],
                            ),
                        ),
                    ],
                ),
            ),
        ],
    )
}

/// The answer to a message about a refund: dispatch to the refund flow.
pub open spec fn refund_response() -> JsonView {
    jobj(
        seq![
            ("v"@, JsonView::Integer(1)),
            ("action"@, jtext("dispatch"@)),
            (
                "dispatch"@,
                jobj(seq![("pack"@, jtext("commerce-support"@)), ("flow"@, jtext("flow_refund"@))]),
            ),
            (
                "diag"@,
                jobj(
                    seq![
                        ("stage"@, JsonView::Integer(1)),
                        ("matched_rule_id"@, jtext("keyword.refund"@)),
                        ("allow_llm"@, JsonView::Bool(false)),
                    ],
                ),
            ),
        ],
    )
}

/// The answer when nothing matched: go on.
pub open spec fn default_response() -> JsonView {
    jobj(
        seq![
            ("v"@, JsonView::Integer(1)),
            ("action"@, jtext("continue"@)),
            (
                "diag"@,
                jobj(seq![("stage"@, JsonView::Integer(1)), ("allow_llm"@, JsonView::Bool(false))]),
            ),
        ],
    )
}

/// The component's answer: a string `explicit_path` decides by itself;
/// otherwise a message mentioning `refund` goes to the refund flow.
pub open spec fn spec_controller_handle(input: JsonView) -> JsonView {
    match json_as_str(json_get(input, "explicit_path"@)) {
        Some(path) => match spec_parse_target(path) {
            Ok(t) => dispatch_response(t),
            Err(e) => invalid_path_response(e),
        },
        None => if seq_contains(routing_text(input), "refund"@) {
            refund_response()
        } else {
            default_response()
        },
    }
}

/// Parses a dispatch target into its pack, flow and node.
pub fn parse_dispatch_target(target: &str) -> (r: Result<(String, Option<String>, Option<String>), String>)
    ensures
        match r {
            Ok((p, f, n)) => spec_parse_target(target@) == Ok::<TargetView, Seq<char>>(
                TargetView {
                    pack: p@,
                    flow: crate::dispatch_target::opt_text(f),
                    node: crate::dispatch_target::opt_text(n),
                },
            ),
            Err(e) => spec_parse_target(target@) == Err::<TargetView, Seq<char>>(e@),
        },
{
    match parse_target(target) {
        Ok(d) => Ok((d.pack, d.flow, d.node)),
        Err(e) => Err(e),
    }
}

/// Whether `segment` is a valid segment of a dispatch target.
pub fn valid_segment(segment: &str) -> (b: bool)
    ensures
        b == crate::dispatch_target::valid_seg(segment@),
{
    crate::dispatch_target::valid_segment(segment)
}

/// The `diag` member shared by the stage-0 answers.
fn stage0_diag(valid: bool) -> (m: Vec<(String, JsonValue)>)
    ensures
        members_view(m@) == seq![
            ("stage"@, JsonView::Integer(0)),
            ("explicit_path_valid"@, JsonView::Bool(valid)),
            ("allow_llm"@, JsonView::Bool(false)),
        ],
{
    let mut m: Vec<(String, JsonValue)> = Vec::new();
    assert(members_view(m@) =~= Seq::empty());
    add_member(&mut m, "stage", JsonValue::Integer(0));
    add_member(&mut m, "explicit_path_valid", JsonValue::Bool(valid));
    add_member(&mut m, "allow_llm", JsonValue::Bool(false));
    assert(members_view(m@) =~= seq![
        ("stage"@, JsonView::Integer(0)),
        ("explicit_path_valid"@, JsonView::Bool(valid)),
        ("allow_llm"@, JsonView::Bool(false)),
    ]);
    m
}

/// An answer of version 1 with the given action and members.
fn envelope(action: &str, rest: Vec<(String, JsonValue)>) -> (v: JsonValue)
    ensures
        v@ == jobj(seq![("v"@, JsonView::Integer(1)), ("action"@, jtext(action@))] + members_view(rest@)),
{
    let mut m: Vec<(String, JsonValue)> = Vec::new();
    assert(members_view(m@) =~= Seq::empty());
    add_member(&mut m, "v", JsonValue::Integer(1));
    add_member(&mut m, "action", text(action));
    let ghost head = members_view(m@);
    assert(head =~= seq![("v"@, JsonView::Integer(1)), ("action"@, jtext(action@))]);
    let ghost tail = members_view(rest@);
    let mut rest = rest;
    m.append(&mut rest);
    assert(members_view(m@) =~= head + tail);
    object(m)
}

/// The answer to a valid explicit path.
fn dispatch_answer(d: (String, Option<String>, Option<String>)) -> (v: JsonValue)
    ensures
        v@ == dispatch_response(
            TargetView {
                pack: d.0@,
                flow: crate::dispatch_target::opt_text(d.1),
                node: crate::dispatch_target::opt_text(d.2),
            },
        ),
{
    let (pack, flow, node) = d;
    let ghost pv = pack@;
    let ghost fv = crate::dispatch_target::opt_text(flow);
    let ghost nv = crate::dispatch_target::opt_text(node);
    let mut dm: Vec<(String, JsonValue)> = Vec::new();
    assert(members_view(dm@) =~= Seq::empty());
    add_member(&mut dm, "pack", JsonValue::Text(pack));
    add_member(&mut dm, "flow", text_or_null(flow));
    add_member(&mut dm, "node", text_or_null(node));
    let ghost dv = members_view(dm@);
    assert(dv =~= seq![("pack"@, jtext(pv)), ("flow"@, jopt(fv)), ("node"@, jopt(nv))]);
    let diag = stage0_diag(true);
    let ghost gv = members_view(diag@);
    let mut rest: Vec<(String, JsonValue)> = Vec::new();
    assert(members_view(rest@) =~= Seq::empty());
    add_member(&mut rest, "dispatch", object(dm));
    add_member(&mut rest, "diag", object(diag));
    let v = envelope("dispatch", rest);
    proof {
        reveal_strlit("dispatch");
    }
    assert(seq![("v"@, JsonView::Integer(1)), ("action"@, jtext("dispatch"@))] + members_view(
        rest@,
    ) =~= seq![
        ("v"@, JsonView::Integer(1)),
        ("action"@, jtext("dispatch"@)),
        ("dispatch"@, jobj(dv)),
        ("diag"@, jobj(gv)),
    ]);
    v
}

/// The answer to an invalid explicit path.
fn invalid_path_answer(e: String) -> (v: JsonValue)
    ensures
        v@ == invalid_path_response(e@),
{
    let ghost ev = e@;
    let mut err: Vec<(String, JsonValue)> = Vec::new();
    assert(members_view(err@) =~= Seq::empty());
    add_member(&mut err, "code", text("invalid_explicit_path"));
    add_member(&mut err, "msg", JsonValue::Text(e));
    let ghost errv = members_view(err@);
    assert(errv =~= seq![("code"@, jtext("invalid_explicit_path"@)), ("msg"@, jtext(ev))]);
    let mut items: Vec<JsonValue> = Vec::new();
    items.push(object(err));
    let errors = array(items);
    let ghost ev2 = errors@;
    assert(items_view(items@) =~= seq![jobj(errv)]);
    let mut diag = stage0_diag(false);
    add_member(&mut diag, "errors", errors);
    let ghost gv = members_view(diag@);
    let mut rest: Vec<(String, JsonValue)> = Vec::new();
    assert(members_view(rest@) =~= Seq::empty());
    add_member(&mut rest, "diag", object(diag));
    let v = envelope("continue", rest);
    assert(seq![("v"@, JsonView::Integer(1)), ("action"@, jtext("continue"@))] + members_view(
        rest@,
    ) =~= seq![("v"@, JsonView::Integer(1)), ("action"@, jtext("continue"@)), ("diag"@, jobj(gv))]);
    assert(gv =~= seq![
        ("stage"@, JsonView::Integer(0)),
        ("explicit_path_valid"@, JsonView::Bool(false)),
        ("allow_llm"@, JsonView::Bool(false)),
        ("errors"@, JsonView::Array(seq![jobj(errv)])),
    ]);
    v
}

/// The answer to a message about a refund.
fn refund_answer() -> (v: JsonValue)
    ensures
        v@ == refund_response(),
{
    let mut dm: Vec<(String, JsonValue)> = Vec::new();
    assert(members_view(dm@) =~= Seq::empty());
    add_member(&mut dm, "pack", text("commerce-support"));
    add_member(&mut dm, "flow", text("flow_refund"));
    let ghost dv = members_view(dm@);
    assert(dv =~= seq![("pack"@, jtext("commerce-support"@)), ("flow"@, jtext("flow_refund"@))]);
    let mut diag: Vec<(String, JsonValue)> = Vec::new();
    assert(members_view(diag@) =~= Seq::empty());
    add_member(&mut diag, "stage", JsonValue::Integer(1));
    add_member(&mut diag, "matched_rule_id", text("keyword.refund"));
    add_member(&mut diag, "allow_llm", JsonValue::Bool(false));
    let ghost gv = members_view(diag@);
    assert(gv =~= seq![
        ("stage"@, JsonView::Integer(1)),
        ("matched_rule_id"@, jtext("keyword.refund"@)),
        ("allow_llm"@, JsonView::Bool(false)),
    ]);
    let mut rest: Vec<(String, JsonValue)> = Vec::new();
    assert(members_view(rest@) =~= Seq::empty());
    add_member(&mut rest, "dispatch", object(dm));
    add_member(&mut rest, "diag", object(diag));
    let v = envelope("dispatch", rest);
    assert(seq![("v"@, JsonView::Integer(1)), ("action"@, jtext("dispatch"@))] + members_view(
        rest@,
    ) =~= seq![
        ("v"@, JsonView::Integer(1)),
        ("action"@, jtext("dispatch"@)),
        ("dispatch"@, jobj(dv)),
        ("diag"@, jobj(gv)),
    ]);
    v
}

/// The answer when nothing matched.
fn default_answer() -> (v: JsonValue)
    ensures
        v@ == default_response(),
{
    let mut diag: Vec<(String, JsonValue)> = Vec::new();
    assert(members_view(diag@) =~= Seq::empty());
    add_member(&mut diag, "stage", JsonValue::Integer(1));
    add_member(&mut diag, "allow_llm", JsonValue::Bool(false));
    let ghost gv = members_view(diag@);
    assert(gv =~= seq![("stage"@, JsonView::Integer(1)), ("allow_llm"@, JsonView::Bool(false))]);
    let mut rest: Vec<(String, JsonValue)> = Vec::new();
    assert(members_view(rest@) =~= Seq::empty());
    add_member(&mut rest, "diag", object(diag));
    let v = envelope("continue", rest);
    assert(seq![("v"@, JsonView::Integer(1)), ("action"@, jtext("continue"@))] + members_view(
        rest@,
    ) =~= seq![("v"@, JsonView::Integer(1)), ("action"@, jtext("continue"@)), ("diag"@, jobj(gv))]);
    v
}

/// The component's ingress handler: a string `explicit_path` decides by
/// itself (dispatch when valid, go on with the error otherwise); else a
/// message whose trimmed, lowercased text mentions `refund` goes to the
/// refund flow, and anything else goes on.
pub fn ingress_control_handle(value: &JsonValue) -> (r: JsonValue)
    ensures
        r@ == spec_controller_handle(value@),
{
    if let Some(path) = as_str(get(value, "explicit_path")) {
        return match parse_dispatch_target(path) {
            Ok(d) => dispatch_answer(d),
            Err(err) => invalid_path_answer(err),
        };
    }
    let message = get(value, "message");
    let t = match message {
        Some(m) => get(m, "text"),
        None => None,
    };
    let raw = match as_str(t) {
        Some(s) => s,
        None => "",
    };
    proof {
        reveal_strlit("");
        assert(trimmed(Seq::<char>::empty()) == Seq::<char>::empty());
    }
    let trimmed_text = trim_text(raw);
    let chosen = if trimmed_text.is_empty() {
        ""
    } else {
        trimmed_text
    };
    assert(raw@ == message_of(value@));
    assert(chosen@ =~= trimmed(raw@));
    let lowered = to_lowercase(chosen);
    if contains_text(lowered.as_str(), "refund") {
        refund_answer()
    } else {
        default_answer()
    }
}

/// The target a JSON dispatch object names: its `pack` text, with its
/// `flow` and `node` where they are texts.
pub open spec fn json_target(d: JsonView) -> Option<TargetView> {
    match json_as_str(json_get(d, "pack"@)) {
        Some(pack) => Some(
            TargetView {
                pack,
                flow: json_as_str(json_get(d, "flow"@)),
                node: json_as_str(json_get(d, "node"@)),
            },
        ),
        None => None,
    }
}

/// A string `explicit_path` that parses as a target is answered with a
/// dispatch at stage 0 whose `dispatch` object carries that target's pack,
/// flow and node, each segment of the path in its member (`flow` and
/// `node` null where the path has none), so that it renders back to the
/// explicit path.
pub proof fn law_explicit_path_dispatch_carries_the_path(input: JsonView, path: Seq<char>)
    requires
        json_as_str(json_get(input, "explicit_path"@)) == Some(path),
        spec_parse_target(path) is Ok,
    ensures
        json_get(spec_controller_handle(input), "action"@) == Some(JsonView::Text("dispatch"@)),
        json_get(spec_controller_handle(input), "dispatch"@) matches Some(d) && {
            &&& json_target(d) == Some(spec_parse_target(path)->Ok_0)
            &&& render_target(spec_parse_target(path)->Ok_0) == path
            &&& json_get(d, "flow"@) is Some
            &&& json_get(d, "node"@) is Some
        },
        json_get(spec_controller_handle(input), "diag"@) matches Some(g) && json_get(g, "stage"@)
            == Some(JsonView::Integer(0)) && json_get(g, "explicit_path_valid"@) == Some(
            JsonView::Bool(true),
        ),
{
    crate::dispatch_target::law_parsed_target_renders_back(path);
    reveal_strlit("v");
    reveal_strlit("action");
    reveal_strlit("dispatch");
    reveal_strlit("diag");
    reveal_strlit("pack");
    reveal_strlit("flow");
    reveal_strlit("node");
    reveal_strlit("stage");
    reveal_strlit("explicit_path_valid");
    reveal_with_fuel(crate::json::member_for, 5);
    assert("v"@.len() == 1 && "action"@.len() == 6 && "dispatch"@.len() == 8 && "diag"@.len() == 4);
    assert("pack"@[0] == 'p' && "flow"@[0] == 'f' && "node"@[0] == 'n');
    assert("pack"@ != "flow"@ && "pack"@ != "node"@ && "flow"@ != "node"@);
    reveal_strlit("allow_llm");
    assert("stage"@.len() == 5 && "explicit_path_valid"@.len() == 19 && "allow_llm"@.len() == 9);
}

/// Without a string `explicit_path`, a message text whose trimmed,
/// lowercased form contains `refund` somewhere is dispatched to the refund
/// flow of `commerce-support`; any other message text is answered with
/// going on, and no dispatch.
pub proof fn law_refund_keyword_routes(input: JsonView, message: Seq<char>)
    requires
        json_as_str(json_get(input, "explicit_path"@)) is None,
        json_get(input, "message"@) matches Some(m) && json_as_str(json_get(m, "text"@)) == Some(
            message,
        ),
    ensures
        (exists|i: int|
            0 <= i && i + "refund"@.len() <= lowercase(trimmed(message)).len()
                && #[trigger] lowercase(trimmed(message)).subrange(i, i + "refund"@.len())
                == "refund"@) ==> {
            &&& json_get(spec_controller_handle(input), "action"@) == Some(
                JsonView::Text("dispatch"@),
            )
            &&& json_get(spec_controller_handle(input), "dispatch"@) matches Some(d) && json_target(d)
                == Some(
                TargetView { pack: "commerce-support"@, flow: Some("flow_refund"@), node: None },
            )
        },
        !(exists|i: int|
            0 <= i && i + "refund"@.len() <= lowercase(trimmed(message)).len()
                && #[trigger] lowercase(trimmed(message)).subrange(i, i + "refund"@.len())
                == "refund"@) ==> {
            &&& json_get(spec_controller_handle(input), "action"@) == Some(
                JsonView::Text("continue"@),
            )
            &&& json_get(spec_controller_handle(input), "dispatch"@) is None
        },
{
    crate::text::lemma_contains_is_some_stretch(lowercase(trimmed(message)), "refund"@);
    reveal_strlit("v");
    reveal_strlit("action");
    reveal_strlit("dispatch");
    reveal_strlit("continue");
    reveal_strlit("diag");
    reveal_strlit("pack");
    reveal_strlit("flow");
    reveal_strlit("node");
    reveal_with_fuel(crate::json::member_for, 5);
    assert("v"@.len() == 1 && "action"@.len() == 6 && "dispatch"@.len() == 8 && "diag"@.len() == 4);
    assert("pack"@[0] == 'p' && "flow"@[0] == 'f' && "node"@[0] == 'n');
    assert("pack"@ != "flow"@ && "pack"@ != "node"@ && "flow"@ != "node"@);
}

} // verus!
