//! The ingress control handler: from an inbound request, the pack's policy
//! and its routing rules to a versioned directive.
use vstd::prelude::*;
use crate::assets::{AssetErrorView, load_policy, spec_default_policy, spec_load_policy};
use crate::cbor::{CborValue, CborView, entry_for, lemma_entry_for_prefix, table_view};
use crate::dispatch_target::{
    opt_text, parse_dispatch_target, spec_parse_target, well_formed_target, law_parsed_target_renders_back,
};
use crate::rules::{
    CompiledOutcome, CompiledRule, OutcomeView, RuleView, find_match, first_match,
    load_rules, rules_view, spec_load_rules, spec_compile_all, spec_compile_rule, law_first_match_wins,
};
use crate::text::{is_blank, is_blank_str, owned, same_text};

pub use crate::assets::{Asset, AssetError, Policy, PolicyV1};
pub use crate::dispatch_target::{DispatchPayload, TargetView};
pub use crate::rules::{RuleDenyV1, RuleThenV1, RuleV1, RuleWhenV1, RulesV1};

verus! {

/// A denial: a code, a reason and optional details.
#[derive(Debug)]
pub struct DenyPayload {
    pub code: String,
    pub reason: String,
    pub details: Option<Vec<(String, CborValue)>>,
}

/// The mathematical form of a denial.
pub struct DenyView {
    pub code: Seq<char>,
    pub reason: Seq<char>,
    pub details: Option<Seq<(Seq<char>, CborView)>>,
}

/// The view of optional details.
pub open spec fn details_view(d: Option<Vec<(String, CborValue)>>) -> Option<Seq<(Seq<char>, CborView)>> {
    match d {
        Some(v) => Some(table_view(v@)),
        None => None,
    }
}

impl View for DenyPayload {
    type V = DenyView;

    open spec fn view(&self) -> DenyView {
        DenyView { code: self.code@, reason: self.reason@, details: details_view(self.details) }
    }
}

/// What a directive tells the host to do.
#[derive(Debug, Clone, Copy, PartialEq, Eq, Structural)]
pub enum Action {
    Dispatch,
    Respond,
    Continue,
    Deny,
}

/// A direct answer to the user.
#[derive(Debug)]
pub struct RespondPayload {
    pub text: String,
    pub needs_user: bool,
}

/// The mathematical form of an answer.
pub struct RespondView {
    pub text: Seq<char>,
    pub needs_user: bool,
}

impl View for RespondPayload {
    type V = RespondView;

    open spec fn view(&self) -> RespondView {
        RespondView { text: self.text@, needs_user: self.needs_user }
    }
}

/// A problem met on the way to a directive.
#[derive(Debug)]
pub struct DiagError {
    pub code: String,
    pub msg: String,
}

/// How a directive was reached: the stage (0 for the explicit path and the
/// assets, 1 for the rules), the rule that matched, whether the explicit
/// path was valid, what the policy blocked, and the problems met.
#[derive(Debug)]
pub struct Diag {
    pub stage: u8,
    pub matched_rule_id: Option<String>,
    pub explicit_path_valid: Option<bool>,
    pub policy_blocked: Option<String>,
    pub allow_llm: bool,
    pub errors: Vec<DiagError>,
}

/// The mathematical form of a diagnosis; each error is a code and a message.
pub struct DiagView {
    pub stage: u8,
    pub matched_rule_id: Option<Seq<char>>,
    pub explicit_path_valid: Option<bool>,
    pub policy_blocked: Option<Seq<char>>,
    pub allow_llm: bool,
    pub errors: Seq<(Seq<char>, Seq<char>)>,
}

/// The views of diagnosis errors.
pub open spec fn errors_view(v: Seq<DiagError>) -> Seq<(Seq<char>, Seq<char>)> {
    Seq::new(v.len(), |i: int| (v[i].code@, v[i].msg@))
}

impl View for Diag {
    type V = DiagView;

    open spec fn view(&self) -> DiagView {
        DiagView {
            stage: self.stage,
            matched_rule_id: opt_text(self.matched_rule_id),
            explicit_path_valid: self.explicit_path_valid,
            policy_blocked: opt_text(self.policy_blocked),
            allow_llm: self.allow_llm,
            errors: errors_view(self.errors@),
        }
    }
}

/// The versioned envelope the handler answers with. Exactly the payload
/// that its action calls for is present.
#[derive(Debug)]
pub struct Directive {
    pub v: u8,
    pub action: Action,
    pub dispatch: Option<DispatchPayload>,
    pub respond: Option<RespondPayload>,
    pub deny: Option<DenyPayload>,
    pub diag: Option<Diag>,
}

/// The mathematical form of a directive.
pub struct DirectiveView {
    pub v: u8,
    pub action: Action,
    pub dispatch: Option<TargetView>,
    pub respond: Option<RespondView>,
    pub deny: Option<DenyView>,
    pub diag: Option<DiagView>,
}

impl View for Directive {
    type V = DirectiveView;

    open spec fn view(&self) -> DirectiveView {
        DirectiveView {
            v: self.v,
            action: self.action,
            dispatch: match self.dispatch {
                Some(d) => Some(d@),
                None => None,
            },
            respond: match self.respond {
                Some(r) => Some(r@),
                None => None,
            },
            deny: match self.deny {
                Some(d) => Some(d@),
                None => None,
            },
            diag: match self.diag {
                Some(d) => Some(d@),
                None => None,
            },
        }
    }
}

/// A directive to go on with the host's default handling.
pub open spec fn continue_view(diag: DiagView) -> DirectiveView {
    DirectiveView {
        v: 1,
        action: Action::Continue,
        dispatch: None,
        respond: None,
        deny: None,
        diag: Some(diag),
    }
}

/// A directive to dispatch to `target`.
pub open spec fn dispatch_view(target: TargetView, diag: DiagView) -> DirectiveView {
    DirectiveView {
        v: 1,
        action: Action::Dispatch,
        dispatch: Some(target),
        respond: None,
        deny: None,
        diag: Some(diag),
    }
}

/// A directive to answer with `text`.
pub open spec fn respond_view(text: Seq<char>, needs_user: bool, diag: DiagView) -> DirectiveView {
    DirectiveView {
        v: 1,
        action: Action::Respond,
        dispatch: None,
        respond: Some(RespondView { text, needs_user }),
        deny: None,
        diag: Some(diag),
    }
}

/// A directive to deny.
pub open spec fn deny_view(deny: DenyView, diag: DiagView) -> DirectiveView {
    DirectiveView {
        v: 1,
        action: Action::Deny,
        dispatch: None,
        respond: None,
        deny: Some(deny),
        diag: Some(diag),
    }
}

/// The diagnosis the handler starts from.
pub open spec fn initial_diag(allow_llm: bool) -> DiagView {
    DiagView {
        stage: 0,
        matched_rule_id: None,
        explicit_path_valid: None,
        policy_blocked: None,
        allow_llm,
        errors: Seq::empty(),
    }
}

/// A diagnosis with one more error.
pub open spec fn with_error(d: DiagView, code: Seq<char>, msg: Seq<char>) -> DiagView {
    DiagView { errors: d.errors.push((code, msg)), ..d }
}

/// The text of an inbound entry: a text value that is not blank.
pub open spec fn nonblank_text(v: CborValue) -> Option<Seq<char>> {
    match v {
        CborValue::Text(s) => if is_blank(s@) {
            None
        } else {
            Some(s@)
        },
        _ => None,
    }
}

/// The non-blank text stored under `key` in the inbound request.
pub open spec fn optional_text(inbound: Seq<(String, CborValue)>, key: Seq<char>) -> Option<Seq<char>> {
    match entry_for(inbound, key) {
        Some(v) => nonblank_text(v),
        None => None,
    }
}

/// A message entry holding the message's text: key `text`, a non-blank text value.
pub open spec fn is_text_field(e: (CborValue, CborValue)) -> bool {
    &&& e.0 matches CborValue::Text(k) && k@ == "text"@
    &&& nonblank_text(e.1) is Some
}

/// The text of the first entry of a message that holds it.
pub open spec fn text_field(entries: Seq<(CborValue, CborValue)>) -> Option<Seq<char>>
    decreases entries.len(),
{
    if entries.len() == 0 {
        None
    } else {
        match text_field(entries.drop_last()) {
            Some(t) => Some(t),
            None => if is_text_field(entries.last()) {
                nonblank_text(entries.last().1)
            } else {
                None
            },
        }
    }
}

/// The text of the inbound message: the request's `message` entry is a
/// map, and its `text` entry a non-blank text.
pub open spec fn message_text(inbound: Seq<(String, CborValue)>) -> Option<Seq<char>> {
    match entry_for(inbound, "message"@) {
        Some(CborValue::Mapping(entries)) => text_field(entries@),
        _ => None,
    }
}

/// The details of a denial for an invalid rules asset.
pub open spec fn rules_error_details(msg: Seq<char>, rule_id: Option<Seq<char>>) -> Seq<(Seq<char>, CborView)> {
    match rule_id {
        Some(id) => seq![("error"@, CborView::Text(msg)), ("rule_id"@, CborView::Text(id))],
        None => seq![("error"@, CborView::Text(msg))],
    }
}

/// The directive a matched rule gives. A response the policy does not allow
/// is downgraded to going on, and the diagnosis says so.
pub open spec fn rule_decision(rule: RuleView, policy: Policy, diag: DiagView) -> DirectiveView {
    match rule.outcome {
        OutcomeView::Dispatch(t) => dispatch_view(t, diag),
        OutcomeView::Continue => continue_view(diag),
        OutcomeView::Deny(d) => deny_view(d, diag),
        OutcomeView::Respond { text, needs_user } => if policy.allow_respond {
            respond_view(text, needs_user, diag)
        } else {
            continue_view(DiagView { policy_blocked: Some("respond"@), ..diag })
        },
    }
}

/// The decision once the explicit path did not settle it: by the rules, on
/// the message text.
pub open spec fn decide_by_rules(
    inbound: Seq<(String, CborValue)>,
    policy: Policy,
    rules: Asset<RulesV1>,
    diag: DiagView,
) -> DirectiveView {
    match message_text(inbound) {
        None => continue_view(diag),
        Some(text) => match spec_load_rules(rules) {
            Ok(None) => continue_view(diag),
            Err(AssetErrorView::Missing) => continue_view(diag),
            Err(AssetErrorView::Invalid { msg, rule_id }) => deny_view(
                DenyView {
                    code: "invalid_rules_asset"@,
                    reason: "rules.cbor failed validation"@,
                    details: Some(rules_error_details(msg, rule_id)),
                },
                with_error(diag, "invalid_rules_asset"@, msg),
            ),
            Ok(Some(compiled)) => match first_match(compiled, text) {
                None => continue_view(diag),
                Some(i) => rule_decision(
                    compiled[i],
                    policy,
                    DiagView { stage: 1, matched_rule_id: Some(compiled[i].id), ..diag },
                ),
            },
        },
    }
}

/// The directive for an inbound request, given the pack's policy and rules
/// assets. An invalid policy denies; a missing one allows neither responses
/// nor a language model. A valid explicit path dispatches at once; an
/// invalid one is reported and the rules decide, first match first.
pub open spec fn spec_handle(
    inbound: Seq<(String, CborValue)>,
    policy: Asset<PolicyV1>,
    rules: Asset<RulesV1>,
) -> DirectiveView {
    match spec_load_policy(policy) {
        Err(AssetErrorView::Invalid { msg, rule_id }) => deny_view(
            DenyView {
                code: "invalid_policy_asset"@,
                reason: "policy.cbor failed validation"@,
                details: Some(seq![("error"@, CborView::Text(msg))]),
            },
            with_error(initial_diag(false), "invalid_policy_asset"@, msg),
        ),
        loaded => {
            let pol = match loaded {
                Ok(p) => p,
                _ => Policy { allow_respond: false, allow_llm: false },
            };
            let diag = initial_diag(pol.allow_llm);
            match optional_text(inbound, "explicit_path"@) {
                Some(path) => match spec_parse_target(path) {
                    Ok(t) => dispatch_view(t, DiagView { explicit_path_valid: Some(true), ..diag }),
                    Err(e) => decide_by_rules(
                        inbound,
                        pol,
                        rules,
                        with_error(
                            DiagView { explicit_path_valid: Some(false), ..diag },
                            "invalid_explicit_path"@,
                            e,
                        ),
                    ),
                },
                None => decide_by_rules(inbound, pol, rules, diag),
            }
        },
    }
}

/// A directive to go on with the host's default handling.
fn continue_directive(diag: Diag) -> (r: Directive)
    ensures
        r@ == continue_view(diag@),
{
    Directive { v: 1, action: Action::Continue, dispatch: None, respond: None, deny: None, diag: Some(diag) }
}

/// A directive to dispatch.
fn dispatch_directive(dispatch: DispatchPayload, diag: Diag) -> (r: Directive)
    ensures
        r@ == dispatch_view(dispatch@, diag@),
{
    Directive {
        v: 1,
        action: Action::Dispatch,
        dispatch: Some(dispatch),
        respond: None,
        deny: None,
        diag: Some(diag),
    }
}

/// A directive to deny, with a code, a reason and optional details.
fn deny_directive(
    diag: Diag,
    code: &str,
    reason: &str,
    details: Option<Vec<(String, CborValue)>>,
) -> (r: Directive)
    ensures
        r@ == deny_view(
            DenyView { code: code@, reason: reason@, details: details_view(details) },
            diag@,
        ),
{
    Directive {
        v: 1,
        action: Action::Deny,
        dispatch: None,
        respond: None,
        deny: Some(DenyPayload { code: owned(code), reason: owned(reason), details }),
        diag: Some(diag),
    }
}

/// Adds an error to a diagnosis.
fn push_error(diag: &mut Diag, code: &str, msg: String)
    ensures
        final(diag)@ == with_error(old(diag)@, code@, msg@),
{
    let ghost before = diag.errors@;
    diag.errors.push(DiagError { code: owned(code), msg });
    assert(errors_view(diag.errors@) =~= errors_view(before).push((code@, msg@)));
}

/// The text of an inbound entry, when it is a text that is not blank.
fn nonblank_text_of(v: &CborValue) -> (r: Option<String>)
    ensures
        opt_text(r) == nonblank_text(*v),
{
    match v {
        CborValue::Text(s) => {
            if is_blank_str(s.as_str()) {
                None
            } else {
                Some(s.clone())
            }
        },
        _ => None,
    }
}

/// The entry of the inbound request under `key`, if any.
fn lookup<'a>(inbound: &'a Vec<(String, CborValue)>, key: &str) -> (r: Option<&'a CborValue>)
    ensures
        match r {
            Some(v) => entry_for(inbound@, key@) == Some(*v),
            None => entry_for(inbound@, key@) is None,
        },
{
    let mut i: usize = 0;
    while i < inbound.len()
        invariant
            i <= inbound@.len(),
            entry_for(inbound@.take(i as int), key@) is None,
        decreases inbound.len() - i,
    {
        proof {
            lemma_entry_for_prefix(inbound@, key@, i as int);
        }
        if same_text(inbound[i].0.as_str(), key) {
            proof {
                lemma_entry_for_found(inbound@, key@, i as int + 1);
            }
            return Some(&inbound[i].1);
        }
        i = i + 1;
    }
    assert(inbound@.take(i as int) =~= inbound@);
    None
}

/// A value found among the first `n` entries is the value found among all.
pub proof fn lemma_entry_for_found(entries: Seq<(String, CborValue)>, key: Seq<char>, n: int)
    requires
        0 <= n <= entries.len(),
        entry_for(entries.take(n), key) is Some,
    ensures
        entry_for(entries, key) == entry_for(entries.take(n), key),
    decreases entries.len(),
{
    if n == entries.len() {
        assert(entries.take(n) =~= entries);
    } else {
        assert(entries.drop_last().take(n) =~= entries.take(n));
        lemma_entry_for_found(entries.drop_last(), key, n);
    }
}

/// The non-blank text stored under `key` in the inbound request.
fn read_optional_text(inbound: &Vec<(String, CborValue)>, key: &str) -> (r: Option<String>)
    ensures
        opt_text(r) == optional_text(inbound@, key@),
{
    match lookup(inbound, key) {
        Some(v) => nonblank_text_of(v),
        None => None,
    }
}

/// A text found among the first `n` entries of a message is its text.
pub proof fn lemma_text_field_found(entries: Seq<(CborValue, CborValue)>, n: int)
    requires
        0 <= n <= entries.len(),
        text_field(entries.take(n)) is Some,
    ensures
        text_field(entries) == text_field(entries.take(n)),
    decreases entries.len(),
{
    if n == entries.len() {
        assert(entries.take(n) =~= entries);
    } else {
        assert(entries.drop_last().take(n) =~= entries.take(n));
        lemma_text_field_found(entries.drop_last(), n);
    }
}

/// The text of the inbound message.
fn read_message_text(inbound: &Vec<(String, CborValue)>) -> (r: Option<String>)
    ensures
        opt_text(r) == message_text(inbound@),
{
    let msg = match lookup(inbound, "message") {
        Some(m) => m,
        None => return None,
    };
    let entries = match msg {
        CborValue::Mapping(entries) => entries,
        _ => return None,
    };
    let mut i: usize = 0;
    while i < entries.len()
        invariant
            i <= entries@.len(),
            message_text(inbound@) == text_field(entries@),
            text_field(entries@.take(i as int)) is None,
        decreases entries.len() - i,
    {
        assert(entries@.take(i + 1).drop_last() =~= entries@.take(i as int));
        assert(entries@.take(i + 1).last() == entries@[i as int]);
        let (k, v) = (&entries[i].0, &entries[i].1);
        let is_key = match k {
            CborValue::Text(key) => same_text(key.as_str(), "text"),
            _ => false,
        };
        if is_key {
            let t = nonblank_text_of(v);
            if t.is_some() {
                proof {
                    lemma_text_field_found(entries@, i as int + 1);
                }
                return t;
            }
        }
        i = i + 1;
    }
    assert(entries@.take(i as int) =~= entries@);
    None
}

/// The directive a matched rule gives, at stage 1 with the rule's id.
fn apply_rule(rule: CompiledRule, policy: Policy, diag: Diag) -> (r: Directive)
    ensures
        r@ == rule_decision(
            rule@,
            policy,
            DiagView { stage: 1, matched_rule_id: Some(rule@.id), ..diag@ },
        ),
{
    let mut diag = diag;
    let CompiledRule { id, kind: _, outcome } = rule;
    diag.stage = 1;
    diag.matched_rule_id = Some(id);
    match outcome {
        CompiledOutcome::Dispatch(dispatch) => dispatch_directive(dispatch, diag),
        CompiledOutcome::Continue => continue_directive(diag),
        CompiledOutcome::Deny(deny) => Directive {
            v: 1,
            action: Action::Deny,
            dispatch: None,
            respond: None,
            deny: Some(deny),
            diag: Some(diag),
        },
        CompiledOutcome::Respond { text, needs_user } => {
            if policy.allow_respond {
                Directive {
                    v: 1,
                    action: Action::Respond,
                    dispatch: None,
                    respond: Some(RespondPayload { text, needs_user }),
                    deny: None,
                    diag: Some(diag),
                }
            } else {
                diag.policy_blocked = Some(owned("respond"));
                continue_directive(diag)
            }
        },
    }
}

/// The details of a denial: the error, and the rule it concerns if any.
fn error_details(msg: String, rule_id: Option<String>) -> (d: Vec<(String, CborValue)>)
    ensures
        table_view(d@) == rules_error_details(msg@, opt_text(rule_id)),
{
    let ghost m = msg@;
    let mut d: Vec<(String, CborValue)> = Vec::new();
    d.push((owned("error"), CborValue::Text(msg)));
    match rule_id {
        Some(id) => {
            let ghost i = id@;
            d.push((owned("rule_id"), CborValue::Text(id)));
            assert(table_view(d@) =~= seq![("error"@, CborView::Text(m)), ("rule_id"@, CborView::Text(i))]);
        },
        None => {
            assert(table_view(d@) =~= seq![("error"@, CborView::Text(m))]);
        },
    }
    d
}

/// The decision by the rules, on the message text.
fn decide_by_rules_exec(
    inbound: &Vec<(String, CborValue)>,
    policy: Policy,
    rules: Asset<RulesV1>,
    diag: Diag,
) -> (r: Directive)
    ensures
        r@ == decide_by_rules(inbound@, policy, rules, diag@),
{
    let mut diag = diag;
    let text = match read_message_text(inbound) {
        None => return continue_directive(diag),
        Some(t) => t,
    };
    let mut compiled = match load_rules(rules) {
        Ok(Some(compiled)) => compiled,
        Ok(None) => return continue_directive(diag),
        Err(AssetError::Missing) => return continue_directive(diag),
        Err(AssetError::Invalid { msg, rule_id }) => {
            push_error(&mut diag, "invalid_rules_asset", msg.clone());
            let details = error_details(msg, rule_id);
            return deny_directive(
                diag,
                "invalid_rules_asset",
                "rules.cbor failed validation",
                Some(details),
            );
        },
    };
    match find_match(&compiled, text.as_str()) {
        None => continue_directive(diag),
        Some(i) => {
            let ghost views = rules_view(compiled@);
            let rule = compiled.remove(i);
            assert(rule@ == views[i as int]);
            apply_rule(rule, policy, diag)
        },
    }
}

/// The directive for an inbound request, given the pack's policy and rules
/// assets as they were found.
pub fn handle_with_assets(
    inbound: &Vec<(String, CborValue)>,
    policy: Asset<PolicyV1>,
    rules: Asset<RulesV1>,
) -> (r: Directive)
    ensures
        r@ == spec_handle(inbound@, policy, rules),
{
    let mut diag = Diag {
        stage: 0,
        matched_rule_id: None,
        explicit_path_valid: None,
        policy_blocked: None,
        allow_llm: false,
        errors: Vec::new(),
    };
    assert(diag@.errors =~= Seq::<(Seq<char>, Seq<char>)>::empty());
    let pol = match load_policy(policy) {
        Ok(p) => p,
        Err(AssetError::Missing) => Policy { allow_respond: false, allow_llm: false },
        Err(AssetError::Invalid { msg, rule_id: _ }) => {
            push_error(&mut diag, "invalid_policy_asset", msg.clone());
            let details = error_details(msg, None);
            return deny_directive(
                diag,
                "invalid_policy_asset",
                "policy.cbor failed validation",
                Some(details),
            );
        },
    };
    diag.allow_llm = pol.allow_llm;
    match read_optional_text(inbound, "explicit_path") {
        Some(explicit_path) => match parse_dispatch_target(explicit_path.as_str()) {
            Ok(dispatch) => {
                diag.stage = 0;
                diag.explicit_path_valid = Some(true);
                return dispatch_directive(dispatch, diag);
            },
            Err(e) => {
                diag.stage = 0;
                diag.explicit_path_valid = Some(false);
                push_error(&mut diag, "invalid_explicit_path", e);
            },
        },
        None => {},
    }
    decide_by_rules_exec(inbound, pol, rules, diag)
}

/// Exactly the payload that the action calls for is present.
pub open spec fn envelope_consistent(d: DirectiveView) -> bool {
    &&& d.v == 1
    &&& d.diag is Some
    &&& (d.dispatch is Some <==> d.action == Action::Dispatch)
    &&& (d.respond is Some <==> d.action == Action::Respond)
    &&& (d.deny is Some <==> d.action == Action::Deny)
}

/// The policy in force: the loaded one, or the secure defaults when the
/// asset is missing.
pub open spec fn effective_policy(policy: Asset<PolicyV1>) -> Option<Policy> {
    match spec_load_policy(policy) {
        Ok(p) => Some(p),
        Err(AssetErrorView::Missing) => Some(Policy { allow_respond: false, allow_llm: false }),
        Err(_) => None,
    }
}

/// Every directive is a version-1 envelope with a diagnosis, carrying
/// exactly the payload of its action.
pub proof fn law_directive_envelope(
    inbound: Seq<(String, CborValue)>,
    policy: Asset<PolicyV1>,
    rules: Asset<RulesV1>,
)
    ensures
        envelope_consistent(spec_handle(inbound, policy, rules)),
{
}

/// An invalid policy asset is answered with a denial coded
/// `invalid_policy_asset`, whatever the request.
pub proof fn law_invalid_policy_denies(
    inbound: Seq<(String, CborValue)>,
    policy: Asset<PolicyV1>,
    rules: Asset<RulesV1>,
)
    requires
        effective_policy(policy) is None,
    ensures
        spec_handle(inbound, policy, rules).action == Action::Deny,
        spec_handle(inbound, policy, rules).deny matches Some(d) && d.code == "invalid_policy_asset"@,
{
}

/// The handler answers directly only when the policy in force allows it;
/// a missing policy never does.
pub proof fn law_respond_needs_policy(
    inbound: Seq<(String, CborValue)>,
    policy: Asset<PolicyV1>,
    rules: Asset<RulesV1>,
)
    ensures
        spec_handle(inbound, policy, rules).action == Action::Respond ==> (effective_policy(
            policy,
        ) matches Some(p) && p.allow_respond),
{
}

/// The diagnosis reports whether the policy in force allows a language
/// model; without a usable policy it does not.
pub proof fn law_allow_llm_follows_policy(
    inbound: Seq<(String, CborValue)>,
    policy: Asset<PolicyV1>,
    rules: Asset<RulesV1>,
)
    ensures
        spec_handle(inbound, policy, rules).diag matches Some(d) && d.allow_llm == (effective_policy(
            policy,
        ) matches Some(p) && p.allow_llm),
{
}

/// A valid explicit path dispatches to it at stage 0, whatever the message
/// and the rules say.
pub proof fn law_explicit_path_dispatches(
    inbound: Seq<(String, CborValue)>,
    policy: Asset<PolicyV1>,
    rules: Asset<RulesV1>,
    target: TargetView,
)
    requires
        effective_policy(policy) is Some,
        optional_text(inbound, "explicit_path"@) matches Some(p) && spec_parse_target(p) == Ok::<
            TargetView,
            Seq<char>,
        >(target),
    ensures
        spec_handle(inbound, policy, rules).action == Action::Dispatch,
        spec_handle(inbound, policy, rules).dispatch == Some(target),
        spec_handle(inbound, policy, rules).diag matches Some(d) && d.stage == 0
            && d.explicit_path_valid == Some(true),
{
}

/// Without a message text, or without a rules asset, and with no valid
/// explicit path, the handler goes on with the host's default handling.
pub proof fn law_no_text_or_no_rules_continues(
    inbound: Seq<(String, CborValue)>,
    policy: Asset<PolicyV1>,
    rules: Asset<RulesV1>,
)
    requires
        effective_policy(policy) is Some,
        !(optional_text(inbound, "explicit_path"@) matches Some(p) && spec_parse_target(p) is Ok),
        message_text(inbound) is None || rules is Missing,
    ensures
        spec_handle(inbound, policy, rules).action == Action::Continue,
{
}

/// Every rule that compiles to a dispatch names a well-formed target.
pub proof fn lemma_compiled_dispatch_well_formed(rules: Seq<RuleV1>)
    ensures
        spec_compile_all(rules) matches Ok(compiled) ==> forall|i: int|
            0 <= i < compiled.len() ==> (#[trigger] compiled[i].outcome matches OutcomeView::Dispatch(
                t,
            ) ==> well_formed_target(t)),
    decreases rules.len(),
{
    if rules.len() > 0 {
        lemma_compiled_dispatch_well_formed(rules.drop_last());
        let last = rules.last();
        match last.effect.target {
            Some(t) => law_parsed_target_renders_back(t@),
            None => {},
        }
        if spec_compile_all(rules) is Ok {
            let done = spec_compile_all(rules.drop_last())->Ok_0;
            let r = spec_compile_rule(last)->Ok_0;
            assert forall|i: int| 0 <= i < done.len() + 1 implies (#[trigger] done.push(r)[i].outcome matches OutcomeView::Dispatch(
                t,
            ) ==> well_formed_target(t)) by {
                if i < done.len() {
                    assert(done.push(r)[i] == done[i]);
                }
            }
        }
    }
}

/// Every dispatch the handler emits names a well-formed target: valid
/// segments, with a node only under a flow.
pub proof fn law_dispatch_targets_well_formed(
    inbound: Seq<(String, CborValue)>,
    policy: Asset<PolicyV1>,
    rules: Asset<RulesV1>,
)
    ensures
        spec_handle(inbound, policy, rules).dispatch matches Some(t) ==> well_formed_target(t),
{
    match optional_text(inbound, "explicit_path"@) {
        Some(p) => law_parsed_target_renders_back(p),
        None => {},
    }
    match rules {
        Asset::Present(rs) => {
            lemma_compiled_dispatch_well_formed(rs.rules@);
            match message_text(inbound) {
                Some(text) => match spec_compile_all(rs.rules@) {
                    Ok(compiled) => law_first_match_wins(compiled, text),
                    Err(_) => {},
                },
                None => {},
            }
        },
        _ => {},
    }
}

/// With a usable policy, no valid explicit path and a message text, an
/// invalid rules asset is answered with a denial coded
/// `invalid_rules_asset` whose details carry the error and the id of the
/// offending rule, if one is to blame.
pub proof fn law_invalid_rules_deny(
    inbound: Seq<(String, CborValue)>,
    policy: Asset<PolicyV1>,
    rules: Asset<RulesV1>,
    msg: Seq<char>,
    rule_id: Option<Seq<char>>,
)
    requires
        effective_policy(policy) is Some,
        !(optional_text(inbound, "explicit_path"@) matches Some(p) && spec_parse_target(p) is Ok),
        message_text(inbound) is Some,
        spec_load_rules(rules) == Err::<Option<Seq<RuleView>>, AssetErrorView>(
            AssetErrorView::Invalid { msg, rule_id },
        ),
    ensures
        spec_handle(inbound, policy, rules).action == Action::Deny,
        spec_handle(inbound, policy, rules).deny == Some(
            DenyView {
                code: "invalid_rules_asset"@,
                reason: "rules.cbor failed validation"@,
                details: Some(rules_error_details(msg, rule_id)),
            },
        ),
{
}

/// When the rules decide, the rule they follow is the first one, in asset
/// order, that matches the message text: no earlier rule matches.
pub proof fn law_rules_first_match_decides(
    inbound: Seq<(String, CborValue)>,
    policy: Asset<PolicyV1>,
    rules: Asset<RulesV1>,
    compiled: Seq<RuleView>,
    text: Seq<char>,
)
    requires
        effective_policy(policy) is Some,
        !(optional_text(inbound, "explicit_path"@) matches Some(p) && spec_parse_target(p) is Ok),
        message_text(inbound) == Some(text),
        spec_load_rules(rules) == Ok::<Option<Seq<RuleView>>, AssetErrorView>(Some(compiled)),
    ensures
        spec_handle(inbound, policy, rules).diag matches Some(d) && match d.matched_rule_id {
            Some(id) => exists|i: int|
                0 <= i < compiled.len() && compiled[i].id == id && crate::rules::spec_rule_matches(
                    compiled[i].matcher,
                    text,
                ) && forall|j: int|
                    0 <= j < i ==> !crate::rules::spec_rule_matches(#[trigger] compiled[j].matcher, text),
            None => forall|j: int|
                0 <= j < compiled.len() ==> !crate::rules::spec_rule_matches(
                    #[trigger] compiled[j].matcher,
                    text,
                ),
        },
{
    law_first_match_wins(compiled, text);
}

/// A missing policy asset gives the secure defaults: the handler never
/// answers directly and reports that no language model is allowed.
pub proof fn law_missing_policy_is_secure(
    inbound: Seq<(String, CborValue)>,
    rules: Asset<RulesV1>,
)
    ensures
        spec_handle(inbound, Asset::Missing, rules).action != Action::Respond,
        spec_handle(inbound, Asset::Missing, rules).diag matches Some(d) && !d.allow_llm,
{
}

/// Shipping the default policy changes nothing: every request is answered
/// as if the pack had no policy asset at all.
pub proof fn law_default_policy_is_missing_policy(
    inbound: Seq<(String, CborValue)>,
    rules: Asset<RulesV1>,
)
    ensures
        spec_handle(inbound, Asset::Present(spec_default_policy()), rules) == spec_handle(
            inbound,
            Asset::Missing,
            rules,
        ),
{
}

/// The handler answers directly only when the pack's policy asset is a
/// version-1 policy whose own `allow_respond` is set, whatever its
/// `allow_llm` says; and its diagnosis reports `allow_llm` as that asset's
/// own `allow_llm` (false without a usable version-1 policy).
pub proof fn law_respond_needs_asset_permission(
    inbound: Seq<(String, CborValue)>,
    policy: Asset<PolicyV1>,
    rules: Asset<RulesV1>,
)
    ensures
        spec_handle(inbound, policy, rules).action == Action::Respond ==> (policy matches Asset::Present(
            p,
        ) && p.v == 1 && p.allow_respond),
        spec_handle(inbound, policy, rules).diag matches Some(d) && d.allow_llm == (
        policy matches Asset::Present(p) && p.v == 1 && p.allow_llm),
{
    law_respond_needs_policy(inbound, policy, rules);
    law_allow_llm_follows_policy(inbound, policy, rules);
    crate::assets::law_policy_loads_as_written(policy);
}

/// When the rules decide, the first rule that matches the message text
/// decides what happens, at stage 1 and under its id: a dispatch rule
/// dispatches to its target, a continue rule goes on, a deny rule denies
/// with its denial, and a respond rule answers with its text when the
/// policy asset sets `allow_respond`, and otherwise goes on and reports
/// that the response was blocked.
pub proof fn law_first_matching_rule_decides(
    inbound: Seq<(String, CborValue)>,
    policy: Asset<PolicyV1>,
    rules: Asset<RulesV1>,
    compiled: Seq<RuleView>,
    text: Seq<char>,
    i: int,
)
    requires
        policy is Missing || (policy matches Asset::Present(p) && p.v == 1),
        !(optional_text(inbound, "explicit_path"@) matches Some(p) && spec_parse_target(p) is Ok),
        message_text(inbound) == Some(text),
        spec_load_rules(rules) == Ok::<Option<Seq<RuleView>>, AssetErrorView>(Some(compiled)),
        0 <= i < compiled.len(),
        crate::rules::spec_rule_matches(compiled[i].matcher, text),
        forall|j: int| 0 <= j < i ==> !crate::rules::spec_rule_matches(#[trigger] compiled[j].matcher, text),
    ensures
        spec_handle(inbound, policy, rules).diag matches Some(d) && d.stage == 1
            && d.matched_rule_id == Some(compiled[i].id),
        match compiled[i].outcome {
            OutcomeView::Dispatch(t) => spec_handle(inbound, policy, rules).action == Action::Dispatch
                && spec_handle(inbound, policy, rules).dispatch == Some(t),
            OutcomeView::Continue => spec_handle(inbound, policy, rules).action == Action::Continue,
            OutcomeView::Deny(x) => spec_handle(inbound, policy, rules).action == Action::Deny
                && spec_handle(inbound, policy, rules).deny == Some(x),
            OutcomeView::Respond { text: answer, needs_user } => if policy matches Asset::Present(p)
                && p.allow_respond {
                &&& spec_handle(inbound, policy, rules).action == Action::Respond
                &&& spec_handle(inbound, policy, rules).respond == Some(
                    RespondView { text: answer, needs_user },
                )
            } else {
                &&& spec_handle(inbound, policy, rules).action == Action::Continue
                &&& spec_handle(inbound, policy, rules).respond is None
                &&& spec_handle(inbound, policy, rules).diag matches Some(d)
                    && d.policy_blocked == Some("respond"@)
            },
        },
{
    law_first_match_wins(compiled, text);
    crate::assets::law_policy_loads_as_written(policy);
    assert(first_match(compiled, text) == Some(i)) by {
        match first_match(compiled, text) {
            Some(k) => {
                if k < i {
                    assert(!crate::rules::spec_rule_matches(compiled[k].matcher, text));
                } else if k > i {
                    assert(!crate::rules::spec_rule_matches(compiled[i].matcher, text));
                }
            },
            None => {
                assert(!crate::rules::spec_rule_matches(compiled[i].matcher, text));
            },
        }
    }
}

/// The text a message entry gives the handler: the value of an entry whose
/// key is the text `text` and whose value is a non-blank text.
pub open spec fn text_entry_value(e: (CborValue, CborValue)) -> Option<Seq<char>> {
    match e {
        (CborValue::Text(k), CborValue::Text(v)) => if k@ == "text"@ && !is_blank(v@) {
            Some(v@)
        } else {
            None
        },
        _ => None,
    }
}

/// The text of a message's entries is that of its first entry keyed `text`
/// with a non-blank text value; there is none when no entry is such.
proof fn lemma_text_field_is_first_text_entry(entries: Seq<(CborValue, CborValue)>)
    ensures
        text_field(entries) is None <==> forall|j: int|
            0 <= j < entries.len() ==> text_entry_value(#[trigger] entries[j]) is None,
        forall|i: int|
            0 <= i < entries.len() && text_entry_value(#[trigger] entries[i]) is Some && (forall|j: int|
                0 <= j < i ==> text_entry_value(#[trigger] entries[j]) is None) ==> text_field(entries)
                == text_entry_value(entries[i]),
    decreases entries.len(),
{
    if entries.len() > 0 {
        let rest = entries.drop_last();
        lemma_text_field_is_first_text_entry(rest);
        let last = entries.last();
        assert(last == entries[entries.len() - 1]);
        assert(forall|j: int| 0 <= j < rest.len() ==> rest[j] == entries[j]);
        assert((is_text_field(last) && nonblank_text(last.1) is Some) <==> text_entry_value(last) is Some);
        assert(is_text_field(last) ==> nonblank_text(last.1) == text_entry_value(last));
        assert(text_entry_value(last) is Some ==> is_text_field(last));
    }
}

/// The message text the rules see is the value of the message map's first
/// entry keyed by the text `text` whose value is a non-blank text; entries
/// under any other key never give it, and without such an entry, or
/// without a message map, there is none.
pub proof fn law_message_text_is_first_text_entry(inbound: Seq<(String, CborValue)>)
    ensures
        match entry_for(inbound, "message"@) {
            Some(CborValue::Mapping(m)) => {
                &&& message_text(inbound) is None <==> forall|j: int|
                    0 <= j < m@.len() ==> text_entry_value(#[trigger] m@[j]) is None
                &&& forall|i: int|
                    0 <= i < m@.len() && text_entry_value(#[trigger] m@[i]) is Some && (forall|j: int|
                        0 <= j < i ==> text_entry_value(#[trigger] m@[j]) is None) ==> message_text(
                        inbound,
                    ) == text_entry_value(m@[i])
            },
            _ => message_text(inbound) is None,
        },
{
    if let Some(CborValue::Mapping(m)) = entry_for(inbound, "message"@) {
        lemma_text_field_is_first_text_entry(m@);
    }
}

/// A top-level text of the request, such as its `explicit_path`, is the
/// value of the entry under that key when it is a non-blank text; a blank
/// text, a value of another kind or no entry gives none.
pub proof fn law_request_text_is_its_entry(inbound: Seq<(String, CborValue)>, key: Seq<char>)
    ensures
        match entry_for(inbound, key) {
            Some(CborValue::Text(s)) => if is_blank(s@) {
                optional_text(inbound, key) is None
            } else {
                optional_text(inbound, key) == Some(s@)
            },
            _ => optional_text(inbound, key) is None,
        },
{
}

} // verus!
