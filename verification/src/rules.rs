//! Routing rules: their decoded form in `rules.cbor`, their validation into
//! compiled rules, and how a compiled rule matches a message text.
use vstd::prelude::*;
use crate::assets::{Asset, AssetError, AssetErrorView};
use crate::cbor::CborValue;
use crate::dispatch_target::{
    DispatchPayload, TargetView, parse_dispatch_target, spec_parse_target,
};
use crate::ingress_control::{DenyPayload, DenyView, details_view};
use crate::rule_regex::{CompiledRegex, compile_regex, is_match, regex_compile_error, regex_is_match};
use crate::text::{
    is_blank, is_blank_str, lemma_contains_is_some_stretch, seq_contains, contains_text, lowercase, to_lowercase, same_text, owned,
    join2, join3, join4,
};

verus! {

/// The decoded form of `rules.cbor`.
#[derive(Debug)]
pub struct RulesV1 {
    pub v: u8,
    pub rules: Vec<RuleV1>,
}

/// A rule as written: an id, when it applies and what it then does.
#[derive(Debug)]
pub struct RuleV1 {
    pub id: String,
    pub when: RuleWhenV1,
    pub effect: RuleThenV1,
}

/// When a rule applies: a keyword or a regular expression.
#[derive(Debug)]
pub struct RuleWhenV1 {
    pub keyword: Option<String>,
    pub regex: Option<String>,
    pub case_sensitive: Option<bool>,
}

/// What a rule does: an action and the fields that action needs.
#[derive(Debug)]
pub struct RuleThenV1 {
    pub action: String,
    pub target: Option<String>,
    pub text: Option<String>,
    pub needs_user: Option<bool>,
    pub deny: Option<RuleDenyV1>,
}

/// The denial a rule gives.
#[derive(Debug)]
pub struct RuleDenyV1 {
    pub code: String,
    pub reason: String,
    pub details: Option<Vec<(String, CborValue)>>,
}

/// How a compiled rule recognises a message.
pub enum CompiledRuleKind {
    Keyword { needle: String, case_sensitive: bool },
    Regex { re: CompiledRegex },
}

/// What a compiled rule decides.
pub enum CompiledOutcome {
    Dispatch(DispatchPayload),
    Respond { text: String, needs_user: bool },
    Continue,
    Deny(DenyPayload),
}

/// A validated rule.
pub struct CompiledRule {
    pub id: String,
    pub kind: CompiledRuleKind,
    pub outcome: CompiledOutcome,
}

/// The mathematical form of a matcher.
pub enum MatcherView {
    Keyword { needle: Seq<char>, case_sensitive: bool },
    Regex { pattern: Seq<char> },
}

/// The mathematical form of an outcome.
pub enum OutcomeView {
    Dispatch(TargetView),
    Respond { text: Seq<char>, needs_user: bool },
    Continue,
    Deny(DenyView),
}

/// The mathematical form of a compiled rule.
pub struct RuleView {
    pub id: Seq<char>,
    pub matcher: MatcherView,
    pub outcome: OutcomeView,
}

impl View for CompiledRuleKind {
    type V = MatcherView;

    open spec fn view(&self) -> MatcherView {
        match self {
            CompiledRuleKind::Keyword { needle, case_sensitive } => MatcherView::Keyword {
                needle: needle@,
                case_sensitive: *case_sensitive,
            },
            CompiledRuleKind::Regex { re } => MatcherView::Regex { pattern: re@ },
        }
    }
}

impl View for CompiledOutcome {
    type V = OutcomeView;

    open spec fn view(&self) -> OutcomeView {
        match self {
            CompiledOutcome::Dispatch(d) => OutcomeView::Dispatch(d@),
            CompiledOutcome::Respond { text, needs_user } => OutcomeView::Respond {
                text: text@,
                needs_user: *needs_user,
            },
            CompiledOutcome::Continue => OutcomeView::Continue,
            CompiledOutcome::Deny(d) => OutcomeView::Deny(d@),
        }
    }
}

impl View for CompiledRule {
    type V = RuleView;

    open spec fn view(&self) -> RuleView {
        RuleView { id: self.id@, matcher: self.kind@, outcome: self.outcome@ }
    }
}

/// The views of compiled rules, in order.
pub open spec fn rules_view(v: Seq<CompiledRule>) -> Seq<RuleView> {
    Seq::new(v.len(), |i: int| v[i]@)
}

/// The pattern a regex rule is compiled from: as written when the rule is
/// case sensitive, else wrapped in a case-insensitive group.
pub open spec fn regex_source(src: Seq<char>, case_sensitive: bool) -> Seq<char> {
    if case_sensitive {
        src
    } else {
        "(?i:"@ + src + ")"@
    }
}

/// `rule '<id>'` followed by `rest`.
pub open spec fn about_rule(id: Seq<char>, rest: Seq<char>) -> Seq<char> {
    "rule '"@ + id + rest
}

/// The matcher a rule asks for, or the message that rejects its `when`.
pub open spec fn spec_rule_matcher(rule: RuleV1) -> Result<MatcherView, Seq<char>> {
    let id = rule.id@;
    let cs = match rule.when.case_sensitive {
        Some(b) => b,
        None => false,
    };
    match (rule.when.keyword, rule.when.regex) {
        (Some(k), None) => Ok(MatcherView::Keyword { needle: k@, case_sensitive: cs }),
        (None, Some(src)) => {
            let pattern = regex_source(src@, cs);
            match regex_compile_error(pattern) {
                None => Ok(MatcherView::Regex { pattern }),
                Some(e) => Err("invalid regex for rule '"@ + id + "': "@ + e),
            }
        },
        _ => Err(about_rule(id, "' must set exactly one of when.keyword or when.regex"@)),
    }
}

/// The outcome a rule asks for, or the message that rejects its `effect`.
pub open spec fn spec_rule_outcome(rule: RuleV1) -> Result<OutcomeView, Seq<char>> {
    let id = rule.id@;
    let action = rule.effect.action@;
    if action == "dispatch"@ {
        match rule.effect.target {
            None => Err(about_rule(id, "' dispatch missing target"@)),
            Some(t) => match spec_parse_target(t@) {
                Ok(v) => Ok(OutcomeView::Dispatch(v)),
                Err(e) => Err(about_rule(id, "' target invalid: "@ + e)),
            },
        }
    } else if action == "respond"@ {
        match rule.effect.text {
            None => Err(about_rule(id, "' respond missing text"@)),
            Some(t) => Ok(
                OutcomeView::Respond {
                    text: t@,
                    needs_user: match rule.effect.needs_user {
                        Some(b) => b,
                        None => false,
                    },
                },
            ),
        }
    } else if action == "continue"@ {
        Ok(OutcomeView::Continue)
    } else if action == "deny"@ {
        match rule.effect.deny {
            None => Err(about_rule(id, "' deny missing deny object"@)),
            Some(d) => Ok(
                OutcomeView::Deny(
                    DenyView { code: d.code@, reason: d.reason@, details: details_view(d.details) },
                ),
            ),
        }
    } else {
        Err(about_rule(id, "' has unsupported action '"@ + action + "'"@))
    }
}

/// What validating one rule gives: the compiled rule, or why it is invalid.
/// A blank id is checked first, then `when`, then `effect`.
pub open spec fn spec_compile_rule(rule: RuleV1) -> Result<RuleView, AssetErrorView> {
    let id = rule.id@;
    if is_blank(id) {
        Err(AssetErrorView::Invalid { msg: "rule id must not be empty"@, rule_id: None })
    } else {
        match spec_rule_matcher(rule) {
            Err(m) => Err(AssetErrorView::Invalid { msg: m, rule_id: Some(id) }),
            Ok(matcher) => match spec_rule_outcome(rule) {
                Err(m) => Err(AssetErrorView::Invalid { msg: m, rule_id: Some(id) }),
                Ok(outcome) => Ok(RuleView { id, matcher, outcome }),
            },
        }
    }
}

/// What validating rules in order gives: all compiled, or the first error.
pub open spec fn spec_compile_all(rules: Seq<RuleV1>) -> Result<Seq<RuleView>, AssetErrorView>
    decreases rules.len(),
{
    if rules.len() == 0 {
        Ok(Seq::empty())
    } else {
        match spec_compile_all(rules.drop_last()) {
            Err(e) => Err(e),
            Ok(done) => match spec_compile_rule(rules.last()) {
                Err(e) => Err(e),
                Ok(r) => Ok(done.push(r)),
            },
        }
    }
}

/// What loading the rules asset gives: no rules when it is missing, else its
/// rules compiled, provided it is of version 1.
pub open spec fn spec_load_rules(asset: Asset<RulesV1>) -> Result<Option<Seq<RuleView>>, AssetErrorView> {
    match asset {
        Asset::Missing => Ok(None),
        Asset::Invalid(msg) => Err(AssetErrorView::Invalid { msg: msg@, rule_id: None }),
        Asset::Present(rs) => if rs.v != 1 {
            Err(AssetErrorView::Invalid { msg: "rules version must be v=1"@, rule_id: None })
        } else {
            match spec_compile_all(rs.rules@) {
                Ok(s) => Ok(Some(s)),
                Err(e) => Err(e),
            }
        },
    }
}

/// Whether a matcher recognises a message text. A keyword matches as a
/// substring, of the lowercased texts unless it is case sensitive.
pub open spec fn spec_rule_matches(m: MatcherView, text: Seq<char>) -> bool {
    match m {
        MatcherView::Keyword { needle, case_sensitive } => if case_sensitive {
            seq_contains(text, needle)
        } else {
            seq_contains(lowercase(text), lowercase(needle))
        },
        MatcherView::Regex { pattern } => regex_is_match(pattern, text),
    }
}

/// The position of the first rule that matches `text`.
pub open spec fn first_match(rules: Seq<RuleView>, text: Seq<char>) -> Option<int>
    decreases rules.len(),
{
    if rules.len() == 0 {
        None
    } else {
        match first_match(rules.drop_last(), text) {
            Some(k) => Some(k),
            None => if spec_rule_matches(rules.last().matcher, text) {
                Some(rules.len() - 1)
            } else {
                None
            },
        }
    }
}

/// Rule order is deterministic and the first match wins: `first_match`
/// finds a rule exactly when one matches, and then it is the earliest one.
pub proof fn law_first_match_wins(rules: Seq<RuleView>, text: Seq<char>)
    ensures
        match first_match(rules, text) {
            Some(i) => {
                &&& 0 <= i < rules.len()
                &&& spec_rule_matches(rules[i].matcher, text)
                &&& forall|j: int| 0 <= j < i ==> !spec_rule_matches(#[trigger] rules[j].matcher, text)
            },
            None => forall|j: int|
                0 <= j < rules.len() ==> !spec_rule_matches(#[trigger] rules[j].matcher, text),
        },
    decreases rules.len(),
{
    if rules.len() > 0 {
        let rd = rules.drop_last();
        law_first_match_wins(rd, text);
        assert forall|j: int| 0 <= j < rd.len() implies rd[j] == rules[j] by {}
        assert(rules.last() == rules[rules.len() - 1]);
    }
}

/// The view of a compilation result.
pub open spec fn compile_result_view(r: Result<CompiledRule, AssetError>) -> Result<RuleView, AssetErrorView> {
    match r {
        Ok(c) => Ok(c@),
        Err(e) => Err(e@),
    }
}

/// `rule '<id>` followed by `rest`, as a string.
fn about(id: &str, rest: &str) -> (r: String)
    ensures
        r@ == about_rule(id@, rest@),
{
    join3("rule '", id, rest)
}

/// Validates one rule and compiles its matcher and outcome.
pub fn compile_rule(rule: RuleV1) -> (r: Result<CompiledRule, AssetError>)
    ensures
        compile_result_view(r) == spec_compile_rule(rule),
{
    let ghost whole = rule;
    let RuleV1 { id, when, effect } = rule;
    if is_blank_str(id.as_str()) {
        return Err(AssetError::invalid(owned("rule id must not be empty")));
    }
    let case_sensitive = match when.case_sensitive {
        Some(b) => b,
        None => false,
    };
    let kind = match (when.keyword, when.regex) {
        (Some(keyword), None) => CompiledRuleKind::Keyword { needle: keyword, case_sensitive },
        (None, Some(regex_src)) => {
            let pattern = if case_sensitive {
                owned(regex_src.as_str())
            } else {
                join3("(?i:", regex_src.as_str(), ")")
            };
            match compile_regex(pattern.as_str()) {
                Ok(re) => CompiledRuleKind::Regex { re },
                Err(e) => {
                    let msg = join4("invalid regex for rule '", id.as_str(), "': ", e.as_str());
                    return Err(AssetError::invalid_rule(id.as_str(), msg));
                },
            }
        },
        _ => {
            let msg = about(id.as_str(), "' must set exactly one of when.keyword or when.regex");
            return Err(AssetError::invalid_rule(id.as_str(), msg));
        },
    };
    assert(spec_rule_matcher(whole) == Ok::<MatcherView, Seq<char>>(kind@));
    let RuleThenV1 { action, target, text, needs_user, deny } = effect;
    let outcome = if same_text(action.as_str(), "dispatch") {
        match target {
            None => {
                let msg = about(id.as_str(), "' dispatch missing target");
                return Err(AssetError::invalid_rule(id.as_str(), msg));
            },
            Some(t) => match parse_dispatch_target(t.as_str()) {
                Ok(d) => CompiledOutcome::Dispatch(d),
                Err(e) => {
                    let rest = join2("' target invalid: ", e.as_str());
                    let msg = about(id.as_str(), rest.as_str());
                    return Err(AssetError::invalid_rule(id.as_str(), msg));
                },
            },
        }
    } else if same_text(action.as_str(), "respond") {
        match text {
            None => {
                let msg = about(id.as_str(), "' respond missing text");
                return Err(AssetError::invalid_rule(id.as_str(), msg));
            },
            Some(t) => CompiledOutcome::Respond {
                text: t,
                needs_user: match needs_user {
                    Some(b) => b,
                    None => false,
                },
            },
        }
    } else if same_text(action.as_str(), "continue") {
        CompiledOutcome::Continue
    } else if same_text(action.as_str(), "deny") {
        match deny {
            None => {
                let msg = about(id.as_str(), "' deny missing deny object");
                return Err(AssetError::invalid_rule(id.as_str(), msg));
            },
            Some(d) => CompiledOutcome::Deny(
                DenyPayload { code: d.code, reason: d.reason, details: d.details },
            ),
        }
    } else {
        let rest = join3("' has unsupported action '", action.as_str(), "'");
        let msg = about(id.as_str(), rest.as_str());
        return Err(AssetError::invalid_rule(id.as_str(), msg));
    };
    Ok(CompiledRule { id, kind, outcome })
}

/// Whether a compiled rule recognises the message text.
pub fn rule_matches(kind: &CompiledRuleKind, text: &str) -> (b: bool)
    ensures
        b == spec_rule_matches(kind@, text@),
{
    match kind {
        CompiledRuleKind::Keyword { needle, case_sensitive } => {
            if *case_sensitive {
                contains_text(text, needle.as_str())
            } else {
                let t = to_lowercase(text);
                let n = to_lowercase(needle.as_str());
                contains_text(t.as_str(), n.as_str())
            }
        },
        CompiledRuleKind::Regex { re } => is_match(re, text),
    }
}

/// The position of the first rule that recognises `text`.
pub fn find_match(rules: &Vec<CompiledRule>, text: &str) -> (r: Option<usize>)
    ensures
        match r {
            Some(i) => i < rules@.len() && first_match(rules_view(rules@), text@) == Some(i as int),
            None => first_match(rules_view(rules@), text@) is None,
        },
{
    let ghost all = rules_view(rules@);
    let mut i: usize = 0;
    while i < rules.len()
        invariant
            i <= rules@.len(),
            all == rules_view(rules@),
            first_match(all.take(i as int), text@) is None,
        decreases rules.len() - i,
    {
        assert(all.take(i + 1).drop_last() =~= all.take(i as int));
        assert(all.take(i + 1).last() == rules@[i as int]@);
        if rule_matches(&rules[i].kind, text) {
            proof {
                lemma_first_match_prefix(all, text@, i + 1);
            }
            return Some(i);
        }
        i = i + 1;
    }
    assert(all.take(i as int) =~= all);
    None
}

/// A match among the first `n` rules is the first match of all of them.
pub proof fn lemma_first_match_prefix(rules: Seq<RuleView>, text: Seq<char>, n: int)
    requires
        0 <= n <= rules.len(),
        first_match(rules.take(n), text) is Some,
    ensures
        first_match(rules, text) == first_match(rules.take(n), text),
    decreases rules.len(),
{
    if n == rules.len() {
        assert(rules.take(n) =~= rules);
    } else {
        assert(rules.drop_last().take(n) =~= rules.take(n));
        lemma_first_match_prefix(rules.drop_last(), text, n);
    }
}

/// An error among the first `n` rules is the error of compiling all of them.
pub proof fn lemma_compile_error_prefix(rules: Seq<RuleV1>, n: int)
    requires
        0 <= n <= rules.len(),
        spec_compile_all(rules.take(n)) is Err,
    ensures
        spec_compile_all(rules) == spec_compile_all(rules.take(n)),
    decreases rules.len(),
{
    if n == rules.len() {
        assert(rules.take(n) =~= rules);
    } else {
        assert(rules.drop_last().take(n) =~= rules.take(n));
        lemma_compile_error_prefix(rules.drop_last(), n);
    }
}

/// The view of a loading result.
pub open spec fn load_result_view(r: Result<Option<Vec<CompiledRule>>, AssetError>) -> Result<Option<Seq<RuleView>>, AssetErrorView> {
    match r {
        Ok(Some(v)) => Ok(Some(rules_view(v@))),
        Ok(None) => Ok(None),
        Err(e) => Err(e@),
    }
}

/// Loads the rules asset: a decoded asset must be of version 1, and its
/// rules are compiled in order, the first invalid one rejecting the asset.
pub fn load_rules(asset: Asset<RulesV1>) -> (r: Result<Option<Vec<CompiledRule>>, AssetError>)
    ensures
        load_result_view(r) == spec_load_rules(asset),
{
    let ghost orig = asset;
    match asset {
        Asset::Missing => Ok(None),
        Asset::Invalid(msg) => Err(AssetError::invalid(msg)),
        Asset::Present(rules) => {
            if rules.v != 1 {
                return Err(AssetError::invalid(owned("rules version must be v=1")));
            }
            let ghost all = rules.rules@;
            let mut compiled: Vec<CompiledRule> = Vec::new();
            assert(all.take(0) =~= Seq::<RuleV1>::empty());
            assert(rules_view(compiled@) =~= Seq::<RuleView>::empty());
            for rule in it: rules.rules.into_iter()
                invariant
                    it.seq() == all,
                    orig == asset,
                    spec_load_rules(orig) == match spec_compile_all(all) {
                        Ok(s) => Ok(Some(s)),
                        Err(e) => Err(e),
                    },
                    spec_compile_all(all.take(it.index())) == Ok::<Seq<RuleView>, AssetErrorView>(
                        rules_view(compiled@),
                    ),
            {
                let ghost k = it.index();
                assert(all.take(k + 1).drop_last() =~= all.take(k));
                assert(all.take(k + 1).last() == rule);
                match compile_rule(rule) {
                    Ok(c) => {
                        let ghost before = rules_view(compiled@);
                        compiled.push(c);
                        assert(rules_view(compiled@) =~= before.push(c@));
                    },
                    Err(e) => {
                        proof {
                            lemma_compile_error_prefix(all, k + 1);
                        }
                        return Err(e);
                    },
                }
            }
            assert(all.take(all.len() as int) =~= all);
            Ok(Some(compiled))
        },
    }
}

/// What a compiled rule recognises, in terms of the rule as written. A
/// keyword rule marked case-sensitive matches a text in which the keyword
/// occurs, character for character, at some position; any other keyword
/// rule matches when the lowercased keyword occurs in the lowercased text.
/// A regex rule marked case-sensitive matches as its expression, taken as
/// written, does; any other regex rule as the expression wrapped in `(?i:`
/// and `)`. A rule compiles only with a non-blank id and exactly one of the
/// two conditions, and a regex rule only when that pattern compiles.
pub proof fn law_compiled_rule_matches_as_written(rule: RuleV1, text: Seq<char>)
    ensures
        spec_compile_rule(rule) matches Ok(c) ==> {
            &&& c.id == rule.id@
            &&& !is_blank(rule.id@)
            &&& match (rule.when.keyword, rule.when.regex) {
                (Some(k), None) => if rule.when.case_sensitive == Some(true) {
                    spec_rule_matches(c.matcher, text) <==> exists|i: int|
                        0 <= i && i + k@.len() <= text.len() && #[trigger] text.subrange(
                            i,
                            i + k@.len(),
                        ) == k@
                } else {
                    spec_rule_matches(c.matcher, text) <==> exists|i: int|
                        0 <= i && i + lowercase(k@).len() <= lowercase(text).len()
                            && #[trigger] lowercase(text).subrange(i, i + lowercase(k@).len())
                            == lowercase(k@)
                },
                (None, Some(src)) => spec_rule_matches(c.matcher, text) == regex_is_match(
                    if rule.when.case_sensitive == Some(true) {
                        src@
                    } else {
                        "(?i:"@ + src@ + ")"@
                    },
                    text,
                ),
                _ => false,
            }
        },
        rule.when.regex matches Some(src) && rule.when.keyword is None && regex_compile_error(
            if rule.when.case_sensitive == Some(true) {
                src@
            } else {
                "(?i:"@ + src@ + ")"@
            },
        ) is Some ==> spec_compile_rule(rule) is Err,
{
    if let Ok(c) = spec_compile_rule(rule) {
        if let (Some(k), None) = (rule.when.keyword, rule.when.regex) {
            lemma_contains_is_some_stretch(text, k@);
            lemma_contains_is_some_stretch(lowercase(text), lowercase(k@));
        }
    }
}

/// What a compiled rule does, in terms of the rule as written: `dispatch`
/// goes to its target as parsed, `respond` answers with its text and asks
/// the user only when `needs_user` is set, `continue` goes on, and `deny`
/// denies with the rule's code, reason and details. A rule with any other
/// action does not compile.
pub proof fn law_compiled_rule_does_as_written(rule: RuleV1)
    ensures
        spec_compile_rule(rule) matches Ok(c) ==> match c.outcome {
            OutcomeView::Dispatch(t) => {
                &&& rule.effect.action@ == "dispatch"@
                &&& rule.effect.target matches Some(s) && spec_parse_target(s@) == Ok::<
                    TargetView,
                    Seq<char>,
                >(t)
            },
            OutcomeView::Respond { text, needs_user } => {
                &&& rule.effect.action@ == "respond"@
                &&& rule.effect.text matches Some(s) && s@ == text
                &&& needs_user == (rule.effect.needs_user == Some(true))
            },
            OutcomeView::Continue => rule.effect.action@ == "continue"@,
            OutcomeView::Deny(d) => {
                &&& rule.effect.action@ == "deny"@
                &&& rule.effect.deny matches Some(rd) && d.code == rd.code@ && d.reason == rd.reason@
                    && d.details == details_view(rd.details)
            },
        },
        !(rule.effect.action@ == "dispatch"@ || rule.effect.action@ == "respond"@
            || rule.effect.action@ == "continue"@ || rule.effect.action@ == "deny"@)
            ==> spec_compile_rule(rule) is Err,
{
    reveal_strlit("dispatch");
    reveal_strlit("respond");
    reveal_strlit("continue");
    reveal_strlit("deny");
    assert("dispatch"@.len() == 8 && "respond"@.len() == 7 && "continue"@.len() == 8 && "deny"@.len() == 4);
    assert("dispatch"@[0] == 'd' && "continue"@[0] == 'c');
}

/// Rules compile one by one, in order: when all compile, the compiled
/// rules are exactly those of the rules as written, one for one; otherwise
/// the error is that of the first rule that does not compile, and the whole
/// list is refused.
pub proof fn law_rules_compile_one_by_one(rules: Seq<RuleV1>)
    ensures
        match spec_compile_all(rules) {
            Ok(c) => c.len() == rules.len() && forall|i: int|
                0 <= i < rules.len() ==> spec_compile_rule(#[trigger] rules[i]) == Ok::<
                    RuleView,
                    AssetErrorView,
                >(c[i]),
            Err(e) => exists|i: int|
                0 <= i < rules.len() && spec_compile_rule(#[trigger] rules[i]) == Err::<
                    RuleView,
                    AssetErrorView,
                >(e) && forall|j: int| 0 <= j < i ==> spec_compile_rule(#[trigger] rules[j]) is Ok,
        },
    decreases rules.len(),
{
    if rules.len() > 0 {
        let rest = rules.drop_last();
        law_rules_compile_one_by_one(rest);
        assert(forall|j: int| 0 <= j < rest.len() ==> rest[j] == rules[j]);
        assert(rules.last() == rules[rules.len() - 1]);
        match spec_compile_all(rest) {
            Ok(c) => {
                match spec_compile_rule(rules.last()) {
                    Ok(r) => {
                        assert forall|i: int| 0 <= i < rules.len() implies spec_compile_rule(
                            #[trigger] rules[i],
                        ) == Ok::<RuleView, AssetErrorView>(c.push(r)[i]) by {
                            if i < rest.len() {
                                assert(rest[i] == rules[i]);
                            }
                        }
                    },
                    Err(e) => {
                        assert forall|j: int| 0 <= j < rules.len() - 1 implies spec_compile_rule(
                            #[trigger] rules[j],
                        ) is Ok by {
                            assert(rest[j] == rules[j]);
                        }
                    },
                }
            },
            Err(e) => {
                let i = choose|i: int|
                    0 <= i < rest.len() && spec_compile_rule(#[trigger] rest[i]) == Err::<
                        RuleView,
                        AssetErrorView,
                    >(e) && forall|j: int| 0 <= j < i ==> spec_compile_rule(#[trigger] rest[j]) is Ok;
                assert(rest[i] == rules[i]);
                assert forall|j: int| 0 <= j < i implies spec_compile_rule(#[trigger] rules[j]) is Ok by {
                    assert(rest[j] == rules[j]);
                }
            },
        }
    }
}

/// A rules asset is taken as written: a missing one gives no rules, an
/// unusable one is refused with its reason, one of another version than 1
/// is refused, and a version-1 asset gives its rules compiled one by one.
pub proof fn law_rules_asset_loads_as_written(asset: Asset<RulesV1>)
    ensures
        match asset {
            Asset::Missing => spec_load_rules(asset) == Ok::<Option<Seq<RuleView>>, AssetErrorView>(
                None,
            ),
            Asset::Invalid(m) => spec_load_rules(asset) == Err::<Option<Seq<RuleView>>, AssetErrorView>(
                AssetErrorView::Invalid { msg: m@, rule_id: None },
            ),
            Asset::Present(rs) => if rs.v != 1 {
                spec_load_rules(asset) == Err::<Option<Seq<RuleView>>, AssetErrorView>(
                    AssetErrorView::Invalid { msg: "rules version must be v=1"@, rule_id: None },
                )
            } else {
                match spec_compile_all(rs.rules@) {
                    Ok(c) => spec_load_rules(asset) == Ok::<Option<Seq<RuleView>>, AssetErrorView>(
                        Some(c),
                    ),
                    Err(e) => spec_load_rules(asset) == Err::<Option<Seq<RuleView>>, AssetErrorView>(
                        e,
                    ),
                }
            },
        },
{
}

} // verus!
