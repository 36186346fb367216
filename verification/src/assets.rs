//! The optional assets of a pack (`policy.cbor`, `rules.cbor`) as the
//! handler receives them, and the policy they set.
use vstd::prelude::*;
use crate::text::owned;

verus! {

/// An asset as found in the pack's asset directory: absent, present but
/// unreadable or undecodable (with the reason), or decoded.
#[derive(Debug)]
pub enum Asset<T> {
    Missing,
    Invalid(String),
    Present(T),
}

/// The decoded form of `policy.cbor`.
#[derive(Debug)]
pub struct PolicyV1 {
    pub v: u8,
    pub allow_respond: bool,
    pub allow_llm: bool,
}

/// What the handler may do: answer directly, and use a language model.
#[derive(Debug, Clone, Copy)]
pub struct Policy {
    pub allow_respond: bool,
    pub allow_llm: bool,
}

/// Why an asset could not be used.
#[derive(Debug)]
pub enum AssetError {
    Missing,
    Invalid { msg: String, rule_id: Option<String> },
}

/// The mathematical form of an asset error.
pub enum AssetErrorView {
    Missing,
    Invalid { msg: Seq<char>, rule_id: Option<Seq<char>> },
}

impl View for AssetError {
    type V = AssetErrorView;

    open spec fn view(&self) -> AssetErrorView {
        match self {
            AssetError::Missing => AssetErrorView::Missing,
            AssetError::Invalid { msg, rule_id } => AssetErrorView::Invalid {
                msg: msg@,
                rule_id: match rule_id {
                    Some(r) => Some(r@),
                    None => None,
                },
            },
        }
    }
}

impl AssetError {
    /// An asset that failed validation, with the reason.
    pub fn invalid(msg: String) -> (e: AssetError)
        ensures
            e@ == (AssetErrorView::Invalid { msg: msg@, rule_id: None }),
    {
        AssetError::Invalid { msg, rule_id: None }
    }

    /// A rule that failed validation, with its id and the reason.
    pub fn invalid_rule(rule_id: &str, msg: String) -> (e: AssetError)
        ensures
            e@ == (AssetErrorView::Invalid { msg: msg@, rule_id: Some(rule_id@) }),
    {
        AssetError::Invalid { msg, rule_id: Some(owned(rule_id)) }
    }
}

/// What loading the policy asset gives.
pub open spec fn spec_load_policy(asset: Asset<PolicyV1>) -> Result<Policy, AssetErrorView> {
    match asset {
        Asset::Missing => Err(AssetErrorView::Missing),
        Asset::Invalid(msg) => Err(AssetErrorView::Invalid { msg: msg@, rule_id: None }),
        Asset::Present(p) => if p.v != 1 {
            Err(AssetErrorView::Invalid { msg: "policy version must be v=1"@, rule_id: None })
        } else {
            Ok(Policy { allow_respond: p.allow_respond, allow_llm: p.allow_llm })
        },
    }
}

/// The view of a loading result.
pub open spec fn policy_result_view(r: Result<Policy, AssetError>) -> Result<Policy, AssetErrorView> {
    match r {
        Ok(p) => Ok(p),
        Err(e) => Err(e@),
    }
}

/// Loads the policy asset: a decoded policy must be of version 1.
pub fn load_policy(asset: Asset<PolicyV1>) -> (r: Result<Policy, AssetError>)
    ensures
        policy_result_view(r) == spec_load_policy(asset),
{
    match asset {
        Asset::Missing => Err(AssetError::Missing),
        Asset::Invalid(msg) => Err(AssetError::invalid(msg)),
        Asset::Present(p) => {
            if p.v != 1 {
                return Err(AssetError::invalid(owned("policy version must be v=1")));
            }
            Ok(Policy { allow_respond: p.allow_respond, allow_llm: p.allow_llm })
        },
    }
}

/// The policy a pack ships by default: version 1, with neither direct
/// answers nor a language model.
pub open spec fn spec_default_policy() -> PolicyV1 {
    PolicyV1 { v: 1, allow_respond: false, allow_llm: false }
}

/// The policy a pack ships by default: version 1, with neither direct
/// answers nor a language model.
pub fn default_policy() -> (p: PolicyV1)
    ensures
        p == spec_default_policy(),
{
    PolicyV1 { v: 1, allow_respond: false, allow_llm: false }
}

/// The default policy loads, and allows exactly what the secure defaults
/// for a missing policy allow: neither direct answers nor a language model.
pub proof fn law_default_policy_loads_as_secure_defaults()
    ensures
        spec_load_policy(Asset::Present(spec_default_policy())) == Ok::<Policy, AssetErrorView>(
            Policy { allow_respond: false, allow_llm: false },
        ),
{
}

/// A policy asset is taken as written: a version-1 policy gives exactly its
/// own two permissions, neither standing in for the other; another version,
/// an unusable asset and a missing one are refused, each with its reason.
pub proof fn law_policy_loads_as_written(asset: Asset<PolicyV1>)
    ensures
        match asset {
            Asset::Present(p) => if p.v == 1 {
                spec_load_policy(asset) == Ok::<Policy, AssetErrorView>(
                    Policy { allow_respond: p.allow_respond, allow_llm: p.allow_llm },
                )
            } else {
                spec_load_policy(asset) == Err::<Policy, AssetErrorView>(
                    AssetErrorView::Invalid { msg: "policy version must be v=1"@, rule_id: None },
                )
            },
            Asset::Invalid(m) => spec_load_policy(asset) == Err::<Policy, AssetErrorView>(
                AssetErrorView::Invalid { msg: m@, rule_id: None },
            ),
            Asset::Missing => spec_load_policy(asset) == Err::<Policy, AssetErrorView>(
                AssetErrorView::Missing,
            ),
        },
{
}

} // verus!
