//! The hook pack's manifest and where its archive goes.
use vstd::prelude::*;
use crate::text::{owned, join3};

verus! {

/// The id of the pack.
pub const PACK_ID: &'static str = "routing-ingress-control-chain";

/// The version of this package, which the pack manifests it builds carry.
pub const PACKAGE_VERSION: &'static str = "0.1.0";

/// The manifest stored as `pack.cbor`.
#[derive(Debug, Clone)]
pub struct PackManifest {
    pub v: u8,
    pub pack_id: String,
    pub version: String,
    pub description: String,
    pub api_version: u8,
    pub offers: Vec<Offer>,
}

/// A capability the pack offers.
#[derive(Debug, Clone)]
pub struct Offer {
    pub id: String,
    pub kind: String,
    pub stage: String,
    pub contract: String,
    pub priority: u32,
    pub provider: Provider,
    pub meta: Option<OfferMeta>,
}

/// The operation that provides an offer.
#[derive(Debug, Clone)]
pub struct Provider {
    pub op: String,
}

/// Extra facts about an offer.
#[derive(Debug, Clone)]
pub struct OfferMeta {
    pub cap_id: String,
}

/// The one offer of the pack: a post-ingress control hook.
pub open spec fn is_control_hook_offer(o: Offer) -> bool {
    &&& o.id@ == "control-chain.post-ingress"@
    &&& o.kind@ == "hook"@
    &&& o.stage@ == "post_ingress"@
    &&& o.contract@ == "greentic.hook.control.v1"@
    &&& o.priority == 10
    &&& o.provider.op@ == "ingress_control.handle"@
    &&& o.meta matches Some(m) && m.cap_id@ == "greentic.cap.ingress.control.v1"@
}

/// The manifest of the pack at `version`: version 1, API version 1, with a
/// single post-ingress control hook offer.
pub fn canonical_manifest(version: &str) -> (m: PackManifest)
    ensures
        m.v == 1,
        m.pack_id@ == PACK_ID@,
        m.version@ == version@,
        m.description@ == "Ingress control chain hook pack for post_ingress routing decisions."@,
        m.api_version == 1,
        m.offers@.len() == 1,
        is_control_hook_offer(m.offers@[0]),
{
    let offer = Offer {
        id: owned("control-chain.post-ingress"),
        kind: owned("hook"),
        stage: owned("post_ingress"),
        contract: owned("greentic.hook.control.v1"),
        priority: 10,
        provider: Provider { op: owned("ingress_control.handle") },
        meta: Some(OfferMeta { cap_id: owned("greentic.cap.ingress.control.v1") }),
    };
    let mut offers: Vec<Offer> = Vec::new();
    offers.push(offer);
    PackManifest {
        v: 1,
        pack_id: owned(PACK_ID),
        version: owned(version),
        description: owned("Ingress control chain hook pack for post_ingress routing decisions."),
        api_version: 1,
        offers,
    }
}

/// Where the pack archive is written by default: `<PACK_ID>.gtpack` under
/// `build/dist`.
pub fn default_gtpack_output_path() -> (p: String)
    ensures
        p@ == "build/dist/"@ + PACK_ID@ + ".gtpack"@,
{
    join3("build/dist/", PACK_ID, ".gtpack")
}

} // verus!
