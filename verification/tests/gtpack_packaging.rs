use greentic_control_chain::pack::{canonical_manifest, default_gtpack_output_path, PACK_ID};

#[test]
fn canonical_manifest_has_single_hook_offer() {
    let manifest = canonical_manifest("0.1.0");
    assert_eq!(manifest.offers.len(), 1);
    let offer = &manifest.offers[0];
    assert_eq!(offer.kind, "hook");
    assert_eq!(offer.stage, "post_ingress");
    assert_eq!(offer.contract, "greentic.hook.control.v1");
    assert_eq!(offer.provider.op, "ingress_control.handle");
}

#[test]
fn canonical_manifest_fields_are_fixed() {
    let manifest = canonical_manifest("9.8.7");
    assert_eq!(manifest.v, 1);
    assert_eq!(manifest.api_version, 1);
    assert_eq!(manifest.pack_id, PACK_ID);
    assert_eq!(manifest.version, "9.8.7");
    assert_eq!(
        manifest.description,
        "Ingress control chain hook pack for post_ingress routing decisions."
    );
    let offer = &manifest.offers[0];
    assert_eq!(offer.id, "control-chain.post-ingress");
    assert_eq!(offer.priority, 10);
    assert_eq!(
        offer.meta.as_ref().map(|m| m.cap_id.as_str()),
        Some("greentic.cap.ingress.control.v1")
    );
}

#[test]
fn default_output_path_is_under_build_dist() {
    assert_eq!(
        default_gtpack_output_path(),
        "build/dist/routing-ingress-control-chain.gtpack"
    );
}
