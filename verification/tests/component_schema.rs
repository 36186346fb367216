use greentic_control_chain::component_schema::{
    component_info, component_info_cbor, config_schema, config_schema_cbor, input_schema,
    input_schema_cbor, output_schema, output_schema_cbor, ExtraProperties,
};
use greentic_types::cbor::canonical;
use greentic_types::schemas::common::schema_ir::{AdditionalProperties, SchemaIr};
use greentic_types::schemas::component::v0_6_0::ComponentInfo;
use std::collections::BTreeMap;

fn string_object(name: &str) -> SchemaIr {
    SchemaIr::Object {
        properties: BTreeMap::from([(
            name.to_string(),
            SchemaIr::String {
                min_len: Some(0),
                max_len: None,
                regex: None,
                format: None,
            },
        )]),
        required: vec![name.to_string()],
        additional: AdditionalProperties::Allow,
    }
}

#[test]
fn schemas_name_their_single_property() {
    let s = input_schema();
    assert_eq!(s.properties.len(), 1);
    assert_eq!(s.properties[0].0, "input");
    assert_eq!(s.properties[0].1.min_len, Some(0));
    assert_eq!(s.required, vec!["input".to_string()]);
    assert_eq!(s.additional, ExtraProperties::Allow);
    assert_eq!(output_schema().required, vec!["message".to_string()]);
    let c = config_schema();
    assert!(c.properties.is_empty());
    assert_eq!(c.additional, ExtraProperties::Forbid);
}

#[test]
fn schema_cbor_decodes_to_the_schema() {
    let bytes = input_schema_cbor().expect("encode");
    let decoded: SchemaIr = canonical::from_cbor(&bytes).expect("decode");
    assert_eq!(decoded, string_object("input"));
    let bytes = output_schema_cbor().expect("encode");
    let decoded: SchemaIr = canonical::from_cbor(&bytes).expect("decode");
    assert_eq!(decoded, string_object("message"));
    let bytes = config_schema_cbor().expect("encode");
    let decoded: SchemaIr = canonical::from_cbor(&bytes).expect("decode");
    assert_eq!(
        decoded,
        SchemaIr::Object {
            properties: BTreeMap::new(),
            required: Vec::new(),
            additional: AdditionalProperties::Forbid,
        }
    );
}

#[test]
fn component_info_is_the_controller_tool() {
    let info = component_info();
    assert_eq!(info.id, "ai.greentic.controller");
    assert_eq!(info.version, "0.1.0");
    assert_eq!(info.role, "tool");
    let bytes = component_info_cbor().expect("encode");
    let decoded: ComponentInfo = canonical::from_cbor(&bytes).expect("decode");
    assert_eq!(decoded.id, "ai.greentic.controller");
    let name = decoded.display_name.expect("display name");
    assert_eq!(name.key, "component.display_name");
    assert_eq!(name.fallback.as_deref(), Some("controller"));
}
