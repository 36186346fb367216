//! The schemas and identity the controller component advertises, and their
//! canonical CBOR encoding by `greentic-types`.
use vstd::prelude::*;
use crate::controller::{COMPONENT_NAME, COMPONENT_ORG, COMPONENT_VERSION};
use crate::dispatch_target::opt_text;
use crate::text::{owned, join2, join3};
use greentic_types::schemas::common::schema_ir::{AdditionalProperties, SchemaIr};

verus! {

/// A string property's schema.
#[derive(Debug)]
pub struct StringSchema {
    pub min_len: Option<u64>,
    pub max_len: Option<u64>,
    pub regex: Option<String>,
    pub format: Option<String>,
}

/// Whether an object may carry properties beyond those it names.
#[derive(Debug, Clone, Copy, PartialEq, Eq, Structural)]
pub enum ExtraProperties {
    Allow,
    Forbid,
}

/// An object schema whose properties are strings.
#[derive(Debug)]
pub struct ObjectSchema {
    pub properties: Vec<(String, StringSchema)>,
    pub required: Vec<String>,
    pub additional: ExtraProperties,
}

/// The mathematical form of a string schema.
pub struct StringSchemaView {
    pub min_len: Option<u64>,
    pub max_len: Option<u64>,
    pub regex: Option<Seq<char>>,
    pub format: Option<Seq<char>>,
}

/// The mathematical form of an object schema.
pub struct ObjectSchemaView {
    pub properties: Seq<(Seq<char>, StringSchemaView)>,
    pub required: Seq<Seq<char>>,
    pub additional: ExtraProperties,
}

impl View for StringSchema {
    type V = StringSchemaView;

    open spec fn view(&self) -> StringSchemaView {
        StringSchemaView {
            min_len: self.min_len,
            max_len: self.max_len,
            regex: opt_text(self.regex),
            format: opt_text(self.format),
        }
    }
}

impl View for ObjectSchema {
    type V = ObjectSchemaView;

    open spec fn view(&self) -> ObjectSchemaView {
        ObjectSchemaView {
            properties: Seq::new(
                self.properties@.len(),
                |i: int| (self.properties@[i].0@, self.properties@[i].1@),
            ),
            required: Seq::new(self.required@.len(), |i: int| self.required@[i]@),
            additional: self.additional,
        }
    }
}

/// The component's identity: id, version, role and an optional display
/// name given by an i18n key and a fallback text.
#[derive(Debug)]
pub struct ComponentInfo {
    pub id: String,
    pub version: String,
    pub role: String,
    pub display_name: Option<(String, Option<String>)>,
}

/// What `greentic_types::cbor::canonical::to_canonical_cbor_allow_floats`
/// gives for the `SchemaIr` object of this shape: its canonical CBOR bytes,
/// or the display text of the error.
pub uninterp spec fn canonical_schema_cbor(schema: ObjectSchemaView) -> Result<Seq<u8>, Seq<char>>;

/// What `greentic_types::cbor::canonical::to_canonical_cbor_allow_floats`
/// gives for the `ComponentInfo` with these fields: its canonical CBOR
/// bytes, or the display text of the error.
pub uninterp spec fn canonical_component_info_cbor(
    id: Seq<char>,
    version: Seq<char>,
    role: Seq<char>,
    display_name: Option<(Seq<char>, Option<Seq<char>>)>,
) -> Result<Seq<u8>, Seq<char>>;

/// The view of an encoding result.
pub open spec fn bytes_result_view(r: Result<Vec<u8>, String>) -> Result<Seq<u8>, Seq<char>> {
    match r {
        Ok(b) => Ok(b@),
        Err(e) => Err(e@),
    }
}

/// Builds the `greentic_types` `SchemaIr::Object` of `schema` and encodes it
/// with `to_canonical_cbor_allow_floats`; the result is
/// `canonical_schema_cbor` of the schema, a function of the schema alone.
#[verifier::external_body]
fn encode_object_schema(schema: &ObjectSchema) -> (r: Result<Vec<u8>, String>)
    ensures
        bytes_result_view(r) == canonical_schema_cbor(schema@),
{
    let ir = SchemaIr::Object {
        properties: schema.properties.iter().map(|(name, p)| (name.clone(), SchemaIr::String {
            min_len: p.min_len,
            max_len: p.max_len,
            regex: p.regex.clone(),
            format: p.format.clone(),
        })).collect(),
        required: schema.required.clone(),
        additional: match schema.additional {
            ExtraProperties::Allow => AdditionalProperties::Allow,
            ExtraProperties::Forbid => AdditionalProperties::Forbid,
        },
    };
    greentic_types::cbor::canonical::to_canonical_cbor_allow_floats(&ir).map_err(|e| e.to_string())
}

/// Builds the `greentic_types` `ComponentInfo` of these fields and encodes
/// it with `to_canonical_cbor_allow_floats`; the result is
/// `canonical_component_info_cbor` of the fields, a function of them alone.
#[verifier::external_body]
fn encode_component_info(info: &ComponentInfo) -> (r: Result<Vec<u8>, String>)
    ensures
        bytes_result_view(r) == canonical_component_info_cbor(
            info.id@,
            info.version@,
            info.role@,
            match info.display_name {
                Some((k, f)) => Some((k@, opt_text(f))),
                None => None,
            },
        ),
{
    let info = greentic_types::schemas::component::v0_6_0::ComponentInfo {
        id: info.id.clone(),
        version: info.version.clone(),
        role: info.role.clone(),
        display_name: info.display_name.as_ref().map(|(key, fallback)| {
            greentic_types::schemas::component::v0_6_0::I18nText::new(key.clone(), fallback.clone())
        }),
    };
    greentic_types::cbor::canonical::to_canonical_cbor_allow_floats(&info).map_err(|e| e.to_string())
}

/// An object with one required string property `name` (any length), open
/// to further properties.
pub open spec fn single_string_property(name: Seq<char>) -> ObjectSchemaView {
    ObjectSchemaView {
        properties: seq![
            (name, StringSchemaView { min_len: Some(0), max_len: None, regex: None, format: None }),
        ],
        required: seq![name],
        additional: ExtraProperties::Allow,
    }
}

/// An object with one required string property `name`.
fn string_property_schema(name: &str) -> (s: ObjectSchema)
    ensures
        s@ == single_string_property(name@),
{
    let mut properties: Vec<(String, StringSchema)> = Vec::new();
    properties.push(
        (owned(name), StringSchema { min_len: Some(0), max_len: None, regex: None, format: None }),
    );
    let mut required: Vec<String> = Vec::new();
    required.push(owned(name));
    let s = ObjectSchema { properties, required, additional: ExtraProperties::Allow };
    assert(s@.properties =~= single_string_property(name@).properties);
    assert(s@.required =~= single_string_property(name@).required);
    s
}

/// The schema of an operation's input: a required string `input`.
pub fn input_schema() -> (s: ObjectSchema)
    ensures
        s@ == single_string_property("input"@),
{
    string_property_schema("input")
}

/// The schema of an operation's output: a required string `message`.
pub fn output_schema() -> (s: ObjectSchema)
    ensures
        s@ == single_string_property("message"@),
{
    string_property_schema("message")
}

/// The schema of the component's configuration: an object that admits no
/// properties.
pub fn config_schema() -> (s: ObjectSchema)
    ensures
        s@ == (ObjectSchemaView {
            properties: Seq::empty(),
            required: Seq::empty(),
            additional: ExtraProperties::Forbid,
        }),
{
    let s = ObjectSchema {
        properties: Vec::new(),
        required: Vec::new(),
        additional: ExtraProperties::Forbid,
    };
    assert(s@.properties =~= Seq::<(Seq<char>, StringSchemaView)>::empty());
    assert(s@.required =~= Seq::<Seq<char>>::empty());
    s
}

/// The component's identity: `<org>.<name>`, its version, the role `tool`,
/// and its name as the fallback of the display-name key.
pub fn component_info() -> (c: ComponentInfo)
    ensures
        c.id@ == COMPONENT_ORG@ + "."@ + COMPONENT_NAME@,
        c.version@ == COMPONENT_VERSION@,
        c.role@ == "tool"@,
        c.display_name matches Some((k, f)) && k@ == "component.display_name"@ && (f matches Some(
            n,
        ) && n@ == COMPONENT_NAME@),
{
    ComponentInfo {
        id: join3(COMPONENT_ORG, ".", COMPONENT_NAME),
        version: owned(COMPONENT_VERSION),
        role: owned("tool"),
        display_name: Some((owned("component.display_name"), Some(owned(COMPONENT_NAME)))),
    }
}

/// The canonical CBOR of the component's identity.
pub fn component_info_cbor() -> (r: Result<Vec<u8>, String>)
    ensures
        bytes_result_view(r) == canonical_component_info_cbor(
            COMPONENT_ORG@ + "."@ + COMPONENT_NAME@,
            COMPONENT_VERSION@,
            "tool"@,
            Some(("component.display_name"@, Some(COMPONENT_NAME@))),
        ),
{
    encode_component_info(&component_info())
}

/// The canonical CBOR of the input schema.
pub fn input_schema_cbor() -> (r: Result<Vec<u8>, String>)
    ensures
        bytes_result_view(r) == canonical_schema_cbor(single_string_property("input"@)),
{
    encode_object_schema(&input_schema())
}

/// The canonical CBOR of the output schema.
pub fn output_schema_cbor() -> (r: Result<Vec<u8>, String>)
    ensures
        bytes_result_view(r) == canonical_schema_cbor(single_string_property("message"@)),
{
    encode_object_schema(&output_schema())
}

/// The canonical CBOR of the configuration schema.
pub fn config_schema_cbor() -> (r: Result<Vec<u8>, String>)
    ensures
        bytes_result_view(r) == canonical_schema_cbor(
            ObjectSchemaView {
                properties: Seq::empty(),
                required: Seq::empty(),
                additional: ExtraProperties::Forbid,
            },
        ),
{
    encode_object_schema(&config_schema())
}

/// Where a schema is found: a registered schema id, inline canonical CBOR,
/// a path inside the pack, or a URI.
#[derive(Debug)]
pub enum SchemaSource {
    CborSchemaId(String),
    InlineCbor(Vec<u8>),
    RefPackPath(String),
    RefUri(String),
}

/// The schema of an operation's input or output, with its content type and
/// an optional schema version.
#[derive(Debug)]
pub struct IoSchema {
    pub schema: SchemaSource,
    pub content_type: String,
    pub schema_version: Option<String>,
}

/// A worked example of an operation: its CBOR input and output.
#[derive(Debug)]
pub struct Example {
    pub title: String,
    pub input_cbor: Vec<u8>,
    pub output_cbor: Vec<u8>,
}

/// One operation the component offers: its name, summary, the schemas of
/// its input and output, and examples.
#[derive(Debug)]
pub struct OperationDescriptor {
    pub name: String,
    pub summary: Option<String>,
    pub input: IoSchema,
    pub output: IoSchema,
    pub examples: Vec<Example>,
}

/// A schema shipped with the component, by id, hash and version.
#[derive(Debug)]
pub struct SchemaRef {
    pub id: String,
    pub content_type: String,
    pub blake3_hash: String,
    pub version: String,
    pub bytes: Option<Vec<u8>>,
    pub uri: Option<String>,
}

/// An example set of setup answers, as CBOR.
#[derive(Debug)]
pub struct SetupExample {
    pub title: String,
    pub answers_cbor: Vec<u8>,
}

/// A template that setup scaffolds, and where its output goes.
#[derive(Debug)]
pub struct SetupTemplateScaffold {
    pub template_ref: String,
    pub output_layout: Option<String>,
}

/// What setup produces: configuration only, or a scaffolded template.
#[derive(Debug)]
pub enum SetupOutput {
    ConfigOnly,
    TemplateScaffold(SetupTemplateScaffold),
}

/// How the component is set up: the questionnaire's schema, the answers'
/// schema, examples and outputs.
#[derive(Debug)]
pub struct SetupContract {
    pub qa_spec: SchemaSource,
    pub answers_schema: SchemaSource,
    pub examples: Vec<SetupExample>,
    pub outputs: Vec<SetupOutput>,
}

/// What the component advertises to its host: name, version, summary,
/// capabilities, operations, shipped schemas and setup contract.
#[derive(Debug)]
pub struct ComponentDescriptor {
    pub name: String,
    pub version: String,
    pub summary: Option<String>,
    pub capabilities: Vec<String>,
    pub operations: Vec<OperationDescriptor>,
    pub schemas: Vec<SchemaRef>,
    pub setup: Option<SetupContract>,
}

/// An input or output schema given inline as the CBOR `bytes`, of content
/// type `application/cbor`, with no schema version.
pub open spec fn is_inline_cbor_schema(io: IoSchema, bytes: Seq<u8>) -> bool {
    &&& io.schema matches SchemaSource::InlineCbor(b) && b@ == bytes
    &&& io.content_type@ == "application/cbor"@
    &&& io.schema_version is None
}

/// The names of the component's operations, in the order advertised.
pub open spec fn operation_names() -> Seq<Seq<char>> {
    seq!["ingress_control.handle"@, "qa-spec"@, "apply-answers"@, "i18n-keys"@]
}

/// The summaries of the component's operations, in the same order.
pub open spec fn operation_summaries() -> Seq<Seq<char>> {
    seq![
        "Evaluate ingress control and emit directive"@,
        "Return QA spec (CBOR) for a requested mode"@,
        "Apply QA answers and optionally return config override"@,
        "Return i18n keys referenced by QA/setup"@,
    ]
}

/// A copy of a byte vector.
fn copy_bytes(b: &Vec<u8>) -> (r: Vec<u8>)
    ensures
        r@ == b@,
{
    let mut r: Vec<u8> = Vec::new();
    let mut i: usize = 0;
    while i < b.len()
        invariant
            i <= b@.len(),
            r@ == b@.take(i as int),
        decreases b.len() - i,
    {
        r.push(b[i]);
        i = i + 1;
        assert(r@ =~= b@.take(i as int));
    }
    assert(b@.take(i as int) =~= b@);
    r
}

/// An inline CBOR schema of content type `application/cbor`.
fn inline_cbor_schema(bytes: &Vec<u8>) -> (io: IoSchema)
    ensures
        is_inline_cbor_schema(io, bytes@),
{
    IoSchema {
        schema: SchemaSource::InlineCbor(copy_bytes(bytes)),
        content_type: owned("application/cbor"),
        schema_version: None,
    }
}

/// Appends an operation taking and giving CBOR of the given schemas, with
/// no examples.
fn push_operation(
    ops: &mut Vec<OperationDescriptor>,
    name: &str,
    summary: &str,
    input: &Vec<u8>,
    output: &Vec<u8>,
)
    ensures
        final(ops)@.len() == old(ops)@.len() + 1,
        forall|k: int| 0 <= k < old(ops)@.len() ==> final(ops)@[k] == old(ops)@[k],
        final(ops)@.last().name@ == name@,
        final(ops)@.last().summary matches Some(s) && s@ == summary@,
        is_inline_cbor_schema(final(ops)@.last().input, input@),
        is_inline_cbor_schema(final(ops)@.last().output, output@),
        final(ops)@.last().examples@.len() == 0,
{
    ops.push(
        OperationDescriptor {
            name: owned(name),
            summary: Some(owned(summary)),
            input: inline_cbor_schema(input),
            output: inline_cbor_schema(output),
            examples: Vec::new(),
        },
    );
}

/// The component's descriptor: the controller at its version, with no
/// capabilities, shipped schemas or setup contract, and four operations,
/// without examples, that all take and give CBOR of the input and output
/// schemas. It fails, with the encoder's error, only when a schema cannot
/// be encoded.
pub fn component_descriptor() -> (r: Result<ComponentDescriptor, String>)
    ensures
        match r {
            Ok(d) => {
                &&& canonical_schema_cbor(single_string_property("input"@)) matches Ok(i)
                &&& canonical_schema_cbor(single_string_property("message"@)) matches Ok(o)
                &&& d.name@ == COMPONENT_NAME@
                &&& d.version@ == COMPONENT_VERSION@
                &&& d.summary matches Some(s) && s@ == "Greentic component "@ + COMPONENT_NAME@
                &&& d.capabilities@.len() == 0
                &&& d.schemas@.len() == 0
                &&& d.setup is None
                &&& d.operations@.len() == 4
                &&& forall|k: int|
                    0 <= k < 4 ==> {
                        &&& (#[trigger] d.operations@[k]).name@ == operation_names()[k]
                        &&& d.operations@[k].summary matches Some(s) && s@
                            == operation_summaries()[k]
                        &&& is_inline_cbor_schema(d.operations@[k].input, i)
                        &&& is_inline_cbor_schema(d.operations@[k].output, o)
                        &&& d.operations@[k].examples@.len() == 0
                    }
            },
            Err(e) => match canonical_schema_cbor(single_string_property("input"@)) {
                Err(m) => e@ == m,
                Ok(_) => canonical_schema_cbor(single_string_property("message"@)) == Err::<
                    Seq<u8>,
                    Seq<char>,
                >(e@),
            },
        },
{
    let input = match input_schema_cbor() {
        Ok(b) => b,
        Err(e) => return Err(e),
    };
    let output = match output_schema_cbor() {
        Ok(b) => b,
        Err(e) => return Err(e),
    };
    let mut ops: Vec<OperationDescriptor> = Vec::new();
    push_operation(&mut ops, "ingress_control.handle", "Evaluate ingress control and emit directive", &input, &output);
    push_operation(&mut ops, "qa-spec", "Return QA spec (CBOR) for a requested mode", &input, &output);
    push_operation(&mut ops, "apply-answers", "Apply QA answers and optionally return config override", &input, &output);
    push_operation(&mut ops, "i18n-keys", "Return i18n keys referenced by QA/setup", &input, &output);
    Ok(
        ComponentDescriptor {
            name: owned(COMPONENT_NAME),
            version: owned(COMPONENT_VERSION),
            summary: Some(join2("Greentic component ", COMPONENT_NAME)),
            capabilities: Vec::new(),
            operations: ops,
            schemas: Vec::new(),
            setup: None,
        },
    )
}

} // verus!
