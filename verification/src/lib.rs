//! Ingress control chain: routing directives for inbound messages, the
//! rule and policy assets that drive them, the controller component's
//! host-side logic, and the hook pack's manifest.
pub mod assets;
pub mod cbor;
pub mod component_dispatch;
pub mod component_schema;
pub mod controller;
pub mod dispatch_target;
pub mod ingress_control;
pub mod json;
pub mod pack;
pub mod rule_regex;
pub mod rules;
pub mod text;
