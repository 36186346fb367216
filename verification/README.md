# greentic-control-chain

A Verus-verified library for the Greentic ingress control chain: it turns
an inbound request, the pack's optional `policy.cbor` and `rules.cbor`
assets, and an optional explicit dispatch path into a versioned routing
directive (dispatch, respond, continue or deny).

Layout:

- `src/ingress_control.rs` — the directive, its mathematical view, the
  handler `handle_with_assets` with its exact contract, and the laws of the
  handler (secure policy defaults, first-match rule order, denials for
  invalid assets, well-formed dispatch targets).
- `src/rules.rs`, `src/assets.rs` — rule and policy assets: validation,
  compilation and matching.
- `src/dispatch_target.rs` — the `pack[/flow[/node]]` grammar, its parser
  and the laws that parsing and rendering are inverse.
- `src/controller.rs`, `src/json.rs` — the controller component's JSON
  handler and metadata.
- `src/component_dispatch.rs`, `src/component_schema.rs` — the component's
  operation dispatcher on payload bytes (canonical CBOR, else JSON), its
  descriptor, and its schemas, encoded through `greentic-types`. The setup
  questionnaire operations (`qa-spec`, `apply-answers`, `i18n-keys`) are
  routed to a questionnaire that the caller supplies as three functions;
  the dispatcher chooses the requested mode and encodes their answers.
- `src/pack.rs`, `src/assets.rs` — the hook pack manifest and the default
  policy a pack ships.
- `src/rule_regex.rs`, `src/text.rs` — regular expressions (through the
  `regex` crate) and character-level text helpers.
- `app/` — the command-line programs and all file, archive and
  serialization work (CBOR, JSON, zip). The `controller` program has no
  setup questionnaire built in and refuses its operations.
