use cellscript::protocol_bundle::builder::{check_builder_manifest, BuilderManifestExpectation};
use serde_json::Value;

fn contract(type_hash: bool) -> Value {
    let mut m = serde_json::Map::new();
    let s = |x: &str| Value::String(x.to_string());
    m.insert("schema".to_string(), s("cellscript-protocol-bundle-v1"));
    m.insert("report_schema".to_string(), s("cellscript-protocol-bundle-report-v1"));
    m.insert("artifact_binding_schema".to_string(), s("cellscript-protocol-bundle-artifact-binding-v1"));
    m.insert("closed_role_schema".to_string(), s("cellscript-protocol-closed-role-v1"));
    m.insert("deployment_line_admission_evidence_schema".to_string(), s("cellscript-deployment-line-admission-evidence-v1"));
    m.insert("deployment_line_admission_transition_schema".to_string(), s("cellscript-deployment-line-admission-transition-v1"));
    m.insert("requires_deployment_line_admission".to_string(), Value::Bool(type_hash));
    m.insert("exact_handle_receipt_schema".to_string(), s("cellscript-exact-script-handle-receipt-v1"));
    m.insert("exact_handle_value_schema".to_string(), s("cellscript-exact-script-handle-value-v1"));
    m.insert("exact_handle_encoding".to_string(), s("CSHDLv1-fixed-202"));
    m.insert("exact_handle_hash_algorithm".to_string(), s("ckb-blake2b-256"));
    m.insert("exact_handle_hash_personalization".to_string(), s("ckb-default-hash"));
    m.insert("runtime_adapter".to_string(), s("cellscript-ckb-adapter"));
    let states = [
        "MaterializedProtocolBundleTx",
        "LiveResolvedProtocolBundleTx",
        "LiveDependenciesResolvedProtocolBundleTx",
        "ReadyToSignProtocolBundleTx",
        "SignedProtocolBundleTx",
        "SignedDryRunProtocolBundleTx",
        "TxPoolAcceptedProtocolBundleTx",
        "SubmittedProtocolBundleTx",
        "ConfirmedProtocolBundleTx",
    ];
    m.insert("states".to_string(), Value::Array(states.iter().map(|x| s(x)).collect()));
    m.insert("private_keys".to_string(), s("never-in-bundle-or-evidence"));
    Value::Object(m)
}

fn manifest(type_hash: bool, amount_param: &str) -> Vec<u8> {
    let mut m = serde_json::Map::new();
    m.insert("schema".to_string(), Value::String("cellscript-generated-action-builder-v0.23-edition-2026".to_string()));
    m.insert("metadata_hash".to_string(), Value::String("aa".to_string()));
    m.insert("edition".to_string(), Value::Number(2026.into()));
    m.insert("protocol_bundle_contract".to_string(), contract(type_hash));
    let mut rc = serde_json::Map::new();
    rc.insert("runtime_access_provenance".to_string(), Value::String("prov-v1".to_string()));
    m.insert("runtime_contract".to_string(), Value::Object(rc));
    let mut action = serde_json::Map::new();
    action.insert("name".to_string(), Value::String("mint".to_string()));
    action.insert("params".to_string(), Value::Array(vec![Value::String(amount_param.to_string())]));
    m.insert("actions".to_string(), Value::Array(vec![Value::Object(action)]));
    Value::Object(m).to_string().into_bytes()
}

fn expectation(profile: &str) -> BuilderManifestExpectation {
    BuilderManifestExpectation {
        string_fields: vec![("metadata_hash".to_string(), Some("aa".to_string())), ("verified_bundle_id".to_string(), None)],
        structural_fields: vec![("edition".to_string(), "2026".to_string())],
        target_profile: profile.to_string(),
        runtime_access_provenance: "prov-v1".to_string(),
        selected_action: Some("mint".to_string()),
        action_fields: Some(vec![("params".to_string(), "[\"amount\"]".to_string())]),
    }
}

#[test]
fn builder_manifest_matching_its_metadata_passes() {
    let bytes = manifest(true, "amount");
    assert!(check_builder_manifest("a", "m.json", &bytes, &expectation("ckb-type-hash")).is_ok());
    let bytes = manifest(false, "amount");
    assert!(check_builder_manifest("a", "m.json", &bytes, &expectation("ckb-data")).is_ok());
}

#[test]
fn builder_manifest_errors_name_the_first_failing_check() {
    let err = check_builder_manifest("a", "m.json", b"not json", &expectation("ckb-data")).unwrap_err();
    assert_eq!(err.message, "failed to parse ProtocolBundle builder manifest 'm.json'");
    let err = check_builder_manifest("a", "m.json", b"{\"schema\":\"other\"}", &expectation("ckb-data")).unwrap_err();
    assert_eq!(err.message, "ProtocolBundle artifact 'a' builder manifest has an unsupported schema");
    let bytes = manifest(true, "amount");
    let err = check_builder_manifest("a", "m.json", &bytes, &expectation("ckb-data")).unwrap_err();
    assert_eq!(err.message, "ProtocolBundle artifact 'a' builder manifest field 'protocol_bundle_contract' does not match checked metadata");
    let mut exp = expectation("ckb-type-hash");
    exp.string_fields[0].1 = Some("bb".to_string());
    let err = check_builder_manifest("a", "m.json", &bytes, &exp).unwrap_err();
    assert_eq!(err.message, "ProtocolBundle artifact 'a' builder manifest field 'metadata_hash' does not match checked metadata");
    let bytes = manifest(true, "other");
    let err = check_builder_manifest("a", "m.json", &bytes, &expectation("ckb-type-hash")).unwrap_err();
    assert_eq!(err.message, "ProtocolBundle artifact 'a' builder action 'mint' field 'params' does not match checked metadata");
    let mut exp = expectation("ckb-type-hash");
    exp.selected_action = Some("burn".to_string());
    let err = check_builder_manifest("a", "m.json", &manifest(true, "amount"), &exp).unwrap_err();
    assert_eq!(err.message, "ProtocolBundle artifact 'a' builder manifest does not expose selected action 'burn'");
    exp.action_fields = None;
    let err = check_builder_manifest("a", "m.json", &manifest(true, "amount"), &exp).unwrap_err();
    assert_eq!(err.message, "ProtocolBundle artifact 'a' selected action disappeared from metadata");
}
