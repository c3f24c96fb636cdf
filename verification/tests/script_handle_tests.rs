use cellscript::error::CompileError;
use cellscript::protocol_bundle::{
    ProtocolCellDep, ProtocolDepType, ProtocolDeploymentIdentity, ProtocolEntryIdentity, ProtocolEntryKind,
    ProtocolNetworkIdentity, ProtocolOutPoint, ProtocolScriptIdentity, ProtocolScriptRole,
};
use cellscript::script_handle_contract::{EXACT_SCRIPT_HANDLE_BYTES, EXACT_SCRIPT_HANDLE_ENCODING};
use cellscript::script_handle::{
    build_exact_script_handle, ckb_script_identity_hash, exact_script_handle_receipt, exact_script_handle_value_from_receipt,
    exact_script_handle_value_hash, validate_exact_script_handle, ExactCodeIdentityPolicy, ExactHandleClass,
    ExactScriptHandleReceipt, ExactScriptHandleReceiptInput, ExactScriptHandleValue,
};

fn hash(byte: &str) -> String {
    byte.repeat(32)
}

fn ckb_hash(bytes: &[u8]) -> [u8; 32] {
    let mut digest = [0u8; 32];
    let mut hasher = blake2b_ref::Blake2bBuilder::new(32).personal(b"ckb-default-hash").build();
    hasher.update(bytes);
    hasher.finalize(&mut digest);
    digest
}

fn deployment(hash_type: &str) -> ProtocolDeploymentIdentity {
    ProtocolDeploymentIdentity {
        network: ProtocolNetworkIdentity { chain_id: "ckb-testnet".to_string(), genesis_hash: format!("0x{}", hash("10")) },
        artifact_hash: hash("aa"),
        script: ProtocolScriptIdentity {
            code_hash: format!("0x{}", hash("aa")),
            hash_type: hash_type.to_string(),
            args: "0x010203".to_string(),
        },
        code_cell_dep: ProtocolCellDep {
            out_point: ProtocolOutPoint { tx_hash: format!("0x{}", hash("20")), index: 0 },
            dep_type: ProtocolDepType::Code,
        },
    }
}

fn fixed_hasher(_receipt: &ExactScriptHandleReceipt) -> Result<String, CompileError> {
    Ok(hash("cd"))
}

fn input<'a>(entry: &'a ProtocolEntryIdentity, deployment: &'a ProtocolDeploymentIdentity, artifact: &'a str) -> ExactScriptHandleReceiptInput<'a> {
    ExactScriptHandleReceiptInput {
        package_coordinate: "demo/token@1.0.0",
        lock_node_id: "node-1",
        entry,
        script_role: ProtocolScriptRole::Type,
        interface_hash: "11111111111111111111111111111111111111111111111111111111111111ff",
        typed_semantics_hash: "2222222222222222222222222222222222222222222222222222222222222222",
        artifact_hash: artifact,
        target_profile_hash: "3333333333333333333333333333333333333333333333333333333333333333",
        runtime_abi_hash: "4444444444444444444444444444444444444444444444444444444444444444",
        verified_bundle_id: "5555555555555555555555555555555555555555555555555555555555555555",
        deployment,
    }
}

#[test]
fn script_identity_hash_is_the_ckb_hash_of_the_molecule_script() {
    let script = deployment("data1").script;
    let mut bytes = Vec::new();
    bytes.extend_from_slice(&56u32.to_le_bytes());
    bytes.extend_from_slice(&16u32.to_le_bytes());
    bytes.extend_from_slice(&48u32.to_le_bytes());
    bytes.extend_from_slice(&49u32.to_le_bytes());
    bytes.extend_from_slice(&[0xaa; 32]);
    bytes.push(2);
    bytes.extend_from_slice(&3u32.to_le_bytes());
    bytes.extend_from_slice(&[1, 2, 3]);
    let expected = format!("0x{}", hex::encode(ckb_hash(&bytes)));
    assert_eq!(ckb_script_identity_hash(&script).unwrap(), expected);
}

#[test]
fn script_identity_hash_rejects_malformed_scripts() {
    let mut script = deployment("data").script;
    script.hash_type = "data3".to_string();
    assert_eq!(ckb_script_identity_hash(&script).unwrap_err().message, "unsupported CKB Script hash_type 'data3'");
    let mut script = deployment("data").script;
    script.code_hash = hash("aa");
    assert_eq!(
        ckb_script_identity_hash(&script).unwrap_err().message,
        "exact Script handle Script code_hash must be 0x-prefixed lowercase hexadecimal"
    );
    let mut script = deployment("data").script;
    script.args = "0x0".to_string();
    assert_eq!(ckb_script_identity_hash(&script).unwrap_err().message, "exact Script handle Script args must be canonical lowercase hex");
}

#[test]
fn built_handle_is_fixed_width_and_validates_against_its_receipt() {
    let entry = ProtocolEntryIdentity { kind: ProtocolEntryKind::Action, name: "mint".to_string() };
    let deployment = deployment("data1");
    let artifact = hash("aa");
    let (receipt, value) = build_exact_script_handle(input(&entry, &deployment, &artifact), fixed_hasher).unwrap();
    assert_eq!(receipt.class, ExactHandleClass::Script);
    assert_eq!(receipt.code_identity_policy, ExactCodeIdentityPolicy::DataHashExactArtifact);
    assert_eq!(value.encoding, "CSHDLv1-fixed-202");
    assert_eq!(value.encoded.len(), 2 + 2 * 202);
    assert!(value.encoded.starts_with("0x435348444c7631000001"));
    assert_eq!(&value.encoded[2 + 20..2 + 20 + 64], hash("cd"));
    assert!(validate_exact_script_handle(&receipt, &value, fixed_hasher).is_ok());
    assert_eq!(exact_script_handle_value_from_receipt(&receipt, fixed_hasher).unwrap(), value);

    let raw = hex::decode(&value.encoded[2..]).unwrap();
    assert_eq!(exact_script_handle_value_hash(&value).unwrap(), hex::encode(ckb_hash(&raw)));

    let tampered = ExactScriptHandleValue { encoded: value.encoded.replacen("01", "02", 1), ..value.clone() };
    assert_eq!(
        validate_exact_script_handle(&receipt, &tampered, fixed_hasher).unwrap_err().message,
        "exact Script handle value does not match its interface/artifact/deployment receipt"
    );
    let other_hash = |_: &ExactScriptHandleReceipt| Ok::<String, CompileError>(hash("ce"));
    assert!(validate_exact_script_handle(&receipt, &value, other_hash).is_err());
}

#[test]
fn receipt_checks_bind_the_artifact_and_hash_type() {
    let entry = ProtocolEntryIdentity { kind: ProtocolEntryKind::Lock, name: "owner".to_string() };
    let type_deployment = deployment("type");
    let artifact = hash("aa");
    let receipt = exact_script_handle_receipt(&input(&entry, &type_deployment, &artifact)).unwrap();
    assert_eq!(receipt.code_identity_policy, ExactCodeIdentityPolicy::TypeHashExactCodeCell);

    let other_artifact = hash("bb");
    let data_deployment = deployment("data");
    assert_eq!(
        exact_script_handle_receipt(&input(&entry, &data_deployment, &other_artifact)).unwrap_err().message,
        "exact Script handle deployment artifact hash differs from the checked artifact"
    );
    let mut bad_type = deployment("data9");
    bad_type.artifact_hash = hash("aa");
    assert_eq!(
        exact_script_handle_receipt(&input(&entry, &bad_type, &artifact)).unwrap_err().message,
        "exact Script handle has unsupported Script hash type 'data9'"
    );
    let failing = |_: &ExactScriptHandleReceipt| Err::<String, CompileError>(CompileError::without_span("hasher unavailable"));
    assert_eq!(build_exact_script_handle(input(&entry, &type_deployment, &artifact), failing).unwrap_err().message, "hasher unavailable");
}

#[test]
fn value_hash_rejects_foreign_schemas_and_wrong_widths() {
    let value = ExactScriptHandleValue {
        schema: "cellscript-exact-script-handle-value-v1".to_string(),
        version: 1,
        encoding: "CSHDLv1-fixed-202".to_string(),
        encoded: "0x00".to_string(),
    };
    assert_eq!(exact_script_handle_value_hash(&value).unwrap_err().message, "exact Script handle value must contain exactly 202 bytes");
    let foreign = ExactScriptHandleValue { version: 2, ..value };
    assert_eq!(
        exact_script_handle_value_hash(&foreign).unwrap_err().message,
        "unsupported exact Script handle value schema/version/encoding"
    );
}

fn hash64(byte: &str) -> String {
    byte.repeat(64)
}

fn deployment_with_args(hash_type: &str, args: &str) -> ProtocolDeploymentIdentity {
    let artifact_hash = hash64("a");
    ProtocolDeploymentIdentity {
        network: ProtocolNetworkIdentity { chain_id: "ckb-testnet".to_string(), genesis_hash: format!("0x{}", hash64("0")) },
        artifact_hash: artifact_hash.clone(),
        script: ProtocolScriptIdentity {
            code_hash: if hash_type == "type" { format!("0x{}", hash64("b")) } else { format!("0x{artifact_hash}") },
            hash_type: hash_type.to_string(),
            args: args.to_string(),
        },
        code_cell_dep: ProtocolCellDep {
            out_point: ProtocolOutPoint { tx_hash: format!("0x{}", hash64("c")), index: 0 },
            dep_type: ProtocolDepType::Code,
        },
    }
}

/// A receipt hasher that depends on every field of the receipt.
fn receipt_digest(receipt: &ExactScriptHandleReceipt) -> Result<String, CompileError> {
    Ok(hex::encode(ckb_hash(format!("{receipt:?}").as_bytes())))
}

fn build(deployment: &ProtocolDeploymentIdentity) -> (ExactScriptHandleReceipt, ExactScriptHandleValue) {
    let entry = ProtocolEntryIdentity { kind: ProtocolEntryKind::Action, name: "transfer".to_string() };
    let interface_hash = hash64("1");
    let typed_semantics_hash = hash64("2");
    let target_profile_hash = hash64("3");
    let runtime_abi_hash = hash64("4");
    let verified_bundle_id = hash64("5");
    build_exact_script_handle(
        ExactScriptHandleReceiptInput {
            package_coordinate: "example/token@1.0.0",
            lock_node_id: "token@1.0.0|path:token|env=default|features=default",
            entry: &entry,
            script_role: ProtocolScriptRole::Type,
            interface_hash: &interface_hash,
            typed_semantics_hash: &typed_semantics_hash,
            artifact_hash: &deployment.artifact_hash,
            target_profile_hash: &target_profile_hash,
            runtime_abi_hash: &runtime_abi_hash,
            verified_bundle_id: &verified_bundle_id,
            deployment,
        },
        receipt_digest,
    )
    .unwrap()
}

/// The Molecule `Script` table: header, code_hash, hash_type byte, args as `Bytes`.
fn molecule_script(code_hash: &[u8], hash_type: u8, args: &[u8]) -> Vec<u8> {
    let args_len = 4 + args.len();
    let total = 16 + 32 + 1 + args_len;
    let mut bytes = Vec::new();
    bytes.extend_from_slice(&(total as u32).to_le_bytes());
    bytes.extend_from_slice(&16u32.to_le_bytes());
    bytes.extend_from_slice(&48u32.to_le_bytes());
    bytes.extend_from_slice(&49u32.to_le_bytes());
    bytes.extend_from_slice(code_hash);
    bytes.push(hash_type);
    bytes.extend_from_slice(&(args.len() as u32).to_le_bytes());
    bytes.extend_from_slice(args);
    bytes
}

#[test]
fn script_identity_hash_matches_ckb_types_molecule_hash() {
    for (hash_type, packed_hash_type) in [("data", 0u8), ("data1", 2u8), ("data2", 4u8), ("type", 1u8)] {
        let script = deployment_with_args(hash_type, "0x010203").script;
        let code_hash = hex::decode(&script.code_hash[2..]).unwrap();
        let packed = molecule_script(&code_hash, packed_hash_type, &[1u8, 2, 3]);
        assert_eq!(ckb_script_identity_hash(&script).unwrap(), format!("0x{}", hex::encode(ckb_hash(&packed))));
    }
}

#[test]
fn exact_handle_is_fixed_width_and_binds_every_identity_axis() {
    let deployment = deployment_with_args("data2", "0x010203");
    let (receipt, value) = build(&deployment);
    assert_eq!(receipt.code_identity_policy, ExactCodeIdentityPolicy::DataHashExactArtifact);
    assert_eq!(value.encoding, EXACT_SCRIPT_HANDLE_ENCODING);
    assert_eq!(value.encoded.len(), 2 + EXACT_SCRIPT_HANDLE_BYTES * 2);
    validate_exact_script_handle(&receipt, &value, receipt_digest).unwrap();
    let value_bytes = hex::decode(value.encoded.strip_prefix("0x").unwrap()).unwrap();
    assert_eq!(exact_script_handle_value_hash(&value).unwrap(), hex::encode(ckb_hash(&value_bytes)));

    let mut changed_value = value.clone();
    changed_value.encoded.replace_range(2..4, "ff");
    assert_ne!(exact_script_handle_value_hash(&changed_value).unwrap(), exact_script_handle_value_hash(&value).unwrap());

    for mutate in [
        |receipt: &mut ExactScriptHandleReceipt| receipt.interface_hash = hash64("6"),
        |receipt: &mut ExactScriptHandleReceipt| receipt.typed_semantics_hash = hash64("6"),
        |receipt: &mut ExactScriptHandleReceipt| receipt.target_profile_hash = hash64("6"),
        |receipt: &mut ExactScriptHandleReceipt| receipt.runtime_abi_hash = hash64("6"),
    ] {
        let mut changed = receipt.clone();
        mutate(&mut changed);
        assert!(validate_exact_script_handle(&changed, &value, receipt_digest).is_err());
    }

    let mut substituted_code = receipt.clone();
    substituted_code.deployment.script.code_hash = format!("0x{}", hash64("6"));
    assert!(validate_exact_script_handle(&substituted_code, &value, receipt_digest).is_err());
}

#[test]
fn type_hash_handle_keeps_exact_code_cell_policy_separate() {
    let deployment = deployment_with_args("type", "0x");
    let (receipt, value) = build(&deployment);
    assert_eq!(receipt.code_identity_policy, ExactCodeIdentityPolicy::TypeHashExactCodeCell);
    validate_exact_script_handle(&receipt, &value, receipt_digest).unwrap();

    let mut wrong = receipt.clone();
    wrong.code_identity_policy = ExactCodeIdentityPolicy::DataHashExactArtifact;
    assert!(validate_exact_script_handle(&wrong, &value, receipt_digest).is_err());
}
