use cellscript::error::CompileError;
use cellscript::protocol_bundle::canonical::canonicalize_bundle;
use cellscript::protocol_bundle::closed::resolve_closed_roles;
use cellscript::protocol_bundle::compose::detect_conflicts;
use cellscript::proof_plan::soundness::{CompileMetadata, EntryProofPlanMetadata, RuntimeProofMetadata};
use cellscript::protocol_bundle::skeleton::{validate_entry, validate_transaction};
use cellscript::protocol_bundle::input::{validate_input_shape, ProtocolClaimCounts};
use cellscript::protocol_bundle::admission::admit_deployment_lines;
use cellscript::protocol_bundle::{ProtocolArtifactFiles, ProtocolArtifactInput, PROTOCOL_BUNDLE_INPUT_SCHEMA};
use cellscript::protocol_bundle::{
    normalized_network, protocol_json_commitment, validate_deployment, ProtocolArtifactIdentity, ProtocolClosedRoleBinding, ProtocolClosedRoleKind,
    ProtocolClosedRoleSource, ProtocolPhysicalRoleRef, ProtocolRoleCorrespondence, ProtocolRoleLocality, PROTOCOL_CLOSED_ROLE_SCHEMA, ProtocolCellDep, ProtocolCellDepClaim, ProtocolCellLocation, ProtocolCellSlot,
    ProtocolDepType, ProtocolDeploymentIdentity, ProtocolEntryIdentity, ProtocolEntryKind, ProtocolHeaderDepClaim,
    ProtocolNetworkIdentity, ProtocolOutPoint, ProtocolPolicyClaim, ProtocolPolicyKind, ProtocolPolicyOwnership,
    ProtocolRoleBinding, ProtocolRoleOwnership, ProtocolRoleSchemaIdentity, ProtocolScriptIdentity, ProtocolScriptRole,
    ProtocolTransactionSkeleton, ProtocolWitnessClaim, ProtocolWitnessField, ProtocolWitnessOwnership, ProtocolWitnessSlot,
    ResolvedProtocolBundle, PROTOCOL_BUNDLE_SCHEMA,
};
use cellscript::script_handle::{build_exact_script_handle, exact_script_handle_value_hash, ExactScriptHandleReceipt, ExactScriptHandleReceiptInput};
use std::collections::{BTreeMap, BTreeSet};

fn hash(byte: &str) -> String {
    format!("0x{}", byte.repeat(64))
}

fn raw_hash(byte: &str) -> String {
    byte.repeat(64)
}

fn script(byte: &str) -> ProtocolScriptIdentity {
    ProtocolScriptIdentity { code_hash: hash(byte), hash_type: "type".to_string(), args: "0x".to_string() }
}

fn cell_dep(byte: &str, index: u32) -> ProtocolCellDep {
    ProtocolCellDep { out_point: ProtocolOutPoint { tx_hash: hash(byte), index }, dep_type: ProtocolDepType::Code }
}

fn network(chain_id: &str, byte: &str) -> ProtocolNetworkIdentity {
    ProtocolNetworkIdentity { chain_id: chain_id.to_string(), genesis_hash: hash(byte) }
}

fn receipt_hash(_receipt: &ExactScriptHandleReceipt) -> Result<String, CompileError> {
    Ok(raw_hash("3"))
}

fn artifact(id: &str, network: ProtocolNetworkIdentity) -> ProtocolArtifactIdentity {
    let deployment_byte = if id == "order" { "a" } else { "b" };
    let package_coordinate = format!("org/{id}@1.0.0");
    let lock_node_id = format!("{id}@1.0.0|path:{id}|env=default|features=default");
    let entry = ProtocolEntryIdentity { kind: ProtocolEntryKind::Action, name: "main".to_string() };
    let deployment = ProtocolDeploymentIdentity {
        network,
        artifact_hash: raw_hash(deployment_byte),
        script: script(deployment_byte),
        code_cell_dep: cell_dep(deployment_byte, 0),
    };
    let interface_hash = raw_hash("f");
    let typed_semantics_hash = raw_hash("c");
    let target_profile_hash = raw_hash("1");
    let runtime_abi_hash = raw_hash("8");
    let verified_bundle_id = raw_hash("2");
    let (exact_handle_receipt, exact_handle) = build_exact_script_handle(
        ExactScriptHandleReceiptInput {
            package_coordinate: &package_coordinate,
            lock_node_id: &lock_node_id,
            entry: &entry,
            script_role: ProtocolScriptRole::Type,
            interface_hash: &interface_hash,
            typed_semantics_hash: &typed_semantics_hash,
            artifact_hash: &deployment.artifact_hash,
            target_profile_hash: &target_profile_hash,
            runtime_abi_hash: &runtime_abi_hash,
            verified_bundle_id: &verified_bundle_id,
            deployment: &deployment,
        },
        receipt_hash,
    )
    .unwrap();
    let exact_handle_hash = exact_script_handle_value_hash(&exact_handle).unwrap();
    ProtocolArtifactIdentity {
        id: id.to_string(),
        package_coordinate,
        lock_node_id,
        entry,
        script_role: ProtocolScriptRole::Type,
        deployment,
        compiler_version: "0.26.0".to_string(),
        edition: "2026".to_string(),
        metadata_schema_version: 71,
        artifact_hash: raw_hash(deployment_byte),
        metadata_hash: raw_hash("b"),
        typed_semantics_hash,
        lowering_record_hash: raw_hash("d"),
        source_map_hash: raw_hash("e"),
        interface_hash,
        schema_contracts: vec![ProtocolRoleSchemaIdentity { molecule_type: "SharedRecord".to_string(), schema_hash: raw_hash("7") }],
        target_profile: "ckb".to_string(),
        target_profile_hash,
        runtime_abi_hash,
        exact_handle_receipt,
        exact_handle,
        exact_handle_hash,
        builder_manifest_hash: None,
        verified_bundle_id,
    }
}

fn role(artifact: &str, name: &str, location: ProtocolCellLocation, ownership: ProtocolRoleOwnership) -> ProtocolRoleBinding {
    ProtocolRoleBinding {
        artifact: artifact.to_string(),
        name: name.to_string(),
        location,
        index: 0,
        ownership,
        expected_lock: None,
        expected_type: None,
        resource_identity: None,
        cell_commitment: None,
        exact_capacity: None,
        minimum_capacity: None,
    }
}

fn bundle() -> ResolvedProtocolBundle {
    let network = network("ckb-testnet", "0");
    ResolvedProtocolBundle {
        schema: PROTOCOL_BUNDLE_SCHEMA.to_string(),
        network: network.clone(),
        artifacts: vec![artifact("order", network.clone()), artifact("token", network)],
        transaction: ProtocolTransactionSkeleton {
            version: 0,
            inputs: vec![ProtocolCellSlot {
                cell_commitment: hash("3"),
                capacity: 1_000,
                lock: script("4"),
                type_script: Some(script("5")),
                out_point: None,
                since: None,
                data: None,
            }],
            outputs: vec![ProtocolCellSlot {
                cell_commitment: hash("6"),
                capacity: 900,
                lock: script("4"),
                type_script: Some(script("5")),
                out_point: None,
                since: None,
                data: None,
            }],
            witnesses: vec![ProtocolWitnessSlot {
                lock: Some(hash("7")),
                input_type: None,
                output_type: None,
                lock_bytes: None,
                input_type_bytes: None,
                output_type_bytes: None,
            }],
            cell_deps: vec![cell_dep("8", 0)],
            header_deps: vec![hash("9")],
            fee_policy_hash: hash("a"),
            change_policy_hash: hash("b"),
            builder_assumption_evidence: BTreeMap::new(),
        },
        roles: Vec::new(),
        closed_roles: Vec::new(),
        witnesses: Vec::new(),
        cell_deps: Vec::new(),
        header_deps: Vec::new(),
        policies: Vec::new(),
    }
}

#[test]
fn conflict_matrix_is_deterministic_and_covers_every_phase_zero_class() {
    let mut bundle = bundle();
    bundle.artifacts[1].deployment.network = network("ckb-mainnet", "f");
    bundle.artifacts[1].target_profile_hash = raw_hash("9");

    let mut input_owner = role("order", "order-input", ProtocolCellLocation::Input, ProtocolRoleOwnership::Exclusive);
    input_owner.resource_identity = Some("order-v1".to_string());
    let mut input_observer = role("token", "token-observer", ProtocolCellLocation::Input, ProtocolRoleOwnership::Exclusive);
    input_observer.resource_identity = Some("token-v1".to_string());
    input_observer.expected_lock = Some(script("c"));
    bundle.roles.extend([input_owner, input_observer]);

    let mut bad_output = role("order", "order-output", ProtocolCellLocation::Output, ProtocolRoleOwnership::Exclusive);
    bad_output.cell_commitment = Some(hash("d"));
    bad_output.minimum_capacity = Some(901);
    bundle.roles.push(bad_output);
    let mut outside = role("token", "missing-output", ProtocolCellLocation::Output, ProtocolRoleOwnership::SharedRead);
    outside.index = 5;
    bundle.roles.push(outside);

    bundle.witnesses.extend([
        ProtocolWitnessClaim {
            artifact: "order".to_string(),
            name: "order-signature".to_string(),
            index: 0,
            field: ProtocolWitnessField::Lock,
            ownership: ProtocolWitnessOwnership::ExclusiveWrite,
            abi: "abi-a".to_string(),
            value_commitment: Some(hash("7")),
            signing_domain: Some("domain-a".to_string()),
        },
        ProtocolWitnessClaim {
            artifact: "token".to_string(),
            name: "token-signature".to_string(),
            index: 0,
            field: ProtocolWitnessField::Lock,
            ownership: ProtocolWitnessOwnership::ExclusiveWrite,
            abi: "abi-b".to_string(),
            value_commitment: Some(hash("e")),
            signing_domain: Some("domain-b".to_string()),
        },
    ]);
    bundle.cell_deps.push(ProtocolCellDepClaim {
        artifact: "order".to_string(),
        name: "code".to_string(),
        index: 0,
        cell_dep: cell_dep("f", 0),
    });
    bundle.header_deps.push(ProtocolHeaderDepClaim {
        artifact: "order".to_string(),
        name: "settlement-header".to_string(),
        index: 0,
        header_hash: hash("e"),
    });
    bundle.policies.extend([
        ProtocolPolicyClaim {
            artifact: "order".to_string(),
            kind: ProtocolPolicyKind::Fee,
            ownership: ProtocolPolicyOwnership::Exclusive,
            policy_hash: hash("c"),
        },
        ProtocolPolicyClaim {
            artifact: "token".to_string(),
            kind: ProtocolPolicyKind::Fee,
            ownership: ProtocolPolicyOwnership::Shared,
            policy_hash: hash("d"),
        },
    ]);

    let first = detect_conflicts(&bundle).unwrap();
    let second = detect_conflicts(&bundle).unwrap();
    assert_eq!(first, second);
    let codes = first.iter().map(|conflict| conflict.code.as_str()).collect::<BTreeSet<_>>();
    assert_eq!(
        codes,
        BTreeSet::from([
            "PB200", "PB201", "PB202", "PB203", "PB204", "PB205", "PB206", "PB207", "PB208", "PB209", "PB210", "PB211"
        ])
    );
}

#[test]
fn unknown_artifact_claims_fail_closed_before_composition() {
    let mut bundle = bundle();
    bundle.roles.push(role("missing", "input", ProtocolCellLocation::Input, ProtocolRoleOwnership::SharedRead));
    let error = detect_conflicts(&bundle).unwrap_err();
    assert!(error.message.contains("unknown artifact 'missing'"), "{}", error.message);
}

#[test]
fn conflicts_come_sorted_without_repeats_and_with_sorted_artifacts() {
    let mut bundle = bundle();
    bundle.roles.extend([
        role("token", "a", ProtocolCellLocation::Input, ProtocolRoleOwnership::Exclusive),
        role("order", "b", ProtocolCellLocation::Input, ProtocolRoleOwnership::Exclusive),
    ]);
    let conflicts = detect_conflicts(&bundle).unwrap();
    assert_eq!(conflicts.len(), 1);
    assert_eq!(conflicts[0].code, "PB200");
    assert_eq!(conflicts[0].class, "input-ownership");
    assert_eq!(conflicts[0].key, "input[0]");
    assert_eq!(conflicts[0].artifacts, vec!["order".to_string(), "token".to_string()]);
    assert_eq!(conflicts[0].detail, "an exclusive cell role is also claimed by another artifact");

    let mut sorted = conflicts.clone();
    sorted.sort();
    sorted.dedup();
    assert_eq!(sorted, conflicts);
}

#[test]
fn compatible_shared_reads_raise_no_conflict() {
    let mut bundle = bundle();
    bundle.roles.extend([
        role("token", "observe", ProtocolCellLocation::Input, ProtocolRoleOwnership::SharedRead),
        role("order", "own", ProtocolCellLocation::Input, ProtocolRoleOwnership::SharedRead),
    ]);
    assert!(detect_conflicts(&bundle).unwrap().is_empty());
    let mut reversed = bundle.clone();
    reversed.roles.reverse();
    assert_eq!(detect_conflicts(&reversed).unwrap(), detect_conflicts(&bundle).unwrap());
}

#[test]
fn malformed_claims_and_duplicate_names_are_rejected() {
    let mut bundle = bundle();
    let mut bad = role("order", "lock", ProtocolCellLocation::Input, ProtocolRoleOwnership::SharedRead);
    bad.expected_lock = Some(ProtocolScriptIdentity { code_hash: "0x12".to_string(), hash_type: "type".to_string(), args: "0x".to_string() });
    bundle.roles.push(bad);
    assert_eq!(
        detect_conflicts(&bundle).unwrap_err().message,
        "role expected_lock code_hash must be exactly 32 bytes of lowercase hex without 0x"
    );

    let mut bundle = self::bundle();
    bundle.roles.push(role("order", "twice", ProtocolCellLocation::Input, ProtocolRoleOwnership::SharedRead));
    bundle.roles.push(role("order", "twice", ProtocolCellLocation::Output, ProtocolRoleOwnership::SharedRead));
    assert_eq!(detect_conflicts(&bundle).unwrap_err().message, "duplicate ProtocolBundle role claim 'order:twice'");

    let mut bundle = self::bundle();
    bundle.policies.push(ProtocolPolicyClaim {
        artifact: "nobody".to_string(),
        kind: ProtocolPolicyKind::Change,
        ownership: ProtocolPolicyOwnership::Shared,
        policy_hash: hash("b"),
    });
    assert_eq!(
        detect_conflicts(&bundle).unwrap_err().message,
        "ProtocolBundle policy claim references unknown artifact 'nobody'"
    );
}

#[test]
fn deployments_are_checked_field_by_field() {
    let artifact = artifact("order", network("ckb-testnet", "0"));
    assert!(validate_deployment(&artifact.deployment).is_ok());
    let mut deployment = artifact.deployment.clone();
    deployment.network.chain_id = "bad\u{7}chain".to_string();
    assert_eq!(
        validate_deployment(&deployment).unwrap_err().message,
        "ProtocolBundle artifact deployment network chain_id must be a non-empty bounded string"
    );
    let mut deployment = artifact.deployment.clone();
    deployment.script.hash_type = "data9".to_string();
    assert_eq!(
        validate_deployment(&deployment).unwrap_err().message,
        "deployment script hash_type must be data, data1, data2, or type"
    );
    let mut deployment = artifact.deployment;
    deployment.code_cell_dep.out_point.tx_hash = raw_hash("1");
    assert_eq!(
        validate_deployment(&deployment).unwrap_err().message,
        "deployment code CellDep tx_hash must use canonical 0x-prefixed lowercase hex"
    );
}

fn ckb_hash(bytes: &[u8]) -> [u8; 32] {
    let mut digest = [0u8; 32];
    let mut hasher = blake2b_ref::Blake2bBuilder::new(32).personal(b"ckb-default-hash").build();
    hasher.update(bytes);
    hasher.finalize(&mut digest);
    digest
}

#[test]
fn closed_cell_role_binds_type_interface_artifact_and_deployment_identity() {
    let mut bundle = bundle();
    let mut provider = role("order", "shared-output", ProtocolCellLocation::Output, ProtocolRoleOwnership::Exclusive);
    provider.resource_identity = Some("SharedRecord".to_string());
    let mut consumer = role("token", "shared-output", ProtocolCellLocation::Output, ProtocolRoleOwnership::SharedRead);
    consumer.resource_identity = Some("SharedRecord".to_string());
    bundle.roles.extend([provider, consumer]);

    let declared = ProtocolClosedRoleBinding {
        schema: PROTOCOL_CLOSED_ROLE_SCHEMA.to_string(),
        role_id: "settlement-record".to_string(),
        kind: ProtocolClosedRoleKind::Cell,
        schema_identity: ProtocolRoleSchemaIdentity { molecule_type: "SharedRecord".to_string(), schema_hash: raw_hash("7") },
        provider: ProtocolPhysicalRoleRef { artifact: "order".to_string(), claim: "shared-output".to_string() },
        consumers: vec![ProtocolPhysicalRoleRef { artifact: "token".to_string(), claim: "shared-output".to_string() }],
        correspondence: ProtocolRoleCorrespondence::ExactPhysicalBinding,
    };
    bundle.closed_roles = resolve_closed_roles(&[declared], &bundle.artifacts, &bundle.roles, &bundle.witnesses).unwrap();

    assert!(detect_conflicts(&bundle).unwrap().is_empty());
    let resolved = &bundle.closed_roles[0];
    assert_eq!(resolved.locality, ProtocolRoleLocality::ClosedForeign);
    assert_eq!(resolved.source, ProtocolClosedRoleSource::Cell { location: ProtocolCellLocation::Output, index: 0 });
    assert_eq!(resolved.provider.interface_hash, bundle.artifacts[0].interface_hash);
    assert_eq!(resolved.provider.artifact_hash, bundle.artifacts[0].artifact_hash);
    assert_eq!(resolved.provider.deployment, bundle.artifacts[0].deployment);
    assert_eq!(resolved.consumers[0].deployment, bundle.artifacts[1].deployment);

    bundle.closed_roles[0].schema_identity.schema_hash = raw_hash("8");
    assert!(detect_conflicts(&bundle).unwrap().iter().any(|conflict| conflict.code == "PB213"));
}

#[test]
fn closed_witness_role_requires_one_writer_and_identical_typed_field() {
    let mut bundle = bundle();
    bundle.witnesses.extend([
        ProtocolWitnessClaim {
            artifact: "order".to_string(),
            name: "shared-envelope".to_string(),
            index: 0,
            field: ProtocolWitnessField::InputType,
            ownership: ProtocolWitnessOwnership::ExclusiveWrite,
            abi: "SharedRecord".to_string(),
            value_commitment: None,
            signing_domain: None,
        },
        ProtocolWitnessClaim {
            artifact: "token".to_string(),
            name: "shared-envelope".to_string(),
            index: 0,
            field: ProtocolWitnessField::InputType,
            ownership: ProtocolWitnessOwnership::SharedRead,
            abi: "SharedRecord".to_string(),
            value_commitment: None,
            signing_domain: None,
        },
    ]);
    let declared = ProtocolClosedRoleBinding {
        schema: PROTOCOL_CLOSED_ROLE_SCHEMA.to_string(),
        role_id: "settlement-envelope".to_string(),
        kind: ProtocolClosedRoleKind::Witness,
        schema_identity: ProtocolRoleSchemaIdentity { molecule_type: "SharedRecord".to_string(), schema_hash: raw_hash("7") },
        provider: ProtocolPhysicalRoleRef { artifact: "order".to_string(), claim: "shared-envelope".to_string() },
        consumers: vec![ProtocolPhysicalRoleRef { artifact: "token".to_string(), claim: "shared-envelope".to_string() }],
        correspondence: ProtocolRoleCorrespondence::ExactPhysicalBinding,
    };
    bundle.closed_roles = resolve_closed_roles(&[declared], &bundle.artifacts, &bundle.roles, &bundle.witnesses).unwrap();

    assert!(detect_conflicts(&bundle).unwrap().is_empty());
    assert_eq!(bundle.closed_roles[0].source, ProtocolClosedRoleSource::Witness { index: 0, field: ProtocolWitnessField::InputType });

    bundle.witnesses[1].field = ProtocolWitnessField::OutputType;
    let conflicts = detect_conflicts(&bundle).unwrap();
    assert!(conflicts.iter().any(|conflict| conflict.class == "closed-role-correspondence"));
}

#[test]
fn closed_role_rejects_unknown_or_repeated_participants_before_hashing() {
    let mut bundle = bundle();
    let declared = ProtocolClosedRoleBinding {
        schema: PROTOCOL_CLOSED_ROLE_SCHEMA.to_string(),
        role_id: "bad-role".to_string(),
        kind: ProtocolClosedRoleKind::Cell,
        schema_identity: ProtocolRoleSchemaIdentity { molecule_type: "SharedRecord".to_string(), schema_hash: raw_hash("7") },
        provider: ProtocolPhysicalRoleRef { artifact: "missing".to_string(), claim: "shared".to_string() },
        consumers: vec![ProtocolPhysicalRoleRef { artifact: "token".to_string(), claim: "shared".to_string() }],
        correspondence: ProtocolRoleCorrespondence::ExactPhysicalBinding,
    };
    let error = resolve_closed_roles(&[declared], &bundle.artifacts, &bundle.roles, &bundle.witnesses).unwrap_err();
    assert!(error.message.contains("unknown artifact 'missing'"), "{}", error.message);

    bundle.roles.extend([
        role("order", "shared", ProtocolCellLocation::Output, ProtocolRoleOwnership::Exclusive),
        role("token", "shared", ProtocolCellLocation::Output, ProtocolRoleOwnership::SharedRead),
    ]);
    let repeated = ProtocolClosedRoleBinding {
        schema: PROTOCOL_CLOSED_ROLE_SCHEMA.to_string(),
        role_id: "bad-role".to_string(),
        kind: ProtocolClosedRoleKind::Cell,
        schema_identity: ProtocolRoleSchemaIdentity { molecule_type: "SharedRecord".to_string(), schema_hash: raw_hash("7") },
        provider: ProtocolPhysicalRoleRef { artifact: "order".to_string(), claim: "shared".to_string() },
        consumers: vec![
            ProtocolPhysicalRoleRef { artifact: "token".to_string(), claim: "shared".to_string() },
            ProtocolPhysicalRoleRef { artifact: "token".to_string(), claim: "second".to_string() },
        ],
        correspondence: ProtocolRoleCorrespondence::ExactPhysicalBinding,
    };
    let error = resolve_closed_roles(&[repeated], &bundle.artifacts, &bundle.roles, &bundle.witnesses).unwrap_err();
    assert!(error.message.contains("repeats participant artifact 'token'"), "{}", error.message);
}

#[test]
fn closed_roles_come_sorted_by_id_and_reject_repeated_ids() {
    let mut bundle = bundle();
    bundle.roles.extend([
        role("order", "shared", ProtocolCellLocation::Output, ProtocolRoleOwnership::Exclusive),
        role("token", "shared", ProtocolCellLocation::Output, ProtocolRoleOwnership::SharedRead),
    ]);
    let declared = |id: &str| ProtocolClosedRoleBinding {
        schema: PROTOCOL_CLOSED_ROLE_SCHEMA.to_string(),
        role_id: id.to_string(),
        kind: ProtocolClosedRoleKind::Cell,
        schema_identity: ProtocolRoleSchemaIdentity { molecule_type: "SharedRecord".to_string(), schema_hash: raw_hash("7") },
        provider: ProtocolPhysicalRoleRef { artifact: "order".to_string(), claim: "shared".to_string() },
        consumers: vec![ProtocolPhysicalRoleRef { artifact: "token".to_string(), claim: "shared".to_string() }],
        correspondence: ProtocolRoleCorrespondence::ExactPhysicalBinding,
    };
    let resolved = resolve_closed_roles(&[declared("zeta"), declared("alpha")], &bundle.artifacts, &bundle.roles, &bundle.witnesses).unwrap();
    assert_eq!(resolved.iter().map(|r| r.role_id.as_str()).collect::<Vec<_>>(), vec!["alpha", "zeta"]);
    assert_eq!(
        resolve_closed_roles(&[declared("alpha"), declared("alpha")], &bundle.artifacts, &bundle.roles, &bundle.witnesses)
            .unwrap_err()
            .message,
        "duplicate ProtocolBundle closed role id 'alpha'"
    );
    let mut empty = declared("empty");
    empty.consumers.clear();
    assert_eq!(
        resolve_closed_roles(&[empty], &bundle.artifacts, &bundle.roles, &bundle.witnesses).unwrap_err().message,
        "ProtocolBundle closed role 'empty' requires at least one consumer"
    );
    let mut wrong_schema = declared("x");
    wrong_schema.schema = "v0".to_string();
    assert_eq!(
        resolve_closed_roles(&[wrong_schema], &bundle.artifacts, &bundle.roles, &bundle.witnesses).unwrap_err().message,
        format!("unsupported ProtocolBundle closed role schema 'v0'; expected '{PROTOCOL_CLOSED_ROLE_SCHEMA}'")
    );
    let mut provider_repeat = declared("y");
    provider_repeat.consumers[0].artifact = "order".to_string();
    assert_eq!(
        resolve_closed_roles(&[provider_repeat], &bundle.artifacts, &bundle.roles, &bundle.witnesses).unwrap_err().message,
        "ProtocolBundle closed role 'y' repeats participant artifact 'order'"
    );
}

#[test]
fn protocol_json_commitments_are_domain_stable_and_canonical() {
    let value = BTreeMap::from([("a", 1_u64), ("b", 2_u64)]);
    let json = serde_json::to_vec(&value).unwrap();
    assert_eq!(protocol_json_commitment(&json), protocol_json_commitment(&json));
    assert!(protocol_json_commitment(&json).starts_with("0x"));
    assert_eq!(protocol_json_commitment(&json).len(), 66);
    assert_eq!(protocol_json_commitment(&json), format!("0x{}", hex::encode(ckb_hash(br#"{"a":1,"b":2}"#))));
}

#[test]
fn concrete_witness_bytes_must_match_their_ckb_commitment() {
    let mut transaction = bundle().transaction;
    transaction.witnesses[0].lock = Some(format!("0x{}", hex::encode(ckb_hash(&[1, 2]))));
    transaction.witnesses[0].lock_bytes = Some("0x0102".to_string());
    validate_transaction(&transaction).unwrap();

    transaction.witnesses[0].lock_bytes = Some("0x03".to_string());
    let error = validate_transaction(&transaction).unwrap_err();
    assert!(error.message.contains("does not match its CKB Blake2b-256 commitment"), "{}", error.message);
}

#[test]
fn artifact_entry_must_exist_and_suit_its_script_role() {
    let entry = |name: &str| EntryProofPlanMetadata { name: name.to_string(), proof_plan: Vec::new() };
    let metadata = CompileMetadata {
        runtime: RuntimeProofMetadata { proof_plan: Vec::new(), verifier_obligations: Vec::new() },
        actions: vec![entry("mint")],
        functions: Vec::new(),
        locks: vec![entry("owner")],
    };
    let input = |kind: ProtocolEntryKind, name: &str, role: ProtocolScriptRole| ProtocolArtifactInput {
        id: "token".to_string(),
        package_coordinate: "org/token@1.0.0".to_string(),
        lock_node_id: "token@1.0.0".to_string(),
        entry: ProtocolEntryIdentity { kind, name: name.to_string() },
        script_role: role,
        files: ProtocolArtifactFiles {
            artifact: "token.elf".to_string(),
            metadata: "token.json".to_string(),
            lowering_record: "token.lowering".to_string(),
            source_map: "token.map".to_string(),
            builder_manifest: None,
        },
        deployment: ProtocolDeploymentIdentity {
            network: network("ckb-testnet", "0"),
            artifact_hash: raw_hash("a"),
            script: script("a"),
            code_cell_dep: cell_dep("a", 0),
        },
    };
    assert!(validate_entry(&input(ProtocolEntryKind::Action, "mint", ProtocolScriptRole::Type), &metadata).is_ok());
    assert!(validate_entry(&input(ProtocolEntryKind::Function, "mint", ProtocolScriptRole::SpawnedVerifier), &metadata).is_err());
    assert_eq!(
        validate_entry(&input(ProtocolEntryKind::Function, "mint", ProtocolScriptRole::SpawnedVerifier), &metadata).unwrap_err().message,
        "ProtocolBundle artifact 'token' metadata does not expose Function entry 'mint'"
    );
    assert_eq!(
        validate_entry(&input(ProtocolEntryKind::Lock, "owner", ProtocolScriptRole::Type), &metadata).unwrap_err().message,
        "ProtocolBundle artifact 'token' Script role Type is incompatible with Lock entry 'owner'"
    );
    assert!(validate_entry(&input(ProtocolEntryKind::Lock, "owner", ProtocolScriptRole::SpawnedVerifier), &metadata).is_ok());
}

#[test]
fn compatible_shared_observation_has_a_stable_canonical_hash() {
    let mut left = bundle();
    left.roles.extend([
        role("token", "observe", ProtocolCellLocation::Input, ProtocolRoleOwnership::SharedRead),
        role("order", "own", ProtocolCellLocation::Input, ProtocolRoleOwnership::SharedRead),
    ]);
    let mut right = left.clone();
    right.roles.reverse();
    canonicalize_bundle(&mut left);
    canonicalize_bundle(&mut right);
    assert_eq!(left, right);
    assert!(detect_conflicts(&left).unwrap().is_empty());
}

#[test]
fn canonical_order_sorts_every_claim_list_by_its_key() {
    let mut bundle = bundle();
    let mut late = role("token", "b", ProtocolCellLocation::Input, ProtocolRoleOwnership::SharedRead);
    late.index = 2;
    let output = role("order", "z", ProtocolCellLocation::Output, ProtocolRoleOwnership::Exclusive);
    let first = role("token", "a", ProtocolCellLocation::Input, ProtocolRoleOwnership::SharedRead);
    let same_key_one = role("order", "a", ProtocolCellLocation::Input, ProtocolRoleOwnership::SharedRead);
    let mut same_key_two = role("order", "a", ProtocolCellLocation::Input, ProtocolRoleOwnership::Exclusive);
    same_key_two.exact_capacity = Some(5);
    bundle.roles = vec![output.clone(), late.clone(), first.clone(), same_key_one.clone(), same_key_two.clone()];
    bundle.policies = vec![
        ProtocolPolicyClaim { artifact: "token".to_string(), kind: ProtocolPolicyKind::Change, ownership: ProtocolPolicyOwnership::Shared, policy_hash: hash("c") },
        ProtocolPolicyClaim { artifact: "token".to_string(), kind: ProtocolPolicyKind::Fee, ownership: ProtocolPolicyOwnership::Shared, policy_hash: hash("d") },
        ProtocolPolicyClaim { artifact: "order".to_string(), kind: ProtocolPolicyKind::Fee, ownership: ProtocolPolicyOwnership::Shared, policy_hash: hash("e") },
    ];
    canonicalize_bundle(&mut bundle);
    assert_eq!(bundle.roles, vec![same_key_one, same_key_two, first, late, output]);
    let order = bundle.policies.iter().map(|p| (p.kind, p.artifact.as_str())).collect::<Vec<_>>();
    assert_eq!(
        order,
        vec![(ProtocolPolicyKind::Fee, "order"), (ProtocolPolicyKind::Fee, "token"), (ProtocolPolicyKind::Change, "token")]
    );
    let once = bundle.clone();
    canonicalize_bundle(&mut bundle);
    assert_eq!(bundle, once);
}

#[test]
fn normalized_network_keeps_a_canonical_genesis_hash_and_rejects_others() {
    let good = network("ckb-testnet", "0");
    assert_eq!(normalized_network(&good).unwrap(), good);
    let upper = ProtocolNetworkIdentity { chain_id: "ckb".to_string(), genesis_hash: format!("0x{}", "A".repeat(64)) };
    assert_eq!(
        normalized_network(&upper).unwrap_err().message,
        "network genesis_hash must be exactly 32 bytes of lowercase hex without 0x"
    );
    let bare = ProtocolNetworkIdentity { chain_id: "ckb".to_string(), genesis_hash: "0".repeat(64) };
    assert_eq!(normalized_network(&bare).unwrap_err().message, "network genesis_hash must use canonical 0x-prefixed lowercase hex");
}

fn shape_artifact(id: &str) -> ProtocolArtifactInput {
    ProtocolArtifactInput {
        id: id.to_string(),
        package_coordinate: format!("org/{id}@1.0.0"),
        lock_node_id: format!("{id}@1.0.0"),
        entry: ProtocolEntryIdentity { kind: ProtocolEntryKind::Action, name: "main".to_string() },
        script_role: ProtocolScriptRole::Type,
        files: ProtocolArtifactFiles {
            artifact: format!("{id}.elf"),
            metadata: format!("{id}.json"),
            lowering_record: format!("{id}.lowering"),
            source_map: format!("{id}.map"),
            builder_manifest: None,
        },
        deployment: ProtocolDeploymentIdentity {
            network: network("ckb-testnet", "0"),
            artifact_hash: raw_hash("a"),
            script: script("a"),
            code_cell_dep: cell_dep("a", 0),
        },
    }
}

fn no_claims() -> ProtocolClaimCounts {
    ProtocolClaimCounts { deployment_lines: 0, roles: 0, closed_roles: 0, witnesses: 0, cell_deps: 0, header_deps: 0, policies: 0 }
}

#[test]
fn input_shape_checks_schema_count_ids_and_bounds_in_order() {
    let transaction = bundle().transaction;
    let net = network("ckb-testnet", "0");
    let two = vec![shape_artifact("order"), shape_artifact("token")];
    assert!(validate_input_shape(PROTOCOL_BUNDLE_INPUT_SCHEMA, &net, &two, &no_claims(), &transaction).is_ok());
    assert_eq!(
        validate_input_shape("other", &net, &two, &no_claims(), &transaction).unwrap_err().message,
        format!("unsupported ProtocolBundle schema 'other'; expected '{}'", PROTOCOL_BUNDLE_INPUT_SCHEMA)
    );
    let one = vec![shape_artifact("order")];
    assert_eq!(
        validate_input_shape(PROTOCOL_BUNDLE_INPUT_SCHEMA, &net, &one, &no_claims(), &transaction).unwrap_err().message,
        "ProtocolBundle must contain between 2 and 64 artifacts"
    );
    let repeated = vec![shape_artifact("order"), shape_artifact("order")];
    assert_eq!(
        validate_input_shape(PROTOCOL_BUNDLE_INPUT_SCHEMA, &net, &repeated, &no_claims(), &transaction).unwrap_err().message,
        "duplicate ProtocolBundle artifact id 'order'"
    );
    let mut many = no_claims();
    many.policies = 257;
    assert_eq!(
        validate_input_shape(PROTOCOL_BUNDLE_INPUT_SCHEMA, &net, &two, &many, &transaction).unwrap_err().message,
        "ProtocolBundle policy claims count 257 exceeds 256"
    );
}

#[test]
fn deployment_line_evidence_is_admitted_by_artifact_id() {
    let s = |v: &[&str]| v.iter().map(|x| x.to_string()).collect::<Vec<String>>();
    let accept = |_index: usize| -> Result<(), CompileError> { Ok(()) };
    assert!(admit_deployment_lines(&s(&["a", "b"]), &s(&["a", "b"]), &s(&["a", "b", "c"]), accept).is_ok());
    assert_eq!(
        admit_deployment_lines(&s(&["a", "a"]), &s(&["a"]), &s(&["a"]), accept).unwrap_err().message,
        "duplicate deployment-line admission evidence for ProtocolBundle artifact 'a'"
    );
    assert_eq!(
        admit_deployment_lines(&s(&["c"]), &s(&["a"]), &s(&["a", "c"]), accept).unwrap_err().message,
        "deployment-line admission evidence targets artifact 'c' outside the ckb-type-hash profile"
    );
    assert_eq!(
        admit_deployment_lines(&s(&["c"]), &s(&["c"]), &s(&["a"]), accept).unwrap_err().message,
        "deployment-line admission evidence references unknown ProtocolBundle artifact 'c'"
    );
    let refuse = |_index: usize| -> Result<(), CompileError> { Err(CompileError::without_span("stale deployment line")) };
    assert_eq!(
        admit_deployment_lines(&s(&["a"]), &s(&["a"]), &s(&["a"]), refuse).unwrap_err().message,
        "stale deployment line"
    );
    assert_eq!(
        admit_deployment_lines(&s(&["a"]), &s(&["a", "b", "d"]), &s(&["a", "b", "d"]), accept).unwrap_err().message,
        "ckb-type-hash ProtocolBundle artifacts require exact active deployment-line admission evidence; missing: b, d"
    );
}
