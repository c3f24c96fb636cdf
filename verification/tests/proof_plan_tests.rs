use cellscript::error::Span;
use cellscript::ast::{AggregateInvariantKind, AggregateRelation, BoundedQuantifierKind, ParamSource, SourceView};
use cellscript::ir::{CkbRuntimeAccessMetadata, IrAggregateInvariant, IrAggregateTarget, IrAmountHelper, IrBoundedQuantifier, IrInvariant, IrInvariantRead};
use cellscript::ir::{IrBorrowRegion, IrBoundedCollectionOp, IrCreateTemplate, IrTypeDef, IrValidityEvidence, IrValidityPredicate};
use cellscript::proof_plan::build_for_type_validity;
use cellscript::proof_plan::{build_for_invariant, plan_for_borrow_region, plan_for_bounded_collection};
use cellscript::proof_plan::EvidenceTier;
use std::collections::BTreeSet;

#[test]
fn evidence_tier_registry_is_complete_and_unique() {
    let names = EvidenceTier::ALL.into_iter().map(EvidenceTier::as_str).collect::<Vec<_>>();
    assert_eq!(
        names,
        vec![
            "checked-static",
            "checked-runtime",
            "trusted-external",
            "runtime-helper-required",
            "builder-evidence-required",
            "metadata-only",
            "chain-evidence-required",
        ]
    );
    assert_eq!(names.iter().copied().collect::<BTreeSet<_>>().len(), names.len());
}

#[test]
fn static_runtime_and_trusted_external_evidence_count_as_checked() {
    let checked = EvidenceTier::ALL.into_iter().filter(|tier| tier.is_checked()).collect::<Vec<_>>();
    assert_eq!(checked, vec![EvidenceTier::CheckedStatic, EvidenceTier::CheckedRuntime, EvidenceTier::TrustedExternal]);
    assert_eq!(EvidenceTier::default(), EvidenceTier::MetadataOnly);
}

use cellscript::proof_plan::soundness::{
    check_metadata, check_plan_record, validate_metadata, CompileMetadata, EntryProofPlanMetadata, RuntimeProofMetadata,
    VerifierObligationMetadata,
};
use cellscript::proof_plan::ProofPlanMetadata;

fn clean_plan(origin: &str, detail: &str) -> ProofPlanMetadata {
    ProofPlanMetadata {
        name: "mint-output".to_string(),
        origin: origin.to_string(),
        category: "output".to_string(),
        feature: "feat".to_string(),
        evidence_tier: EvidenceTier::BuilderEvidenceRequired,
        source_span: None,
        trigger: "on-create".to_string(),
        scope: "transaction".to_string(),
        reads: Vec::new(),
        coverage: Vec::new(),
        input_output_relation_checks: Vec::new(),
        group_cardinality: "single".to_string(),
        identity_lifecycle_policy: "none".to_string(),
        preserved_fields: Vec::new(),
        witness_fields: Vec::new(),
        lock_args_fields: Vec::new(),
        on_chain_checked: false,
        on_chain_checked_obligations: Vec::new(),
        builder_assumptions: Vec::new(),
        codegen_coverage_status: "gap:builder".to_string(),
        status: "builder-required".to_string(),
        detail: detail.to_string(),
        diagnostics: Vec::new(),
    }
}

fn metadata(runtime: Vec<ProofPlanMetadata>, obligations: Vec<VerifierObligationMetadata>, local: Vec<ProofPlanMetadata>) -> CompileMetadata {
    CompileMetadata {
        runtime: RuntimeProofMetadata { proof_plan: runtime, verifier_obligations: obligations },
        actions: vec![EntryProofPlanMetadata { name: "mint".to_string(), proof_plan: local }],
        functions: Vec::new(),
        locks: Vec::new(),
    }
}

#[test]
fn clean_record_raises_no_issue() {
    let mut issues = Vec::new();
    check_plan_record(&clean_plan("action:mint", "d"), false, &mut issues);
    assert!(issues.is_empty());
    let mut checked = clean_plan("action:mint", "d");
    checked.on_chain_checked = true;
    check_plan_record(&checked, false, &mut issues);
    let codes = issues.iter().map(|issue| issue.code.as_str()).collect::<Vec<_>>();
    assert_eq!(codes, vec!["PP0005", "PP0102", "PP0104", "PP0206", "PP0207", "PP0208", "PP0209"]);
}

#[test]
fn matching_runtime_and_local_records_pass() {
    let plan = clean_plan("action:mint", "d");
    let report = check_metadata(&metadata(vec![plan.clone()], Vec::new(), vec![plan]), false);
    assert_eq!(report.status, "passed");
    assert_eq!(report.checked_records, 1);
    assert_eq!(report.issue_count, 0);
    assert!(validate_metadata(&metadata(Vec::new(), Vec::new(), Vec::new()), true).is_ok());
}

#[test]
fn obligations_need_matching_records() {
    let obligation = VerifierObligationMetadata {
        scope: "action:mint".to_string(),
        category: "output".to_string(),
        feature: "feat".to_string(),
        status: "builder-required".to_string(),
        detail: "d".to_string(),
    };
    let report = check_metadata(&metadata(Vec::new(), vec![obligation.clone()], Vec::new()), false);
    assert_eq!(report.status, "failed");
    let codes = report.issues.iter().map(|issue| issue.code.as_str()).collect::<Vec<_>>();
    assert_eq!(codes, vec!["PP0001", "PP0002"]);
    assert_eq!(report.issues[0].origin, "runtime");
    assert_eq!(report.issues[1].origin, "action:mint");
    let matched = check_metadata(&metadata(vec![clean_plan("action:mint", "d")], vec![obligation], vec![clean_plan("action:mint", "d")]), false);
    assert_eq!(matched.issue_count, 0);
}

#[test]
fn duplicate_and_unlisted_runtime_records_are_reported() {
    let plan = clean_plan("action:mint", "d");
    let invariant = clean_plan("invariant:supply", "d");
    let report = check_metadata(&metadata(vec![plan.clone(), plan, invariant], Vec::new(), Vec::new()), false);
    let codes = report.issues.iter().map(|issue| issue.code.as_str()).collect::<Vec<_>>();
    assert_eq!(codes, vec!["PP0003", "PP0402"]);
    assert_eq!(
        report.issues[0].message,
        "duplicate ProofPlan obligation key action:mint\u{1f}output\u{1f}feat\u{1f}builder-required\u{1f}d appears 2 times"
    );
    assert_eq!(
        report.issues[1].message,
        "runtime ProofPlan record with status 'builder-required' is missing from local action/function/lock metadata"
    );
    assert_eq!(report.issues[1].feature, "feat");
    let error = validate_metadata(&metadata(vec![clean_plan("action:mint", "d")], Vec::new(), Vec::new()), false).unwrap_err();
    assert_eq!(
        error.message,
        "ProofPlan soundness check failed:\n  - PP0402 action:mint:feat - runtime ProofPlan record with status 'builder-required' is missing from local action/function/lock metadata"
    );
}

#[test]
fn local_records_must_equal_runtime_records() {
    let report = check_metadata(&metadata(vec![clean_plan("action:mint", "runtime")], Vec::new(), vec![clean_plan("action:mint", "local")]), false);
    let codes = report.issues.iter().map(|issue| issue.code.as_str()).collect::<Vec<_>>();
    assert_eq!(codes, vec!["PP0403", "PP0404"]);
    let report = check_metadata(&metadata(Vec::new(), Vec::new(), vec![clean_plan("action:mint", "d")]), false);
    assert_eq!(report.issues[0].code, "PP0401");
    assert_eq!(report.issues[0].message, "local ProofPlan record with status 'builder-required' is missing from runtime.proof_plan");
}

#[test]
fn strict_mode_adds_only_its_own_issues() {
    let mut plan = clean_plan("invariant:supply", "d");
    plan.status = "runtime-required".to_string();
    plan.on_chain_checked = true;
    let mut lenient = Vec::new();
    check_plan_record(&plan, false, &mut lenient);
    let mut strict = Vec::new();
    check_plan_record(&plan, true, &mut strict);
    let lenient_codes = lenient.iter().map(|issue| issue.code.clone()).collect::<Vec<_>>();
    let strict_codes = strict.iter().map(|issue| issue.code.clone()).collect::<Vec<_>>();
    assert!(strict_codes.contains(&"PP0150".to_string()));
    assert!(strict_codes.contains(&"PP0210".to_string()));
    let without_strict: Vec<String> =
        strict_codes.into_iter().filter(|code| code != "PP0150" && code != "PP0210").collect();
    assert_eq!(without_strict, lenient_codes);
}

#[test]
fn type_validity_records_follow_their_evidence() {
    let span = Span { start: 3, end: 9, line: 2, column: 4 };
    let type_def = IrTypeDef {
        name: "Token".to_string(),
        validity_predicates: vec![
            IrValidityPredicate {
                rendered: "amount > 0".to_string(),
                evidence: IrValidityEvidence::CheckedRuntime,
                dependencies: vec!["field:amount".to_string()],
                runtime_checked_on_create: true,
                span: Span { start: 3, end: 9, line: 2, column: 4 },
            },
            IrValidityPredicate {
                rendered: "true".to_string(),
                evidence: IrValidityEvidence::CheckedStatic,
                dependencies: Vec::new(),
                runtime_checked_on_create: false,
                span,
            },
        ],
    };
    let plans = build_for_type_validity(&type_def, 2, 1, 1);
    assert_eq!(plans.len(), 3);
    assert_eq!(plans[0].name, "Token#validity0");
    assert_eq!(plans[0].feature, "Token#0:amount > 0");
    assert_eq!(plans[0].status, "runtime-required");
    assert_eq!(plans[0].evidence_tier, EvidenceTier::RuntimeHelperRequired);
    assert!(!plans[0].on_chain_checked);
    assert_eq!(plans[0].reads, vec!["output".to_string()]);
    assert_eq!(
        plans[0].coverage,
        vec![
            "predicate:amount > 0".to_string(),
            "create_path:partial-runtime-helper-required".to_string(),
            "create_paths_selected:2".to_string(),
            "create_paths_checked:1".to_string(),
            "runtime_checked_on_create:false".to_string(),
            "dependency:field:amount".to_string(),
        ]
    );
    assert_eq!(plans[0].builder_assumptions, vec!["declared(runtime-helper-required:create paths checked 1/2)".to_string()]);
    assert_eq!(
        plans[0].diagnostics[0].message,
        "validity predicate is checked on 1/2 selected create paths and remains a runtime-helper obligation"
    );
    assert_eq!(plans[1].name, "Token#validity0#update");
    assert_eq!(plans[1].reads, vec!["input".to_string(), "output".to_string()]);
    assert_eq!(plans[2].name, "Token#validity1");
    assert!(plans[2].on_chain_checked);
    assert_eq!(plans[2].on_chain_checked_obligations, vec!["type-validity:Token#1:true=checked-static".to_string()]);
    assert_eq!(plans[2].diagnostics[0].severity, "info");
}

fn collection_op(operation: &str, source: ParamSource, runtime_contract: Option<&str>) -> IrBoundedCollectionOp {
    IrBoundedCollectionOp {
        operation: operation.to_string(),
        collection_binding: "plans".to_string(),
        collection_type: "Vec<Plan>".to_string(),
        element_type: "Plan".to_string(),
        source,
        max_elements: 8,
        predicates: vec!["plan.amount > 0".to_string()],
        accumulator_updates: Vec::new(),
        runtime_contract: runtime_contract.map(str::to_string),
        element_width: Some(16),
        output_type: Some("Token".to_string()),
        create_template: Some(IrCreateTemplate {
            output_type: "Token".to_string(),
            fields: vec![("amount".to_string(), "plan.amount".to_string())],
            lock: None,
        }),
        span: Span { start: 10, end: 40, line: 3, column: 5 },
    }
}

#[test]
fn bounded_consume_without_runtime_contract_waits_on_a_helper() {
    let op = collection_op("consume_each", ParamSource::Input, None);
    let plan = plan_for_bounded_collection("action", "burn", 0, &op);
    assert_eq!(plan.name, "burn#bounded-collection0");
    assert_eq!(plan.origin, "action:burn#bounded-collection:0");
    assert_eq!(plan.feature, "consume_each:plans:Vec<Plan>");
    assert_eq!(plan.evidence_tier, EvidenceTier::RuntimeHelperRequired);
    assert_eq!(plan.status, "runtime-required");
    assert_eq!(plan.codegen_coverage_status, "gap:runtime-helper-required");
    assert!(!plan.on_chain_checked);
    assert_eq!(plan.trigger, "explicit_entry");
    assert_eq!(plan.scope, "selected_cells");
    assert_eq!(plan.reads, vec!["input".to_string()]);
    assert_eq!(
        plan.coverage,
        vec![
            "operation:consume_each".to_string(),
            "collection:Vec<Plan>".to_string(),
            "element:Plan".to_string(),
            "source:input".to_string(),
            "maximum_cardinality:8".to_string(),
            "actual_scanned_cardinality:not-observed-no-runtime-lowering".to_string(),
            "vacuous:true-when-cardinality-zero".to_string(),
            "runtime_helper:__cellscript_bounded_consume_each".to_string(),
            "predicate-retained-not-executed:plan.amount > 0".to_string(),
        ]
    );
    assert!(plan.input_output_relation_checks.is_empty());
    assert_eq!(plan.group_cardinality, "declared-maximum:0..=8; actual:not-observed-no-runtime-lowering");
    assert_eq!(plan.builder_assumptions, vec!["declared(runtime-helper-required:__cellscript_bounded_consume_each)".to_string()]);
    assert!(plan.on_chain_checked_obligations.is_empty());
    assert_eq!(plan.diagnostics[0].severity, "warning");
}

#[test]
fn bounded_create_with_runtime_contract_is_checked_on_chain() {
    let op = collection_op("create_each", ParamSource::Witness, Some("mint_each"));
    let plan = plan_for_bounded_collection("lock", "mint", 2, &op);
    assert_eq!(plan.evidence_tier, EvidenceTier::CheckedRuntime);
    assert_eq!(plan.status, "checked-runtime");
    assert_eq!(plan.codegen_coverage_status, "covered");
    assert!(plan.on_chain_checked);
    assert_eq!(plan.trigger, "lock_group");
    assert_eq!(plan.scope, "transaction");
    assert_eq!(plan.reads, vec!["witness".to_string(), "group_output".to_string(), "current_script".to_string()]);
    assert_eq!(plan.witness_fields, vec!["witness.plans".to_string()]);
    assert_eq!(plan.input_output_relation_checks, vec!["plan_count=group_output_count<=8".to_string()]);
    assert_eq!(plan.group_cardinality, "runtime-observed:0..=8");
    assert!(plan.builder_assumptions.is_empty());
    assert_eq!(plan.on_chain_checked_obligations.len(), 10);
    assert_eq!(plan.on_chain_checked_obligations[0], "bounded-cell-collection:create_each:plans:Vec<Plan>=checked-runtime");
    assert!(plan.coverage.contains(&"runtime_helper:mint_each".to_string()));
    assert!(plan.coverage.contains(&"plan_element_width_bytes:16".to_string()));
    assert!(plan.coverage.contains(&"capacity_builder_evidence_required:false".to_string()));
    assert_eq!(plan.coverage[plan.coverage.len() - 2], "create_template_field:amount=plan.amount");
    assert_eq!(plan.coverage[plan.coverage.len() - 1], "create_template_lock:not-specified");
    assert_eq!(plan.detail, "bounded create_each over 'plans' is lowered by the 'mint_each' consensus runtime contract");
}

#[test]
fn borrow_region_record_is_checked_statically() {
    let region = IrBorrowRegion {
        root: "pool".to_string(),
        root_type: "Pool".to_string(),
        binding: "view".to_string(),
        span: Span { start: 1, end: 2, line: 1, column: 1 },
    };
    let plan = plan_for_borrow_region("action", "swap", 1, &region);
    assert_eq!(plan.name, "swap#borrow-region1");
    assert_eq!(plan.feature, "View<Pool>:pool->view");
    assert_eq!(plan.evidence_tier, EvidenceTier::CheckedStatic);
    assert!(plan.on_chain_checked);
    assert_eq!(plan.reads, vec!["pool".to_string()]);
    assert_eq!(plan.coverage[0], "root:pool:Pool");
    assert_eq!(plan.on_chain_checked_obligations[0], "borrow-region:View<Pool>:pool->view=checked-static");
}

fn target(source: SourceView, view: &str, read: &str, label: &str) -> IrAggregateTarget {
    IrAggregateTarget {
        source,
        cell_type: Some("Token".to_string()),
        rendered: format!("{view}<Token>.amount"),
        read: Some(read.to_string()),
        source_label: label.to_string(),
    }
}

fn span() -> Span {
    Span { start: 0, end: 5, line: 1, column: 1 }
}

#[test]
fn invariant_discharged_by_an_available_runtime_helper_is_checked() {
    let decl = IrInvariant {
        name: "supply".to_string(),
        trigger: Some("type_group".to_string()),
        scope: Some("group".to_string()),
        reads: Vec::new(),
        assert_count: 0,
        aggregates: vec![IrAggregateInvariant {
            kind: AggregateInvariantKind::Sum,
            target: target(SourceView::GroupInput, "group_inputs", "group_input", "GroupInput"),
            scope: "group".to_string(),
            argument: None,
            relation: Some(AggregateRelation::Eq),
            rhs: Some(target(SourceView::GroupOutput, "group_outputs", "group_output", "GroupOutput")),
            span: span(),
            conservation_helpers: vec![IrAmountHelper { name: "amount_conserved".to_string(), accepts_current_script_scan: false }],
            amount_endpoint: None,
        }],
        quantifiers: Vec::new(),
        span: span(),
    };
    let accesses = vec![CkbRuntimeAccessMetadata { binding: "amount_conserved".to_string(), source: "GroupInput/GroupOutput".to_string() }];
    let plans = build_for_invariant(&decl, &accesses);
    assert_eq!(plans.len(), 2);
    let summary = &plans[0];
    assert_eq!(summary.origin, "invariant:supply");
    assert_eq!(summary.evidence_tier, EvidenceTier::CheckedRuntime);
    assert!(summary.on_chain_checked);
    assert_eq!(summary.status, "checked-runtime");
    assert_eq!(summary.codegen_coverage_status, "covered");
    assert_eq!(summary.on_chain_checked_obligations, vec!["declared-invariant:supply=checked-runtime".to_string()]);
    assert_eq!(
        summary.builder_assumptions,
        vec![
            "declared(runtime-helper-checked:amount_conserved)".to_string(),
            "declared(assert_invariant_count:0)".to_string(),
            "declared(aggregate_invariant_count:1)".to_string(),
        ]
    );
    assert_eq!(summary.reads, vec!["group_input".to_string(), "group_output".to_string()]);
    assert_eq!(summary.group_cardinality, "ckb type ScriptGroup cardinality");
    assert_eq!(
        summary.coverage,
        vec![
            "declared_invariant_assertions:0".to_string(),
            "aggregate_assertion:group_inputs<Token>.amount==group_outputs<Token>.amount scope=group".to_string(),
            "runtime_helper:amount_conserved".to_string(),
            "runtime_helper_checked:amount_conserved".to_string(),
            "type ScriptGroup coverage: cells sharing this type script".to_string(),
        ]
    );
    let aggregate = &plans[1];
    assert_eq!(aggregate.name, "supply#aggregate0");
    assert_eq!(aggregate.evidence_tier, EvidenceTier::CheckedRuntime);
    assert_eq!(
        aggregate.input_output_relation_checks,
        vec!["assert_sum:group_inputs<Token>.amount==group_outputs<Token>.amount=checked-runtime:amount_conserved".to_string()]
    );
    assert_eq!(aggregate.identity_lifecycle_policy, "aggregate sum relation policy");
    for plan in &plans {
        assert_eq!(plan.on_chain_checked, plan.evidence_tier.is_checked());
    }
}

#[test]
fn invariant_with_only_a_quantifier_requires_its_runtime_helper() {
    let decl = IrInvariant {
        name: "guard".to_string(),
        trigger: Some("lock_group".to_string()),
        scope: Some("transaction".to_string()),
        reads: vec![IrInvariantRead { source: SourceView::Input, cell_type: Some("Token".to_string()), rendered: "inputs<Token>.owner".to_string() }],
        assert_count: 0,
        aggregates: Vec::new(),
        quantifiers: vec![IrBoundedQuantifier {
            kind: BoundedQuantifierKind::ForAll,
            range: target(SourceView::Input, "inputs", "input", "Input"),
            predicates: vec!["cell.amount > 0".to_string()],
            relation: None,
            expected: None,
            span: span(),
        }],
        span: span(),
    };
    let plans = build_for_invariant(&decl, &[]);
    assert_eq!(plans.len(), 2);
    let summary = &plans[0];
    assert_eq!(summary.evidence_tier, EvidenceTier::RuntimeHelperRequired);
    assert!(!summary.on_chain_checked);
    assert_eq!(summary.codegen_coverage_status, "gap:runtime-helper-required");
    assert_eq!(
        summary.builder_assumptions,
        vec![
            "declared(runtime-helper-required:__cellscript_bounded_forall)".to_string(),
            "declared(assert_invariant_count:0)".to_string(),
            "declared(bounded_quantifier_count:1)".to_string(),
            "declared(lock transaction scan only protects the lock group unless the builder constrains every relevant cell)".to_string(),
        ]
    );
    assert_eq!(summary.diagnostics.len(), 2);
    assert_eq!(summary.diagnostics[1].severity, "warning");
    assert_eq!(summary.reads, vec!["inputs<Token>.owner".to_string(), "input".to_string()]);
    let quantifier = &plans[1];
    assert_eq!(quantifier.name, "guard#quantifier0");
    assert_eq!(quantifier.feature, "forall:inputs<Token>.amount");
    assert_eq!(quantifier.scope, "transaction");
    assert_eq!(quantifier.reads, vec!["input".to_string(), "inputs<Token>.owner".to_string()]);
    assert_eq!(
        quantifier.input_output_relation_checks,
        vec!["forall(inputs<Token>.amount)=runtime-helper-required:__cellscript_bounded_forall".to_string()]
    );
    assert!(quantifier.coverage.contains(&"scan:one Source::Input scan".to_string()));
    assert!(quantifier.coverage.contains(&"field_read:inputs<Token>.owner".to_string()));
    assert_eq!(quantifier.detail, "bounded forall over inputs<Token>.amount; predicates=1; accumulator=not-applicable");
}

#[test]
fn invariant_of_plain_assertions_is_metadata_only() {
    let decl = IrInvariant {
        name: "plain".to_string(),
        trigger: None,
        scope: None,
        reads: Vec::new(),
        assert_count: 2,
        aggregates: Vec::new(),
        quantifiers: Vec::new(),
        span: span(),
    };
    let plans = build_for_invariant(&decl, &[]);
    assert_eq!(plans.len(), 1);
    assert_eq!(plans[0].evidence_tier, EvidenceTier::MetadataOnly);
    assert_eq!(plans[0].trigger, "explicit_entry");
    assert_eq!(plans[0].scope, "selected_cells");
    assert_eq!(plans[0].codegen_coverage_status, "gap:metadata-only");
    assert_eq!(plans[0].diagnostics[0].severity, "warning");
    assert_eq!(plans[0].detail, "explicit source invariant declaration captured for ProofPlan auditing; aggregate_primitives=0; bounded_quantifiers=0");
}
