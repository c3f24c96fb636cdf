//! ProofPlan records for the validity predicates a type declares.

use super::{EvidenceTier, ProofPlanDiagnosticMetadata, ProofPlanMetadata, ProofPlanSourceSpanMetadata};
use crate::ir::{IrTypeDef, IrValidityEvidence, IrValidityPredicate};
use crate::text::{concat2, concat3, decimal, decimal_string, has_prefix, str_starts_with};
use vstd::prelude::*;
use vstd::string::StringExecFns;

verus! {

/// The text of a truth value.
pub open spec fn bool_text(b: bool) -> Seq<char> {
    if b {
        "true"@
    } else {
        "false"@
    }
}

/// How a predicate of evidence `ev` is classified when `checked` of `selected` create paths
/// check it: evidence tier, status, codegen coverage status, whether it is checked on chain, and
/// the create-path status.
pub open spec fn validity_class(ev: IrValidityEvidence, selected: nat, checked: nat) -> (EvidenceTier, Seq<char>, Seq<char>, bool, Seq<char>) {
    match ev {
        IrValidityEvidence::CheckedStatic => (EvidenceTier::CheckedStatic, "checked-static"@, "covered"@, true, "checked-static"@),
        IrValidityEvidence::CheckedRuntime => if selected > 0 && checked == selected {
            (EvidenceTier::CheckedRuntime, "checked-runtime"@, "covered"@, true, "checked-runtime"@)
        } else if selected == 0 {
            (EvidenceTier::RuntimeHelperRequired, "runtime-required"@, "gap:runtime-helper-required"@, false, "not-selected-runtime-helper-required"@)
        } else if checked == 0 {
            (EvidenceTier::RuntimeHelperRequired, "runtime-required"@, "gap:runtime-helper-required"@, false, "selected-runtime-helper-required"@)
        } else {
            (EvidenceTier::RuntimeHelperRequired, "runtime-required"@, "gap:runtime-helper-required"@, false, "partial-runtime-helper-required"@)
        },
        IrValidityEvidence::BuilderEvidenceRequired => (
            EvidenceTier::BuilderEvidenceRequired,
            "builder-evidence-required"@,
            "gap:builder-evidence-required"@,
            false,
            "builder-header-evidence-required"@,
        ),
    }
}

/// Whether one of the dependencies begins with `prefix`.
pub open spec fn depends_on(deps: Seq<String>, prefix: Seq<char>) -> bool {
    exists|j: int| 0 <= j < deps.len() && has_prefix((#[trigger] deps[j])@, prefix)
}

/// The views of some strings.
pub open spec fn texts(v: Seq<String>) -> Seq<Seq<char>> {
    v.map_values(|s: String| s@)
}

/// What a validity record reads: outputs for a field dependency, header deps for an environment
/// dependency.
pub open spec fn validity_reads(deps: Seq<String>) -> Seq<Seq<char>> {
    (if depends_on(deps, "field:"@) { seq!["output"@] } else { Seq::empty() }) + (if depends_on(deps, "environment:"@) {
        seq!["header_dep"@]
    } else {
        Seq::empty()
    })
}

/// The coverage lines of a create-path validity record.
pub open spec fn validity_coverage(p: IrValidityPredicate, selected: nat, checked: nat) -> Seq<Seq<char>> {
    let class = validity_class(p.evidence, selected, checked);
    let all = selected > 0 && checked == selected;
    seq![
        "predicate:"@ + p.rendered@,
        "create_path:"@ + class.4,
        "create_paths_selected:"@ + decimal(selected),
        "create_paths_checked:"@ + decimal(if p.evidence == IrValidityEvidence::BuilderEvidenceRequired { 0 } else { checked }),
        "runtime_checked_on_create:"@ + bool_text(p.runtime_checked_on_create && all),
    ] + p.dependencies@.map_values(|d: String| "dependency:"@ + d@)
}

/// The builder assumptions of a create-path validity record.
pub open spec fn validity_assumptions(ev: IrValidityEvidence, selected: nat, checked: nat) -> Seq<Seq<char>> {
    if ev == IrValidityEvidence::BuilderEvidenceRequired {
        seq![
            "declared(builder-evidence-required:header-dep-block-number-evidence)"@,
            "declared(env::block_number is not a CKB-VM ambient tip-height syscall)"@,
        ]
    } else if ev == IrValidityEvidence::CheckedRuntime && !(selected > 0 && checked == selected) {
        seq!["declared(runtime-helper-required:create paths checked "@ + decimal(checked) + "/"@ + decimal(selected) + ")"@]
    } else {
        Seq::empty()
    }
}

/// The diagnostic message of a create-path validity record.
pub open spec fn validity_message(ev: IrValidityEvidence, on_chain: bool, selected: nat, checked: nat) -> Seq<char> {
    if ev == IrValidityEvidence::BuilderEvidenceRequired {
        "env::block_number requires explicit builder/header evidence and is not emitted as an ambient CKB-VM syscall"@
    } else if on_chain {
        "validity predicate is discharged before every selected output create instruction"@
    } else if selected == 0 {
        "validity predicate has no selected create path in this module and remains a runtime-helper obligation"@
    } else {
        "validity predicate is checked on "@ + decimal(checked) + "/"@ + decimal(selected)
            + " selected create paths and remains a runtime-helper obligation"@
    }
}

/// The source span of a record, at the predicate's place.
pub open spec fn span_at(p: IrValidityPredicate) -> Option<ProofPlanSourceSpanMetadata> {
    Some(ProofPlanSourceSpanMetadata { start: p.span.start, end: p.span.end, line: p.span.line, column: p.span.column })
}

/// `plan` is the create-path record of predicate `i` of type `name`.
pub open spec fn create_record(plan: ProofPlanMetadata, name: Seq<char>, i: nat, p: IrValidityPredicate, selected: nat, checked: nat) -> bool {
    let class = validity_class(p.evidence, selected, checked);
    let feature = name + "#"@ + decimal(i) + ":"@ + p.rendered@;
    &&& plan.name@ == name + "#validity"@ + decimal(i)
    &&& plan.origin@ == "validity:"@ + name + "#predicate:"@ + decimal(i)
    &&& plan.category@ == "type-validity"@
    &&& plan.feature@ == feature
    &&& plan.evidence_tier == class.0
    &&& plan.source_span == span_at(p)
    &&& plan.trigger@ == "type_script_output_validation"@
    &&& plan.scope@ == "selected_cells"@
    &&& texts(plan.reads@) == validity_reads(p.dependencies@)
    &&& texts(plan.coverage@) == validity_coverage(p, selected, checked)
    &&& texts(plan.input_output_relation_checks@) == seq!["valid("@ + name + ")="@ + class.4]
    &&& plan.group_cardinality@ == "each-created-output-of-declared-type"@
    &&& plan.identity_lifecycle_policy@ == "predicate observes proposed field values; it grants no consume/create authority"@
    &&& plan.preserved_fields@.len() == 0 && plan.witness_fields@.len() == 0 && plan.lock_args_fields@.len() == 0
    &&& plan.on_chain_checked == class.3
    &&& texts(plan.on_chain_checked_obligations@) == (if class.3 {
        seq!["type-validity:"@ + feature + "="@ + class.1]
    } else {
        Seq::empty()
    })
    &&& texts(plan.builder_assumptions@) == validity_assumptions(p.evidence, selected, checked)
    &&& plan.codegen_coverage_status@ == class.2
    &&& plan.status@ == class.1
    &&& plan.detail@ == "type validity predicate for '"@ + name + "' create path"@
    &&& plan.diagnostics@.len() == 1
    &&& plan.diagnostics@[0].severity@ == (if class.3 { "info"@ } else { "warning"@ })
    &&& plan.diagnostics@[0].message@ == validity_message(p.evidence, class.3, selected, checked)
}

/// `plan` is the update-path record of predicate `i` of type `name`.
pub open spec fn update_record(plan: ProofPlanMetadata, name: Seq<char>, i: nat, p: IrValidityPredicate, updates: nat) -> bool {
    &&& plan.name@ == name + "#validity"@ + decimal(i) + "#update"@
    &&& plan.origin@ == "validity:"@ + name + "#predicate:"@ + decimal(i) + "#update"@
    &&& plan.category@ == "type-validity-update-path"@
    &&& plan.feature@ == name + "#"@ + decimal(i) + ":update"@
    &&& plan.evidence_tier == EvidenceTier::RuntimeHelperRequired
    &&& plan.source_span == span_at(p)
    &&& plan.trigger@ == "type_script_output_validation"@
    &&& plan.scope@ == "selected_cells"@
    &&& texts(plan.reads@) == seq!["input"@, "output"@]
    &&& texts(plan.coverage@) == seq![
        "predicate:"@ + p.rendered@,
        "update_paths_selected:"@ + decimal(updates),
        "update_path:runtime-helper-required"@,
    ]
    &&& texts(plan.input_output_relation_checks@) == seq!["valid("@ + name + ")_after_update=runtime-helper-required"@]
    &&& plan.group_cardinality@ == "each-mutated-output-of-declared-type"@
    &&& plan.identity_lifecycle_policy@ == "update must preserve Cell identity while validating final output fields"@
    &&& plan.preserved_fields@.len() == 0 && plan.witness_fields@.len() == 0 && plan.lock_args_fields@.len() == 0
    &&& !plan.on_chain_checked
    &&& plan.on_chain_checked_obligations@.len() == 0
    &&& texts(plan.builder_assumptions@) == seq!["declared(runtime-helper-required:final mutated output validity check)"@]
    &&& plan.codegen_coverage_status@ == "gap:runtime-helper-required"@
    &&& plan.status@ == "runtime-required"@
    &&& plan.detail@ == "type validity predicate for '"@ + name + "' has a selected mutate path without final-field lowering"@
    &&& plan.diagnostics@.len() == 1
    &&& plan.diagnostics@[0].severity@ == "warning"@
    &&& plan.diagnostics@[0].message@
        == "selected mutate path records a fail-closed validity gap until final-field output checking is emitted"@
}

/// Whether predicate `p` also gets an update-path record.
pub open spec fn has_update_record(p: IrValidityPredicate, updates: nat) -> bool {
    p.evidence == IrValidityEvidence::CheckedRuntime && updates > 0
}

/// How many records the first `k` predicates give.
pub open spec fn records_before(ps: Seq<IrValidityPredicate>, k: int, updates: nat) -> nat
    decreases k,
{
    if k <= 0 {
        0
    } else {
        records_before(ps, k - 1, updates) + if has_update_record(ps[k - 1], updates) { 2nat } else { 1nat }
    }
}

/// `plans` are the records of the first `k` predicates of `t`, in order: each predicate's
/// create-path record, followed by its update-path record where it has one.
pub open spec fn validity_records(plans: Seq<ProofPlanMetadata>, t: IrTypeDef, k: int, selected: nat, checked: nat, updates: nat) -> bool {
    let ps = t.validity_predicates@;
    &&& plans.len() == records_before(ps, k, updates)
    &&& forall|i: int|
        0 <= i < k ==> #[trigger] create_record(plans[records_before(ps, i, updates) as int], t.name@, i as nat, ps[i], selected, checked)
            && (has_update_record(ps[i], updates) ==> update_record(
            plans[records_before(ps, i, updates) + 1int],
            t.name@,
            i as nat,
            ps[i],
            updates,
        ))
}

pub(crate) fn bool_string(b: bool) -> (s: String)
    ensures
        s@ == bool_text(b),
{
    if b {
        "true".to_owned()
    } else {
        "false".to_owned()
    }
}

fn depends(deps: &Vec<String>, prefix: &str) -> (r: bool)
    ensures
        r == depends_on(deps@, prefix@),
{
    let mut j: usize = 0;
    while j < deps.len()
        invariant
            j <= deps@.len(),
            forall|k: int| 0 <= k < j ==> !has_prefix((#[trigger] deps@[k])@, prefix@),
        decreases deps@.len() - j,
    {
        if str_starts_with(deps[j].as_str(), prefix) {
            return true;
        }
        j += 1;
    }
    false
}

fn span_of(p: &IrValidityPredicate) -> (r: Option<ProofPlanSourceSpanMetadata>)
    ensures
        r == span_at(*p),
{
    Some(ProofPlanSourceSpanMetadata { start: p.span.start, end: p.span.end, line: p.span.line, column: p.span.column })
}

pub(crate) fn one(s: String) -> (v: Vec<String>)
    ensures
        texts(v@) == seq![s@],
{
    let mut v: Vec<String> = Vec::new();
    v.push(s);
    assert(texts(v@) =~= seq![s@]);
    v
}

/// The create-path record of predicate `i` of type `name`.
fn create_plan(name: &str, i: usize, p: &IrValidityPredicate, selected: usize, checked: usize) -> (plan: ProofPlanMetadata)
    ensures
        create_record(plan, name@, i as nat, *p, selected as nat, checked as nat),
{
    let idx = decimal_string(i as u128);
    let all = selected > 0 && checked == selected;
    let (evidence_tier, status, coverage_status, on_chain_checked, create_status): (EvidenceTier, &str, &str, bool, &str) =
        match p.evidence {
        IrValidityEvidence::CheckedStatic => (EvidenceTier::CheckedStatic, "checked-static", "covered", true, "checked-static"),
        IrValidityEvidence::CheckedRuntime => if all {
            (EvidenceTier::CheckedRuntime, "checked-runtime", "covered", true, "checked-runtime")
        } else if selected == 0 {
            (EvidenceTier::RuntimeHelperRequired, "runtime-required", "gap:runtime-helper-required", false, "not-selected-runtime-helper-required")
        } else if checked == 0 {
            (EvidenceTier::RuntimeHelperRequired, "runtime-required", "gap:runtime-helper-required", false, "selected-runtime-helper-required")
        } else {
            (EvidenceTier::RuntimeHelperRequired, "runtime-required", "gap:runtime-helper-required", false, "partial-runtime-helper-required")
        },
        IrValidityEvidence::BuilderEvidenceRequired => (
            EvidenceTier::BuilderEvidenceRequired,
            "builder-evidence-required",
            "gap:builder-evidence-required",
            false,
            "builder-header-evidence-required",
        ),
    };
    let ghost class = validity_class(p.evidence, selected as nat, checked as nat);
    assert(evidence_tier == class.0 && status@ == class.1 && coverage_status@ == class.2 && on_chain_checked == class.3
        && create_status@ == class.4);
    let mut feature = concat3(name, "#", idx.as_str());
    feature.append(":");
    feature.append(p.rendered.as_str());
    let mut reads: Vec<String> = Vec::new();
    let reads_output = depends(&p.dependencies, "field:");
    let reads_header = depends(&p.dependencies, "environment:");
    if reads_output {
        reads.push("output".to_owned());
    }
    if reads_header {
        reads.push("header_dep".to_owned());
    }
    assert(texts(reads@) =~= validity_reads(p.dependencies@));
    let selected_text = decimal_string(selected as u128);
    let checked_shown: usize = if p.evidence == IrValidityEvidence::BuilderEvidenceRequired { 0 } else { checked };
    let checked_text = decimal_string(checked_shown as u128);
    let mut coverage: Vec<String> = Vec::new();
    coverage.push(concat2("predicate:", p.rendered.as_str()));
    coverage.push(concat2("create_path:", create_status));
    coverage.push(concat2("create_paths_selected:", selected_text.as_str()));
    coverage.push(concat2("create_paths_checked:", checked_text.as_str()));
    let on_create = bool_string(p.runtime_checked_on_create && all);
    coverage.push(concat2("runtime_checked_on_create:", on_create.as_str()));
    let ghost head = texts(coverage@);
    let mut j: usize = 0;
    while j < p.dependencies.len()
        invariant
            j <= p.dependencies@.len(),
            head.len() == 5,
            texts(coverage@) == head + p.dependencies@.take(j as int).map_values(|d: String| "dependency:"@ + d@),
        decreases p.dependencies@.len() - j,
    {
        let ghost prev = coverage@;
        let line = concat2("dependency:", p.dependencies[j].as_str());
        coverage.push(line);
        assert(texts(coverage@) =~= texts(prev).push(line@));
        assert(p.dependencies@.take(j + 1) =~= p.dependencies@.take(j as int).push(p.dependencies@[j as int]));
        assert(p.dependencies@.take(j + 1).map_values(|d: String| "dependency:"@ + d@) =~= p.dependencies@.take(
            j as int,
        ).map_values(|d: String| "dependency:"@ + d@).push("dependency:"@ + p.dependencies@[j as int]@));
        assert(texts(coverage@) =~= head + p.dependencies@.take(j + 1).map_values(|d: String| "dependency:"@ + d@));
        j += 1;
    }
    assert(p.dependencies@.take(p.dependencies@.len() as int) =~= p.dependencies@);
    assert(texts(coverage@) =~= validity_coverage(*p, selected as nat, checked as nat));
    let mut relation = concat3("valid(", name, ")=");
    relation.append(create_status);
    let checks = one(relation);
    let mut obligations: Vec<String> = Vec::new();
    if on_chain_checked {
        let mut o = concat2("type-validity:", feature.as_str());
        o.append("=");
        o.append(status);
        obligations = one(o);
    } else {
        assert(texts(obligations@) =~= Seq::<Seq<char>>::empty());
    }
    let mut builder_assumptions: Vec<String> = Vec::new();
    let checked_count = decimal_string(checked as u128);
    if p.evidence == IrValidityEvidence::BuilderEvidenceRequired {
        builder_assumptions.push("declared(builder-evidence-required:header-dep-block-number-evidence)".to_owned());
        builder_assumptions.push("declared(env::block_number is not a CKB-VM ambient tip-height syscall)".to_owned());
    } else if p.evidence == IrValidityEvidence::CheckedRuntime && !all {
        let mut a = concat3("declared(runtime-helper-required:create paths checked ", checked_count.as_str(), "/");
        a.append(selected_text.as_str());
        a.append(")");
        builder_assumptions.push(a);
    }
    assert(texts(builder_assumptions@) =~= validity_assumptions(p.evidence, selected as nat, checked as nat));
    let message = if p.evidence == IrValidityEvidence::BuilderEvidenceRequired {
        "env::block_number requires explicit builder/header evidence and is not emitted as an ambient CKB-VM syscall".to_owned()
    } else if on_chain_checked {
        "validity predicate is discharged before every selected output create instruction".to_owned()
    } else if selected == 0 {
        "validity predicate has no selected create path in this module and remains a runtime-helper obligation".to_owned()
    } else {
        let mut m = concat3("validity predicate is checked on ", checked_count.as_str(), "/");
        m.append(selected_text.as_str());
        m.append(" selected create paths and remains a runtime-helper obligation");
        m
    };
    let severity = if on_chain_checked { "info".to_owned() } else { "warning".to_owned() };
    let mut diagnostics: Vec<ProofPlanDiagnosticMetadata> = Vec::new();
    diagnostics.push(ProofPlanDiagnosticMetadata { severity, message });
    let plan_name = concat3(name, "#validity", idx.as_str());
    let mut origin = concat3("validity:", name, "#predicate:");
    origin.append(idx.as_str());
    let detail = concat3("type validity predicate for '", name, "' create path");
    ProofPlanMetadata {
        name: plan_name,
        origin,
        category: "type-validity".to_owned(),
        feature,
        evidence_tier,
        source_span: span_of(p),
        trigger: "type_script_output_validation".to_owned(),
        scope: "selected_cells".to_owned(),
        reads,
        coverage,
        input_output_relation_checks: checks,
        group_cardinality: "each-created-output-of-declared-type".to_owned(),
        identity_lifecycle_policy: "predicate observes proposed field values; it grants no consume/create authority".to_owned(),
        preserved_fields: Vec::new(),
        witness_fields: Vec::new(),
        lock_args_fields: Vec::new(),
        on_chain_checked,
        on_chain_checked_obligations: obligations,
        builder_assumptions,
        codegen_coverage_status: coverage_status.to_owned(),
        status: status.to_owned(),
        detail,
        diagnostics,
    }
}

/// The update-path record of predicate `i` of type `name`.
fn update_plan(name: &str, i: usize, p: &IrValidityPredicate, updates: usize) -> (plan: ProofPlanMetadata)
    ensures
        update_record(plan, name@, i as nat, *p, updates as nat),
{
    let idx = decimal_string(i as u128);
    let mut plan_name = concat3(name, "#validity", idx.as_str());
    plan_name.append("#update");
    let mut origin = concat3("validity:", name, "#predicate:");
    origin.append(idx.as_str());
    origin.append("#update");
    let mut feature = concat3(name, "#", idx.as_str());
    feature.append(":update");
    let mut reads: Vec<String> = Vec::new();
    reads.push("input".to_owned());
    reads.push("output".to_owned());
    assert(texts(reads@) =~= seq!["input"@, "output"@]);
    let updates_text = decimal_string(updates as u128);
    let mut coverage: Vec<String> = Vec::new();
    coverage.push(concat2("predicate:", p.rendered.as_str()));
    coverage.push(concat2("update_paths_selected:", updates_text.as_str()));
    coverage.push("update_path:runtime-helper-required".to_owned());
    assert(texts(coverage@) =~= seq![
        "predicate:"@ + p.rendered@,
        "update_paths_selected:"@ + decimal(updates as nat),
        "update_path:runtime-helper-required"@,
    ]);
    let checks = one(concat3("valid(", name, ")_after_update=runtime-helper-required"));
    let assumptions = one("declared(runtime-helper-required:final mutated output validity check)".to_owned());
    let mut diagnostics: Vec<ProofPlanDiagnosticMetadata> = Vec::new();
    diagnostics.push(
        ProofPlanDiagnosticMetadata {
            severity: "warning".to_owned(),
            message: "selected mutate path records a fail-closed validity gap until final-field output checking is emitted".to_owned(),
        },
    );
    ProofPlanMetadata {
        name: plan_name,
        origin,
        category: "type-validity-update-path".to_owned(),
        feature,
        evidence_tier: EvidenceTier::RuntimeHelperRequired,
        source_span: span_of(p),
        trigger: "type_script_output_validation".to_owned(),
        scope: "selected_cells".to_owned(),
        reads,
        coverage,
        input_output_relation_checks: checks,
        group_cardinality: "each-mutated-output-of-declared-type".to_owned(),
        identity_lifecycle_policy: "update must preserve Cell identity while validating final output fields".to_owned(),
        preserved_fields: Vec::new(),
        witness_fields: Vec::new(),
        lock_args_fields: Vec::new(),
        on_chain_checked: false,
        on_chain_checked_obligations: Vec::new(),
        builder_assumptions: assumptions,
        codegen_coverage_status: "gap:runtime-helper-required".to_owned(),
        status: "runtime-required".to_owned(),
        detail: concat3("type validity predicate for '", name, "' has a selected mutate path without final-field lowering"),
        diagnostics,
    }
}

/// The ProofPlan records of a type's validity predicates, in order: for each predicate a
/// create-path record, classified by how many of the selected create paths check it, and for a
/// predicate checked at runtime on a type with selected update paths, an update-path record.
pub fn build_for_type_validity(
    type_def: &IrTypeDef,
    create_paths_selected: usize,
    create_paths_checked: usize,
    update_paths_selected: usize,
) -> (r: Vec<ProofPlanMetadata>)
    requires
        type_def.validity_predicates@.len() * 2 <= usize::MAX,
    ensures
        validity_records(
            r@,
            *type_def,
            type_def.validity_predicates@.len() as int,
            create_paths_selected as nat,
            create_paths_checked as nat,
            update_paths_selected as nat,
        ),
{
    let mut plans: Vec<ProofPlanMetadata> = Vec::new();
    let mut i: usize = 0;
    while i < type_def.validity_predicates.len()
        invariant
            i <= type_def.validity_predicates@.len(),
            validity_records(
                plans@,
                *type_def,
                i as int,
                create_paths_selected as nat,
                create_paths_checked as nat,
                update_paths_selected as nat,
            ),
        decreases type_def.validity_predicates@.len() - i,
    {
        let p = &type_def.validity_predicates[i];
        let ghost before = plans@;
        let ghost ps = type_def.validity_predicates@;
        let created = create_plan(type_def.name.as_str(), i, p, create_paths_selected, create_paths_checked);
        plans.push(created);
        assert(plans@[before.len() as int] == created);
        if p.evidence == IrValidityEvidence::CheckedRuntime && update_paths_selected > 0 {
            let updated = update_plan(type_def.name.as_str(), i, p, update_paths_selected);
            plans.push(updated);
            assert(plans@[before.len() + 1int] == updated);
            assert(plans@[before.len() as int] == created);
        }
        proof {
            assert(before.len() == records_before(ps, i as int, update_paths_selected as nat));
            assert(plans@.len() == records_before(ps, i + 1, update_paths_selected as nat));
            assert forall|k: int| 0 <= k < i + 1 implies #[trigger] create_record(
                plans@[records_before(ps, k, update_paths_selected as nat) as int],
                type_def.name@,
                k as nat,
                ps[k],
                create_paths_selected as nat,
                create_paths_checked as nat,
            ) && (has_update_record(ps[k], update_paths_selected as nat) ==> update_record(
                plans@[records_before(ps, k, update_paths_selected as nat) + 1int],
                type_def.name@,
                k as nat,
                ps[k],
                update_paths_selected as nat,
            )) by {
                if k < i {
                    assert(validity_records(before, *type_def, i as int, create_paths_selected as nat, create_paths_checked as nat, update_paths_selected as nat));
                    lemma_records_before_monotone(ps, k + 1, i as int, update_paths_selected as nat);
                    let at = records_before(ps, k, update_paths_selected as nat) as int;
                    assert(plans@[at] == before[at]);
                    if has_update_record(ps[k], update_paths_selected as nat) {
                        assert(plans@[at + 1] == before[at + 1]);
                    }
                }
            }
        }
        i += 1;
    }
    plans
}

proof fn lemma_records_before_monotone(ps: Seq<IrValidityPredicate>, a: int, b: int, updates: nat)
    requires
        0 <= a <= b,
    ensures
        records_before(ps, a, updates) <= records_before(ps, b, updates),
    decreases b - a,
{
    if a < b {
        lemma_records_before_monotone(ps, a, b - 1, updates);
    }
}

} // verus!
