//! ProofPlan records for bounded `consume_each` / `create_each` cell-collection operations and
//! for borrowed views of linear roots.

use super::validity::{bool_string, bool_text, one, texts};
use super::{EvidenceTier, ProofPlanDiagnosticMetadata, ProofPlanMetadata, ProofPlanSourceSpanMetadata};
use crate::ast::ParamSource;
use crate::ir::{IrBorrowRegion, IrBoundedCollectionOp, IrCreateTemplate};
use crate::text::{concat2, concat3, decimal, decimal_string, str_eq};
use vstd::prelude::*;
use vstd::string::StringExecFns;

verus! {

/// The name of a parameter source in a record.
pub open spec fn source_text(s: ParamSource) -> Seq<char> {
    match s {
        ParamSource::Default => "default"@,
        ParamSource::Input => "input"@,
        ParamSource::Output => "output"@,
        ParamSource::Protected => "protected"@,
        ParamSource::Witness => "witness"@,
        ParamSource::LockArgs => "lock_args"@,
    }
}

/// The trigger of a record made for a scope of kind `kind`: a lock runs for its lock group,
/// anything else at an explicit entry.
pub open spec fn scope_trigger(kind: Seq<char>) -> Seq<char> {
    if kind == "lock"@ {
        "lock_group"@
    } else {
        "explicit_entry"@
    }
}

/// Whether the operation creates outputs (rather than consuming inputs).
pub open spec fn is_create(op: IrBoundedCollectionOp) -> bool {
    op.operation@ == "create_each"@
}

/// Whether a runtime contract lowers the operation.
pub open spec fn runtime_checked(op: IrBoundedCollectionOp) -> bool {
    op.runtime_contract is Some
}

/// The helper the record names: the runtime contract, or the planned helper of the operation.
pub open spec fn collection_helper(op: IrBoundedCollectionOp) -> Seq<char> {
    match op.runtime_contract {
        Some(c) => c@,
        None => if is_create(op) {
            "__cellscript_bounded_create_each"@
        } else {
            "__cellscript_bounded_consume_each"@
        },
    }
}

/// Evidence tier, status and codegen coverage status of the operation's record.
pub open spec fn collection_class(op: IrBoundedCollectionOp) -> (EvidenceTier, Seq<char>, Seq<char>) {
    if runtime_checked(op) {
        (EvidenceTier::CheckedRuntime, "checked-runtime"@, "covered"@)
    } else if is_create(op) {
        (EvidenceTier::BuilderEvidenceRequired, "builder-evidence-required"@, "gap:builder-evidence-required"@)
    } else {
        (EvidenceTier::RuntimeHelperRequired, "runtime-required"@, "gap:runtime-helper-required"@)
    }
}

/// What the record reads: the collection's source, and with a runtime contract the group view
/// it scans and the current script.
pub open spec fn collection_reads(op: IrBoundedCollectionOp) -> Seq<Seq<char>> {
    seq![source_text(op.source)] + if runtime_checked(op) {
        seq![if is_create(op) { "group_output"@ } else { "group_input"@ }, "current_script"@]
    } else {
        Seq::empty()
    }
}

/// Each item of `items` behind `prefix`.
pub open spec fn prefixed(prefix: Seq<char>, items: Seq<String>) -> Seq<Seq<char>> {
    items.map_values(|s: String| prefix + s@)
}

/// The element width shown in a record (0 where none is known).
pub open spec fn width_shown(op: IrBoundedCollectionOp) -> nat {
    match op.element_width {
        Some(w) => w as nat,
        None => 0,
    }
}

/// The coverage lines a runtime contract adds.
pub open spec fn runtime_coverage(op: IrBoundedCollectionOp) -> Seq<Seq<char>> {
    if runtime_checked(op) && is_create(op) {
        seq![
            "witness_codec:CSBPLv1-Molecule-FixVec"@,
            "source_selection:exact-current-type-group-outputs"@,
            "script_role:type-only"@,
            "script_identity:current-script-hash"@,
            "output_correspondence:plan-index-equals-group-output-index"@,
            "output_decode:fixed-width-exact-size"@,
            "lock_policy:exact-create-template-lock-hash"@,
            "capacity_policy:declared-type-floor-checked-on-chain"@,
            "plan_element_width_bytes:"@ + decimal(width_shown(op)),
        ]
    } else if runtime_checked(op) {
        seq![
            "source_selection:exact-current-type-group-inputs"@,
            "script_role:type-only"@,
            "script_identity:current-script-hash"@,
            "element_decode:fixed-width-exact-size"@,
            "lifecycle:every-selected-input-discharged"@,
            "element_width_bytes:"@ + decimal(width_shown(op)),
        ]
    } else {
        Seq::empty()
    }
}

/// The coverage lines of a create template.
pub open spec fn template_coverage(t: IrCreateTemplate) -> Seq<Seq<char>> {
    seq!["create_template_output_type:"@ + t.output_type@] + t.fields@.map_values(
        |fv: (String, String)| "create_template_field:"@ + fv.0@ + "="@ + fv.1@,
    ) + seq![
        "create_template_lock:"@ + match t.lock {
            Some(l) => l@,
            None => "not-specified"@,
        },
    ]
}

/// The coverage lines a `create_each` adds.
pub open spec fn create_coverage(op: IrBoundedCollectionOp) -> Seq<Seq<char>> {
    if is_create(op) {
        seq![
            "output_cardinality_max:"@ + decimal(op.max_elements as nat),
            "capacity_builder_evidence_required:"@ + bool_text(!runtime_checked(op)),
            "output_type:"@ + match op.output_type {
                Some(t) => t@,
                None => "unknown"@,
            },
        ] + match op.create_template {
            Some(t) => template_coverage(t),
            None => Seq::empty(),
        }
    } else {
        Seq::empty()
    }
}

/// The coverage lines of the operation's record.
pub open spec fn collection_coverage(op: IrBoundedCollectionOp) -> Seq<Seq<char>> {
    let rc = runtime_checked(op);
    seq![
        "operation:"@ + op.operation@,
        "collection:"@ + op.collection_type@,
        "element:"@ + op.element_type@,
        "source:"@ + source_text(op.source),
        "maximum_cardinality:"@ + decimal(op.max_elements as nat),
        if rc {
            "actual_scanned_cardinality:runtime-observed"@
        } else {
            "actual_scanned_cardinality:not-observed-no-runtime-lowering"@
        },
        "vacuous:true-when-cardinality-zero"@,
        "runtime_helper:"@ + collection_helper(op),
    ] + prefixed(
        if rc {
            "predicate-executed-once-per-element:"@
        } else {
            "predicate-retained-not-executed:"@
        },
        op.predicates@,
    ) + prefixed(
        if rc {
            "outer-numeric-accumulator-updated-once-per-element:"@
        } else {
            "outer-numeric-accumulator-retained-not-executed:"@
        },
        op.accumulator_updates@,
    ) + runtime_coverage(op) + create_coverage(op)
}

/// The builder assumptions of the operation's record.
pub open spec fn collection_assumptions(op: IrBoundedCollectionOp) -> Seq<Seq<char>> {
    if runtime_checked(op) {
        Seq::empty()
    } else if is_create(op) {
        seq![
            "declared(runtime-helper-required:"@ + collection_helper(op) + ")"@,
            "declared(builder must provide exactly one output per plan element)"@,
            "declared(builder must prove aggregate output capacity and occupied-capacity floors)"@,
        ]
    } else {
        seq!["declared(runtime-helper-required:"@ + collection_helper(op) + ")"@]
    }
}

/// The feature a record names: operation, collection binding and collection type.
pub open spec fn collection_feature(op: IrBoundedCollectionOp) -> Seq<char> {
    op.operation@ + ":"@ + op.collection_binding@ + ":"@ + op.collection_type@
}

/// What the record says is checked on chain.
pub open spec fn collection_obligations(op: IrBoundedCollectionOp) -> Seq<Seq<char>> {
    if runtime_checked(op) {
        seq![
            "bounded-cell-collection:"@ + collection_feature(op) + "="@ + collection_class(op).1,
            "type-only Script role"@,
            "current Script hash identity"@,
            "runtime cardinality bound"@,
            "exact fixed-width decode"@,
            "exactly-once predicate coverage"@,
        ] + if is_create(op) {
            seq![
                "canonical witness plan codec"@,
                "one plan element per GroupOutput"@,
                "exact output lock hash"@,
                "declared output capacity floor"@,
            ]
        } else {
            Seq::empty()
        }
    } else {
        Seq::empty()
    }
}

/// The identity and lifecycle policy of the record.
pub open spec fn collection_policy(op: IrBoundedCollectionOp) -> Seq<char> {
    if is_create(op) && runtime_checked(op) {
        "checked on chain: each canonical plan element binds exactly one current-Type-Script GroupOutput at the same relative index, with exact data and lock policy"@
    } else if is_create(op) {
        "required but not enforced: define fresh-output identity, output ordering, and one-output-per-plan correspondence"@
    } else if runtime_checked(op) {
        "checked on chain: exact current Type Script group inputs are decoded once, predicates execute once, and every selected input is linearly discharged"@
    } else {
        "checked statically only: the collection binding is linearly discharged; runtime Cell selection and per-element consumption are not emitted"@
    }
}

/// The detail line of the record.
pub open spec fn collection_detail(op: IrBoundedCollectionOp) -> Seq<char> {
    let b = op.collection_binding@;
    if runtime_checked(op) && is_create(op) {
        "bounded create_each over '"@ + b + "' is lowered by the '"@ + collection_helper(op) + "' consensus runtime contract"@
    } else if runtime_checked(op) {
        "bounded consume_each over '"@ + b + "' is lowered by the '"@ + collection_helper(op) + "' consensus runtime contract"@
    } else if is_create(op) {
        "bounded create_each over witness plan '"@ + b
            + "' requires runtime iteration plus output-count and capacity builder evidence"@
    } else {
        "bounded consume_each over input Cell set '"@ + b + "' requires emitted source iteration coverage"@
    }
}

/// The diagnostic message of the record.
pub open spec fn collection_message(op: IrBoundedCollectionOp) -> Seq<char> {
    if runtime_checked(op) && is_create(op) {
        "bounded create_each is enforced by the versioned Molecule plan codec, exact GroupOutput correspondence, output data/lock checks, and the declared capacity floor"@
    } else if runtime_checked(op) {
        "bounded consume_each is enforced by exact Type Script group selection, runtime count, exact decode, and per-element predicate machine blocks"@
    } else if is_create(op) {
        "bounded create_each is non-deployable until a canonical witness codec, output correspondence/order, identity, capacity, and runtime predicate contract are implemented"@
    } else {
        "bounded consume_each is non-deployable: "@ + collection_helper(op)
            + " is only a planned helper name; source selection, decoding, cardinality, and per-element predicate execution are not emitted"@
    }
}

/// `plan` is the record of bounded collection operation `index` of scope `scope_name` (of kind
/// `scope_kind`).
pub open spec fn bounded_collection_record(
    plan: ProofPlanMetadata,
    scope_kind: Seq<char>,
    scope_name: Seq<char>,
    index: nat,
    op: IrBoundedCollectionOp,
) -> bool {
    let class = collection_class(op);
    let rc = runtime_checked(op);
    let max = decimal(op.max_elements as nat);
    &&& plan.name@ == scope_name + "#bounded-collection"@ + decimal(index)
    &&& plan.origin@ == scope_kind + ":"@ + scope_name + "#bounded-collection:"@ + decimal(index)
    &&& plan.category@ == "bounded-cell-collection"@
    &&& plan.feature@ == collection_feature(op)
    &&& plan.evidence_tier == class.0
    &&& plan.source_span == Some(
        ProofPlanSourceSpanMetadata { start: op.span.start, end: op.span.end, line: op.span.line, column: op.span.column },
    )
    &&& plan.trigger@ == scope_trigger(scope_kind)
    &&& plan.scope@ == (if is_create(op) { "transaction"@ } else { "selected_cells"@ })
    &&& texts(plan.reads@) == collection_reads(op)
    &&& texts(plan.coverage@) == collection_coverage(op)
    &&& texts(plan.input_output_relation_checks@) == (if !rc {
        Seq::empty()
    } else if is_create(op) {
        seq!["plan_count=group_output_count<="@ + max]
    } else {
        seq!["group_input_count<="@ + max]
    })
    &&& plan.group_cardinality@ == (if rc {
        "runtime-observed:0..="@ + max
    } else {
        "declared-maximum:0..="@ + max + "; actual:not-observed-no-runtime-lowering"@
    })
    &&& plan.identity_lifecycle_policy@ == collection_policy(op)
    &&& plan.preserved_fields@.len() == 0
    &&& texts(plan.witness_fields@) == (if op.source == ParamSource::Witness {
        seq!["witness."@ + op.collection_binding@]
    } else {
        Seq::empty()
    })
    &&& plan.lock_args_fields@.len() == 0
    &&& plan.on_chain_checked == rc
    &&& texts(plan.on_chain_checked_obligations@) == collection_obligations(op)
    &&& texts(plan.builder_assumptions@) == collection_assumptions(op)
    &&& plan.codegen_coverage_status@ == class.2
    &&& plan.status@ == class.1
    &&& plan.detail@ == collection_detail(op)
    &&& plan.diagnostics@.len() == 1
    &&& plan.diagnostics@[0].severity@ == (if rc { "info"@ } else { "warning"@ })
    &&& plan.diagnostics@[0].message@ == collection_message(op)
}

fn source_name(s: ParamSource) -> (r: &'static str)
    ensures
        r@ == source_text(s),
{
    match s {
        ParamSource::Default => "default",
        ParamSource::Input => "input",
        ParamSource::Output => "output",
        ParamSource::Protected => "protected",
        ParamSource::Witness => "witness",
        ParamSource::LockArgs => "lock_args",
    }
}

/// The trigger of a record made for a scope of kind `scope_kind`.
pub fn trigger_for_scope_kind(scope_kind: &str) -> (r: &'static str)
    ensures
        r@ == scope_trigger(scope_kind@),
{
    if str_eq(scope_kind, "lock") {
        "lock_group"
    } else {
        "explicit_entry"
    }
}

pub(crate) fn push_prefixed(out: &mut Vec<String>, prefix: &str, items: &Vec<String>)
    ensures
        texts(final(out)@) == texts(old(out)@) + prefixed(prefix@, items@),
{
    let ghost head = texts(out@);
    let mut j: usize = 0;
    while j < items.len()
        invariant
            j <= items@.len(),
            texts(out@) == head + prefixed(prefix@, items@.take(j as int)),
        decreases items@.len() - j,
    {
        let ghost prev = out@;
        let line = concat2(prefix, items[j].as_str());
        out.push(line);
        assert(texts(out@) =~= texts(prev).push(line@));
        assert(items@.take(j + 1) =~= items@.take(j as int).push(items@[j as int]));
        assert(prefixed(prefix@, items@.take(j + 1)) =~= prefixed(prefix@, items@.take(j as int)).push(prefix@ + items@[j as int]@));
        j += 1;
    }
    assert(items@.take(items@.len() as int) =~= items@);
}

fn push_template(out: &mut Vec<String>, t: &IrCreateTemplate)
    ensures
        texts(final(out)@) == texts(old(out)@) + template_coverage(*t),
{
    let ghost head = texts(out@);
    out.push(concat2("create_template_output_type:", t.output_type.as_str()));
    let ghost head1 = texts(out@);
    assert(head1 =~= head + seq!["create_template_output_type:"@ + t.output_type@]);
    let ghost f = |fv: (String, String)| "create_template_field:"@ + fv.0@ + "="@ + fv.1@;
    let mut j: usize = 0;
    while j < t.fields.len()
        invariant
            j <= t.fields@.len(),
            texts(out@) == head1 + t.fields@.take(j as int).map_values(f),
            f == (|fv: (String, String)| "create_template_field:"@ + fv.0@ + "="@ + fv.1@),
        decreases t.fields@.len() - j,
    {
        let ghost prev = out@;
        let (name, value) = &t.fields[j];
        let mut line = concat3("create_template_field:", name.as_str(), "=");
        line.append(value.as_str());
        out.push(line);
        assert(texts(out@) =~= texts(prev).push(line@));
        assert(t.fields@.take(j + 1) =~= t.fields@.take(j as int).push(t.fields@[j as int]));
        assert(t.fields@.take(j + 1).map_values(f) =~= t.fields@.take(j as int).map_values(f).push(f(t.fields@[j as int])));
        j += 1;
    }
    assert(t.fields@.take(t.fields@.len() as int) =~= t.fields@);
    let lock_line = match &t.lock {
        Some(l) => concat2("create_template_lock:", l.as_str()),
        None => concat2("create_template_lock:", "not-specified"),
    };
    let ghost mid = texts(out@);
    out.push(lock_line);
    assert(texts(out@) =~= mid.push(lock_line@));
    assert(texts(out@) =~= texts(old(out)@) + template_coverage(*t));
}

/// The ProofPlan record of bounded collection operation `index` of scope `scope_name`: how the
/// per-element iteration is discharged (a runtime contract checks it; otherwise a `create_each`
/// waits on builder evidence and a `consume_each` on a runtime helper), what it reads and
/// covers, and what it leaves to the transaction builder.
pub fn plan_for_bounded_collection(
    scope_kind: &str,
    scope_name: &str,
    index: usize,
    operation: &IrBoundedCollectionOp,
) -> (plan: ProofPlanMetadata)
    ensures
        bounded_collection_record(plan, scope_kind@, scope_name@, index as nat, *operation),
{
    let op = operation;
    let source = source_name(op.source);
    let is_create = str_eq(op.operation.as_str(), "create_each");
    let runtime_checked = op.runtime_contract.is_some();
    let helper: &str = match &op.runtime_contract {
        Some(c) => c.as_str(),
        None => if is_create {
            "__cellscript_bounded_create_each"
        } else {
            "__cellscript_bounded_consume_each"
        },
    };
    assert(helper@ == collection_helper(*op));
    let (evidence_tier, status, codegen_coverage_status): (EvidenceTier, &str, &str) = if runtime_checked {
        (EvidenceTier::CheckedRuntime, "checked-runtime", "covered")
    } else if is_create {
        (EvidenceTier::BuilderEvidenceRequired, "builder-evidence-required", "gap:builder-evidence-required")
    } else {
        (EvidenceTier::RuntimeHelperRequired, "runtime-required", "gap:runtime-helper-required")
    };
    // reads: the source, then what a runtime contract scans; a witness plan adds nothing new.
    let mut reads: Vec<String> = Vec::new();
    reads.push(source.to_owned());
    if runtime_checked {
        reads.push(if is_create { "group_output".to_owned() } else { "group_input".to_owned() });
        reads.push("current_script".to_owned());
    }
    assert(texts(reads@) =~= collection_reads(*op));
    let max = decimal_string(op.max_elements as u128);
    let mut coverage: Vec<String> = Vec::new();
    coverage.push(concat2("operation:", op.operation.as_str()));
    coverage.push(concat2("collection:", op.collection_type.as_str()));
    coverage.push(concat2("element:", op.element_type.as_str()));
    coverage.push(concat2("source:", source));
    coverage.push(concat2("maximum_cardinality:", max.as_str()));
    coverage.push(
        if runtime_checked {
            "actual_scanned_cardinality:runtime-observed".to_owned()
        } else {
            "actual_scanned_cardinality:not-observed-no-runtime-lowering".to_owned()
        },
    );
    coverage.push("vacuous:true-when-cardinality-zero".to_owned());
    coverage.push(concat2("runtime_helper:", helper));
    let ghost fixed = texts(coverage@);
    push_prefixed(
        &mut coverage,
        if runtime_checked {
            "predicate-executed-once-per-element:"
        } else {
            "predicate-retained-not-executed:"
        },
        &op.predicates,
    );
    push_prefixed(
        &mut coverage,
        if runtime_checked {
            "outer-numeric-accumulator-updated-once-per-element:"
        } else {
            "outer-numeric-accumulator-retained-not-executed:"
        },
        &op.accumulator_updates,
    );
    let ghost before_runtime = texts(coverage@);
    let width: usize = match op.element_width {
        Some(w) => w,
        None => 0,
    };
    let width_text = decimal_string(width as u128);
    if runtime_checked && is_create {
        coverage.push("witness_codec:CSBPLv1-Molecule-FixVec".to_owned());
        coverage.push("source_selection:exact-current-type-group-outputs".to_owned());
        coverage.push("script_role:type-only".to_owned());
        coverage.push("script_identity:current-script-hash".to_owned());
        coverage.push("output_correspondence:plan-index-equals-group-output-index".to_owned());
        coverage.push("output_decode:fixed-width-exact-size".to_owned());
        coverage.push("lock_policy:exact-create-template-lock-hash".to_owned());
        coverage.push("capacity_policy:declared-type-floor-checked-on-chain".to_owned());
        coverage.push(concat2("plan_element_width_bytes:", width_text.as_str()));
    } else if runtime_checked {
        coverage.push("source_selection:exact-current-type-group-inputs".to_owned());
        coverage.push("script_role:type-only".to_owned());
        coverage.push("script_identity:current-script-hash".to_owned());
        coverage.push("element_decode:fixed-width-exact-size".to_owned());
        coverage.push("lifecycle:every-selected-input-discharged".to_owned());
        coverage.push(concat2("element_width_bytes:", width_text.as_str()));
    }
    assert(texts(coverage@) =~= before_runtime + runtime_coverage(*op));
    let ghost before_create = texts(coverage@);
    let mut builder_assumptions: Vec<String> = Vec::new();
    if !runtime_checked {
        let mut a = concat2("declared(runtime-helper-required:", helper);
        a.append(")");
        builder_assumptions.push(a);
    }
    if is_create {
        coverage.push(concat2("output_cardinality_max:", max.as_str()));
        let flag = bool_string(!runtime_checked);
        coverage.push(concat2("capacity_builder_evidence_required:", flag.as_str()));
        let out_type: &str = match &op.output_type {
            Some(t) => t.as_str(),
            None => "unknown",
        };
        coverage.push(concat2("output_type:", out_type));
        if !runtime_checked {
            builder_assumptions.push("declared(builder must provide exactly one output per plan element)".to_owned());
            builder_assumptions.push(
                "declared(builder must prove aggregate output capacity and occupied-capacity floors)".to_owned(),
            );
        }
        let ghost before_template = texts(coverage@);
        match &op.create_template {
            Some(t) => {
                push_template(&mut coverage, t);
            },
            None => {
                assert(texts(coverage@) =~= before_template + Seq::<Seq<char>>::empty());
            },
        }
    }
    assert(texts(coverage@) =~= before_create + create_coverage(*op));
    assert(texts(coverage@) =~= collection_coverage(*op));
    assert(texts(builder_assumptions@) =~= collection_assumptions(*op));
    let mut feature = concat3(op.operation.as_str(), ":", op.collection_binding.as_str());
    feature.append(":");
    feature.append(op.collection_type.as_str());
    let mut obligations: Vec<String> = Vec::new();
    if runtime_checked {
        let mut first = concat3("bounded-cell-collection:", feature.as_str(), "=");
        first.append(status);
        obligations.push(first);
        obligations.push("type-only Script role".to_owned());
        obligations.push("current Script hash identity".to_owned());
        obligations.push("runtime cardinality bound".to_owned());
        obligations.push("exact fixed-width decode".to_owned());
        obligations.push("exactly-once predicate coverage".to_owned());
        if is_create {
            obligations.push("canonical witness plan codec".to_owned());
            obligations.push("one plan element per GroupOutput".to_owned());
            obligations.push("exact output lock hash".to_owned());
            obligations.push("declared output capacity floor".to_owned());
        }
    }
    assert(texts(obligations@) =~= collection_obligations(*op));
    let checks: Vec<String> = if !runtime_checked {
        let v: Vec<String> = Vec::new();
        assert(texts(v@) =~= Seq::<Seq<char>>::empty());
        v
    } else if is_create {
        one(concat2("plan_count=group_output_count<=", max.as_str()))
    } else {
        one(concat2("group_input_count<=", max.as_str()))
    };
    let group_cardinality = if runtime_checked {
        concat2("runtime-observed:0..=", max.as_str())
    } else {
        let mut g = concat2("declared-maximum:0..=", max.as_str());
        g.append("; actual:not-observed-no-runtime-lowering");
        g
    };
    let policy = if is_create && runtime_checked {
        "checked on chain: each canonical plan element binds exactly one current-Type-Script GroupOutput at the same relative index, with exact data and lock policy".to_owned()
    } else if is_create {
        "required but not enforced: define fresh-output identity, output ordering, and one-output-per-plan correspondence".to_owned()
    } else if runtime_checked {
        "checked on chain: exact current Type Script group inputs are decoded once, predicates execute once, and every selected input is linearly discharged".to_owned()
    } else {
        "checked statically only: the collection binding is linearly discharged; runtime Cell selection and per-element consumption are not emitted".to_owned()
    };
    let witness_fields: Vec<String> = if op.source == ParamSource::Witness {
        one(concat2("witness.", op.collection_binding.as_str()))
    } else {
        let v: Vec<String> = Vec::new();
        assert(texts(v@) =~= Seq::<Seq<char>>::empty());
        v
    };
    let b = op.collection_binding.as_str();
    let detail = if runtime_checked && is_create {
        let mut d = concat3("bounded create_each over '", b, "' is lowered by the '");
        d.append(helper);
        d.append("' consensus runtime contract");
        d
    } else if runtime_checked {
        let mut d = concat3("bounded consume_each over '", b, "' is lowered by the '");
        d.append(helper);
        d.append("' consensus runtime contract");
        d
    } else if is_create {
        concat3(
            "bounded create_each over witness plan '",
            b,
            "' requires runtime iteration plus output-count and capacity builder evidence",
        )
    } else {
        concat3("bounded consume_each over input Cell set '", b, "' requires emitted source iteration coverage")
    };
    let message = if runtime_checked && is_create {
        "bounded create_each is enforced by the versioned Molecule plan codec, exact GroupOutput correspondence, output data/lock checks, and the declared capacity floor".to_owned()
    } else if runtime_checked {
        "bounded consume_each is enforced by exact Type Script group selection, runtime count, exact decode, and per-element predicate machine blocks".to_owned()
    } else if is_create {
        "bounded create_each is non-deployable until a canonical witness codec, output correspondence/order, identity, capacity, and runtime predicate contract are implemented".to_owned()
    } else {
        concat3(
            "bounded consume_each is non-deployable: ",
            helper,
            " is only a planned helper name; source selection, decoding, cardinality, and per-element predicate execution are not emitted",
        )
    };
    let severity = if runtime_checked { "info".to_owned() } else { "warning".to_owned() };
    let mut diagnostics: Vec<ProofPlanDiagnosticMetadata> = Vec::new();
    diagnostics.push(ProofPlanDiagnosticMetadata { severity, message });
    let idx = decimal_string(index as u128);
    let name = concat3(scope_name, "#bounded-collection", idx.as_str());
    let mut origin = concat3(scope_kind, ":", scope_name);
    origin.append("#bounded-collection:");
    origin.append(idx.as_str());
    let scope = if is_create { "transaction".to_owned() } else { "selected_cells".to_owned() };
    ProofPlanMetadata {
        name,
        origin,
        category: "bounded-cell-collection".to_owned(),
        feature,
        evidence_tier,
        source_span: Some(
            ProofPlanSourceSpanMetadata { start: op.span.start, end: op.span.end, line: op.span.line, column: op.span.column },
        ),
        trigger: trigger_for_scope_kind(scope_kind).to_owned(),
        scope,
        reads,
        coverage,
        input_output_relation_checks: checks,
        group_cardinality,
        identity_lifecycle_policy: policy,
        preserved_fields: Vec::new(),
        witness_fields,
        lock_args_fields: Vec::new(),
        on_chain_checked: runtime_checked,
        on_chain_checked_obligations: obligations,
        builder_assumptions,
        codegen_coverage_status: codegen_coverage_status.to_owned(),
        status: status.to_owned(),
        detail,
        diagnostics,
    }
}

/// A bounded-collection record claims an on-chain check exactly when its evidence tier is a
/// checked tier.
pub proof fn lemma_collection_record_tier_consistent(
    plan: ProofPlanMetadata,
    scope_kind: Seq<char>,
    scope_name: Seq<char>,
    index: nat,
    op: IrBoundedCollectionOp,
)
    requires
        bounded_collection_record(plan, scope_kind, scope_name, index, op),
    ensures
        plan.on_chain_checked == plan.evidence_tier.spec_is_checked(),
{
}

/// The feature a borrow-region record names: `View<root type>:root->binding`.
pub open spec fn region_feature(r: IrBorrowRegion) -> Seq<char> {
    "View<"@ + r.root_type@ + ">:"@ + r.root@ + "->"@ + r.binding@
}

/// `plan` is the record of borrow region `index` of scope `scope_name` (of kind `scope_kind`):
/// a statically checked view that reads its root and crosses no lifecycle.
pub open spec fn borrow_region_record(
    plan: ProofPlanMetadata,
    scope_kind: Seq<char>,
    scope_name: Seq<char>,
    index: nat,
    r: IrBorrowRegion,
) -> bool {
    &&& plan.name@ == scope_name + "#borrow-region"@ + decimal(index)
    &&& plan.origin@ == scope_kind + ":"@ + scope_name + "#borrow-region:"@ + decimal(index)
    &&& plan.category@ == "borrow-region"@
    &&& plan.feature@ == region_feature(r)
    &&& plan.evidence_tier == EvidenceTier::CheckedStatic
    &&& plan.source_span == Some(
        ProofPlanSourceSpanMetadata { start: r.span.start, end: r.span.end, line: r.span.line, column: r.span.column },
    )
    &&& plan.trigger@ == scope_trigger(scope_kind)
    &&& plan.scope@ == "lexical-block-with-flow-sensitive-checks"@
    &&& texts(plan.reads@) == seq![r.root@]
    &&& texts(plan.coverage@) == seq![
        "root:"@ + r.root@ + ":"@ + r.root_type@,
        "view:"@ + r.binding@,
        "storage:none"@,
        "abi:none"@,
        "allowed-effects:Pure,ReadOnly"@,
        "lifecycle-crossing:rejected"@,
        "escape:return,aggregate,assignment,generic-call-rejected"@,
    ]
    &&& plan.input_output_relation_checks@.len() == 0
    &&& plan.group_cardinality@ == "single-linear-root"@
    &&& plan.identity_lifecycle_policy@
        == "borrow preserves root Cell identity and cannot consume, destroy, transfer, claim, or settle it"@
    &&& plan.preserved_fields@.len() == 0 && plan.witness_fields@.len() == 0 && plan.lock_args_fields@.len() == 0
    &&& plan.on_chain_checked
    &&& texts(plan.on_chain_checked_obligations@) == seq![
        "borrow-region:"@ + region_feature(r) + "=checked-static"@,
        "compiler rejects borrow escape, lifecycle crossing, and effect-incompatible calls before codegen"@,
    ]
    &&& plan.builder_assumptions@.len() == 0
    &&& plan.codegen_coverage_status@ == "covered"@
    &&& plan.status@ == "checked-static"@
    &&& plan.detail@ == "borrowed view '"@ + r.binding@ + "' of linear root '"@ + r.root@
        + "' is erased after static region, escape, lifecycle, and callee-effect checks"@
    &&& plan.diagnostics@.len() == 1
    &&& plan.diagnostics@[0].severity@ == "info"@
    &&& plan.diagnostics@[0].message@
        == "borrow region is a compiler marker and emits no serializable value or callable ABI slot"@
}

/// A borrow-region record claims an on-chain check, and its evidence tier is a checked tier.
pub proof fn lemma_borrow_region_record_tier_consistent(
    plan: ProofPlanMetadata,
    scope_kind: Seq<char>,
    scope_name: Seq<char>,
    index: nat,
    r: IrBorrowRegion,
)
    requires
        borrow_region_record(plan, scope_kind, scope_name, index, r),
    ensures
        plan.on_chain_checked == plan.evidence_tier.spec_is_checked(),
        plan.on_chain_checked,
{
}

/// The ProofPlan record of borrow region `index` of scope `scope_name`: the compiler checks the
/// region statically, so the record is covered and checked.
pub fn plan_for_borrow_region(scope_kind: &str, scope_name: &str, index: usize, region: &IrBorrowRegion) -> (plan:
    ProofPlanMetadata)
    ensures
        borrow_region_record(plan, scope_kind@, scope_name@, index as nat, *region),
{
    let mut feature = concat3("View<", region.root_type.as_str(), ">:");
    feature.append(region.root.as_str());
    feature.append("->");
    feature.append(region.binding.as_str());
    let idx = decimal_string(index as u128);
    let name = concat3(scope_name, "#borrow-region", idx.as_str());
    let mut origin = concat3(scope_kind, ":", scope_name);
    origin.append("#borrow-region:");
    origin.append(idx.as_str());
    let reads = one(region.root.clone());
    let mut root_line = concat3("root:", region.root.as_str(), ":");
    root_line.append(region.root_type.as_str());
    let mut coverage: Vec<String> = Vec::new();
    coverage.push(root_line);
    coverage.push(concat2("view:", region.binding.as_str()));
    coverage.push("storage:none".to_owned());
    coverage.push("abi:none".to_owned());
    coverage.push("allowed-effects:Pure,ReadOnly".to_owned());
    coverage.push("lifecycle-crossing:rejected".to_owned());
    coverage.push("escape:return,aggregate,assignment,generic-call-rejected".to_owned());
    let mut first = concat2("borrow-region:", feature.as_str());
    first.append("=checked-static");
    let mut obligations: Vec<String> = Vec::new();
    obligations.push(first);
    obligations.push(
        "compiler rejects borrow escape, lifecycle crossing, and effect-incompatible calls before codegen".to_owned(),
    );
    let mut detail = concat3("borrowed view '", region.binding.as_str(), "' of linear root '");
    detail.append(region.root.as_str());
    detail.append("' is erased after static region, escape, lifecycle, and callee-effect checks");
    let mut diagnostics: Vec<ProofPlanDiagnosticMetadata> = Vec::new();
    diagnostics.push(
        ProofPlanDiagnosticMetadata {
            severity: "info".to_owned(),
            message: "borrow region is a compiler marker and emits no serializable value or callable ABI slot".to_owned(),
        },
    );
    let plan = ProofPlanMetadata {
        name,
        origin,
        category: "borrow-region".to_owned(),
        feature,
        evidence_tier: EvidenceTier::CheckedStatic,
        source_span: Some(
            ProofPlanSourceSpanMetadata {
                start: region.span.start,
                end: region.span.end,
                line: region.span.line,
                column: region.span.column,
            },
        ),
        trigger: trigger_for_scope_kind(scope_kind).to_owned(),
        scope: "lexical-block-with-flow-sensitive-checks".to_owned(),
        reads,
        coverage,
        input_output_relation_checks: Vec::new(),
        group_cardinality: "single-linear-root".to_owned(),
        identity_lifecycle_policy:
            "borrow preserves root Cell identity and cannot consume, destroy, transfer, claim, or settle it".to_owned(),
        preserved_fields: Vec::new(),
        witness_fields: Vec::new(),
        lock_args_fields: Vec::new(),
        on_chain_checked: true,
        on_chain_checked_obligations: obligations,
        builder_assumptions: Vec::new(),
        codegen_coverage_status: "covered".to_owned(),
        status: "checked-static".to_owned(),
        detail,
        diagnostics,
    };
    assert(texts(plan.coverage@) =~= seq![
        "root:"@ + region.root@ + ":"@ + region.root_type@,
        "view:"@ + region.binding@,
        "storage:none"@,
        "abi:none"@,
        "allowed-effects:Pure,ReadOnly"@,
        "lifecycle-crossing:rejected"@,
        "escape:return,aggregate,assignment,generic-call-rejected"@,
    ]);
    assert(texts(plan.on_chain_checked_obligations@) =~= seq![
        "borrow-region:"@ + region_feature(*region) + "=checked-static"@,
        "compiler rejects borrow escape, lifecycle crossing, and effect-incompatible calls before codegen"@,
    ]);
    plan
}

} // verus!
