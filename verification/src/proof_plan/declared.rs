//! ProofPlan records for a declared invariant: one summary record, then one record per
//! aggregate primitive and one per bounded quantifier.

use super::collection::{prefixed, push_prefixed};
use super::validity::{one, texts};
use super::{EvidenceTier, ProofPlanDiagnosticMetadata, ProofPlanMetadata, ProofPlanSourceSpanMetadata};
use crate::ast::{AggregateInvariantKind, AggregateRelation, BoundedQuantifierKind, SourceView};
use crate::ir::{
    CkbRuntimeAccessMetadata, IrAggregateInvariant, IrAggregateTarget, IrBoundedQuantifier, IrInvariant, IrInvariantRead,
};
use crate::text::{concat2, concat3, decimal, decimal_string, has_prefix, str_eq, str_starts_with};
use vstd::prelude::*;
use vstd::string::StringExecFns;

verus! {

/// `s` with every repeated line after its first occurrence left out.
pub open spec fn dedup_seq(s: Seq<Seq<char>>) -> Seq<Seq<char>>
    decreases s.len(),
{
    if s.len() == 0 {
        s
    } else {
        let d = dedup_seq(s.drop_last());
        if d.contains(s.last()) {
            d
        } else {
            d.push(s.last())
        }
    }
}

/// The lines of `v`, each kept at its first occurrence only.
pub fn dedup(v: Vec<String>) -> (r: Vec<String>)
    ensures
        texts(r@) == dedup_seq(texts(v@)),
{
    let mut out: Vec<String> = Vec::new();
    let mut i: usize = 0;
    while i < v.len()
        invariant
            i <= v@.len(),
            texts(out@) == dedup_seq(texts(v@).take(i as int)),
        decreases v@.len() - i,
    {
        let mut found = false;
        let mut j: usize = 0;
        while j < out.len()
            invariant
                j <= out@.len(),
                i < v@.len(),
                found <==> exists|k: int| 0 <= k < j && (#[trigger] texts(out@)[k]) == v@[i as int]@,
            decreases out@.len() - j,
        {
            assert(texts(out@)[j as int] == out@[j as int]@);
            if str_eq(out[j].as_str(), v[i].as_str()) {
                found = true;
            }
            j += 1;
        }
        let ghost prev = texts(v@).take(i as int);
        assert(texts(v@).take(i + 1).drop_last() =~= prev);
        assert(texts(v@).take(i + 1).last() == v@[i as int]@);
        if !found {
            let ghost before = out@;
            out.push(v[i].clone());
            assert(texts(out@) =~= texts(before).push(v@[i as int]@));
        } else {
            assert(texts(out@).contains(v@[i as int]@));
        }
        i += 1;
    }
    assert(texts(v@).take(v@.len() as int) =~= texts(v@));
    out
}

/// The symbol of an aggregate relation (`?` where none is given).
pub open spec fn relation_text(r: Option<AggregateRelation>) -> Seq<char> {
    match r {
        Some(AggregateRelation::Lt) => "<"@,
        Some(AggregateRelation::Le) => "<="@,
        Some(AggregateRelation::Eq) => "=="@,
        Some(AggregateRelation::Ge) => ">="@,
        Some(AggregateRelation::Gt) => ">"@,
        None => "?"@,
    }
}

fn relation_symbol(r: Option<AggregateRelation>) -> (s: &'static str)
    ensures
        s@ == relation_text(r),
{
    match r {
        Some(AggregateRelation::Lt) => "<",
        Some(AggregateRelation::Le) => "<=",
        Some(AggregateRelation::Eq) => "==",
        Some(AggregateRelation::Ge) => ">=",
        Some(AggregateRelation::Gt) => ">",
        None => "?",
    }
}

/// A text, or `?` where there is none.
pub open spec fn or_unknown(o: Option<String>) -> Seq<char> {
    match o {
        Some(s) => s@,
        None => "?"@,
    }
}

fn or_unknown_str(o: &Option<String>) -> (s: &str)
    ensures
        s@ == or_unknown(*o),
{
    match o {
        Some(s) => s.as_str(),
        None => "?",
    }
}

/// The rendering of an aggregate's right-hand side (`?` where there is none).
pub open spec fn rhs_text(a: IrAggregateInvariant) -> Seq<char> {
    match a.rhs {
        Some(t) => t.rendered@,
        None => "?"@,
    }
}

fn rhs_str(a: &IrAggregateInvariant) -> (s: &str)
    ensures
        s@ == rhs_text(*a),
{
    match &a.rhs {
        Some(t) => t.rendered.as_str(),
        None => "?",
    }
}

/// How an aggregate primitive is discharged.
pub enum EvidenceView {
    MetadataOnly,
    Required(Seq<char>),
    Checked(Seq<char>),
}

impl EvidenceView {
    pub open spec fn helper(self) -> Option<Seq<char>> {
        match self {
            EvidenceView::MetadataOnly => None,
            EvidenceView::Required(h) => Some(h),
            EvidenceView::Checked(h) => Some(h),
        }
    }

    pub open spec fn relation_status(self) -> Seq<char> {
        match self {
            EvidenceView::MetadataOnly => "metadata-only"@,
            EvidenceView::Required(h) => "runtime-helper-required:"@ + h,
            EvidenceView::Checked(h) => "checked-runtime:"@ + h,
        }
    }

    pub open spec fn tier(self) -> EvidenceTier {
        match self {
            EvidenceView::MetadataOnly => EvidenceTier::MetadataOnly,
            EvidenceView::Required(_) => EvidenceTier::RuntimeHelperRequired,
            EvidenceView::Checked(_) => EvidenceTier::CheckedRuntime,
        }
    }

    pub open spec fn coverage_status(self) -> Seq<char> {
        match self {
            EvidenceView::MetadataOnly => "gap:metadata-only"@,
            EvidenceView::Required(_) => "gap:runtime-helper-required"@,
            EvidenceView::Checked(_) => "covered"@,
        }
    }
}

/// How an aggregate primitive is discharged, as computed.
pub enum AggregateLoweringEvidence {
    MetadataOnly,
    RuntimeHelperRequired(String),
    RuntimeHelperChecked(String),
}

impl View for AggregateLoweringEvidence {
    type V = EvidenceView;

    open spec fn view(&self) -> EvidenceView {
        match self {
            AggregateLoweringEvidence::MetadataOnly => EvidenceView::MetadataOnly,
            AggregateLoweringEvidence::RuntimeHelperRequired(h) => EvidenceView::Required(h@),
            AggregateLoweringEvidence::RuntimeHelperChecked(h) => EvidenceView::Checked(h@),
        }
    }
}

/// Whether the invariant is triggered by its type group.
pub open spec fn type_group_triggered(inv: IrInvariant) -> bool {
    inv.trigger matches Some(t) && t@ == "type_group"@
}

/// The group-amount runtime helpers that could discharge aggregate `a` of `inv`, in order, each
/// with whether it accepts a current-script scan.
pub open spec fn group_amount_helpers(inv: IrInvariant, a: IrAggregateInvariant) -> Seq<(Seq<char>, bool)> {
    if !type_group_triggered(inv) || a.scope@ != "group"@ {
        Seq::empty()
    } else if a.kind == AggregateInvariantKind::Sum && a.relation == Some(AggregateRelation::Eq) {
        a.conservation_helpers@.map_values(|h: crate::ir::IrAmountHelper| (h.name@, h.accepts_current_script_scan))
    } else if a.kind == AggregateInvariantKind::Delta {
        match (a.amount_endpoint, a.argument) {
            (Some(SourceView::GroupOutput), Some(arg)) => if arg@.len() > 0 {
                seq![("xudt::require_group_amount_minted"@, false)]
            } else {
                Seq::empty()
            },
            (Some(SourceView::GroupInput), Some(arg)) => if arg@.len() > 0 {
                seq![("xudt::require_group_amount_burned"@, false)]
            } else {
                Seq::empty()
            },
            _ => Seq::empty(),
        }
    } else {
        Seq::empty()
    }
}

/// Whether one of the entry's runtime accesses serves helper `h`.
pub open spec fn helper_available(accesses: Seq<CkbRuntimeAccessMetadata>, h: (Seq<char>, bool)) -> bool {
    exists|k: int|
        0 <= k < accesses.len() && (#[trigger] accesses[k]).binding@ == h.0 && (accesses[k].source@
            == "GroupInput/GroupOutput"@ || (h.1 && accesses[k].source@ == "CurrentScript/Input/GroupInput/GroupOutput"@))
}

/// The first helper from position `i` on that a runtime access serves.
pub open spec fn first_available(hs: Seq<(Seq<char>, bool)>, accesses: Seq<CkbRuntimeAccessMetadata>, i: int) -> Option<
    Seq<char>,
>
    decreases hs.len() - i,
{
    if i < 0 || i >= hs.len() {
        None
    } else if helper_available(accesses, hs[i]) {
        Some(hs[i].0)
    } else {
        first_available(hs, accesses, i + 1)
    }
}

/// How aggregate `a` of `inv` is discharged: by the first helper a runtime access serves, else
/// by the first helper as a requirement, else as metadata only.
pub open spec fn aggregate_evidence(inv: IrInvariant, a: IrAggregateInvariant, accesses: Seq<CkbRuntimeAccessMetadata>) -> EvidenceView {
    let hs = group_amount_helpers(inv, a);
    if hs.len() == 0 {
        EvidenceView::MetadataOnly
    } else {
        match first_available(hs, accesses, 0) {
            Some(h) => EvidenceView::Checked(h),
            None => EvidenceView::Required(hs[0].0),
        }
    }
}

/// The texts of some helper names, each with its flag.
pub open spec fn helpers_view(v: Seq<(String, bool)>) -> Seq<(Seq<char>, bool)> {
    v.map_values(|p: (String, bool)| (p.0@, p.1))
}

fn group_amount_helpers_exec(inv: &IrInvariant, a: &IrAggregateInvariant) -> (r: Vec<(String, bool)>)
    ensures
        helpers_view(r@) == group_amount_helpers(*inv, *a),
{
    let mut out: Vec<(String, bool)> = Vec::new();
    let triggered = match &inv.trigger {
        Some(t) => str_eq(t.as_str(), "type_group"),
        None => false,
    };
    if !triggered || !str_eq(a.scope.as_str(), "group") {
        assert(helpers_view(out@) =~= group_amount_helpers(*inv, *a));
        return out;
    }
    if a.kind == AggregateInvariantKind::Sum && a.relation == Some(AggregateRelation::Eq) {
        let mut i: usize = 0;
        while i < a.conservation_helpers.len()
            invariant
                i <= a.conservation_helpers@.len(),
                helpers_view(out@) == a.conservation_helpers@.take(i as int).map_values(
                    |h: crate::ir::IrAmountHelper| (h.name@, h.accepts_current_script_scan),
                ),
            decreases a.conservation_helpers@.len() - i,
        {
            let h = &a.conservation_helpers[i];
            let ghost prev = out@;
            let name = h.name.clone();
            out.push((name, h.accepts_current_script_scan));
            assert(helpers_view(out@) =~= helpers_view(prev).push(
                (h.name@, h.accepts_current_script_scan),
            ));
            assert(a.conservation_helpers@.take(i + 1) =~= a.conservation_helpers@.take(i as int).push(
                a.conservation_helpers@[i as int],
            ));
            assert(helpers_view(out@) =~= a.conservation_helpers@.take(i + 1).map_values(
                |h: crate::ir::IrAmountHelper| (h.name@, h.accepts_current_script_scan),
            ));
            i += 1;
        }
        assert(a.conservation_helpers@.take(a.conservation_helpers@.len() as int) =~= a.conservation_helpers@);
    } else if a.kind == AggregateInvariantKind::Delta {
        match (&a.amount_endpoint, &a.argument) {
            (Some(SourceView::GroupOutput), Some(arg)) => {
                if arg.as_str().unicode_len() > 0 {
                    out.push(("xudt::require_group_amount_minted".to_owned(), false));
                }
            },
            (Some(SourceView::GroupInput), Some(arg)) => {
                if arg.as_str().unicode_len() > 0 {
                    out.push(("xudt::require_group_amount_burned".to_owned(), false));
                }
            },
            _ => {},
        }
    }
    assert(helpers_view(out@) =~= group_amount_helpers(*inv, *a));
    out
}

fn available(accesses: &[CkbRuntimeAccessMetadata], name: &str, accepts: bool) -> (r: bool)
    ensures
        r == helper_available(accesses@, (name@, accepts)),
{
    let mut k: usize = 0;
    while k < accesses.len()
        invariant
            k <= accesses@.len(),
            forall|j: int|
                0 <= j < k ==> !((#[trigger] accesses@[j]).binding@ == name@ && (accesses@[j].source@
                    == "GroupInput/GroupOutput"@ || (accepts && accesses@[j].source@
                    == "CurrentScript/Input/GroupInput/GroupOutput"@))),
        decreases accesses@.len() - k,
    {
        let a = &accesses[k];
        if str_eq(a.binding.as_str(), name) && (str_eq(a.source.as_str(), "GroupInput/GroupOutput") || (accepts
            && str_eq(a.source.as_str(), "CurrentScript/Input/GroupInput/GroupOutput"))) {
            return true;
        }
        k += 1;
    }
    false
}

/// How aggregate `a` of `inv` is discharged, given the entry's runtime accesses.
fn lowering_evidence(inv: &IrInvariant, a: &IrAggregateInvariant, accesses: &[CkbRuntimeAccessMetadata]) -> (r:
    AggregateLoweringEvidence)
    ensures
        r@ == aggregate_evidence(*inv, *a, accesses@),
{
    let hs = group_amount_helpers_exec(inv, a);
    let ghost hv = helpers_view(hs@);
    if hs.len() == 0 {
        return AggregateLoweringEvidence::MetadataOnly;
    }
    let mut i: usize = 0;
    while i < hs.len()
        invariant
            i <= hs@.len(),
            hv == helpers_view(hs@),
            hv == group_amount_helpers(*inv, *a),
            hv.len() > 0,
            first_available(hv, accesses@, 0) == first_available(hv, accesses@, i as int),
        decreases hs@.len() - i,
    {
        assert(hv[i as int] == (hs@[i as int].0@, hs@[i as int].1));
        if available(accesses, hs[i].0.as_str(), hs[i].1) {
            let h = hs[i].0.clone();
            assert(first_available(hv, accesses@, i as int) == Some(hv[i as int].0));
            assert(h@ == hv[i as int].0);
            return AggregateLoweringEvidence::RuntimeHelperChecked(h);
        }
        i += 1;
    }
    assert(hv[0] == (hs@[0].0@, hs@[0].1));
    AggregateLoweringEvidence::RuntimeHelperRequired(hs[0].0.clone())
}

/// The lines of `s` that begin with `prefix`, in order.
pub open spec fn with_prefix(s: Seq<Seq<char>>, prefix: Seq<char>) -> Seq<Seq<char>>
    decreases s.len(),
{
    if s.len() == 0 {
        s
    } else if has_prefix(s.last(), prefix) {
        with_prefix(s.drop_last(), prefix).push(s.last())
    } else {
        with_prefix(s.drop_last(), prefix)
    }
}

fn filter_prefix(v: &Vec<String>, prefix: &str) -> (r: Vec<String>)
    ensures
        texts(r@) == with_prefix(texts(v@), prefix@),
{
    let mut out: Vec<String> = Vec::new();
    let mut i: usize = 0;
    while i < v.len()
        invariant
            i <= v@.len(),
            texts(out@) == with_prefix(texts(v@).take(i as int), prefix@),
        decreases v@.len() - i,
    {
        assert(texts(v@).take(i + 1).drop_last() =~= texts(v@).take(i as int));
        assert(texts(v@).take(i + 1).last() == v@[i as int]@);
        if str_starts_with(v[i].as_str(), prefix) {
            let ghost before = out@;
            out.push(v[i].clone());
            assert(texts(out@) =~= texts(before).push(v@[i as int]@));
        }
        i += 1;
    }
    assert(texts(v@).take(v@.len() as int) =~= texts(v@));
    out
}

/// The trigger an invariant declares, `explicit_entry` where it declares none.
pub open spec fn invariant_trigger(inv: IrInvariant) -> Seq<char> {
    match inv.trigger {
        Some(t) => t@,
        None => "explicit_entry"@,
    }
}

/// Whether a lock-triggered record scans the whole transaction.
pub open spec fn lock_scan(trigger: Seq<char>, scope: Seq<char>) -> bool {
    trigger == "lock_group"@ && scope == "transaction"@
}

/// The coverage notes a trigger and scope bring.
pub open spec fn coverage_notes(trigger: Seq<char>, scope: Seq<char>) -> Seq<Seq<char>> {
    if lock_scan(trigger, scope) {
        seq![
            "only inputs sharing this lock script trigger the verifier"@,
            "transaction scans from a lock do not imply type-group conservation"@,
        ]
    } else if trigger == "lock_group"@ {
        seq!["lock ScriptGroup coverage: inputs sharing this lock script"@]
    } else if trigger == "type_group"@ {
        seq!["type ScriptGroup coverage: cells sharing this type script"@]
    } else if scope == "transaction"@ {
        seq!["transaction-scoped relation over explicit input/output views"@]
    } else if scope == "selected_cells"@ {
        seq!["selected cell coverage from explicit consume/read_ref/create/mutate summaries"@]
    } else {
        Seq::empty()
    }
}

fn push_coverage_notes(out: &mut Vec<String>, trigger: &str, scope: &str)
    ensures
        texts(final(out)@) == texts(old(out)@) + coverage_notes(trigger@, scope@),
{
    let lock = str_eq(trigger, "lock_group");
    let ghost head = texts(out@);
    if lock && str_eq(scope, "transaction") {
        out.push("only inputs sharing this lock script trigger the verifier".to_owned());
        out.push("transaction scans from a lock do not imply type-group conservation".to_owned());
    } else if lock {
        out.push("lock ScriptGroup coverage: inputs sharing this lock script".to_owned());
    } else if str_eq(trigger, "type_group") {
        out.push("type ScriptGroup coverage: cells sharing this type script".to_owned());
    } else if str_eq(scope, "transaction") {
        out.push("transaction-scoped relation over explicit input/output views".to_owned());
    } else if str_eq(scope, "selected_cells") {
        out.push("selected cell coverage from explicit consume/read_ref/create/mutate summaries".to_owned());
    }
    assert(texts(out@) =~= head + coverage_notes(trigger@, scope@));
}

/// The coverage label of an aggregate primitive, before its scope.
pub open spec fn coverage_head(a: IrAggregateInvariant) -> Seq<char> {
    let t = a.target.rendered@;
    match a.kind {
        AggregateInvariantKind::Sum => "aggregate_assertion:"@ + t + relation_text(a.relation) + rhs_text(a),
        AggregateInvariantKind::Conserved => "aggregate_assertion:conserved("@ + t + ")"@,
        AggregateInvariantKind::Delta => "aggregate_assertion:delta("@ + t + ","@ + or_unknown(a.argument) + ")"@,
        AggregateInvariantKind::Distinct => "aggregate_assertion:distinct("@ + t + ")"@,
        AggregateInvariantKind::Singleton => "aggregate_assertion:singleton("@ + t + ")"@,
    }
}

/// The coverage label of an aggregate primitive.
pub open spec fn aggregate_coverage_label(a: IrAggregateInvariant) -> Seq<char> {
    coverage_head(a) + " scope="@ + a.scope@
}

fn coverage_label(a: &IrAggregateInvariant) -> (s: String)
    ensures
        s@ == aggregate_coverage_label(*a),
{
    let t = a.target.rendered.as_str();
    let mut s = match a.kind {
        AggregateInvariantKind::Sum => {
            let mut s = concat3("aggregate_assertion:", t, relation_symbol(a.relation));
            s.append(rhs_str(a));
            s
        },
        AggregateInvariantKind::Conserved => concat3("aggregate_assertion:conserved(", t, ")"),
        AggregateInvariantKind::Delta => {
            let mut s = concat3("aggregate_assertion:delta(", t, ",");
            s.append(or_unknown_str(&a.argument));
            s.append(")");
            s
        },
        AggregateInvariantKind::Distinct => concat3("aggregate_assertion:distinct(", t, ")"),
        AggregateInvariantKind::Singleton => concat3("aggregate_assertion:singleton(", t, ")"),
    };
    assert(s@ == coverage_head(*a));
    s.append(" scope=");
    s.append(a.scope.as_str());
    assert(s@ =~= aggregate_coverage_label(*a));
    s
}

/// The feature an aggregate primitive's record names.
pub open spec fn aggregate_feature(a: IrAggregateInvariant) -> Seq<char> {
    let t = a.target.rendered@;
    match a.kind {
        AggregateInvariantKind::Sum => "assert_sum:"@ + t + relation_text(a.relation) + rhs_text(a),
        AggregateInvariantKind::Conserved => "assert_conserved:"@ + t,
        AggregateInvariantKind::Delta => "assert_delta:"@ + t + ":"@ + or_unknown(a.argument),
        AggregateInvariantKind::Distinct => "assert_distinct:"@ + t,
        AggregateInvariantKind::Singleton => "assert_singleton:"@ + t,
    }
}

fn feature_label(a: &IrAggregateInvariant) -> (s: String)
    ensures
        s@ == aggregate_feature(*a),
{
    let t = a.target.rendered.as_str();
    match a.kind {
        AggregateInvariantKind::Sum => {
            let mut s = concat3("assert_sum:", t, relation_symbol(a.relation));
            s.append(rhs_str(a));
            s
        },
        AggregateInvariantKind::Conserved => concat2("assert_conserved:", t),
        AggregateInvariantKind::Delta => {
            let mut s = concat3("assert_delta:", t, ":");
            s.append(or_unknown_str(&a.argument));
            s
        },
        AggregateInvariantKind::Distinct => concat2("assert_distinct:", t),
        AggregateInvariantKind::Singleton => concat2("assert_singleton:", t),
    }
}

/// The relation check of an aggregate primitive discharged by `ev`.
pub open spec fn aggregate_relation_check(a: IrAggregateInvariant, ev: EvidenceView) -> Seq<char> {
    match a.kind {
        AggregateInvariantKind::Sum => aggregate_feature(a) + "="@ + ev.relation_status(),
        AggregateInvariantKind::Delta => aggregate_feature(a) + "="@ + ev.relation_status(),
        _ => aggregate_feature(a) + "=metadata-only"@,
    }
}

fn relation_status_string(ev: &AggregateLoweringEvidence) -> (s: String)
    ensures
        s@ == ev@.relation_status(),
{
    match ev {
        AggregateLoweringEvidence::MetadataOnly => "metadata-only".to_owned(),
        AggregateLoweringEvidence::RuntimeHelperRequired(h) => concat2("runtime-helper-required:", h.as_str()),
        AggregateLoweringEvidence::RuntimeHelperChecked(h) => concat2("checked-runtime:", h.as_str()),
    }
}

fn relation_check_label(a: &IrAggregateInvariant, ev: &AggregateLoweringEvidence) -> (s: String)
    ensures
        s@ == aggregate_relation_check(*a, ev@),
{
    let mut s = feature_label(a);
    match a.kind {
        AggregateInvariantKind::Sum | AggregateInvariantKind::Delta => {
            s.append("=");
            let st = relation_status_string(ev);
            s.append(st.as_str());
        },
        _ => {
            s.append("=metadata-only");
        },
    }
    s
}

/// What the record of a target reads.
pub open spec fn target_read(t: IrAggregateTarget) -> Seq<Seq<char>> {
    match t.read {
        Some(r) => seq![r@],
        None => Seq::empty(),
    }
}

/// What an aggregate primitive's record reads: the views of its target and right-hand side,
/// else the views its scope implies.
pub open spec fn aggregate_reads(a: IrAggregateInvariant) -> Seq<Seq<char>> {
    let raw = target_read(a.target) + match a.rhs {
        Some(t) => target_read(t),
        None => Seq::empty(),
    };
    dedup_seq(
        if raw.len() > 0 {
            raw
        } else if a.scope@ == "group"@ {
            seq!["group_input"@, "group_output"@]
        } else if a.scope@ == "transaction"@ {
            seq!["input"@, "output"@]
        } else {
            Seq::empty()
        },
    )
}

fn push_target_read(out: &mut Vec<String>, t: &IrAggregateTarget)
    ensures
        texts(final(out)@) == texts(old(out)@) + target_read(*t),
{
    let ghost head = texts(out@);
    if let Some(r) = &t.read {
        out.push(r.clone());
    }
    assert(texts(out@) =~= head + target_read(*t));
}

fn reads_of(a: &IrAggregateInvariant) -> (r: Vec<String>)
    ensures
        texts(r@) == aggregate_reads(*a),
{
    let mut reads: Vec<String> = Vec::new();
    push_target_read(&mut reads, &a.target);
    match &a.rhs {
        Some(t) => push_target_read(&mut reads, t),
        None => {},
    }
    assert(texts(reads@) =~= target_read(a.target) + match a.rhs {
        Some(t) => target_read(t),
        None => Seq::empty(),
    });
    if reads.len() == 0 {
        if str_eq(a.scope.as_str(), "group") {
            reads.push("group_input".to_owned());
            reads.push("group_output".to_owned());
        } else if str_eq(a.scope.as_str(), "transaction") {
            reads.push("input".to_owned());
            reads.push("output".to_owned());
        }
    }
    let ghost raw = texts(reads@);
    let r = dedup(reads);
    assert(raw =~= (if (target_read(a.target) + match a.rhs {
        Some(t) => target_read(t),
        None => Seq::empty(),
    }).len() > 0 {
        target_read(a.target) + match a.rhs {
            Some(t) => target_read(t),
            None => Seq::empty(),
        }
    } else if a.scope@ == "group"@ {
        seq!["group_input"@, "group_output"@]
    } else if a.scope@ == "transaction"@ {
        seq!["input"@, "output"@]
    } else {
        Seq::empty()
    }));
    r
}

/// The coverage lines an aggregate's evidence adds: its helper, and whether it is checked.
pub open spec fn evidence_coverage(ev: EvidenceView) -> Seq<Seq<char>> {
    match ev {
        EvidenceView::MetadataOnly => Seq::empty(),
        EvidenceView::Required(h) => seq!["runtime_helper:"@ + h],
        EvidenceView::Checked(h) => seq!["runtime_helper:"@ + h, "runtime_helper_checked:"@ + h],
    }
}

fn push_evidence_coverage(out: &mut Vec<String>, ev: &AggregateLoweringEvidence)
    ensures
        texts(final(out)@) == texts(old(out)@) + evidence_coverage(ev@),
{
    let ghost head = texts(out@);
    match ev {
        AggregateLoweringEvidence::MetadataOnly => {},
        AggregateLoweringEvidence::RuntimeHelperRequired(h) => {
            out.push(concat2("runtime_helper:", h.as_str()));
        },
        AggregateLoweringEvidence::RuntimeHelperChecked(h) => {
            out.push(concat2("runtime_helper:", h.as_str()));
            out.push(concat2("runtime_helper_checked:", h.as_str()));
        },
    }
    assert(texts(out@) =~= head + evidence_coverage(ev@));
}

/// The lock-scan builder assumption.
pub open spec fn lock_scan_assumption() -> Seq<char> {
    "declared(lock transaction scan only protects the lock group unless the builder constrains every relevant cell)"@
}

/// The lock-scan diagnostic message.
pub open spec fn lock_scan_message() -> Seq<char> {
    "transaction scans from a lock do not imply type-group conservation; only inputs sharing the lock trigger this verifier"@
}

/// The builder assumptions of an aggregate primitive's record.
pub open spec fn aggregate_assumptions(inv_name: Seq<char>, ev: EvidenceView, trigger: Seq<char>, scope: Seq<char>) -> Seq<Seq<char>> {
    let parent = "declared(parent_invariant:"@ + inv_name + ")"@;
    dedup_seq(
        match ev {
            EvidenceView::Checked(h) => seq!["declared(runtime-helper-checked:"@ + h + ")"@, parent],
            EvidenceView::Required(h) => seq!["declared(runtime-helper-required:"@ + h + ")"@, parent],
            EvidenceView::MetadataOnly => seq![
                "declared(metadata-only aggregate invariant not yet lowered to executable verifier code)"@,
                parent,
            ],
        } + if lock_scan(trigger, scope) {
            seq![lock_scan_assumption()]
        } else {
            Seq::empty()
        },
    )
}

/// The first diagnostic of an aggregate primitive's record.
pub open spec fn aggregate_diagnostic(ev: EvidenceView) -> (Seq<char>, Seq<char>) {
    match ev {
        EvidenceView::Checked(h) => ("info"@, "aggregate invariant is discharged by generated "@ + h + " runtime helper coverage"@),
        EvidenceView::Required(h) => ("info"@, "aggregate invariant requires "@ + h + " runtime helper coverage"@),
        EvidenceView::MetadataOnly => (
            "warning"@,
            "aggregate invariant primitive is metadata-only until executable lowering covers it"@,
        ),
    }
}

/// The group cardinality an aggregate primitive's scope names.
pub open spec fn aggregate_cardinality(scope: Seq<char>) -> Seq<char> {
    if scope == "group"@ {
        "ckb ScriptGroup cardinality"@
    } else if scope == "transaction"@ {
        "transaction input/output cardinality"@
    } else if scope == "selected_cells"@ {
        "selected cell-set cardinality"@
    } else {
        "not a script-group cardinality obligation"@
    }
}

/// The identity and lifecycle policy of an aggregate primitive.
pub open spec fn aggregate_policy(kind: AggregateInvariantKind) -> Seq<char> {
    match kind {
        AggregateInvariantKind::Conserved => "aggregate conservation policy"@,
        AggregateInvariantKind::Delta => "aggregate delta policy"@,
        AggregateInvariantKind::Distinct => "aggregate uniqueness policy"@,
        AggregateInvariantKind::Singleton => "aggregate singleton policy"@,
        AggregateInvariantKind::Sum => "aggregate sum relation policy"@,
    }
}

/// The diagnostics of a record: the first one, then the lock-scan warning where it applies.
pub open spec fn diagnostics_are(
    ds: Seq<ProofPlanDiagnosticMetadata>,
    first: (Seq<char>, Seq<char>),
    trigger: Seq<char>,
    scope: Seq<char>,
) -> bool {
    &&& ds.len() == if lock_scan(trigger, scope) { 2nat } else { 1nat }
    &&& ds[0].severity@ == first.0 && ds[0].message@ == first.1
    &&& lock_scan(trigger, scope) ==> ds[1].severity@ == "warning"@ && ds[1].message@ == lock_scan_message()
}

/// `plan` is the record of aggregate primitive `i` of `inv`, given the entry's runtime accesses.
pub open spec fn aggregate_record(
    plan: ProofPlanMetadata,
    inv: IrInvariant,
    i: nat,
    a: IrAggregateInvariant,
    accesses: Seq<CkbRuntimeAccessMetadata>,
) -> bool {
    let ev = aggregate_evidence(inv, a, accesses);
    let checked = ev is Checked;
    let trigger = invariant_trigger(inv);
    let status = if checked { "checked-runtime"@ } else { "runtime-required"@ };
    let reads = aggregate_reads(a);
    &&& plan.name@ == inv.name@ + "#aggregate"@ + decimal(i)
    &&& plan.origin@ == "invariant:"@ + inv.name@ + "#aggregate:"@ + decimal(i)
    &&& plan.category@ == "aggregate-invariant"@
    &&& plan.feature@ == aggregate_feature(a)
    &&& plan.evidence_tier == ev.tier()
    &&& plan.source_span == Some(
        ProofPlanSourceSpanMetadata { start: a.span.start, end: a.span.end, line: a.span.line, column: a.span.column },
    )
    &&& plan.trigger@ == trigger
    &&& plan.scope@ == a.scope@
    &&& texts(plan.reads@) == reads
    &&& texts(plan.coverage@) == dedup_seq(
        seq![aggregate_coverage_label(a)] + evidence_coverage(ev) + coverage_notes(trigger, a.scope@),
    )
    &&& texts(plan.input_output_relation_checks@) == seq![aggregate_relation_check(a, ev)]
    &&& plan.group_cardinality@ == aggregate_cardinality(a.scope@)
    &&& plan.identity_lifecycle_policy@ == aggregate_policy(a.kind)
    &&& plan.preserved_fields@.len() == 0
    &&& texts(plan.witness_fields@) == dedup_seq(with_prefix(reads, "witness"@))
    &&& texts(plan.lock_args_fields@) == dedup_seq(with_prefix(reads, "lock_args"@))
    &&& plan.on_chain_checked == checked
    &&& texts(plan.on_chain_checked_obligations@) == (if checked {
        seq!["aggregate-invariant:"@ + aggregate_feature(a) + "="@ + status]
    } else {
        Seq::empty()
    })
    &&& texts(plan.builder_assumptions@) == aggregate_assumptions(inv.name@, ev, trigger, a.scope@)
    &&& plan.codegen_coverage_status@ == ev.coverage_status()
    &&& plan.status@ == status
    &&& plan.detail@ == "aggregate invariant primitive declared under invariant '"@ + inv.name@ + "'"@
    &&& diagnostics_are(plan.diagnostics@, aggregate_diagnostic(ev), trigger, a.scope@)
}

fn trigger_of(inv: &IrInvariant) -> (s: String)
    ensures
        s@ == invariant_trigger(*inv),
{
    match &inv.trigger {
        Some(t) => t.clone(),
        None => "explicit_entry".to_owned(),
    }
}

fn push_lock_warning(ds: &mut Vec<ProofPlanDiagnosticMetadata>, trigger: &str, scope: &str)
    ensures
        lock_scan(trigger@, scope@) ==> final(ds)@ == old(ds)@.push(
            ProofPlanDiagnosticMetadata { severity: final(ds)@.last().severity, message: final(ds)@.last().message },
        ) && final(ds)@.last().severity@ == "warning"@ && final(ds)@.last().message@ == lock_scan_message(),
        !lock_scan(trigger@, scope@) ==> final(ds)@ == old(ds)@,
{
    if str_eq(trigger, "lock_group") && str_eq(scope, "transaction") {
        ds.push(
            ProofPlanDiagnosticMetadata {
                severity: "warning".to_owned(),
                message: "transaction scans from a lock do not imply type-group conservation; only inputs sharing the lock trigger this verifier".to_owned(),
            },
        );
    }
}

/// The record of aggregate primitive `index` of `invariant`.
fn plan_for_aggregate_invariant(
    decl: &IrInvariant,
    index: usize,
    aggregate: &IrAggregateInvariant,
    runtime_accesses: &[CkbRuntimeAccessMetadata],
) -> (plan: ProofPlanMetadata)
    ensures
        aggregate_record(plan, *decl, index as nat, *aggregate, runtime_accesses@),
{
    let a = aggregate;
    let trigger = trigger_of(decl);
    let reads = reads_of(a);
    let ev = lowering_evidence(decl, a, runtime_accesses);
    let checked = match &ev {
        AggregateLoweringEvidence::RuntimeHelperChecked(_) => true,
        _ => false,
    };
    let relation = relation_check_label(a, &ev);
    let mut coverage: Vec<String> = Vec::new();
    coverage.push(coverage_label(a));
    push_evidence_coverage(&mut coverage, &ev);
    push_coverage_notes(&mut coverage, trigger.as_str(), a.scope.as_str());
    assert(texts(coverage@) =~= seq![aggregate_coverage_label(*a)] + evidence_coverage(ev@) + coverage_notes(
        trigger@,
        a.scope@,
    ));
    let coverage = dedup(coverage);
    let parent = concat3("declared(parent_invariant:", decl.name.as_str(), ")");
    let mut assumptions: Vec<String> = Vec::new();
    let (severity, message): (String, String) = match &ev {
        AggregateLoweringEvidence::RuntimeHelperChecked(h) => {
            let mut x = concat2("declared(runtime-helper-checked:", h.as_str());
            x.append(")");
            assumptions.push(x);
            let mut m = concat2("aggregate invariant is discharged by generated ", h.as_str());
            m.append(" runtime helper coverage");
            ("info".to_owned(), m)
        },
        AggregateLoweringEvidence::RuntimeHelperRequired(h) => {
            let mut x = concat2("declared(runtime-helper-required:", h.as_str());
            x.append(")");
            assumptions.push(x);
            let mut m = concat2("aggregate invariant requires ", h.as_str());
            m.append(" runtime helper coverage");
            ("info".to_owned(), m)
        },
        AggregateLoweringEvidence::MetadataOnly => {
            assumptions.push(
                "declared(metadata-only aggregate invariant not yet lowered to executable verifier code)".to_owned(),
            );
            (
                "warning".to_owned(),
                "aggregate invariant primitive is metadata-only until executable lowering covers it".to_owned(),
            )
        },
    };
    assumptions.push(parent);
    let lock = str_eq(trigger.as_str(), "lock_group") && str_eq(a.scope.as_str(), "transaction");
    if lock {
        assumptions.push(
            "declared(lock transaction scan only protects the lock group unless the builder constrains every relevant cell)".to_owned(),
        );
    }
    proof {
        let ghost base = match ev@ {
            EvidenceView::Checked(h) => seq!["declared(runtime-helper-checked:"@ + h + ")"@, "declared(parent_invariant:"@ + decl.name@ + ")"@],
            EvidenceView::Required(h) => seq!["declared(runtime-helper-required:"@ + h + ")"@, "declared(parent_invariant:"@ + decl.name@ + ")"@],
            EvidenceView::MetadataOnly => seq![
                "declared(metadata-only aggregate invariant not yet lowered to executable verifier code)"@,
                "declared(parent_invariant:"@ + decl.name@ + ")"@,
            ],
        };
        assert(texts(assumptions@) =~= base + if lock_scan(trigger@, a.scope@) {
            seq![lock_scan_assumption()]
        } else {
            Seq::empty()
        });
    }
    let assumptions = dedup(assumptions);
    let mut diagnostics: Vec<ProofPlanDiagnosticMetadata> = Vec::new();
    diagnostics.push(ProofPlanDiagnosticMetadata { severity, message });
    push_lock_warning(&mut diagnostics, trigger.as_str(), a.scope.as_str());
    let feature = feature_label(a);
    let status = if checked { "checked-runtime" } else { "runtime-required" };
    let evidence_tier = match &ev {
        AggregateLoweringEvidence::RuntimeHelperChecked(_) => EvidenceTier::CheckedRuntime,
        AggregateLoweringEvidence::RuntimeHelperRequired(_) => EvidenceTier::RuntimeHelperRequired,
        AggregateLoweringEvidence::MetadataOnly => EvidenceTier::MetadataOnly,
    };
    let codegen = match &ev {
        AggregateLoweringEvidence::RuntimeHelperChecked(_) => "covered",
        AggregateLoweringEvidence::RuntimeHelperRequired(_) => "gap:runtime-helper-required",
        AggregateLoweringEvidence::MetadataOnly => "gap:metadata-only",
    };
    let obligations: Vec<String> = if checked {
        let mut o = concat3("aggregate-invariant:", feature.as_str(), "=");
        o.append(status);
        one(o)
    } else {
        let v: Vec<String> = Vec::new();
        assert(texts(v@) =~= Seq::<Seq<char>>::empty());
        v
    };
    let witness_fields = dedup(filter_prefix(&reads, "witness"));
    let lock_args_fields = dedup(filter_prefix(&reads, "lock_args"));
    let idx = decimal_string(index as u128);
    let name = concat3(decl.name.as_str(), "#aggregate", idx.as_str());
    let mut origin = concat3("invariant:", decl.name.as_str(), "#aggregate:");
    origin.append(idx.as_str());
    let group_cardinality = if str_eq(a.scope.as_str(), "group") {
        "ckb ScriptGroup cardinality".to_owned()
    } else if str_eq(a.scope.as_str(), "transaction") {
        "transaction input/output cardinality".to_owned()
    } else if str_eq(a.scope.as_str(), "selected_cells") {
        "selected cell-set cardinality".to_owned()
    } else {
        "not a script-group cardinality obligation".to_owned()
    };
    let policy = match a.kind {
        AggregateInvariantKind::Conserved => "aggregate conservation policy".to_owned(),
        AggregateInvariantKind::Delta => "aggregate delta policy".to_owned(),
        AggregateInvariantKind::Distinct => "aggregate uniqueness policy".to_owned(),
        AggregateInvariantKind::Singleton => "aggregate singleton policy".to_owned(),
        AggregateInvariantKind::Sum => "aggregate sum relation policy".to_owned(),
    };
    let detail = concat3("aggregate invariant primitive declared under invariant '", decl.name.as_str(), "'");
    ProofPlanMetadata {
        name,
        origin,
        category: "aggregate-invariant".to_owned(),
        feature,
        evidence_tier,
        source_span: Some(
            ProofPlanSourceSpanMetadata { start: a.span.start, end: a.span.end, line: a.span.line, column: a.span.column },
        ),
        trigger,
        scope: a.scope.clone(),
        reads,
        coverage,
        input_output_relation_checks: one(relation),
        group_cardinality,
        identity_lifecycle_policy: policy,
        preserved_fields: Vec::new(),
        witness_fields,
        lock_args_fields,
        on_chain_checked: checked,
        on_chain_checked_obligations: obligations,
        builder_assumptions: assumptions,
        codegen_coverage_status: codegen.to_owned(),
        status: status.to_owned(),
        detail,
        diagnostics,
    }
}

/// An optional text, by its view.
pub open spec fn opt_view(o: Option<String>) -> Option<Seq<char>> {
    match o {
        Some(s) => Some(s@),
        None => None,
    }
}

fn opt_eq(a: &Option<String>, b: &Option<String>) -> (r: bool)
    ensures
        r == (opt_view(*a) == opt_view(*b)),
{
    match (a, b) {
        (Some(x), Some(y)) => str_eq(x.as_str(), y.as_str()),
        (None, None) => true,
        _ => false,
    }
}

/// The declared field reads of an invariant that fall on a quantifier's range: same view, same
/// cell type.
pub open spec fn field_reads(reads: Seq<IrInvariantRead>, range: IrAggregateTarget) -> Seq<Seq<char>>
    decreases reads.len(),
{
    if reads.len() == 0 {
        Seq::empty()
    } else {
        let r = reads.last();
        field_reads(reads.drop_last(), range) + if r.source == range.source && opt_view(r.cell_type) == opt_view(
            range.cell_type,
        ) {
            seq![r.rendered@]
        } else {
            Seq::empty()
        }
    }
}

fn field_reads_of(reads: &Vec<IrInvariantRead>, range: &IrAggregateTarget) -> (r: Vec<String>)
    ensures
        texts(r@) == field_reads(reads@, *range),
{
    let mut out: Vec<String> = Vec::new();
    let mut i: usize = 0;
    while i < reads.len()
        invariant
            i <= reads@.len(),
            texts(out@) == field_reads(reads@.take(i as int), *range),
        decreases reads@.len() - i,
    {
        assert(reads@.take(i + 1).drop_last() =~= reads@.take(i as int));
        assert(reads@.take(i + 1).last() == reads@[i as int]);
        let r = &reads[i];
        let ghost before = texts(out@);
        if r.source == range.source && opt_eq(&r.cell_type, &range.cell_type) {
            out.push(r.rendered.clone());
        }
        assert(texts(out@) =~= field_reads(reads@.take(i + 1), *range));
        i += 1;
    }
    assert(reads@.take(reads@.len() as int) =~= reads@);
    out
}

/// The word for a quantifier kind.
pub open spec fn quantifier_word(k: BoundedQuantifierKind) -> Seq<char> {
    match k {
        BoundedQuantifierKind::ForAll => "forall"@,
        BoundedQuantifierKind::Count => "count"@,
    }
}

/// The runtime helper of a quantifier kind.
pub open spec fn quantifier_helper(k: BoundedQuantifierKind) -> Seq<char> {
    match k {
        BoundedQuantifierKind::ForAll => "__cellscript_bounded_forall"@,
        BoundedQuantifierKind::Count => "__cellscript_bounded_count"@,
    }
}

fn quantifier_helper_str(k: BoundedQuantifierKind) -> (s: &'static str)
    ensures
        s@ == quantifier_helper(k),
{
    match k {
        BoundedQuantifierKind::ForAll => "__cellscript_bounded_forall",
        BoundedQuantifierKind::Count => "__cellscript_bounded_count",
    }
}

/// The scope a quantifier's range view gives its record.
pub open spec fn quantifier_scope(v: SourceView) -> Seq<char> {
    match v {
        SourceView::GroupInput | SourceView::GroupOutput => "group"@,
        SourceView::Input | SourceView::Output | SourceView::CellDep => "transaction"@,
        SourceView::SelectedCells => "selected_cells"@,
        _ => "unsupported"@,
    }
}

/// The group cardinality a quantifier's range view gives its record.
pub open spec fn quantifier_cardinality(v: SourceView) -> Seq<char> {
    match v {
        SourceView::GroupInput | SourceView::GroupOutput => "ckb ScriptGroup cardinality; actual scanned cardinality recorded at runtime"@,
        SourceView::Input | SourceView::Output | SourceView::CellDep => "transaction source cardinality; actual scanned cardinality recorded at runtime"@,
        SourceView::SelectedCells => "selected cell-set cardinality; actual scanned cardinality recorded at runtime"@,
        _ => "unsupported quantifier cardinality"@,
    }
}

/// The feature a quantifier's record names.
pub open spec fn quantifier_feature(q: IrBoundedQuantifier) -> Seq<char> {
    match q.kind {
        BoundedQuantifierKind::ForAll => "forall:"@ + q.range.rendered@,
        BoundedQuantifierKind::Count => "count:"@ + q.range.rendered@ + relation_text(q.relation) + or_unknown(q.expected),
    }
}

fn quantifier_feature_string(q: &IrBoundedQuantifier) -> (s: String)
    ensures
        s@ == quantifier_feature(*q),
{
    match q.kind {
        BoundedQuantifierKind::ForAll => concat2("forall:", q.range.rendered.as_str()),
        BoundedQuantifierKind::Count => {
            let mut s = concat3("count:", q.range.rendered.as_str(), relation_symbol(q.relation));
            s.append(or_unknown_str(&q.expected));
            s
        },
    }
}

/// The coverage lines of some declared field reads.
pub open spec fn field_read_lines(fields: Seq<Seq<char>>) -> Seq<Seq<char>> {
    fields.map_values(|r: Seq<char>| "field_read:"@ + r)
}

/// The coverage lines of a quantifier's record, before repeats are left out.
pub open spec fn quantifier_coverage(q: IrBoundedQuantifier, fields: Seq<Seq<char>>) -> Seq<Seq<char>> {
    let src = q.range.source_label@;
    seq![
        "bounded_quantifier:"@ + quantifier_word(q.kind),
        "range:"@ + q.range.rendered@,
        "source:"@ + src,
        "complexity:O("@ + src + ")"@,
        "scan:one Source::"@ + src + " scan"@,
        "source_view_cap:ckb-consensus-bounded"@,
        "actual_scanned_cardinality:runtime-recorded"@,
        "cycle_estimate:base-plus-per-cell-predicate"@,
        "runtime_helper:"@ + quantifier_helper(q.kind),
    ] + prefixed("predicate:"@, q.predicates@) + field_read_lines(fields) + match q.kind {
        BoundedQuantifierKind::ForAll => seq!["vacuous:true-when-cardinality-zero"@, "cardinality_zero_audit:required"@],
        BoundedQuantifierKind::Count => seq!["accumulator_width:u64"@, "overflow_policy:fail-closed"@],
    }
}

/// The relation check of a quantifier's record.
pub open spec fn quantifier_relation(q: IrBoundedQuantifier) -> Seq<char> {
    let tail = "=runtime-helper-required:"@ + quantifier_helper(q.kind);
    match q.kind {
        BoundedQuantifierKind::ForAll => "forall("@ + q.range.rendered@ + ")"@ + tail,
        BoundedQuantifierKind::Count => "count("@ + q.range.rendered@ + ")"@ + relation_text(q.relation) + or_unknown(
            q.expected,
        ) + tail,
    }
}

/// `plan` is the record of bounded quantifier `i` of `inv`.
pub open spec fn quantifier_record(plan: ProofPlanMetadata, inv: IrInvariant, i: nat, q: IrBoundedQuantifier) -> bool {
    let fields = field_reads(inv.reads@, q.range);
    let reads = dedup_seq(target_read(q.range) + fields);
    let word = quantifier_word(q.kind);
    let helper = quantifier_helper(q.kind);
    &&& plan.name@ == inv.name@ + "#quantifier"@ + decimal(i)
    &&& plan.origin@ == "invariant:"@ + inv.name@ + "#quantifier:"@ + decimal(i)
    &&& plan.category@ == "bounded-source-quantifier"@
    &&& plan.feature@ == quantifier_feature(q)
    &&& plan.evidence_tier == EvidenceTier::RuntimeHelperRequired
    &&& plan.source_span == Some(
        ProofPlanSourceSpanMetadata { start: q.span.start, end: q.span.end, line: q.span.line, column: q.span.column },
    )
    &&& plan.trigger@ == invariant_trigger(inv)
    &&& plan.scope@ == quantifier_scope(q.range.source)
    &&& texts(plan.reads@) == reads
    &&& texts(plan.coverage@) == dedup_seq(quantifier_coverage(q, fields))
    &&& texts(plan.input_output_relation_checks@) == seq![quantifier_relation(q)]
    &&& plan.group_cardinality@ == quantifier_cardinality(q.range.source)
    &&& plan.identity_lifecycle_policy@ == "read-only bounded transaction-view scan; no lifecycle authority"@
    &&& plan.preserved_fields@.len() == 0
    &&& texts(plan.witness_fields@) == dedup_seq(with_prefix(reads, "witness"@))
    &&& texts(plan.lock_args_fields@) == dedup_seq(with_prefix(reads, "lock_args"@))
    &&& !plan.on_chain_checked
    &&& plan.on_chain_checked_obligations@.len() == 0
    &&& texts(plan.builder_assumptions@) == seq![
        "declared(runtime-helper-required:"@ + helper + ")"@,
        "declared(actual cardinality and vacuous status are runtime evidence)"@,
    ]
    &&& plan.codegen_coverage_status@ == "gap:runtime-helper-required"@
    &&& plan.status@ == "runtime-required"@
    &&& plan.detail@ == "bounded "@ + word + " over "@ + q.range.rendered@ + "; predicates="@ + decimal(
        q.predicates@.len(),
    ) + "; accumulator="@ + (if q.kind == BoundedQuantifierKind::Count {
        "u64/fail-closed-overflow"@
    } else {
        "not-applicable"@
    })
    &&& plan.diagnostics@.len() == 1
    &&& plan.diagnostics@[0].severity@ == "info"@
    &&& plan.diagnostics@[0].message@ == "bounded "@ + word + " has a known "@ + helper
        + " contract but no emitted helper for this selected entry"@
}

fn push_field_read_lines(out: &mut Vec<String>, fields: &Vec<String>)
    ensures
        texts(final(out)@) == texts(old(out)@) + field_read_lines(texts(fields@)),
{
    push_prefixed(out, "field_read:", fields);
    assert(prefixed("field_read:"@, fields@) =~= field_read_lines(texts(fields@)));
}

/// The record of bounded quantifier `index` of `decl`.
fn plan_for_bounded_quantifier(decl: &IrInvariant, index: usize, q: &IrBoundedQuantifier) -> (plan: ProofPlanMetadata)
    ensures
        quantifier_record(plan, *decl, index as nat, *q),
{
    let trigger = trigger_of(decl);
    let scope = match q.range.source {
        SourceView::GroupInput | SourceView::GroupOutput => "group",
        SourceView::Input | SourceView::Output | SourceView::CellDep => "transaction",
        SourceView::SelectedCells => "selected_cells",
        _ => "unsupported",
    };
    let word = match q.kind {
        BoundedQuantifierKind::ForAll => "forall",
        BoundedQuantifierKind::Count => "count",
    };
    let helper = quantifier_helper_str(q.kind);
    let fields = field_reads_of(&decl.reads, &q.range);
    let mut raw_reads: Vec<String> = Vec::new();
    push_target_read(&mut raw_reads, &q.range);
    let ghost rh = texts(raw_reads@);
    let mut k: usize = 0;
    while k < fields.len()
        invariant
            k <= fields@.len(),
            texts(raw_reads@) == rh + texts(fields@).take(k as int),
        decreases fields@.len() - k,
    {
        let ghost before = texts(raw_reads@);
        raw_reads.push(fields[k].clone());
        assert(texts(raw_reads@) =~= before.push(fields@[k as int]@));
        assert(texts(fields@).take(k + 1) =~= texts(fields@).take(k as int).push(fields@[k as int]@));
        k += 1;
    }
    assert(texts(fields@).take(fields@.len() as int) =~= texts(fields@));
    let reads = dedup(raw_reads);
    let src = q.range.source_label.as_str();
    let range = q.range.rendered.as_str();
    let mut coverage: Vec<String> = Vec::new();
    coverage.push(concat2("bounded_quantifier:", word));
    coverage.push(concat2("range:", range));
    coverage.push(concat2("source:", src));
    coverage.push(concat3("complexity:O(", src, ")"));
    coverage.push(concat3("scan:one Source::", src, " scan"));
    coverage.push("source_view_cap:ckb-consensus-bounded".to_owned());
    coverage.push("actual_scanned_cardinality:runtime-recorded".to_owned());
    coverage.push("cycle_estimate:base-plus-per-cell-predicate".to_owned());
    coverage.push(concat2("runtime_helper:", helper));
    let ghost c9 = texts(coverage@);
    assert(c9 =~= seq![
        "bounded_quantifier:"@ + quantifier_word(q.kind),
        "range:"@ + q.range.rendered@,
        "source:"@ + q.range.source_label@,
        "complexity:O("@ + q.range.source_label@ + ")"@,
        "scan:one Source::"@ + q.range.source_label@ + " scan"@,
        "source_view_cap:ckb-consensus-bounded"@,
        "actual_scanned_cardinality:runtime-recorded"@,
        "cycle_estimate:base-plus-per-cell-predicate"@,
        "runtime_helper:"@ + quantifier_helper(q.kind),
    ]);
    push_prefixed(&mut coverage, "predicate:", &q.predicates);
    push_field_read_lines(&mut coverage, &fields);
    let ghost c11 = texts(coverage@);
    assert(c11 == c9 + prefixed("predicate:"@, q.predicates@) + field_read_lines(field_reads(decl.reads@, q.range)));
    match q.kind {
        BoundedQuantifierKind::ForAll => {
            coverage.push("vacuous:true-when-cardinality-zero".to_owned());
            coverage.push("cardinality_zero_audit:required".to_owned());
        },
        BoundedQuantifierKind::Count => {
            coverage.push("accumulator_width:u64".to_owned());
            coverage.push("overflow_policy:fail-closed".to_owned());
        },
    }
    assert(texts(coverage@) =~= quantifier_coverage(*q, field_reads(decl.reads@, q.range)));
    let coverage = dedup(coverage);
    let mut relation = match q.kind {
        BoundedQuantifierKind::ForAll => concat3("forall(", range, ")"),
        BoundedQuantifierKind::Count => {
            let mut r = concat3("count(", range, ")");
            r.append(relation_symbol(q.relation));
            r.append(or_unknown_str(&q.expected));
            r
        },
    };
    relation.append("=runtime-helper-required:");
    relation.append(helper);
    assert(relation@ =~= quantifier_relation(*q));
    let feature = quantifier_feature_string(q);
    let witness_fields = dedup(filter_prefix(&reads, "witness"));
    let lock_args_fields = dedup(filter_prefix(&reads, "lock_args"));
    let mut first = concat2("declared(runtime-helper-required:", helper);
    first.append(")");
    let mut assumptions: Vec<String> = Vec::new();
    assumptions.push(first);
    assumptions.push("declared(actual cardinality and vacuous status are runtime evidence)".to_owned());
    let count = decimal_string(q.predicates.len() as u128);
    let mut detail = concat3("bounded ", word, " over ");
    detail.append(range);
    detail.append("; predicates=");
    detail.append(count.as_str());
    detail.append("; accumulator=");
    detail.append(if q.kind == BoundedQuantifierKind::Count { "u64/fail-closed-overflow" } else { "not-applicable" });
    let mut message = concat3("bounded ", word, " has a known ");
    message.append(helper);
    message.append(" contract but no emitted helper for this selected entry");
    let mut diagnostics: Vec<ProofPlanDiagnosticMetadata> = Vec::new();
    diagnostics.push(ProofPlanDiagnosticMetadata { severity: "info".to_owned(), message });
    let group_cardinality = match q.range.source {
        SourceView::GroupInput | SourceView::GroupOutput => "ckb ScriptGroup cardinality; actual scanned cardinality recorded at runtime".to_owned(),
        SourceView::Input | SourceView::Output | SourceView::CellDep => "transaction source cardinality; actual scanned cardinality recorded at runtime".to_owned(),
        SourceView::SelectedCells => "selected cell-set cardinality; actual scanned cardinality recorded at runtime".to_owned(),
        _ => "unsupported quantifier cardinality".to_owned(),
    };
    let idx = decimal_string(index as u128);
    let name = concat3(decl.name.as_str(), "#quantifier", idx.as_str());
    let mut origin = concat3("invariant:", decl.name.as_str(), "#quantifier:");
    origin.append(idx.as_str());
    let plan = ProofPlanMetadata {
        name,
        origin,
        category: "bounded-source-quantifier".to_owned(),
        feature,
        evidence_tier: EvidenceTier::RuntimeHelperRequired,
        source_span: Some(
            ProofPlanSourceSpanMetadata { start: q.span.start, end: q.span.end, line: q.span.line, column: q.span.column },
        ),
        trigger,
        scope: scope.to_owned(),
        reads,
        coverage,
        input_output_relation_checks: one(relation),
        group_cardinality,
        identity_lifecycle_policy: "read-only bounded transaction-view scan; no lifecycle authority".to_owned(),
        preserved_fields: Vec::new(),
        witness_fields,
        lock_args_fields,
        on_chain_checked: false,
        on_chain_checked_obligations: Vec::new(),
        builder_assumptions: assumptions,
        codegen_coverage_status: "gap:runtime-helper-required".to_owned(),
        status: "runtime-required".to_owned(),
        detail,
        diagnostics,
    };
    assert(texts(plan.builder_assumptions@) =~= seq![
        "declared(runtime-helper-required:"@ + quantifier_helper(q.kind) + ")"@,
        "declared(actual cardinality and vacuous status are runtime evidence)"@,
    ]);
    plan
}

fn extend_texts(out: &mut Vec<String>, v: Vec<String>)
    ensures
        texts(final(out)@) == texts(old(out)@) + texts(v@),
{
    let ghost head = texts(out@);
    let mut k: usize = 0;
    while k < v.len()
        invariant
            k <= v@.len(),
            texts(out@) == head + texts(v@).take(k as int),
        decreases v@.len() - k,
    {
        let ghost before = texts(out@);
        out.push(v[k].clone());
        assert(texts(out@) =~= before.push(v@[k as int]@));
        assert(texts(v@).take(k + 1) =~= texts(v@).take(k as int).push(v@[k as int]@));
        k += 1;
    }
    assert(texts(v@).take(v@.len() as int) =~= texts(v@));
}

/// Coverage labels of some aggregate primitives, in order.
pub open spec fn agg_labels(aggs: Seq<IrAggregateInvariant>) -> Seq<Seq<char>>
    decreases aggs.len(),
{
    if aggs.len() == 0 {
        Seq::empty()
    } else {
        agg_labels(aggs.drop_last()).push(aggregate_coverage_label(aggs.last()))
    }
}

/// The coverage lines the evidence of some aggregate primitives adds, in order.
pub open spec fn evidence_lines(inv: IrInvariant, aggs: Seq<IrAggregateInvariant>, acc: Seq<CkbRuntimeAccessMetadata>) -> Seq<Seq<char>>
    decreases aggs.len(),
{
    if aggs.len() == 0 {
        Seq::empty()
    } else {
        evidence_lines(inv, aggs.drop_last(), acc) + evidence_coverage(aggregate_evidence(inv, aggs.last(), acc))
    }
}

/// The relation checks of some aggregate primitives, in order.
pub open spec fn agg_relations(inv: IrInvariant, aggs: Seq<IrAggregateInvariant>, acc: Seq<CkbRuntimeAccessMetadata>) -> Seq<Seq<char>>
    decreases aggs.len(),
{
    if aggs.len() == 0 {
        Seq::empty()
    } else {
        agg_relations(inv, aggs.drop_last(), acc).push(
            aggregate_relation_check(aggs.last(), aggregate_evidence(inv, aggs.last(), acc)),
        )
    }
}

/// What some aggregate primitives read, record after record.
pub open spec fn agg_reads(aggs: Seq<IrAggregateInvariant>) -> Seq<Seq<char>>
    decreases aggs.len(),
{
    if aggs.len() == 0 {
        Seq::empty()
    } else {
        agg_reads(aggs.drop_last()) + aggregate_reads(aggs.last())
    }
}

/// Whether every aggregate primitive has a runtime helper (`checked`: a checked one).
pub open spec fn all_evidence(inv: IrInvariant, aggs: Seq<IrAggregateInvariant>, acc: Seq<CkbRuntimeAccessMetadata>, checked: bool) -> bool
    decreases aggs.len(),
{
    if aggs.len() == 0 {
        true
    } else {
        let ev = aggregate_evidence(inv, aggs.last(), acc);
        all_evidence(inv, aggs.drop_last(), acc, checked) && (if checked {
            ev is Checked
        } else {
            !(ev is MetadataOnly)
        })
    }
}

/// The checked-helper assumptions of some aggregate primitives, in order.
pub open spec fn checked_helper_lines(inv: IrInvariant, aggs: Seq<IrAggregateInvariant>, acc: Seq<CkbRuntimeAccessMetadata>) -> Seq<Seq<char>>
    decreases aggs.len(),
{
    if aggs.len() == 0 {
        Seq::empty()
    } else {
        checked_helper_lines(inv, aggs.drop_last(), acc) + match aggregate_evidence(inv, aggs.last(), acc).helper() {
            Some(h) => seq!["declared(runtime-helper-checked:"@ + h + ")"@],
            None => Seq::empty(),
        }
    }
}

/// Required-helper assumptions for some helpers.
pub open spec fn required_lines(hs: Seq<(Seq<char>, bool)>) -> Seq<Seq<char>>
    decreases hs.len(),
{
    if hs.len() == 0 {
        Seq::empty()
    } else {
        required_lines(hs.drop_last()).push("declared(runtime-helper-required:"@ + hs.last().0 + ")"@)
    }
}

/// The required-helper assumptions of some aggregate primitives, in order.
pub open spec fn agg_required_lines(inv: IrInvariant, aggs: Seq<IrAggregateInvariant>) -> Seq<Seq<char>>
    decreases aggs.len(),
{
    if aggs.len() == 0 {
        Seq::empty()
    } else {
        agg_required_lines(inv, aggs.drop_last()) + required_lines(group_amount_helpers(inv, aggs.last()))
    }
}

/// Whether one of the aggregate primitives carries a conservation, delta or singleton policy.
pub open spec fn any_lifecycle_aggregate(aggs: Seq<IrAggregateInvariant>) -> bool
    decreases aggs.len(),
{
    if aggs.len() == 0 {
        false
    } else {
        any_lifecycle_aggregate(aggs.drop_last()) || aggs.last().kind == AggregateInvariantKind::Conserved
            || aggs.last().kind == AggregateInvariantKind::Delta || aggs.last().kind == AggregateInvariantKind::Singleton
    }
}

/// Coverage labels of some quantifiers, in order.
pub open spec fn quant_labels(qs: Seq<IrBoundedQuantifier>) -> Seq<Seq<char>>
    decreases qs.len(),
{
    if qs.len() == 0 {
        Seq::empty()
    } else {
        quant_labels(qs.drop_last()).push("bounded_quantifier:"@ + quantifier_feature(qs.last()))
    }
}

/// What the ranges of some quantifiers read, in order.
pub open spec fn quant_reads(qs: Seq<IrBoundedQuantifier>) -> Seq<Seq<char>>
    decreases qs.len(),
{
    if qs.len() == 0 {
        Seq::empty()
    } else {
        quant_reads(qs.drop_last()) + target_read(qs.last().range)
    }
}

/// The required-helper assumptions of some quantifiers, in order.
pub open spec fn quant_required_lines(qs: Seq<IrBoundedQuantifier>) -> Seq<Seq<char>>
    decreases qs.len(),
{
    if qs.len() == 0 {
        Seq::empty()
    } else {
        quant_required_lines(qs.drop_last()).push(
            "declared(runtime-helper-required:"@ + quantifier_helper(qs.last().kind) + ")"@,
        )
    }
}

/// The renderings of some declared reads, in order.
pub open spec fn read_texts(rs: Seq<IrInvariantRead>) -> Seq<Seq<char>>
    decreases rs.len(),
{
    if rs.len() == 0 {
        Seq::empty()
    } else {
        read_texts(rs.drop_last()).push(rs.last().rendered@)
    }
}

/// The facts the summary record of `inv` turns on: whether a runtime helper executes the whole
/// invariant, and whether one is required for it.
pub open spec fn summary_flags(inv: IrInvariant, acc: Seq<CkbRuntimeAccessMetadata>) -> (bool, bool) {
    let aggs = inv.aggregates@;
    let has_feature = aggs.len() > 0 || inv.quantifiers@.len() > 0;
    let backed = aggs.len() > 0 && all_evidence(inv, aggs, acc, false);
    let checked = aggs.len() > 0 && all_evidence(inv, aggs, acc, true);
    let all_non_assert = inv.assert_count == 0 && has_feature && (aggs.len() == 0 || backed);
    let exec = checked && inv.quantifiers@.len() == 0 && inv.assert_count == 0;
    (exec, all_non_assert && !exec)
}

/// The scope an invariant declares, `selected_cells` where it declares none.
pub open spec fn invariant_scope(inv: IrInvariant) -> Seq<char> {
    match inv.scope {
        Some(s) => s@,
        None => "selected_cells"@,
    }
}

/// The builder assumptions of the summary record, before repeats are left out.
pub open spec fn summary_assumptions(inv: IrInvariant, acc: Seq<CkbRuntimeAccessMetadata>) -> Seq<Seq<char>> {
    let (exec, required) = summary_flags(inv, acc);
    let asserts = "declared(assert_invariant_count:"@ + decimal(inv.assert_count as nat) + ")"@;
    let quants = "declared(bounded_quantifier_count:"@ + decimal(inv.quantifiers@.len()) + ")"@;
    (if exec {
        checked_helper_lines(inv, inv.aggregates@, acc).push(asserts)
    } else if required {
        agg_required_lines(inv, inv.aggregates@) + quant_required_lines(inv.quantifiers@) + seq![asserts, quants]
    } else {
        seq!["declared(metadata-only invariant not yet lowered to executable verifier code)"@, asserts]
    }) + (if inv.aggregates@.len() > 0 {
        seq!["declared(aggregate_invariant_count:"@ + decimal(inv.aggregates@.len()) + ")"@]
    } else {
        Seq::empty()
    }) + (if inv.quantifiers@.len() > 0 {
        seq![quants]
    } else {
        Seq::empty()
    }) + (if lock_scan(invariant_trigger(inv), invariant_scope(inv)) {
        seq![lock_scan_assumption()]
    } else {
        Seq::empty()
    })
}

/// The group cardinality the summary record names.
pub open spec fn declared_cardinality(inv: IrInvariant) -> Seq<char> {
    if inv.trigger matches Some(t) && t@ == "type_group"@ {
        "ckb type ScriptGroup cardinality"@
    } else if inv.trigger matches Some(t) && t@ == "lock_group"@ {
        "ckb lock ScriptGroup cardinality"@
    } else if inv.scope matches Some(s) && s@ == "group"@ {
        "ckb ScriptGroup cardinality"@
    } else {
        "not a script-group cardinality obligation"@
    }
}

/// `plan` is the summary record of `inv`, given the entry's runtime accesses.
pub open spec fn summary_record(plan: ProofPlanMetadata, inv: IrInvariant, acc: Seq<CkbRuntimeAccessMetadata>) -> bool {
    let (exec, required) = summary_flags(inv, acc);
    let trigger = invariant_trigger(inv);
    let scope = invariant_scope(inv);
    let status = if exec { "checked-runtime"@ } else { "runtime-required"@ };
    let reads = dedup_seq(read_texts(inv.reads@) + agg_reads(inv.aggregates@) + quant_reads(inv.quantifiers@));
    &&& plan.name@ == inv.name@
    &&& plan.origin@ == "invariant:"@ + inv.name@
    &&& plan.category@ == "declared-invariant"@
    &&& plan.feature@ == inv.name@
    &&& plan.evidence_tier == (if exec {
        EvidenceTier::CheckedRuntime
    } else if required {
        EvidenceTier::RuntimeHelperRequired
    } else {
        EvidenceTier::MetadataOnly
    })
    &&& plan.source_span == Some(
        ProofPlanSourceSpanMetadata { start: inv.span.start, end: inv.span.end, line: inv.span.line, column: inv.span.column },
    )
    &&& plan.trigger@ == trigger
    &&& plan.scope@ == scope
    &&& texts(plan.reads@) == reads
    &&& texts(plan.coverage@) == dedup_seq(
        seq!["declared_invariant_assertions:"@ + decimal(inv.assert_count as nat)] + agg_labels(inv.aggregates@)
            + quant_labels(inv.quantifiers@) + evidence_lines(inv, inv.aggregates@, acc) + coverage_notes(trigger, scope),
    )
    &&& texts(plan.input_output_relation_checks@) == dedup_seq(agg_relations(inv, inv.aggregates@, acc))
    &&& plan.group_cardinality@ == declared_cardinality(inv)
    &&& plan.identity_lifecycle_policy@ == (if any_lifecycle_aggregate(inv.aggregates@) {
        "aggregate invariant policy"@
    } else {
        "declared invariant policy"@
    })
    &&& plan.preserved_fields@.len() == 0
    &&& texts(plan.witness_fields@) == dedup_seq(with_prefix(reads, "witness"@))
    &&& texts(plan.lock_args_fields@) == dedup_seq(with_prefix(reads, "lock_args"@))
    &&& plan.on_chain_checked == exec
    &&& texts(plan.on_chain_checked_obligations@) == (if exec {
        seq!["declared-invariant:"@ + inv.name@ + "="@ + status]
    } else {
        Seq::empty()
    })
    &&& texts(plan.builder_assumptions@) == dedup_seq(summary_assumptions(inv, acc))
    &&& plan.codegen_coverage_status@ == (if exec {
        "covered"@
    } else if required {
        "gap:runtime-helper-required"@
    } else {
        "gap:metadata-only"@
    })
    &&& plan.status@ == status
    &&& plan.detail@ == "explicit source invariant declaration captured for ProofPlan auditing; aggregate_primitives="@
        + decimal(inv.aggregates@.len()) + "; bounded_quantifiers="@ + decimal(inv.quantifiers@.len())
    &&& diagnostics_are(
        plan.diagnostics@,
        if exec {
            ("info"@, "declared xUDT group amount invariant is discharged by matching generated runtime helper coverage"@)
        } else if required {
            (
                "info"@,
                "declared invariant has a known runtime-helper contract; selected entries must emit matching coverage before claiming checked-runtime evidence"@,
            )
        } else {
            ("warning"@, "declared invariant is metadata-only until executable lowering covers it"@)
        },
        trigger,
        scope,
    )
}

fn push_required_lines(out: &mut Vec<String>, hs: &Vec<(String, bool)>)
    ensures
        texts(final(out)@) == texts(old(out)@) + required_lines(helpers_view(hs@)),
{
    let ghost head = texts(out@);
    let mut k: usize = 0;
    while k < hs.len()
        invariant
            k <= hs@.len(),
            texts(out@) == head + required_lines(helpers_view(hs@).take(k as int)),
        decreases hs@.len() - k,
    {
        assert(helpers_view(hs@).take(k + 1).drop_last() =~= helpers_view(hs@).take(k as int));
        assert(helpers_view(hs@).take(k + 1).last() == (hs@[k as int].0@, hs@[k as int].1));
        let ghost before = texts(out@);
        let mut line = concat2("declared(runtime-helper-required:", hs[k].0.as_str());
        line.append(")");
        out.push(line);
        assert(texts(out@) =~= before.push(line@));
        k += 1;
    }
    assert(helpers_view(hs@).take(hs@.len() as int) =~= helpers_view(hs@));
}

/// The summary record of `decl`.
#[verifier::rlimit(60)]
#[verifier::spinoff_prover]
fn summary_plan_for_invariant(decl: &IrInvariant, runtime_accesses: &[CkbRuntimeAccessMetadata]) -> (plan: ProofPlanMetadata)
    ensures
        summary_record(plan, *decl, runtime_accesses@),
{
    let aggs = &decl.aggregates;
    let ghost av = aggs@;
    let ghost acc = runtime_accesses@;
    let mut labels: Vec<String> = Vec::new();
    let mut ev_lines: Vec<String> = Vec::new();
    let mut relations: Vec<String> = Vec::new();
    let mut a_reads: Vec<String> = Vec::new();
    let mut checked_lines: Vec<String> = Vec::new();
    let mut req_lines: Vec<String> = Vec::new();
    let mut backed = true;
    let mut checked = true;
    let mut lifecycle = false;
    let mut i: usize = 0;
    while i < aggs.len()
        invariant
            i <= av.len(),
            av == decl.aggregates@,
            aggs@ == av,
            acc == runtime_accesses@,
            texts(labels@) == agg_labels(av.take(i as int)),
            texts(ev_lines@) == evidence_lines(*decl, av.take(i as int), acc),
            texts(relations@) == agg_relations(*decl, av.take(i as int), acc),
            texts(a_reads@) == agg_reads(av.take(i as int)),
            texts(checked_lines@) == checked_helper_lines(*decl, av.take(i as int), acc),
            texts(req_lines@) == agg_required_lines(*decl, av.take(i as int)),
            backed == all_evidence(*decl, av.take(i as int), acc, false),
            checked == all_evidence(*decl, av.take(i as int), acc, true),
            lifecycle == any_lifecycle_aggregate(av.take(i as int)),
        decreases av.len() - i,
    {
        let a = &aggs[i];
        let ghost t1 = av.take(i + 1);
        assert(t1.drop_last() =~= av.take(i as int));
        assert(t1.last() == *a);
        let ev = lowering_evidence(decl, a, runtime_accesses);
        let ghost l0 = texts(labels@);
        let label = coverage_label(a);
        labels.push(label);
        assert(texts(labels@) =~= l0.push(label@));
        push_evidence_coverage(&mut ev_lines, &ev);
        let ghost r0 = texts(relations@);
        let rel = relation_check_label(a, &ev);
        relations.push(rel);
        assert(texts(relations@) =~= r0.push(rel@));
        let ar = reads_of(a);
        extend_texts(&mut a_reads, ar);
        let ghost c0 = texts(checked_lines@);
        match &ev {
            AggregateLoweringEvidence::MetadataOnly => {
                backed = false;
                checked = false;
            },
            AggregateLoweringEvidence::RuntimeHelperRequired(h) => {
                let mut x = concat2("declared(runtime-helper-checked:", h.as_str());
                x.append(")");
                checked_lines.push(x);
                checked = false;
            },
            AggregateLoweringEvidence::RuntimeHelperChecked(h) => {
                let mut x = concat2("declared(runtime-helper-checked:", h.as_str());
                x.append(")");
                checked_lines.push(x);
            },
        }
        assert(texts(checked_lines@) =~= c0 + match ev@.helper() {
            Some(h) => seq!["declared(runtime-helper-checked:"@ + h + ")"@],
            None => Seq::empty(),
        });
        let hs = group_amount_helpers_exec(decl, a);
        push_required_lines(&mut req_lines, &hs);
        lifecycle = lifecycle || a.kind == AggregateInvariantKind::Conserved || a.kind == AggregateInvariantKind::Delta
            || a.kind == AggregateInvariantKind::Singleton;
        i += 1;
    }
    assert(av.take(av.len() as int) =~= av);
    let qs = &decl.quantifiers;
    let ghost qv = qs@;
    let mut q_labels: Vec<String> = Vec::new();
    let mut q_reads: Vec<String> = Vec::new();
    let mut q_req: Vec<String> = Vec::new();
    let mut j: usize = 0;
    while j < qs.len()
        invariant
            j <= qv.len(),
            qv == decl.quantifiers@,
            qs@ == qv,
            texts(q_labels@) == quant_labels(qv.take(j as int)),
            texts(q_reads@) == quant_reads(qv.take(j as int)),
            texts(q_req@) == quant_required_lines(qv.take(j as int)),
        decreases qv.len() - j,
    {
        let q = &qs[j];
        let ghost t1 = qv.take(j + 1);
        assert(t1.drop_last() =~= qv.take(j as int));
        assert(t1.last() == *q);
        let ghost l0 = texts(q_labels@);
        let f = quantifier_feature_string(q);
        let label = concat2("bounded_quantifier:", f.as_str());
        q_labels.push(label);
        assert(texts(q_labels@) =~= l0.push(label@));
        push_target_read(&mut q_reads, &q.range);
        let ghost r0 = texts(q_req@);
        let mut line = concat2("declared(runtime-helper-required:", quantifier_helper_str(q.kind));
        line.append(")");
        q_req.push(line);
        assert(texts(q_req@) =~= r0.push(line@));
        j += 1;
    }
    assert(qv.take(qv.len() as int) =~= qv);
    let mut d_reads: Vec<String> = Vec::new();
    let mut k: usize = 0;
    while k < decl.reads.len()
        invariant
            k <= decl.reads@.len(),
            texts(d_reads@) == read_texts(decl.reads@.take(k as int)),
        decreases decl.reads@.len() - k,
    {
        assert(decl.reads@.take(k + 1).drop_last() =~= decl.reads@.take(k as int));
        assert(decl.reads@.take(k + 1).last() == decl.reads@[k as int]);
        let ghost before = texts(d_reads@);
        d_reads.push(decl.reads[k].rendered.clone());
        assert(texts(d_reads@) =~= before.push(decl.reads@[k as int].rendered@));
        k += 1;
    }
    assert(decl.reads@.take(decl.reads@.len() as int) =~= decl.reads@);
    let trigger = trigger_of(decl);
    let scope = match &decl.scope {
        Some(s) => s.clone(),
        None => "selected_cells".to_owned(),
    };
    let n_aggs = aggs.len();
    let n_quants = qs.len();
    let backed_all = n_aggs > 0 && backed;
    let checked_all = n_aggs > 0 && checked;
    let has_feature = n_aggs > 0 || n_quants > 0;
    let all_non_assert = decl.assert_count == 0 && has_feature && (n_aggs == 0 || backed_all);
    let exec = checked_all && n_quants == 0 && decl.assert_count == 0;
    let required = all_non_assert && !exec;
    assert((exec, required) == summary_flags(*decl, acc));
    // coverage
    let asserts_text = decimal_string(decl.assert_count as u128);
    let mut coverage: Vec<String> = Vec::new();
    coverage.push(concat2("declared_invariant_assertions:", asserts_text.as_str()));
    extend_texts(&mut coverage, labels);
    extend_texts(&mut coverage, q_labels);
    extend_texts(&mut coverage, ev_lines);
    push_coverage_notes(&mut coverage, trigger.as_str(), scope.as_str());
    assert(texts(coverage@) =~= seq!["declared_invariant_assertions:"@ + decimal(decl.assert_count as nat)] + agg_labels(av)
        + quant_labels(qv) + evidence_lines(*decl, av, acc) + coverage_notes(trigger@, scope@));
    let coverage = dedup(coverage);
    // reads
    let mut raw_reads: Vec<String> = Vec::new();
    extend_texts(&mut raw_reads, d_reads);
    extend_texts(&mut raw_reads, a_reads);
    extend_texts(&mut raw_reads, q_reads);
    let reads = dedup(raw_reads);
    let relations = dedup(relations);
    // builder assumptions
    let mut assertion_line = concat2("declared(assert_invariant_count:", asserts_text.as_str());
    assertion_line.append(")");
    let quant_text = decimal_string(n_quants as u128);
    let mut quant_line = concat2("declared(bounded_quantifier_count:", quant_text.as_str());
    quant_line.append(")");
    let mut assumptions: Vec<String> = Vec::new();
    if exec {
        extend_texts(&mut assumptions, checked_lines);
        assumptions.push(assertion_line);
    } else if required {
        extend_texts(&mut assumptions, req_lines);
        extend_texts(&mut assumptions, q_req);
        assumptions.push(assertion_line);
        assumptions.push(quant_line.clone());
    } else {
        assumptions.push("declared(metadata-only invariant not yet lowered to executable verifier code)".to_owned());
        assumptions.push(assertion_line);
    }
    let ghost base = texts(assumptions@);
    if n_aggs > 0 {
        let agg_text = decimal_string(n_aggs as u128);
        let mut l = concat2("declared(aggregate_invariant_count:", agg_text.as_str());
        l.append(")");
        assumptions.push(l);
    }
    let ghost base2 = texts(assumptions@);
    if n_quants > 0 {
        assumptions.push(quant_line);
    }
    let ghost base3 = texts(assumptions@);
    let lock = str_eq(trigger.as_str(), "lock_group") && str_eq(scope.as_str(), "transaction");
    if lock {
        assumptions.push(
            "declared(lock transaction scan only protects the lock group unless the builder constrains every relevant cell)".to_owned(),
        );
    }
    assert(texts(assumptions@) =~= summary_assumptions(*decl, acc));
    let assumptions = dedup(assumptions);
    // diagnostics
    let mut diagnostics: Vec<ProofPlanDiagnosticMetadata> = Vec::new();
    if exec {
        diagnostics.push(
            ProofPlanDiagnosticMetadata {
                severity: "info".to_owned(),
                message: "declared xUDT group amount invariant is discharged by matching generated runtime helper coverage".to_owned(),
            },
        );
    } else if required {
        diagnostics.push(
            ProofPlanDiagnosticMetadata {
                severity: "info".to_owned(),
                message: "declared invariant has a known runtime-helper contract; selected entries must emit matching coverage before claiming checked-runtime evidence".to_owned(),
            },
        );
    } else {
        diagnostics.push(
            ProofPlanDiagnosticMetadata {
                severity: "warning".to_owned(),
                message: "declared invariant is metadata-only until executable lowering covers it".to_owned(),
            },
        );
    }
    push_lock_warning(&mut diagnostics, trigger.as_str(), scope.as_str());
    let status = if exec { "checked-runtime" } else { "runtime-required" };
    let evidence_tier = if exec {
        EvidenceTier::CheckedRuntime
    } else if required {
        EvidenceTier::RuntimeHelperRequired
    } else {
        EvidenceTier::MetadataOnly
    };
    let obligations: Vec<String> = if exec {
        let mut o = concat3("declared-invariant:", decl.name.as_str(), "=");
        o.append(status);
        one(o)
    } else {
        let v: Vec<String> = Vec::new();
        assert(texts(v@) =~= Seq::<Seq<char>>::empty());
        v
    };
    let group_cardinality = match &decl.trigger {
        Some(t) if str_eq(t.as_str(), "type_group") => "ckb type ScriptGroup cardinality".to_owned(),
        Some(t) if str_eq(t.as_str(), "lock_group") => "ckb lock ScriptGroup cardinality".to_owned(),
        _ => match &decl.scope {
            Some(sc) if str_eq(sc.as_str(), "group") => "ckb ScriptGroup cardinality".to_owned(),
            _ => "not a script-group cardinality obligation".to_owned(),
        },
    };
    let policy = if lifecycle {
        "aggregate invariant policy".to_owned()
    } else {
        "declared invariant policy".to_owned()
    };
    let witness_fields = dedup(filter_prefix(&reads, "witness"));
    let lock_args_fields = dedup(filter_prefix(&reads, "lock_args"));
    let codegen = if exec {
        "covered"
    } else if required {
        "gap:runtime-helper-required"
    } else {
        "gap:metadata-only"
    };
    let agg_count = decimal_string(n_aggs as u128);
    let mut detail = concat2(
        "explicit source invariant declaration captured for ProofPlan auditing; aggregate_primitives=",
        agg_count.as_str(),
    );
    detail.append("; bounded_quantifiers=");
    detail.append(quant_text.as_str());
    ProofPlanMetadata {
        name: decl.name.clone(),
        origin: concat2("invariant:", decl.name.as_str()),
        category: "declared-invariant".to_owned(),
        feature: decl.name.clone(),
        evidence_tier,
        source_span: Some(
            ProofPlanSourceSpanMetadata {
                start: decl.span.start,
                end: decl.span.end,
                line: decl.span.line,
                column: decl.span.column,
            },
        ),
        trigger,
        scope,
        reads,
        coverage,
        input_output_relation_checks: relations,
        group_cardinality,
        identity_lifecycle_policy: policy,
        preserved_fields: Vec::new(),
        witness_fields,
        lock_args_fields,
        on_chain_checked: exec,
        on_chain_checked_obligations: obligations,
        builder_assumptions: assumptions,
        codegen_coverage_status: codegen.to_owned(),
        status: status.to_owned(),
        detail,
        diagnostics,
    }
}

/// `plans` are the records of `inv`: its summary record, then one record per aggregate
/// primitive, then one per bounded quantifier, each in declaration order.
pub open spec fn invariant_records(plans: Seq<ProofPlanMetadata>, inv: IrInvariant, acc: Seq<CkbRuntimeAccessMetadata>) -> bool {
    let na = inv.aggregates@.len();
    let nq = inv.quantifiers@.len();
    &&& plans.len() == 1 + na + nq
    &&& summary_record(plans[0], inv, acc)
    &&& forall|i: int| 0 <= i < na ==> #[trigger] aggregate_record(plans[1 + i], inv, i as nat, inv.aggregates@[i], acc)
    &&& forall|i: int| 0 <= i < nq ==> #[trigger] quantifier_record(plans[1 + na + i], inv, i as nat, inv.quantifiers@[i])
}

/// The ProofPlan records of a declared invariant: a summary record of the whole declaration,
/// then a record per aggregate primitive and one per bounded quantifier.
pub fn build_for_invariant(decl: &IrInvariant, runtime_accesses: &[CkbRuntimeAccessMetadata]) -> (r: Vec<ProofPlanMetadata>)
    requires
        1 + decl.aggregates@.len() + decl.quantifiers@.len() <= usize::MAX,
    ensures
        invariant_records(r@, *decl, runtime_accesses@),
{
    let mut plans: Vec<ProofPlanMetadata> = Vec::new();
    plans.push(summary_plan_for_invariant(decl, runtime_accesses));
    let ghost na = decl.aggregates@.len();
    let mut i: usize = 0;
    while i < decl.aggregates.len()
        invariant
            i <= na,
            na == decl.aggregates@.len(),
            plans@.len() == 1 + i,
            summary_record(plans@[0], *decl, runtime_accesses@),
            forall|k: int| 0 <= k < i ==> #[trigger] aggregate_record(plans@[1 + k], *decl, k as nat, decl.aggregates@[k], runtime_accesses@),
        decreases na - i,
    {
        let plan = plan_for_aggregate_invariant(decl, i, &decl.aggregates[i], runtime_accesses);
        plans.push(plan);
        i += 1;
    }
    let mut j: usize = 0;
    while j < decl.quantifiers.len()
        invariant
            j <= decl.quantifiers@.len(),
            na == decl.aggregates@.len(),
            1 + na + decl.quantifiers@.len() <= usize::MAX,
            plans@.len() == 1 + na + j,
            summary_record(plans@[0], *decl, runtime_accesses@),
            forall|k: int| 0 <= k < na ==> #[trigger] aggregate_record(plans@[1 + k], *decl, k as nat, decl.aggregates@[k], runtime_accesses@),
            forall|k: int| 0 <= k < j ==> #[trigger] quantifier_record(plans@[1 + na + k], *decl, k as nat, decl.quantifiers@[k]),
        decreases decl.quantifiers@.len() - j,
    {
        let plan = plan_for_bounded_quantifier(decl, j, &decl.quantifiers[j]);
        plans.push(plan);
        j += 1;
    }
    plans
}

/// Every record built for an invariant claims an on-chain check exactly when its evidence tier
/// is a checked tier.
pub proof fn lemma_invariant_records_tier_consistent(plans: Seq<ProofPlanMetadata>, inv: IrInvariant, acc: Seq<CkbRuntimeAccessMetadata>)
    requires
        invariant_records(plans, inv, acc),
    ensures
        forall|i: int| 0 <= i < plans.len() ==> (#[trigger] plans[i]).on_chain_checked == plans[i].evidence_tier.spec_is_checked(),
{
    let na = inv.aggregates@.len() as int;
    assert forall|i: int| 0 <= i < plans.len() implies (#[trigger] plans[i]).on_chain_checked
        == plans[i].evidence_tier.spec_is_checked() by {
        if i >= 1 && i < 1 + na {
            assert(aggregate_record(plans[1 + (i - 1)], inv, (i - 1) as nat, inv.aggregates@[i - 1], acc));
        } else if i >= 1 + na {
            assert(quantifier_record(plans[1 + na + (i - 1 - na)], inv, (i - 1 - na) as nat, inv.quantifiers@[i - 1 - na]));
        }
    }
}

} // verus!
