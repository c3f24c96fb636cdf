//! ProofPlan soundness checks for assurance metadata.

use crate::proof_plan::keys::{
    identity_key, identity_key_exec, join_key, key_part, key_part_exec, lemma_sorted_keys, obligation_key, plan_key,
    same_record, same_record_exec, sorted_keys,
};
use crate::error::{CompileError, Result};
use crate::proof_plan::{EvidenceTier, ProofPlanMetadata};
use crate::protocol_bundle::order::{sorted_texts, strs_sorted, texts};
use crate::text::{
    ascii_lowercase, before_char, before_char_exec, blank, concat2, concat3, contains_seq, decimal, decimal_string, has_prefix, is_blank,
    second_segment, second_segment_exec, str_contains, str_eq, str_starts_with, to_ascii_lowercase,
};
use vstd::prelude::*;
use vstd::string::StringExecFns;

verus! {

/// The outcome of a ProofPlan soundness check.
#[derive(Debug, Clone, PartialEq, Eq)]
pub struct ProofPlanSoundnessReport {
    pub status: String,
    pub strict: bool,
    pub checked_records: usize,
    pub checked_obligations: usize,
    pub issue_count: usize,
    pub issues: Vec<ProofPlanSoundnessIssue>,
}

/// One problem a soundness check found.
#[derive(Debug, Clone, PartialEq, Eq)]
pub struct ProofPlanSoundnessIssue {
    pub severity: String,
    pub code: String,
    pub origin: String,
    pub feature: String,
    pub message: String,
}

/// An issue found in a ProofPlan record: its code and its message.
pub type PlanIssue = (Seq<char>, Seq<char>);

/// `s` with `(code, message)` added when `cond` holds.
pub open spec fn issue_step(s: Seq<PlanIssue>, cond: bool, code: Seq<char>, message: Seq<char>) -> Seq<PlanIssue> {
    if cond {
        s.push((code, message))
    } else {
        s
    }
}

/// Whether one of `values` is `s`.
pub open spec fn has_value(values: Seq<String>, s: Seq<char>) -> bool {
    exists|k: int| 0 <= k < values.len() && (#[trigger] values[k])@ == s
}

/// Whether one of `values` holds `a` or `b`.
pub open spec fn any_holds(values: Seq<String>, a: Seq<char>, b: Seq<char>) -> bool {
    exists|k: int| 0 <= k < values.len() && (contains_seq((#[trigger] values[k])@, a) || contains_seq(values[k]@, b))
}

/// The source a `cell-access` feature names: the text after its first `:`, up to the next `:`
/// or `#`.
pub open spec fn cell_access_source(feature: Seq<char>) -> Option<Seq<char>> {
    match second_segment(feature, ':') {
        Some(segment) => Some(before_char(segment, '#')),
        None => None,
    }
}

/// The reads a cell-access source requires.
pub open spec fn reads_for_cell_source(source: Seq<char>) -> Seq<Seq<char>> {
    if source == "Transaction"@ {
        seq!["transaction"@]
    } else if source == "Input"@ {
        seq!["input"@]
    } else if source == "Output"@ {
        seq!["output"@]
    } else if source == "GroupInput"@ {
        seq!["group_input"@]
    } else if source == "GroupOutput"@ {
        seq!["group_output"@]
    } else if source == "GroupInput/GroupOutput"@ {
        seq!["group_input"@, "group_output"@]
    } else if source == "Input/Output"@ {
        seq!["input"@, "output"@, "source_view"@]
    } else if source == "Input/HeaderDep"@ {
        seq!["input"@, "header_dep"@]
    } else if source == "CellDep"@ {
        seq!["cell_dep"@]
    } else if source == "HeaderDep"@ {
        seq!["header_dep"@]
    } else if source == "Witness"@ {
        seq!["witness"@]
    } else if source == "ScriptArgs"@ {
        seq!["lock_args"@]
    } else if source == "SourceView"@ {
        seq!["source_view"@]
    } else {
        Seq::empty()
    }
}

/// The reads a cell-access record must declare.
pub open spec fn expected_reads(plan: ProofPlanMetadata) -> Seq<Seq<char>> {
    if plan.category@ != "cell-access"@ {
        Seq::empty()
    } else {
        match cell_access_source(plan.feature@) {
            Some(source) => reads_for_cell_source(source),
            None => Seq::empty(),
        }
    }
}

/// One issue for each expected read that is not declared, in order.
pub open spec fn missing_read_issues(expected: Seq<Seq<char>>, reads: Seq<String>) -> Seq<PlanIssue>
    decreases expected.len(),
{
    if expected.len() == 0 {
        Seq::empty()
    } else {
        issue_step(
            missing_read_issues(expected.drop_last(), reads),
            !has_value(reads, expected.last()),
            "PP0212"@,
            "cell-access ProofPlan source requires reads to include '"@ + expected.last() + "'"@,
        )
    }
}

/// The cell-access sources whose records must declare concrete reads.
pub open spec fn is_concrete_cell_source(source: Seq<char>) -> bool {
    ||| source == "Input"@
    ||| source == "Output"@
    ||| source == "CellDep"@
    ||| source == "HeaderDep"@
    ||| source == "GroupInput"@
    ||| source == "GroupOutput"@
    ||| source == "GroupInput/GroupOutput"@
    ||| source == "CurrentScript/Input/GroupInput/GroupOutput"@
    ||| source == "Input/Output"@
    ||| source == "Input/HeaderDep"@
    ||| source == "SourceView"@
    ||| source == "Transaction"@
}

/// The words whose presence in a record's text marks it as reading transaction data.
pub open spec fn mentions_transaction_data(text: Seq<char>) -> bool {
    ||| contains_seq(text, "input"@)
    ||| contains_seq(text, "output"@)
    ||| contains_seq(text, "cell"@)
    ||| contains_seq(text, "header"@)
    ||| contains_seq(text, "witness"@)
    ||| contains_seq(text, "lock_args"@)
    ||| contains_seq(text, "group"@)
    ||| contains_seq(text, "capacity"@)
    ||| contains_seq(text, "type_id"@)
    ||| contains_seq(text, "type-id"@)
}

/// Whether a record is about transaction data, so that it must declare what it reads.
pub open spec fn requires_concrete_reads(plan: ProofPlanMetadata) -> bool {
    if plan.category@ == "cell-access"@ {
        match cell_access_source(plan.feature@) {
            Some(source) => is_concrete_cell_source(source),
            None => false,
        }
    } else if plan.category@ == "transaction-invariant"@ || plan.category@ == "output-verification"@ {
        true
    } else {
        mentions_transaction_data(
            ascii_lowercase(plan.category@ + " "@ + plan.feature@ + " "@ + plan.detail@),
        )
    }
}

/// The label an on-chain checked record must list: `category:feature=status`.
pub open spec fn obligation_label(plan: ProofPlanMetadata) -> Seq<char> {
    plan.category@ + ":"@ + plan.feature@ + "="@ + plan.status@
}

/// The issues about evidence tier, status, coverage and declared fields, after `prefix`.
pub open spec fn plan_issues_first(prefix: Seq<PlanIssue>, plan: ProofPlanMetadata, strict: bool) -> Seq<PlanIssue> {
    let checked = plan.on_chain_checked;
    let status = plan.status@;
    let coverage = plan.codegen_coverage_status@;
    let s = issue_step(
        prefix,
        checked != plan.evidence_tier.spec_is_checked(),
        "PP0005"@,
        "ProofPlan evidence_tier must agree with on_chain_checked"@,
    );
    let s = issue_step(
        s,
        coverage == "gap:metadata-only"@ && plan.evidence_tier != EvidenceTier::MetadataOnly,
        "PP0006"@,
        "metadata-only codegen gap must use evidence_tier='metadata-only'"@,
    );
    let s = issue_step(
        s,
        coverage == "gap:runtime-helper-required"@ && plan.evidence_tier != EvidenceTier::RuntimeHelperRequired,
        "PP0007"@,
        "runtime-helper codegen gap must use evidence_tier='runtime-helper-required'"@,
    );
    let s = issue_step(
        s,
        checked && status == "runtime-required"@,
        "PP0101"@,
        "ProofPlan marks a runtime-required obligation as on-chain checked"@,
    );
    let s = issue_step(
        s,
        checked && coverage != "covered"@,
        "PP0102"@,
        "on-chain checked ProofPlan record must have codegen_coverage_status='covered'"@,
    );
    let s = issue_step(
        s,
        (status == "checked-runtime"@ || status == "checked-static"@ || status == "ckb-runtime"@) && !checked,
        "PP0103"@,
        "checked ProofPlan status is not reflected in on_chain_checked"@,
    );
    let s = issue_step(
        s,
        has_prefix(coverage, "gap:"@) && checked,
        "PP0104"@,
        "ProofPlan coverage gap cannot be marked on-chain checked"@,
    );
    let s = issue_step(
        s,
        strict && (status == "runtime-required"@ || coverage == "gap:metadata-only"@ || plan.evidence_tier
            == EvidenceTier::MetadataOnly),
        "PP0150"@,
        "strict v0.16 ProofPlan mode rejects metadata-only or runtime-required obligations"@,
    );
    let s = issue_step(
        s,
        plan.lock_args_fields@.len() > 0 && !has_value(plan.reads@, "lock_args"@),
        "PP0201"@,
        "ProofPlan exposes lock_args fields but reads does not include lock_args"@,
    );
    let s = issue_step(
        s,
        plan.witness_fields@.len() > 0 && !has_value(plan.reads@, "witness"@),
        "PP0202"@,
        "ProofPlan exposes witness fields but reads does not include witness"@,
    );
    s
}

/// The issues about the trigger, scope, cardinality, reads, coverage, labels, span and
/// assumptions, after `prefix`.
pub open spec fn plan_issues_last(prefix: Seq<PlanIssue>, plan: ProofPlanMetadata, strict: bool) -> Seq<PlanIssue> {
    let checked = plan.on_chain_checked;
    let status = plan.status@;
    let coverage = plan.codegen_coverage_status@;
    let s = issue_step(prefix, blank(plan.trigger@), "PP0203"@, "ProofPlan trigger must not be empty"@);
    let s = issue_step(s, blank(plan.scope@), "PP0204"@, "ProofPlan scope must not be empty"@);
    let s = issue_step(
        s,
        blank(plan.group_cardinality@),
        "PP0205"@,
        "ProofPlan group_cardinality must not be empty"@,
    );
    let s = issue_step(
        s,
        checked && plan.reads@.len() == 0 && requires_concrete_reads(plan),
        "PP0206"@,
        "on-chain checked ProofPlan record must declare concrete reads"@,
    );
    let s = issue_step(
        s,
        checked && plan.coverage@.len() == 0,
        "PP0207"@,
        "on-chain checked ProofPlan record must declare coverage evidence"@,
    );
    let s = issue_step(
        s,
        checked && plan.on_chain_checked_obligations@.len() == 0,
        "PP0208"@,
        "on-chain checked ProofPlan record must list checked obligation labels"@,
    );
    let s = issue_step(
        s,
        checked && !has_value(plan.on_chain_checked_obligations@, obligation_label(plan)),
        "PP0209"@,
        "on-chain checked ProofPlan record is missing its category:feature=status obligation label"@,
    );
    let s = issue_step(
        s,
        strict && has_prefix(plan.origin@, "invariant:"@) && plan.source_span is None,
        "PP0210"@,
        "source-declared invariant ProofPlan records must carry a source span in strict mode"@,
    );
    let s = issue_step(
        s,
        plan.source_span matches Some(span) && (span.end <= span.start || span.line == 0),
        "PP0211"@,
        "ProofPlan source span must have end > start and a one-based line"@,
    );
    issue_step(
        s,
        checked && any_holds(plan.builder_assumptions@, "runtime-required"@, "metadata-only"@),
        "PP0301"@,
        "on-chain checked ProofPlan record carries unchecked runtime/metadata-only builder assumptions"@,
    )
}

/// Every issue `check_plan_record` reports for one record, in the order it reports them.
pub open spec fn plan_issue_list(plan: ProofPlanMetadata, strict: bool) -> Seq<PlanIssue> {
    plan_issues_last(
        plan_issues_first(Seq::empty(), plan, strict) + missing_read_issues(expected_reads(plan), plan.reads@),
        plan,
        strict,
    )
}

/// `issue` is an error about `plan` with the given code and message.
pub open spec fn issue_matches(issue: ProofPlanSoundnessIssue, plan: ProofPlanMetadata, expected: PlanIssue) -> bool {
    &&& issue.severity@ == "error"@
    &&& issue.code@ == expected.0
    &&& issue.origin@ == plan.origin@
    &&& issue.feature@ == plan.feature@
    &&& issue.message@ == expected.1
}

/// `now` is `before` followed by one issue per entry of `expected`.
pub open spec fn issues_extend(
    now: Seq<ProofPlanSoundnessIssue>,
    before: Seq<ProofPlanSoundnessIssue>,
    plan: ProofPlanMetadata,
    expected: Seq<PlanIssue>,
) -> bool {
    &&& now.len() == before.len() + expected.len()
    &&& forall|k: int| 0 <= k < before.len() ==> now[k] == before[k]
    &&& forall|k: int| 0 <= k < expected.len() ==> issue_matches(#[trigger] now[before.len() + k], plan, expected[k])
}

fn add_issue(
    issues: &mut Vec<ProofPlanSoundnessIssue>,
    plan: &ProofPlanMetadata,
    code: &str,
    message: &str,
    Ghost(before): Ghost<Seq<ProofPlanSoundnessIssue>>,
    Ghost(expected): Ghost<Seq<PlanIssue>>,
)
    requires
        issues_extend(old(issues)@, before, *plan, expected),
    ensures
        issues_extend(final(issues)@, before, *plan, expected.push((code@, message@))),
{
    let issue = ProofPlanSoundnessIssue {
        severity: "error".to_owned(),
        code: code.to_owned(),
        origin: plan.origin.clone(),
        feature: plan.feature.clone(),
        message: message.to_owned(),
    };
    issues.push(issue);
    proof {
        let e = expected.push((code@, message@));
        assert forall|k: int| 0 <= k < e.len() implies issue_matches(
            #[trigger] issues@[before.len() + k],
            *plan,
            e[k],
        ) by {
            if k < expected.len() {
                assert(issues@[before.len() + k] == old(issues)@[before.len() + k]);
            }
        }
    }
}

fn has_value_exec(values: &Vec<String>, s: &str) -> (r: bool)
    ensures
        r == has_value(values@, s@),
{
    let mut k: usize = 0;
    while k < values.len()
        invariant
            k <= values@.len(),
            forall|j: int| 0 <= j < k ==> (#[trigger] values@[j])@ != s@,
        decreases values@.len() - k,
    {
        if str_eq(values[k].as_str(), s) {
            return true;
        }
        k += 1;
    }
    false
}

fn any_holds_exec(values: &Vec<String>, a: &str, b: &str) -> (r: bool)
    ensures
        r == any_holds(values@, a@, b@),
{
    let mut k: usize = 0;
    while k < values.len()
        invariant
            k <= values@.len(),
            forall|j: int| 0 <= j < k ==> !(contains_seq((#[trigger] values@[j])@, a@) || contains_seq(values@[j]@, b@)),
        decreases values@.len() - k,
    {
        if str_contains(values[k].as_str(), a) || str_contains(values[k].as_str(), b) {
            return true;
        }
        k += 1;
    }
    false
}

fn cell_access_source_exec(feature: &str) -> (r: Option<String>)
    ensures
        match r {
            Some(t) => cell_access_source(feature@) == Some(t@),
            None => cell_access_source(feature@) is None,
        },
{
    match second_segment_exec(feature, ':') {
        Some(segment) => Some(before_char_exec(segment.as_str(), '#')),
        None => None,
    }
}

fn reads_for_cell_source_exec(source: &str) -> (r: Vec<&'static str>)
    ensures
        r@.len() == reads_for_cell_source(source@).len(),
        forall|k: int| 0 <= k < r@.len() ==> (#[trigger] r@[k])@ == reads_for_cell_source(source@)[k],
{
    let mut r: Vec<&'static str> = Vec::new();
    if str_eq(source, "Transaction") {
        r.push("transaction");
    } else if str_eq(source, "Input") {
        r.push("input");
    } else if str_eq(source, "Output") {
        r.push("output");
    } else if str_eq(source, "GroupInput") {
        r.push("group_input");
    } else if str_eq(source, "GroupOutput") {
        r.push("group_output");
    } else if str_eq(source, "GroupInput/GroupOutput") {
        r.push("group_input");
        r.push("group_output");
    } else if str_eq(source, "Input/Output") {
        r.push("input");
        r.push("output");
        r.push("source_view");
    } else if str_eq(source, "Input/HeaderDep") {
        r.push("input");
        r.push("header_dep");
    } else if str_eq(source, "CellDep") {
        r.push("cell_dep");
    } else if str_eq(source, "HeaderDep") {
        r.push("header_dep");
    } else if str_eq(source, "Witness") {
        r.push("witness");
    } else if str_eq(source, "ScriptArgs") {
        r.push("lock_args");
    } else if str_eq(source, "SourceView") {
        r.push("source_view");
    }
    r
}

/// The reads a cell-access record must declare.
fn expected_reads_for_cell_access(plan: &ProofPlanMetadata) -> (r: Vec<&'static str>)
    ensures
        r@.len() == expected_reads(*plan).len(),
        forall|k: int| 0 <= k < r@.len() ==> (#[trigger] r@[k])@ == expected_reads(*plan)[k],
{
    if !str_eq(plan.category.as_str(), "cell-access") {
        return Vec::new();
    }
    match cell_access_source_exec(plan.feature.as_str()) {
        Some(source) => reads_for_cell_source_exec(source.as_str()),
        None => Vec::new(),
    }
}

fn is_concrete_cell_source_exec(source: &str) -> (r: bool)
    ensures
        r == is_concrete_cell_source(source@),
{
    str_eq(source, "Input") || str_eq(source, "Output") || str_eq(source, "CellDep") || str_eq(source, "HeaderDep")
        || str_eq(source, "GroupInput") || str_eq(source, "GroupOutput") || str_eq(source, "GroupInput/GroupOutput")
        || str_eq(source, "CurrentScript/Input/GroupInput/GroupOutput") || str_eq(source, "Input/Output") || str_eq(
        source,
        "Input/HeaderDep",
    ) || str_eq(source, "SourceView") || str_eq(source, "Transaction")
}

/// Whether a record is about transaction data and must declare what it reads.
fn proof_plan_requires_concrete_reads(plan: &ProofPlanMetadata) -> (r: bool)
    ensures
        r == requires_concrete_reads(*plan),
{
    if str_eq(plan.category.as_str(), "cell-access") {
        return match cell_access_source_exec(plan.feature.as_str()) {
            Some(source) => is_concrete_cell_source_exec(source.as_str()),
            None => false,
        };
    }
    if str_eq(plan.category.as_str(), "transaction-invariant") || str_eq(plan.category.as_str(), "output-verification") {
        return true;
    }
    let mut text = concat3(plan.category.as_str(), " ", plan.feature.as_str());
    text.append(" ");
    text.append(plan.detail.as_str());
    let lower = to_ascii_lowercase(text.as_str());
    let t = lower.as_str();
    str_contains(t, "input") || str_contains(t, "output") || str_contains(t, "cell") || str_contains(t, "header")
        || str_contains(t, "witness") || str_contains(t, "lock_args") || str_contains(t, "group") || str_contains(
        t,
        "capacity",
    ) || str_contains(t, "type_id") || str_contains(t, "type-id")
}

/// The label `category:feature=status`.
fn obligation_label_exec(plan: &ProofPlanMetadata) -> (r: String)
    ensures
        r@ == obligation_label(*plan),
{
    let mut label = concat3(plan.category.as_str(), ":", plan.feature.as_str());
    label.append("=");
    label.append(plan.status.as_str());
    label
}

fn check_plan_first(
    plan: &ProofPlanMetadata,
    strict: bool,
    issues: &mut Vec<ProofPlanSoundnessIssue>,
    Ghost(before): Ghost<Seq<ProofPlanSoundnessIssue>>,
    Ghost(start): Ghost<Seq<PlanIssue>>,
)
    requires
        issues_extend(old(issues)@, before, *plan, start),
    ensures
        issues_extend(final(issues)@, before, *plan, plan_issues_first(start, *plan, strict)),
{
    let ghost mut expected: Seq<PlanIssue> = start;
    if plan.on_chain_checked != plan.evidence_tier.is_checked() {
        add_issue(issues, plan, "PP0005", "ProofPlan evidence_tier must agree with on_chain_checked", Ghost(before), Ghost(expected));
        proof {
            expected = expected.push(("PP0005"@, "ProofPlan evidence_tier must agree with on_chain_checked"@));
        }
    }
    if str_eq(plan.codegen_coverage_status.as_str(), "gap:metadata-only") && plan.evidence_tier != EvidenceTier::MetadataOnly {
        add_issue(issues, plan, "PP0006", "metadata-only codegen gap must use evidence_tier='metadata-only'", Ghost(before), Ghost(expected));
        proof {
            expected = expected.push(("PP0006"@, "metadata-only codegen gap must use evidence_tier='metadata-only'"@));
        }
    }
    if str_eq(plan.codegen_coverage_status.as_str(), "gap:runtime-helper-required") && plan.evidence_tier != EvidenceTier::RuntimeHelperRequired {
        add_issue(issues, plan, "PP0007", "runtime-helper codegen gap must use evidence_tier='runtime-helper-required'", Ghost(before), Ghost(expected));
        proof {
            expected = expected.push(("PP0007"@, "runtime-helper codegen gap must use evidence_tier='runtime-helper-required'"@));
        }
    }
    if plan.on_chain_checked && str_eq(plan.status.as_str(), "runtime-required") {
        add_issue(issues, plan, "PP0101", "ProofPlan marks a runtime-required obligation as on-chain checked", Ghost(before), Ghost(expected));
        proof {
            expected = expected.push(("PP0101"@, "ProofPlan marks a runtime-required obligation as on-chain checked"@));
        }
    }
    if plan.on_chain_checked && !str_eq(plan.codegen_coverage_status.as_str(), "covered") {
        add_issue(issues, plan, "PP0102", "on-chain checked ProofPlan record must have codegen_coverage_status='covered'", Ghost(before), Ghost(expected));
        proof {
            expected = expected.push(("PP0102"@, "on-chain checked ProofPlan record must have codegen_coverage_status='covered'"@));
        }
    }
    if (str_eq(plan.status.as_str(), "checked-runtime") || str_eq(plan.status.as_str(), "checked-static") || str_eq(plan.status.as_str(), "ckb-runtime")) && !plan.on_chain_checked {
        add_issue(issues, plan, "PP0103", "checked ProofPlan status is not reflected in on_chain_checked", Ghost(before), Ghost(expected));
        proof {
            expected = expected.push(("PP0103"@, "checked ProofPlan status is not reflected in on_chain_checked"@));
        }
    }
    if str_starts_with(plan.codegen_coverage_status.as_str(), "gap:") && plan.on_chain_checked {
        add_issue(issues, plan, "PP0104", "ProofPlan coverage gap cannot be marked on-chain checked", Ghost(before), Ghost(expected));
        proof {
            expected = expected.push(("PP0104"@, "ProofPlan coverage gap cannot be marked on-chain checked"@));
        }
    }
    if strict && (str_eq(plan.status.as_str(), "runtime-required") || str_eq(plan.codegen_coverage_status.as_str(), "gap:metadata-only") || plan.evidence_tier == EvidenceTier::MetadataOnly) {
        add_issue(issues, plan, "PP0150", "strict v0.16 ProofPlan mode rejects metadata-only or runtime-required obligations", Ghost(before), Ghost(expected));
        proof {
            expected = expected.push(("PP0150"@, "strict v0.16 ProofPlan mode rejects metadata-only or runtime-required obligations"@));
        }
    }
    if plan.lock_args_fields.len() > 0 && !has_value_exec(&plan.reads, "lock_args") {
        add_issue(issues, plan, "PP0201", "ProofPlan exposes lock_args fields but reads does not include lock_args", Ghost(before), Ghost(expected));
        proof {
            expected = expected.push(("PP0201"@, "ProofPlan exposes lock_args fields but reads does not include lock_args"@));
        }
    }
    if plan.witness_fields.len() > 0 && !has_value_exec(&plan.reads, "witness") {
        add_issue(issues, plan, "PP0202", "ProofPlan exposes witness fields but reads does not include witness", Ghost(before), Ghost(expected));
        proof {
            expected = expected.push(("PP0202"@, "ProofPlan exposes witness fields but reads does not include witness"@));
        }
    }
    assert(expected =~= plan_issues_first(start, *plan, strict));
}

fn check_plan_reads(
    plan: &ProofPlanMetadata,
    issues: &mut Vec<ProofPlanSoundnessIssue>,
    Ghost(before): Ghost<Seq<ProofPlanSoundnessIssue>>,
    Ghost(start): Ghost<Seq<PlanIssue>>,
)
    requires
        issues_extend(old(issues)@, before, *plan, start),
    ensures
        issues_extend(final(issues)@, before, *plan, start + missing_read_issues(expected_reads(*plan), plan.reads@)),
{
    let ghost mut expected: Seq<PlanIssue> = start;
    let wanted = expected_reads_for_cell_access(plan);
    let ghost reads_before = expected;
    let mut k: usize = 0;
    while k < wanted.len()
        invariant
            k <= wanted@.len(),
            wanted@.len() == expected_reads(*plan).len(),
            forall|j: int| 0 <= j < wanted@.len() ==> (#[trigger] wanted@[j])@ == expected_reads(*plan)[j],
            expected == reads_before + missing_read_issues(expected_reads(*plan).take(k as int), plan.reads@),
            issues_extend(issues@, before, *plan, expected),
        decreases wanted@.len() - k,
    {
        let read = wanted[k];
        proof {
            assert(expected_reads(*plan).take(k + 1).drop_last() =~= expected_reads(*plan).take(k as int));
        }
        if !has_value_exec(&plan.reads, read) {
            let message = concat3("cell-access ProofPlan source requires reads to include '", read, "'");
            add_issue(issues, plan, "PP0212", message.as_str(), Ghost(before), Ghost(expected));
            proof {
                expected = expected.push(("PP0212"@, message@));
            }
        }
        proof {
            assert(expected =~= reads_before + missing_read_issues(expected_reads(*plan).take(k + 1), plan.reads@));
        }
        k += 1;
    }
    proof {
        assert(expected_reads(*plan).take(wanted@.len() as int) =~= expected_reads(*plan));
    }
    assert(expected =~= start + missing_read_issues(expected_reads(*plan), plan.reads@));
}

fn check_plan_last(
    plan: &ProofPlanMetadata,
    strict: bool,
    issues: &mut Vec<ProofPlanSoundnessIssue>,
    Ghost(before): Ghost<Seq<ProofPlanSoundnessIssue>>,
    Ghost(start): Ghost<Seq<PlanIssue>>,
)
    requires
        issues_extend(old(issues)@, before, *plan, start),
    ensures
        issues_extend(final(issues)@, before, *plan, plan_issues_last(start, *plan, strict)),
{
    let ghost mut expected: Seq<PlanIssue> = start;
    let label = obligation_label_exec(plan);
    let span_malformed = match &plan.source_span {
        Some(span) => span.end <= span.start || span.line == 0,
        None => false,
    };

    if is_blank(plan.trigger.as_str()) {
        add_issue(issues, plan, "PP0203", "ProofPlan trigger must not be empty", Ghost(before), Ghost(expected));
        proof {
            expected = expected.push(("PP0203"@, "ProofPlan trigger must not be empty"@));
        }
    }
    if is_blank(plan.scope.as_str()) {
        add_issue(issues, plan, "PP0204", "ProofPlan scope must not be empty", Ghost(before), Ghost(expected));
        proof {
            expected = expected.push(("PP0204"@, "ProofPlan scope must not be empty"@));
        }
    }
    if is_blank(plan.group_cardinality.as_str()) {
        add_issue(issues, plan, "PP0205", "ProofPlan group_cardinality must not be empty", Ghost(before), Ghost(expected));
        proof {
            expected = expected.push(("PP0205"@, "ProofPlan group_cardinality must not be empty"@));
        }
    }
    if plan.on_chain_checked && plan.reads.len() == 0 && proof_plan_requires_concrete_reads(plan) {
        add_issue(issues, plan, "PP0206", "on-chain checked ProofPlan record must declare concrete reads", Ghost(before), Ghost(expected));
        proof {
            expected = expected.push(("PP0206"@, "on-chain checked ProofPlan record must declare concrete reads"@));
        }
    }
    if plan.on_chain_checked && plan.coverage.len() == 0 {
        add_issue(issues, plan, "PP0207", "on-chain checked ProofPlan record must declare coverage evidence", Ghost(before), Ghost(expected));
        proof {
            expected = expected.push(("PP0207"@, "on-chain checked ProofPlan record must declare coverage evidence"@));
        }
    }
    if plan.on_chain_checked && plan.on_chain_checked_obligations.len() == 0 {
        add_issue(issues, plan, "PP0208", "on-chain checked ProofPlan record must list checked obligation labels", Ghost(before), Ghost(expected));
        proof {
            expected = expected.push(("PP0208"@, "on-chain checked ProofPlan record must list checked obligation labels"@));
        }
    }
    if plan.on_chain_checked && !has_value_exec(&plan.on_chain_checked_obligations, label.as_str()) {
        add_issue(issues, plan, "PP0209", "on-chain checked ProofPlan record is missing its category:feature=status obligation label", Ghost(before), Ghost(expected));
        proof {
            expected = expected.push(("PP0209"@, "on-chain checked ProofPlan record is missing its category:feature=status obligation label"@));
        }
    }
    if strict && str_starts_with(plan.origin.as_str(), "invariant:") && plan.source_span.is_none() {
        add_issue(issues, plan, "PP0210", "source-declared invariant ProofPlan records must carry a source span in strict mode", Ghost(before), Ghost(expected));
        proof {
            expected = expected.push(("PP0210"@, "source-declared invariant ProofPlan records must carry a source span in strict mode"@));
        }
    }
    if span_malformed {
        add_issue(issues, plan, "PP0211", "ProofPlan source span must have end > start and a one-based line", Ghost(before), Ghost(expected));
        proof {
            expected = expected.push(("PP0211"@, "ProofPlan source span must have end > start and a one-based line"@));
        }
    }
    if plan.on_chain_checked && any_holds_exec(&plan.builder_assumptions, "runtime-required", "metadata-only") {
        add_issue(issues, plan, "PP0301", "on-chain checked ProofPlan record carries unchecked runtime/metadata-only builder assumptions", Ghost(before), Ghost(expected));
        proof {
            expected = expected.push(("PP0301"@, "on-chain checked ProofPlan record carries unchecked runtime/metadata-only builder assumptions"@));
        }
    }
    assert(expected =~= plan_issues_last(start, *plan, strict));
}

/// Checks one ProofPlan record and appends what it finds to `issues`.
pub fn check_plan_record(plan: &ProofPlanMetadata, strict: bool, issues: &mut Vec<ProofPlanSoundnessIssue>)
    ensures
        issues_extend(final(issues)@, old(issues)@, *plan, plan_issue_list(*plan, strict)),
{
    let ghost before = issues@;
    assert(issues_extend(issues@, before, *plan, Seq::empty()));
    check_plan_first(plan, strict, issues, Ghost(before), Ghost(Seq::empty()));
    let ghost after_first = plan_issues_first(Seq::empty(), *plan, strict);
    check_plan_reads(plan, issues, Ghost(before), Ghost(after_first));
    let ghost after_reads = after_first + missing_read_issues(expected_reads(*plan), plan.reads@);
    check_plan_last(plan, strict, issues, Ghost(before), Ghost(after_reads));
}


// ---------------------------------------------------------------------------------------------
// Whole-metadata checks.

/// A runtime verifier obligation, as compile metadata records it.
#[derive(Debug, Clone, PartialEq, Eq)]
pub struct VerifierObligationMetadata {
    pub scope: String,
    pub category: String,
    pub feature: String,
    pub status: String,
    pub detail: String,
}

/// The ProofPlan records compile metadata keeps with one action, function or lock.
#[derive(Debug, Clone, PartialEq, Eq)]
pub struct EntryProofPlanMetadata {
    pub name: String,
    pub proof_plan: Vec<ProofPlanMetadata>,
}

/// The runtime section of compile metadata: the runtime ProofPlan and verifier obligations.
#[derive(Debug, Clone, PartialEq, Eq)]
pub struct RuntimeProofMetadata {
    pub proof_plan: Vec<ProofPlanMetadata>,
    pub verifier_obligations: Vec<VerifierObligationMetadata>,
}

/// What soundness checking reads of compile metadata: the runtime section and the records kept
/// with each action, function and lock.
#[derive(Debug, Clone, PartialEq, Eq)]
pub struct CompileMetadata {
    pub runtime: RuntimeProofMetadata,
    pub actions: Vec<EntryProofPlanMetadata>,
    pub functions: Vec<EntryProofPlanMetadata>,
    pub locks: Vec<EntryProofPlanMetadata>,
}

/// An issue as characters: severity, code, origin, feature and message.
pub type IssueView = (Seq<char>, Seq<char>, Seq<char>, Seq<char>, Seq<char>);

/// An issue as characters.
pub open spec fn issue_view(i: ProofPlanSoundnessIssue) -> IssueView {
    (i.severity@, i.code@, i.origin@, i.feature@, i.message@)
}

/// Issues as characters.
pub open spec fn issue_views(s: Seq<ProofPlanSoundnessIssue>) -> Seq<IssueView> {
    s.map_values(|i: ProofPlanSoundnessIssue| issue_view(i))
}

/// An error issue as characters.
pub open spec fn error_issue(code: Seq<char>, origin: Seq<char>, feature: Seq<char>, message: Seq<char>) -> IssueView {
    ("error"@, code, origin, feature, message)
}

/// The key of an obligation.
pub open spec fn obligation_record_key(o: VerifierObligationMetadata) -> Seq<char> {
    obligation_key(o.scope@, o.category@, o.feature@, o.status@, o.detail@)
}

/// How often `k` occurs in `keys`.
pub open spec fn count_key(keys: Seq<Seq<char>>, k: Seq<char>) -> nat
    decreases keys.len(),
{
    if keys.len() == 0 {
        0
    } else {
        count_key(keys.drop_last(), k) + if keys.last() == k {
            1nat
        } else {
            0nat
        }
    }
}

/// The first position of `k` in `keys`.
pub open spec fn first_key(keys: Seq<Seq<char>>, k: Seq<char>) -> int {
    choose|i: int| 0 <= i < keys.len() && keys[i] == k && forall|j: int| 0 <= j < i ==> #[trigger] keys[j] != k
}

/// The issues for the keys among `ks` that occur more than once in `keys`, in the order of `ks`;
/// each names the origin and feature of the first record with the key.
pub open spec fn duplicate_issues(
    ks: Seq<Seq<char>>,
    keys: Seq<Seq<char>>,
    origins: Seq<Seq<char>>,
    features: Seq<Seq<char>>,
    code: Seq<char>,
    what: Seq<char>,
) -> Seq<IssueView>
    decreases ks.len(),
{
    if ks.len() == 0 {
        Seq::empty()
    } else {
        let prev = duplicate_issues(ks.drop_last(), keys, origins, features, code, what);
        let k = ks.last();
        let c = count_key(keys, k);
        if c > 1 {
            let f = first_key(keys, k);
            prev.push(
                error_issue(code, origins[f], features[f], "duplicate "@ + what + " "@ + k + " appears "@ + decimal(c) + " times"@),
            )
        } else {
            prev
        }
    }
}

/// The issues for obligations that no ProofPlan record matches, in order.
pub open spec fn unmatched_obligation_issues(os: Seq<VerifierObligationMetadata>, plan_keys: Set<Seq<char>>) -> Seq<IssueView>
    decreases os.len(),
{
    if os.len() == 0 {
        Seq::empty()
    } else {
        let prev = unmatched_obligation_issues(os.drop_last(), plan_keys);
        let o = os.last();
        if plan_keys.contains(obligation_record_key(o)) {
            prev
        } else {
            prev.push(
                error_issue(
                    "PP0002"@,
                    o.scope@,
                    o.feature@,
                    "runtime verifier obligation has no matching ProofPlan record with the same origin/scope, category, feature, status, and detail"@,
                ),
            )
        }
    }
}

/// The records kept with a list of entries, in order.
pub open spec fn entry_plans(es: Seq<EntryProofPlanMetadata>) -> Seq<ProofPlanMetadata>
    decreases es.len(),
{
    if es.len() == 0 {
        Seq::empty()
    } else {
        entry_plans(es.drop_last()) + es.last().proof_plan@
    }
}

/// The records kept with actions, functions and locks, in that order.
pub open spec fn local_plans(m: CompileMetadata) -> Seq<ProofPlanMetadata> {
    entry_plans(m.actions@) + entry_plans(m.functions@) + entry_plans(m.locks@)
}

/// Some record of `ps` agrees with `p` in every field.
pub open spec fn has_same(ps: Seq<ProofPlanMetadata>, p: ProofPlanMetadata) -> bool {
    exists|i: int| 0 <= i < ps.len() && same_record(#[trigger] ps[i], p)
}

/// The identity keys of a list of records.
pub open spec fn identity_keys(ps: Seq<ProofPlanMetadata>) -> Seq<Seq<char>> {
    ps.map_values(|p: ProofPlanMetadata| identity_key(p))
}

/// The issues for the records of `ps` with identity `key` that no record of `others` agrees
/// with in every field, in order.
pub open spec fn differing_issues(
    ps: Seq<ProofPlanMetadata>,
    others: Seq<ProofPlanMetadata>,
    key: Seq<char>,
    code: Seq<char>,
    message: Seq<char>,
) -> Seq<IssueView>
    decreases ps.len(),
{
    if ps.len() == 0 {
        Seq::empty()
    } else {
        let prev = differing_issues(ps.drop_last(), others, key, code, message);
        let p = ps.last();
        if identity_key(p) == key && !has_same(others, p) {
            prev.push(error_issue(code, p.origin@, p.feature@, message))
        } else {
            prev
        }
    }
}

/// The message for a local record with no runtime counterpart.
pub open spec fn missing_runtime_message(status: Seq<char>) -> Seq<char> {
    "local ProofPlan record with status '"@ + status + "' is missing from runtime.proof_plan"@
}

/// The message for a runtime record with no local counterpart.
pub open spec fn missing_local_message(status: Seq<char>) -> Seq<char> {
    "runtime ProofPlan record with status '"@ + status + "' is missing from local action/function/lock metadata"@
}

/// The issues for local identities, in the order of `ks`: one missing from the runtime plan, or
/// local records that differ from every runtime record.
pub open spec fn local_consistency_issues(ks: Seq<Seq<char>>, local: Seq<ProofPlanMetadata>, runtime: Seq<ProofPlanMetadata>) -> Seq<IssueView>
    decreases ks.len(),
{
    if ks.len() == 0 {
        Seq::empty()
    } else {
        let prev = local_consistency_issues(ks.drop_last(), local, runtime);
        let k = ks.last();
        if !identity_keys(runtime).to_set().contains(k) {
            prev.push(error_issue("PP0401"@, key_part(k, 0), key_part(k, 1), missing_runtime_message(key_part(k, 2))))
        } else {
            prev + differing_issues(
                local,
                runtime,
                k,
                "PP0403"@,
                "local ProofPlan record differs from runtime.proof_plan in trigger, scope, reads, coverage, assumptions, detail, or codegen coverage"@,
            )
        }
    }
}

/// The issues for runtime identities, in the order of `ks`, leaving out invariant and validity
/// origins: one missing from local metadata, or runtime records that differ from every local
/// record.
pub open spec fn runtime_consistency_issues(ks: Seq<Seq<char>>, local: Seq<ProofPlanMetadata>, runtime: Seq<ProofPlanMetadata>) -> Seq<IssueView>
    decreases ks.len(),
{
    if ks.len() == 0 {
        Seq::empty()
    } else {
        let prev = runtime_consistency_issues(ks.drop_last(), local, runtime);
        let k = ks.last();
        let origin = key_part(k, 0);
        if has_prefix(origin, "invariant:"@) || has_prefix(origin, "validity:"@) {
            prev
        } else if !identity_keys(local).to_set().contains(k) {
            prev.push(error_issue("PP0402"@, origin, key_part(k, 1), missing_local_message(key_part(k, 2))))
        } else {
            prev + differing_issues(
                runtime,
                local,
                k,
                "PP0404"@,
                "runtime ProofPlan record differs from local action/function/lock metadata in trigger, scope, reads, coverage, assumptions, detail, or codegen coverage"@,
            )
        }
    }
}

/// The issues each runtime record raises on its own, record by record.
pub open spec fn record_issues(ps: Seq<ProofPlanMetadata>, strict: bool) -> Seq<IssueView>
    decreases ps.len(),
{
    if ps.len() == 0 {
        Seq::empty()
    } else {
        record_issues(ps.drop_last(), strict) + plan_issue_list(ps.last(), strict).map_values(
            |e: PlanIssue| error_issue(e.0, ps.last().origin@, ps.last().feature@, e.1),
        )
    }
}

/// Every issue a soundness check of `m` finds, in the order it reports them: an empty runtime
/// plan beside obligations, duplicate record keys, duplicate obligation keys, unmatched
/// obligations, local/runtime inconsistencies, and then each runtime record's own issues.
pub open spec fn metadata_issues(m: CompileMetadata, strict: bool) -> Seq<IssueView> {
    let plans = m.runtime.proof_plan@;
    let obligations = m.runtime.verifier_obligations@;
    let pkeys = plans.map_values(|p: ProofPlanMetadata| plan_key(p));
    let okeys = obligations.map_values(|o: VerifierObligationMetadata| obligation_record_key(o));
    let local = local_plans(m);
    let empty = if plans.len() == 0 && obligations.len() > 0 {
        seq![error_issue("PP0001"@, "runtime"@, "*"@, "runtime verifier obligations exist but runtime.proof_plan is empty"@)]
    } else {
        Seq::empty()
    };
    empty + duplicate_issues(
        sorted_keys(pkeys.to_set()),
        pkeys,
        plans.map_values(|p: ProofPlanMetadata| p.origin@),
        plans.map_values(|p: ProofPlanMetadata| p.feature@),
        "PP0003"@,
        "ProofPlan obligation key"@,
    ) + duplicate_issues(
        sorted_keys(okeys.to_set()),
        okeys,
        obligations.map_values(|o: VerifierObligationMetadata| o.scope@),
        obligations.map_values(|o: VerifierObligationMetadata| o.feature@),
        "PP0004"@,
        "runtime verifier obligation key"@,
    ) + unmatched_obligation_issues(obligations, pkeys.to_set()) + local_consistency_issues(
        sorted_keys(identity_keys(local).to_set()),
        local,
        plans,
    ) + runtime_consistency_issues(sorted_keys(identity_keys(plans).to_set()), local, plans) + record_issues(plans, strict)
}

fn push_error(issues: &mut Vec<ProofPlanSoundnessIssue>, code: &str, origin: &str, feature: &str, message: &str)
    ensures
        issue_views(final(issues)@) == issue_views(old(issues)@).push(error_issue(code@, origin@, feature@, message@)),
{
    proof {
        reveal_strlit("error");
    }
    let ghost before = issues@;
    issues.push(
        ProofPlanSoundnessIssue {
            severity: "error".to_owned(),
            code: code.to_owned(),
            origin: origin.to_owned(),
            feature: feature.to_owned(),
            message: message.to_owned(),
        },
    );
    assert(issue_views(issues@) =~= issue_views(before).push(error_issue(code@, origin@, feature@, message@)));
}

proof fn lemma_count_key_bound(keys: Seq<Seq<char>>, k: Seq<char>)
    ensures
        count_key(keys, k) <= keys.len(),
    decreases keys.len(),
{
    if keys.len() > 0 {
        lemma_count_key_bound(keys.drop_last(), k);
    }
}

/// How often `k` occurs in `keys`, and where first.
fn count_and_first(keys: &Vec<String>, k: &str) -> (r: (usize, usize))
    ensures
        r.0 == count_key(texts(keys@), k@),
        r.0 > 0 ==> r.1 as int == first_key(texts(keys@), k@) && r.1 < keys@.len(),
{
    let ghost t = texts(keys@);
    let mut count: usize = 0;
    let mut first: usize = 0;
    let mut i: usize = 0;
    while i < keys.len()
        invariant
            t == texts(keys@),
            i <= keys@.len(),
            count == count_key(t.take(i as int), k@),
            count <= i,
            count == 0 ==> forall|j: int| 0 <= j < i ==> #[trigger] t[j] != k@,
            count > 0 ==> first < i && t[first as int] == k@ && forall|j: int| 0 <= j < first ==> #[trigger] t[j] != k@,
        decreases keys@.len() - i,
    {
        proof {
            assert(t.take(i + 1).drop_last() =~= t.take(i as int));
            assert(t.take(i + 1).last() == t[i as int]);
        }
        if str_eq(keys[i].as_str(), k) {
            if count == 0 {
                first = i;
            }
            count = count + 1;
        }
        i += 1;
    }
    proof {
        assert(t.take(keys@.len() as int) =~= t);
        if count > 0 {
            let c = first_key(t, k@);
            assert(0 <= first < t.len() && t[first as int] == k@ && forall|j: int| 0 <= j < first ==> #[trigger] t[j] != k@);
            let w = choose|w: int| 0 <= w < t.len() && t[w] == k@ && forall|j: int| 0 <= j < w ==> #[trigger] t[j] != k@;
            if w < first {
                assert(t[w] != k@);
            }
            if w > first {
                assert(t[first as int] != k@);
            }
        }
    }
    (count, first)
}

fn push_duplicates(
    issues: &mut Vec<ProofPlanSoundnessIssue>,
    keys: &Vec<String>,
    origins: &Vec<String>,
    features: &Vec<String>,
    code: &str,
    what: &str,
)
    requires
        keys@.len() == origins@.len(),
        keys@.len() == features@.len(),
    ensures
        issue_views(final(issues)@) == issue_views(old(issues)@) + duplicate_issues(
            sorted_keys(texts(keys@).to_set()),
            texts(keys@),
            texts(origins@),
            texts(features@),
            code@,
            what@,
        ),
{
    proof {
        reveal_strlit("duplicate ");
        reveal_strlit(" ");
        reveal_strlit(" appears ");
        reveal_strlit(" times");
    }
    let ks = sorted_texts(keys);
    proof {
        lemma_sorted_keys(texts(ks@), texts(keys@).to_set());
    }
    let ghost before = issue_views(issues@);
    let ghost sk = texts(ks@);
    let mut i: usize = 0;
    assert(sk.take(0) =~= Seq::<Seq<char>>::empty());
    assert(issue_views(issues@) =~= before + duplicate_issues(sk.take(0), texts(keys@), texts(origins@), texts(features@), code@, what@));
    while i < ks.len()
        invariant
            sk == texts(ks@),
            keys@.len() == origins@.len(),
            keys@.len() == features@.len(),
            i <= ks@.len(),
            issue_views(issues@) == before + duplicate_issues(sk.take(i as int), texts(keys@), texts(origins@), texts(features@), code@, what@),
        decreases ks@.len() - i,
    {
        proof {
            reveal_strlit("duplicate ");
            reveal_strlit(" ");
            reveal_strlit(" appears ");
            reveal_strlit(" times");
            assert(sk.take(i + 1).drop_last() =~= sk.take(i as int));
            assert(sk.take(i + 1).last() == sk[i as int]);
        }
        let k = ks[i].as_str();
        let (count, first) = count_and_first(keys, k);
        if count > 1 {
            proof {
                lemma_count_key_bound(texts(keys@), k@);
            }
            let mut m = concat3("duplicate ", what, " ");
            m.append(k);
            m.append(" appears ");
            m.append(decimal_string(count as u128).as_str());
            m.append(" times");
            push_error(issues, code, origins[first].as_str(), features[first].as_str(), m.as_str());
            proof {
                assert(issue_views(issues@) =~= before + duplicate_issues(sk.take(i + 1), texts(keys@), texts(origins@), texts(features@), code@, what@));
            }
        }
        i += 1;
    }
    assert(sk.take(ks@.len() as int) =~= sk);
}

/// Whether some key of `keys` is `k`.
fn has_key(keys: &Vec<String>, k: &str) -> (r: bool)
    ensures
        r == texts(keys@).to_set().contains(k@),
{
    let mut i: usize = 0;
    while i < keys.len()
        invariant
            i <= keys@.len(),
            forall|j: int| 0 <= j < i ==> (#[trigger] keys@[j])@ != k@,
        decreases keys@.len() - i,
    {
        if str_eq(keys[i].as_str(), k) {
            assert(texts(keys@)[i as int] == k@);
            return true;
        }
        i += 1;
    }
    proof {
        if texts(keys@).contains(k@) {
            let j = choose|j: int| 0 <= j < texts(keys@).len() && texts(keys@)[j] == k@;
            assert(keys@[j]@ == k@);
        }
    }
    false
}

/// The records behind a list of references.
pub open spec fn derefs(v: Seq<&ProofPlanMetadata>) -> Seq<ProofPlanMetadata> {
    v.map_values(|p: &ProofPlanMetadata| *p)
}

fn append_entry_plans<'a>(out: &mut Vec<&'a ProofPlanMetadata>, es: &'a Vec<EntryProofPlanMetadata>)
    ensures
        derefs(final(out)@) == derefs(old(out)@) + entry_plans(es@),
{
    let ghost start = derefs(out@);
    let mut i: usize = 0;
    assert(es@.take(0) =~= Seq::<EntryProofPlanMetadata>::empty());
    assert(derefs(out@) =~= start + entry_plans(es@.take(0)));
    while i < es.len()
        invariant
            i <= es@.len(),
            derefs(out@) == start + entry_plans(es@.take(i as int)),
        decreases es@.len() - i,
    {
        proof {
            assert(es@.take(i + 1).drop_last() =~= es@.take(i as int));
            assert(es@.take(i + 1).last() == es@[i as int]);
        }
        let ghost mid = derefs(out@);
        let plans = &es[i].proof_plan;
        let mut j: usize = 0;
        assert(derefs(out@) =~= mid + plans@.take(0));
        while j < plans.len()
            invariant
                j <= plans@.len(),
                derefs(out@) == mid + plans@.take(j as int),
            decreases plans@.len() - j,
        {
            let ghost b = out@;
            out.push(&plans[j]);
            assert(derefs(out@) =~= mid + plans@.take(j + 1)) by {
                assert(derefs(out@) =~= derefs(b).push(plans@[j as int]));
            }
            j += 1;
        }
        assert(plans@.take(plans@.len() as int) =~= plans@);
        assert(derefs(out@) =~= start + entry_plans(es@.take(i + 1)));
        i += 1;
    }
    assert(es@.take(es@.len() as int) =~= es@);
}

fn identity_keys_of(ps: &Vec<&ProofPlanMetadata>) -> (r: Vec<String>)
    ensures
        texts(r@) == identity_keys(derefs(ps@)),
{
    let mut out: Vec<String> = Vec::new();
    let mut i: usize = 0;
    while i < ps.len()
        invariant
            i <= ps@.len(),
            texts(out@) == identity_keys(derefs(ps@)).take(i as int),
        decreases ps@.len() - i,
    {
        let ghost b = out@;
        out.push(identity_key_exec(ps[i]));
        assert(texts(out@) =~= identity_keys(derefs(ps@)).take(i + 1)) by {
            assert(texts(out@) =~= texts(b).push(identity_key(*ps@[i as int])));
        }
        i += 1;
    }
    assert(identity_keys(derefs(ps@)).take(ps@.len() as int) =~= identity_keys(derefs(ps@)));
    out
}

fn has_same_exec(ps: &Vec<&ProofPlanMetadata>, p: &ProofPlanMetadata) -> (r: bool)
    ensures
        r == has_same(derefs(ps@), *p),
{
    let mut i: usize = 0;
    while i < ps.len()
        invariant
            i <= ps@.len(),
            forall|j: int| 0 <= j < i ==> !same_record(#[trigger] derefs(ps@)[j], *p),
        decreases ps@.len() - i,
    {
        if same_record_exec(ps[i], p) {
            assert(same_record(derefs(ps@)[i as int], *p));
            return true;
        }
        i += 1;
    }
    false
}

fn push_differing(
    issues: &mut Vec<ProofPlanSoundnessIssue>,
    ps: &Vec<&ProofPlanMetadata>,
    others: &Vec<&ProofPlanMetadata>,
    key: &str,
    code: &str,
    message: &str,
)
    ensures
        issue_views(final(issues)@) == issue_views(old(issues)@) + differing_issues(derefs(ps@), derefs(others@), key@, code@, message@),
{
    let ghost start = issue_views(issues@);
    let ghost d = derefs(ps@);
    let mut i: usize = 0;
    assert(d.take(0) =~= Seq::<ProofPlanMetadata>::empty());
    assert(issue_views(issues@) =~= start + differing_issues(d.take(0), derefs(others@), key@, code@, message@));
    while i < ps.len()
        invariant
            d == derefs(ps@),
            i <= ps@.len(),
            issue_views(issues@) == start + differing_issues(d.take(i as int), derefs(others@), key@, code@, message@),
        decreases ps@.len() - i,
    {
        proof {
            assert(d.take(i + 1).drop_last() =~= d.take(i as int));
            assert(d.take(i + 1).last() == d[i as int]);
        }
        let p = ps[i];
        let id = identity_key_exec(p);
        if str_eq(id.as_str(), key) && !has_same_exec(others, p) {
            push_error(issues, code, p.origin.as_str(), p.feature.as_str(), message);
            assert(issue_views(issues@) =~= start + differing_issues(d.take(i + 1), derefs(others@), key@, code@, message@));
        }
        i += 1;
    }
    assert(d.take(ps@.len() as int) =~= d);
}

fn push_local_consistency(
    issues: &mut Vec<ProofPlanSoundnessIssue>,
    local: &Vec<&ProofPlanMetadata>,
    runtime: &Vec<&ProofPlanMetadata>,
    local_ids: &Vec<String>,
    runtime_ids: &Vec<String>,
)
    requires
        texts(local_ids@) == identity_keys(derefs(local@)),
        texts(runtime_ids@) == identity_keys(derefs(runtime@)),
    ensures
        issue_views(final(issues)@) == issue_views(old(issues)@) + local_consistency_issues(
            sorted_keys(identity_keys(derefs(local@)).to_set()),
            derefs(local@),
            derefs(runtime@),
        ),
{
    let ks = sorted_texts(local_ids);
    proof {
        lemma_sorted_keys(texts(ks@), texts(local_ids@).to_set());
    }
    let ghost start = issue_views(issues@);
    let ghost sk = texts(ks@);
    let mut i: usize = 0;
    assert(sk.take(0) =~= Seq::<Seq<char>>::empty());
    assert(issue_views(issues@) =~= start + local_consistency_issues(sk.take(0), derefs(local@), derefs(runtime@)));
    while i < ks.len()
        invariant
            sk == texts(ks@),
            texts(runtime_ids@) == identity_keys(derefs(runtime@)),
            i <= ks@.len(),
            issue_views(issues@) == start + local_consistency_issues(sk.take(i as int), derefs(local@), derefs(runtime@)),
        decreases ks@.len() - i,
    {
        proof {
            assert(sk.take(i + 1).drop_last() =~= sk.take(i as int));
            assert(sk.take(i + 1).last() == sk[i as int]);
            reveal_strlit("local ProofPlan record with status '");
            reveal_strlit("' is missing from runtime.proof_plan");
        }
        let k = ks[i].as_str();
        let ghost mid = issue_views(issues@);
        if !has_key(runtime_ids, k) {
            let origin = key_part_exec(k, 0);
            let feature = key_part_exec(k, 1);
            let status = key_part_exec(k, 2);
            let mut m = concat3("local ProofPlan record with status '", status.as_str(), "' is missing from runtime.proof_plan");
            push_error(issues, "PP0401", origin.as_str(), feature.as_str(), m.as_str());
        } else {
            push_differing(
                issues,
                local,
                runtime,
                k,
                "PP0403",
                "local ProofPlan record differs from runtime.proof_plan in trigger, scope, reads, coverage, assumptions, detail, or codegen coverage",
            );
        }
        assert(issue_views(issues@) =~= start + local_consistency_issues(sk.take(i + 1), derefs(local@), derefs(runtime@)));
        i += 1;
    }
    assert(sk.take(ks@.len() as int) =~= sk);
}

fn push_runtime_consistency(
    issues: &mut Vec<ProofPlanSoundnessIssue>,
    local: &Vec<&ProofPlanMetadata>,
    runtime: &Vec<&ProofPlanMetadata>,
    local_ids: &Vec<String>,
    runtime_ids: &Vec<String>,
)
    requires
        texts(local_ids@) == identity_keys(derefs(local@)),
        texts(runtime_ids@) == identity_keys(derefs(runtime@)),
    ensures
        issue_views(final(issues)@) == issue_views(old(issues)@) + runtime_consistency_issues(
            sorted_keys(identity_keys(derefs(runtime@)).to_set()),
            derefs(local@),
            derefs(runtime@),
        ),
{
    let ks = sorted_texts(runtime_ids);
    proof {
        lemma_sorted_keys(texts(ks@), texts(runtime_ids@).to_set());
    }
    let ghost start = issue_views(issues@);
    let ghost sk = texts(ks@);
    let mut i: usize = 0;
    assert(sk.take(0) =~= Seq::<Seq<char>>::empty());
    assert(issue_views(issues@) =~= start + runtime_consistency_issues(sk.take(0), derefs(local@), derefs(runtime@)));
    while i < ks.len()
        invariant
            sk == texts(ks@),
            texts(local_ids@) == identity_keys(derefs(local@)),
            i <= ks@.len(),
            issue_views(issues@) == start + runtime_consistency_issues(sk.take(i as int), derefs(local@), derefs(runtime@)),
        decreases ks@.len() - i,
    {
        proof {
            assert(sk.take(i + 1).drop_last() =~= sk.take(i as int));
            assert(sk.take(i + 1).last() == sk[i as int]);
            reveal_strlit("runtime ProofPlan record with status '");
            reveal_strlit("' is missing from local action/function/lock metadata");
        }
        let k = ks[i].as_str();
        let origin = key_part_exec(k, 0);
        if str_starts_with(origin.as_str(), "invariant:") || str_starts_with(origin.as_str(), "validity:") {
        } else if !has_key(local_ids, k) {
            let feature = key_part_exec(k, 1);
            let status = key_part_exec(k, 2);
            let mut m = concat3("runtime ProofPlan record with status '", status.as_str(), "' is missing from local action/function/lock metadata");
            push_error(issues, "PP0402", origin.as_str(), feature.as_str(), m.as_str());
        } else {
            push_differing(
                issues,
                runtime,
                local,
                k,
                "PP0404",
                "runtime ProofPlan record differs from local action/function/lock metadata in trigger, scope, reads, coverage, assumptions, detail, or codegen coverage",
            );
        }
        assert(issue_views(issues@) =~= start + runtime_consistency_issues(sk.take(i + 1), derefs(local@), derefs(runtime@)));
        i += 1;
    }
    assert(sk.take(ks@.len() as int) =~= sk);
}

proof fn lemma_extend_views(now: Seq<ProofPlanSoundnessIssue>, before: Seq<ProofPlanSoundnessIssue>, plan: ProofPlanMetadata, expected: Seq<PlanIssue>)
    requires
        issues_extend(now, before, plan, expected),
    ensures
        issue_views(now) == issue_views(before) + expected.map_values(|e: PlanIssue| error_issue(e.0, plan.origin@, plan.feature@, e.1)),
{
    let rhs = issue_views(before) + expected.map_values(|e: PlanIssue| error_issue(e.0, plan.origin@, plan.feature@, e.1));
    assert forall|k: int| 0 <= k < now.len() implies #[trigger] issue_views(now)[k] == rhs[k] by {
        if k >= before.len() {
            assert(issue_matches(now[before.len() + (k - before.len())], plan, expected[k - before.len()]));
        }
    }
    assert(issue_views(now) =~= rhs);
}

/// Whether some issue is an error.
pub open spec fn has_error(issues: Seq<ProofPlanSoundnessIssue>) -> bool {
    exists|i: int| 0 <= i < issues.len() && (#[trigger] issues[i]).severity@ == "error"@
}

fn refs_of(ps: &Vec<ProofPlanMetadata>) -> (r: Vec<&ProofPlanMetadata>)
    ensures
        derefs(r@) == ps@,
{
    let mut out: Vec<&ProofPlanMetadata> = Vec::new();
    let mut i: usize = 0;
    while i < ps.len()
        invariant
            i <= ps@.len(),
            derefs(out@) == ps@.take(i as int),
        decreases ps@.len() - i,
    {
        let ghost b = out@;
        out.push(&ps[i]);
        assert(derefs(out@) =~= ps@.take(i + 1)) by {
            assert(derefs(out@) =~= derefs(b).push(ps@[i as int]));
        }
        i += 1;
    }
    assert(ps@.take(ps@.len() as int) =~= ps@);
    out
}

fn plan_key_lists(ps: &Vec<ProofPlanMetadata>) -> (r: (Vec<String>, Vec<String>, Vec<String>))
    ensures
        texts(r.0@) == ps@.map_values(|p: ProofPlanMetadata| plan_key(p)),
        texts(r.1@) == ps@.map_values(|p: ProofPlanMetadata| p.origin@),
        texts(r.2@) == ps@.map_values(|p: ProofPlanMetadata| p.feature@),
        r.0@.len() == ps@.len(),
        r.1@.len() == ps@.len(),
        r.2@.len() == ps@.len(),
{
    let mut keys: Vec<String> = Vec::new();
    let mut origins: Vec<String> = Vec::new();
    let mut features: Vec<String> = Vec::new();
    let mut i: usize = 0;
    while i < ps.len()
        invariant
            i <= ps@.len(),
            texts(keys@) == ps@.map_values(|p: ProofPlanMetadata| plan_key(p)).take(i as int),
            texts(origins@) == ps@.map_values(|p: ProofPlanMetadata| p.origin@).take(i as int),
            texts(features@) == ps@.map_values(|p: ProofPlanMetadata| p.feature@).take(i as int),
        decreases ps@.len() - i,
    {
        let p = &ps[i];
        let ghost (k0, o0, f0) = (keys@, origins@, features@);
        keys.push(join_key(p.origin.as_str(), p.category.as_str(), p.feature.as_str(), p.status.as_str(), p.detail.as_str()));
        origins.push(p.origin.clone());
        features.push(p.feature.clone());
        proof {
            assert(texts(keys@) =~= texts(k0).push(plan_key(*p)));
            assert(texts(origins@) =~= texts(o0).push(p.origin@));
            assert(texts(features@) =~= texts(f0).push(p.feature@));
            assert(texts(keys@) =~= ps@.map_values(|p: ProofPlanMetadata| plan_key(p)).take(i + 1));
            assert(texts(origins@) =~= ps@.map_values(|p: ProofPlanMetadata| p.origin@).take(i + 1));
            assert(texts(features@) =~= ps@.map_values(|p: ProofPlanMetadata| p.feature@).take(i + 1));
        }
        i += 1;
    }
    proof {
        assert(ps@.map_values(|p: ProofPlanMetadata| plan_key(p)).take(ps@.len() as int) =~= ps@.map_values(|p: ProofPlanMetadata| plan_key(p)));
        assert(ps@.map_values(|p: ProofPlanMetadata| p.origin@).take(ps@.len() as int) =~= ps@.map_values(|p: ProofPlanMetadata| p.origin@));
        assert(ps@.map_values(|p: ProofPlanMetadata| p.feature@).take(ps@.len() as int) =~= ps@.map_values(|p: ProofPlanMetadata| p.feature@));
    }
    (keys, origins, features)
}

fn obligation_key_lists(os: &Vec<VerifierObligationMetadata>) -> (r: (Vec<String>, Vec<String>, Vec<String>))
    ensures
        texts(r.0@) == os@.map_values(|o: VerifierObligationMetadata| obligation_record_key(o)),
        texts(r.1@) == os@.map_values(|o: VerifierObligationMetadata| o.scope@),
        texts(r.2@) == os@.map_values(|o: VerifierObligationMetadata| o.feature@),
        r.0@.len() == os@.len(),
        r.1@.len() == os@.len(),
        r.2@.len() == os@.len(),
{
    let mut keys: Vec<String> = Vec::new();
    let mut scopes: Vec<String> = Vec::new();
    let mut features: Vec<String> = Vec::new();
    let mut i: usize = 0;
    while i < os.len()
        invariant
            i <= os@.len(),
            texts(keys@) == os@.map_values(|o: VerifierObligationMetadata| obligation_record_key(o)).take(i as int),
            texts(scopes@) == os@.map_values(|o: VerifierObligationMetadata| o.scope@).take(i as int),
            texts(features@) == os@.map_values(|o: VerifierObligationMetadata| o.feature@).take(i as int),
        decreases os@.len() - i,
    {
        let o = &os[i];
        let ghost (k0, s0, f0) = (keys@, scopes@, features@);
        keys.push(join_key(o.scope.as_str(), o.category.as_str(), o.feature.as_str(), o.status.as_str(), o.detail.as_str()));
        scopes.push(o.scope.clone());
        features.push(o.feature.clone());
        proof {
            assert(texts(keys@) =~= texts(k0).push(obligation_record_key(*o)));
            assert(texts(scopes@) =~= texts(s0).push(o.scope@));
            assert(texts(features@) =~= texts(f0).push(o.feature@));
            assert(texts(keys@) =~= os@.map_values(|o: VerifierObligationMetadata| obligation_record_key(o)).take(i + 1));
            assert(texts(scopes@) =~= os@.map_values(|o: VerifierObligationMetadata| o.scope@).take(i + 1));
            assert(texts(features@) =~= os@.map_values(|o: VerifierObligationMetadata| o.feature@).take(i + 1));
        }
        i += 1;
    }
    proof {
        assert(os@.map_values(|o: VerifierObligationMetadata| obligation_record_key(o)).take(os@.len() as int) =~= os@.map_values(
            |o: VerifierObligationMetadata| obligation_record_key(o),
        ));
        assert(os@.map_values(|o: VerifierObligationMetadata| o.scope@).take(os@.len() as int) =~= os@.map_values(|o: VerifierObligationMetadata| o.scope@));
        assert(os@.map_values(|o: VerifierObligationMetadata| o.feature@).take(os@.len() as int) =~= os@.map_values(
            |o: VerifierObligationMetadata| o.feature@,
        ));
    }
    (keys, scopes, features)
}

fn push_unmatched_obligations(issues: &mut Vec<ProofPlanSoundnessIssue>, os: &Vec<VerifierObligationMetadata>, okeys: &Vec<String>, pkeys: &Vec<String>)
    requires
        texts(okeys@) == os@.map_values(|o: VerifierObligationMetadata| obligation_record_key(o)),
    ensures
        issue_views(final(issues)@) == issue_views(old(issues)@) + unmatched_obligation_issues(os@, texts(pkeys@).to_set()),
{
    let ghost start = issue_views(issues@);
    let mut i: usize = 0;
    assert(texts(okeys@).len() == okeys@.len());
    assert(os@.take(0) =~= Seq::<VerifierObligationMetadata>::empty());
    assert(issue_views(issues@) =~= start + unmatched_obligation_issues(os@.take(0), texts(pkeys@).to_set()));
    while i < os.len()
        invariant
            i <= os@.len(),
            okeys@.len() == os@.len(),
            texts(okeys@) == os@.map_values(|o: VerifierObligationMetadata| obligation_record_key(o)),
            issue_views(issues@) == start + unmatched_obligation_issues(os@.take(i as int), texts(pkeys@).to_set()),
        decreases os@.len() - i,
    {
        proof {
            assert(os@.take(i + 1).drop_last() =~= os@.take(i as int));
            assert(os@.take(i + 1).last() == os@[i as int]);
            reveal_strlit("runtime verifier obligation has no matching ProofPlan record with the same origin/scope, category, feature, status, and detail");
            assert(texts(okeys@)[i as int] == obligation_record_key(os@[i as int]));
        }
        if !has_key(pkeys, okeys[i].as_str()) {
            push_error(
                issues,
                "PP0002",
                os[i].scope.as_str(),
                os[i].feature.as_str(),
                "runtime verifier obligation has no matching ProofPlan record with the same origin/scope, category, feature, status, and detail",
            );
        }
        assert(issue_views(issues@) =~= start + unmatched_obligation_issues(os@.take(i + 1), texts(pkeys@).to_set()));
        i += 1;
    }
    assert(os@.take(os@.len() as int) =~= os@);
}

fn push_record_issues(issues: &mut Vec<ProofPlanSoundnessIssue>, ps: &Vec<ProofPlanMetadata>, strict: bool)
    ensures
        issue_views(final(issues)@) == issue_views(old(issues)@) + record_issues(ps@, strict),
{
    let ghost start = issue_views(issues@);
    let mut i: usize = 0;
    assert(ps@.take(0) =~= Seq::<ProofPlanMetadata>::empty());
    assert(issue_views(issues@) =~= start + record_issues(ps@.take(0), strict));
    while i < ps.len()
        invariant
            i <= ps@.len(),
            issue_views(issues@) == start + record_issues(ps@.take(i as int), strict),
        decreases ps@.len() - i,
    {
        proof {
            assert(ps@.take(i + 1).drop_last() =~= ps@.take(i as int));
            assert(ps@.take(i + 1).last() == ps@[i as int]);
        }
        let ghost before = issues@;
        check_plan_record(&ps[i], strict, issues);
        proof {
            lemma_extend_views(issues@, before, ps@[i as int], plan_issue_list(ps@[i as int], strict));
            assert(issue_views(issues@) =~= start + record_issues(ps@.take(i + 1), strict));
        }
        i += 1;
    }
    assert(ps@.take(ps@.len() as int) =~= ps@);
}

/// Checks compile metadata's ProofPlan: the runtime plan must cover the runtime verifier
/// obligations one to one, record and obligation keys must not repeat, the records kept with
/// actions, functions and locks must agree with the runtime plan, and each runtime record must
/// pass its own checks. The report lists every issue found, in that order.
pub fn check_metadata(metadata: &CompileMetadata, strict: bool) -> (r: ProofPlanSoundnessReport)
    ensures
        issue_views(r.issues@) == metadata_issues(*metadata, strict),
        r.status@ == (if has_error(r.issues@) {
            "failed"@
        } else {
            "passed"@
        }),
        r.strict == strict,
        r.checked_records == metadata.runtime.proof_plan@.len(),
        r.checked_obligations == metadata.runtime.verifier_obligations@.len(),
        r.issue_count == r.issues@.len(),
{
    proof {
        reveal_strlit("runtime verifier obligations exist but runtime.proof_plan is empty");
        reveal_strlit("runtime");
        reveal_strlit("*");
        reveal_strlit("failed");
        reveal_strlit("passed");
        reveal_strlit("error");
    }
    let plans = &metadata.runtime.proof_plan;
    let obligations = &metadata.runtime.verifier_obligations;
    let mut issues: Vec<ProofPlanSoundnessIssue> = Vec::new();
    if plans.len() == 0 && obligations.len() > 0 {
        push_error(&mut issues, "PP0001", "runtime", "*", "runtime verifier obligations exist but runtime.proof_plan is empty");
    }
    let ghost empty_part = issue_views(issues@);
    let (pkeys, porigins, pfeatures) = plan_key_lists(plans);
    push_duplicates(&mut issues, &pkeys, &porigins, &pfeatures, "PP0003", "ProofPlan obligation key");
    let (okeys, oscopes, ofeatures) = obligation_key_lists(obligations);
    push_duplicates(&mut issues, &okeys, &oscopes, &ofeatures, "PP0004", "runtime verifier obligation key");
    push_unmatched_obligations(&mut issues, obligations, &okeys, &pkeys);
    let mut local: Vec<&ProofPlanMetadata> = Vec::new();
    append_entry_plans(&mut local, &metadata.actions);
    append_entry_plans(&mut local, &metadata.functions);
    append_entry_plans(&mut local, &metadata.locks);
    assert(derefs(local@) =~= local_plans(*metadata));
    let runtime = refs_of(plans);
    let local_ids = identity_keys_of(&local);
    let runtime_ids = identity_keys_of(&runtime);
    push_local_consistency(&mut issues, &local, &runtime, &local_ids, &runtime_ids);
    push_runtime_consistency(&mut issues, &local, &runtime, &local_ids, &runtime_ids);
    push_record_issues(&mut issues, plans, strict);
    proof {
        assert(empty_part =~= (if plans@.len() == 0 && obligations@.len() > 0 {
            seq![error_issue("PP0001"@, "runtime"@, "*"@, "runtime verifier obligations exist but runtime.proof_plan is empty"@)]
        } else {
            Seq::<IssueView>::empty()
        }));
        assert(issue_views(issues@) =~= metadata_issues(*metadata, strict));
    }
    let mut any_error = false;
    let mut i: usize = 0;
    while i < issues.len()
        invariant
            i <= issues@.len(),
            any_error == exists|j: int| 0 <= j < i && (#[trigger] issues@[j]).severity@ == "error"@,
        decreases issues@.len() - i,
    {
        if str_eq(issues[i].severity.as_str(), "error") {
            any_error = true;
        }
        i += 1;
    }
    let status = if any_error {
        "failed"
    } else {
        "passed"
    };
    let issue_count = issues.len();
    ProofPlanSoundnessReport {
        status: status.to_owned(),
        strict,
        checked_records: plans.len(),
        checked_obligations: obligations.len(),
        issue_count,
        issues,
    }
}

/// The lines a failed check lists, one per error issue in order: `code origin:feature - message`.
pub open spec fn error_lines(issues: Seq<IssueView>) -> Seq<Seq<char>>
    decreases issues.len(),
{
    if issues.len() == 0 {
        Seq::empty()
    } else {
        let prev = error_lines(issues.drop_last());
        let i = issues.last();
        if i.0 == "error"@ {
            prev.push(i.1 + " "@ + i.2 + ":"@ + i.3 + " - "@ + i.4)
        } else {
            prev
        }
    }
}

/// Lines joined with a separator.
pub open spec fn joined(lines: Seq<Seq<char>>, sep: Seq<char>) -> Seq<char>
    decreases lines.len(),
{
    if lines.len() == 0 {
        Seq::empty()
    } else if lines.len() == 1 {
        lines[0]
    } else {
        joined(lines.drop_last(), sep) + sep + lines.last()
    }
}

/// Some issue is an error.
pub open spec fn has_error_view(issues: Seq<IssueView>) -> bool {
    exists|i: int| 0 <= i < issues.len() && (#[trigger] issues[i]).0 == "error"@
}

/// Checks compile metadata's ProofPlan and fails, listing every error issue, where the check
/// finds one.
pub fn validate_metadata(metadata: &CompileMetadata, strict: bool) -> (r: Result<()>)
    ensures
        has_error_view(metadata_issues(*metadata, strict)) ==> (r matches Err(e) && e.message@
            == "ProofPlan soundness check failed:\n  - "@ + joined(error_lines(metadata_issues(*metadata, strict)), "\n  - "@)),
        !has_error_view(metadata_issues(*metadata, strict)) ==> r is Ok,
{
    proof {
        reveal_strlit("passed");
        reveal_strlit("failed");
        reveal_strlit("error");
        reveal_strlit(" ");
        reveal_strlit(":");
        reveal_strlit(" - ");
        reveal_strlit("\n  - ");
        reveal_strlit("ProofPlan soundness check failed:\n  - ");
    }
    let report = check_metadata(metadata, strict);
    let ghost views = issue_views(report.issues@);
    proof {
        if has_error(report.issues@) {
            let j = choose|j: int| 0 <= j < report.issues@.len() && (#[trigger] report.issues@[j]).severity@ == "error"@;
            assert(views[j].0 == "error"@);
        }
        if has_error_view(views) {
            let j = choose|j: int| 0 <= j < views.len() && (#[trigger] views[j]).0 == "error"@;
            assert(report.issues@[j].severity@ == "error"@);
        }
        assert("passed"@ != "failed"@) by {
            assert("passed"@[0] != "failed"@[0]);
        }
    }
    if str_eq(report.status.as_str(), "passed") {
        return Ok(());
    }
    let mut m = String::new();
    let mut count: usize = 0;
    let mut i: usize = 0;
    assert(views.take(0) =~= Seq::<IssueView>::empty());
    while i < report.issues.len()
        invariant
            views == issue_views(report.issues@),
            i <= report.issues@.len(),
            count == error_lines(views.take(i as int)).len(),
            count <= i,
            m@ == joined(error_lines(views.take(i as int)), "\n  - "@),
        decreases report.issues@.len() - i,
    {
        proof {
            assert(views.take(i + 1).drop_last() =~= views.take(i as int));
            assert(views.take(i + 1).last() == views[i as int]);
            reveal_strlit("error");
            reveal_strlit(" ");
            reveal_strlit(":");
            reveal_strlit(" - ");
            reveal_strlit("\n  - ");
        }
        let issue = &report.issues[i];
        let ghost el = error_lines(views.take(i as int));
        if str_eq(issue.severity.as_str(), "error") {
            let ghost line = issue.code@ + " "@ + issue.origin@ + ":"@ + issue.feature@ + " - "@ + issue.message@;
            assert(error_lines(views.take(i + 1)) == el.push(line));
            assert(el.push(line).drop_last() =~= el);
            if count > 0 {
                m.append("\n  - ");
            }
            m.append(issue.code.as_str());
            m.append(" ");
            m.append(issue.origin.as_str());
            m.append(":");
            m.append(issue.feature.as_str());
            m.append(" - ");
            m.append(issue.message.as_str());
            count += 1;
        } else {
            assert(error_lines(views.take(i + 1)) == el);
        }
        i += 1;
    }
    assert(views.take(report.issues@.len() as int) =~= views);
    let full = concat2("ProofPlan soundness check failed:\n  - ", m.as_str());
    Err(CompileError::without_span(full.as_str()))
}

/// Every issue of the list is an error.
pub open spec fn all_errors(s: Seq<IssueView>) -> bool {
    forall|i: int| 0 <= i < s.len() ==> (#[trigger] s[i]).0 == "error"@
}

proof fn lemma_all_errors_concat(a: Seq<IssueView>, b: Seq<IssueView>)
    requires
        all_errors(a),
        all_errors(b),
    ensures
        all_errors(a + b),
{
    assert forall|i: int| 0 <= i < (a + b).len() implies (#[trigger] (a + b)[i]).0 == "error"@ by {
        if i >= a.len() {
            assert((a + b)[i] == b[i - a.len()]);
        }
    }
}

proof fn lemma_duplicate_issues_errors(
    ks: Seq<Seq<char>>,
    keys: Seq<Seq<char>>,
    origins: Seq<Seq<char>>,
    features: Seq<Seq<char>>,
    code: Seq<char>,
    what: Seq<char>,
)
    ensures
        all_errors(duplicate_issues(ks, keys, origins, features, code, what)),
    decreases ks.len(),
{
    if ks.len() > 0 {
        lemma_duplicate_issues_errors(ks.drop_last(), keys, origins, features, code, what);
    }
}

proof fn lemma_unmatched_errors(os: Seq<VerifierObligationMetadata>, keys: Set<Seq<char>>)
    ensures
        all_errors(unmatched_obligation_issues(os, keys)),
    decreases os.len(),
{
    if os.len() > 0 {
        lemma_unmatched_errors(os.drop_last(), keys);
    }
}

proof fn lemma_differing_errors(ps: Seq<ProofPlanMetadata>, others: Seq<ProofPlanMetadata>, key: Seq<char>, code: Seq<char>, message: Seq<char>)
    ensures
        all_errors(differing_issues(ps, others, key, code, message)),
    decreases ps.len(),
{
    if ps.len() > 0 {
        lemma_differing_errors(ps.drop_last(), others, key, code, message);
    }
}

proof fn lemma_local_consistency_errors(ks: Seq<Seq<char>>, local: Seq<ProofPlanMetadata>, runtime: Seq<ProofPlanMetadata>)
    ensures
        all_errors(local_consistency_issues(ks, local, runtime)),
    decreases ks.len(),
{
    if ks.len() > 0 {
        lemma_local_consistency_errors(ks.drop_last(), local, runtime);
        let k = ks.last();
        lemma_differing_errors(
            local,
            runtime,
            k,
            "PP0403"@,
            "local ProofPlan record differs from runtime.proof_plan in trigger, scope, reads, coverage, assumptions, detail, or codegen coverage"@,
        );
        lemma_all_errors_concat(
            local_consistency_issues(ks.drop_last(), local, runtime),
            differing_issues(
                local,
                runtime,
                k,
                "PP0403"@,
                "local ProofPlan record differs from runtime.proof_plan in trigger, scope, reads, coverage, assumptions, detail, or codegen coverage"@,
            ),
        );
    }
}

proof fn lemma_runtime_consistency_errors(ks: Seq<Seq<char>>, local: Seq<ProofPlanMetadata>, runtime: Seq<ProofPlanMetadata>)
    ensures
        all_errors(runtime_consistency_issues(ks, local, runtime)),
    decreases ks.len(),
{
    if ks.len() > 0 {
        lemma_runtime_consistency_errors(ks.drop_last(), local, runtime);
        let k = ks.last();
        lemma_differing_errors(
            runtime,
            local,
            k,
            "PP0404"@,
            "runtime ProofPlan record differs from local action/function/lock metadata in trigger, scope, reads, coverage, assumptions, detail, or codegen coverage"@,
        );
        lemma_all_errors_concat(
            runtime_consistency_issues(ks.drop_last(), local, runtime),
            differing_issues(
                runtime,
                local,
                k,
                "PP0404"@,
                "runtime ProofPlan record differs from local action/function/lock metadata in trigger, scope, reads, coverage, assumptions, detail, or codegen coverage"@,
            ),
        );
    }
}

proof fn lemma_record_issues_errors(ps: Seq<ProofPlanMetadata>, strict: bool)
    ensures
        all_errors(record_issues(ps, strict)),
    decreases ps.len(),
{
    if ps.len() > 0 {
        lemma_record_issues_errors(ps.drop_last(), strict);
        let tail = plan_issue_list(ps.last(), strict).map_values(
            |e: PlanIssue| error_issue(e.0, ps.last().origin@, ps.last().feature@, e.1),
        );
        assert(all_errors(tail));
        lemma_all_errors_concat(record_issues(ps.drop_last(), strict), tail);
    }
}

/// Every issue a soundness check reports is an error, so a report passes exactly when it lists
/// no issue.
pub proof fn lemma_metadata_issues_are_errors(m: CompileMetadata, strict: bool)
    ensures
        all_errors(metadata_issues(m, strict)),
        has_error_view(metadata_issues(m, strict)) <==> metadata_issues(m, strict).len() > 0,
{
    let plans = m.runtime.proof_plan@;
    let obligations = m.runtime.verifier_obligations@;
    let pkeys = plans.map_values(|p: ProofPlanMetadata| plan_key(p));
    let okeys = obligations.map_values(|o: VerifierObligationMetadata| obligation_record_key(o));
    let local = local_plans(m);
    let empty = if plans.len() == 0 && obligations.len() > 0 {
        seq![error_issue("PP0001"@, "runtime"@, "*"@, "runtime verifier obligations exist but runtime.proof_plan is empty"@)]
    } else {
        Seq::empty()
    };
    let d1 = duplicate_issues(
        sorted_keys(pkeys.to_set()),
        pkeys,
        plans.map_values(|p: ProofPlanMetadata| p.origin@),
        plans.map_values(|p: ProofPlanMetadata| p.feature@),
        "PP0003"@,
        "ProofPlan obligation key"@,
    );
    let d2 = duplicate_issues(
        sorted_keys(okeys.to_set()),
        okeys,
        obligations.map_values(|o: VerifierObligationMetadata| o.scope@),
        obligations.map_values(|o: VerifierObligationMetadata| o.feature@),
        "PP0004"@,
        "runtime verifier obligation key"@,
    );
    let u = unmatched_obligation_issues(obligations, pkeys.to_set());
    let lc = local_consistency_issues(sorted_keys(identity_keys(local).to_set()), local, plans);
    let rc = runtime_consistency_issues(sorted_keys(identity_keys(plans).to_set()), local, plans);
    let ri = record_issues(plans, strict);
    assert(all_errors(empty));
    lemma_duplicate_issues_errors(
        sorted_keys(pkeys.to_set()),
        pkeys,
        plans.map_values(|p: ProofPlanMetadata| p.origin@),
        plans.map_values(|p: ProofPlanMetadata| p.feature@),
        "PP0003"@,
        "ProofPlan obligation key"@,
    );
    lemma_duplicate_issues_errors(
        sorted_keys(okeys.to_set()),
        okeys,
        obligations.map_values(|o: VerifierObligationMetadata| o.scope@),
        obligations.map_values(|o: VerifierObligationMetadata| o.feature@),
        "PP0004"@,
        "runtime verifier obligation key"@,
    );
    lemma_unmatched_errors(obligations, pkeys.to_set());
    lemma_local_consistency_errors(sorted_keys(identity_keys(local).to_set()), local, plans);
    lemma_runtime_consistency_errors(sorted_keys(identity_keys(plans).to_set()), local, plans);
    lemma_record_issues_errors(plans, strict);
    lemma_all_errors_concat(empty, d1);
    lemma_all_errors_concat(empty + d1, d2);
    lemma_all_errors_concat(empty + d1 + d2, u);
    lemma_all_errors_concat(empty + d1 + d2 + u, lc);
    lemma_all_errors_concat(empty + d1 + d2 + u + lc, rc);
    lemma_all_errors_concat(empty + d1 + d2 + u + lc + rc, ri);
    let all = metadata_issues(m, strict);
    assert(all == empty + d1 + d2 + u + lc + rc + ri);
    if all.len() > 0 {
        assert(all[0].0 == "error"@);
    }
}

/// An issue that only strict mode reports.
pub open spec fn strict_only(i: PlanIssue) -> bool {
    i.0 == "PP0150"@ || i.0 == "PP0210"@
}

/// The issues of `s`, in order, without those only strict mode reports.
pub open spec fn lenient_part(s: Seq<PlanIssue>) -> Seq<PlanIssue>
    decreases s.len(),
{
    if s.len() == 0 {
        s
    } else if strict_only(s.last()) {
        lenient_part(s.drop_last())
    } else {
        lenient_part(s.drop_last()).push(s.last())
    }
}

proof fn lemma_lenient_step(t: Seq<PlanIssue>, f: Seq<PlanIssue>, ct: bool, cf: bool, code: Seq<char>, message: Seq<char>)
    requires
        lenient_part(t) == f,
        (code == "PP0150"@ || code == "PP0210"@) ==> !cf,
        !(code == "PP0150"@ || code == "PP0210"@) ==> ct == cf,
    ensures
        lenient_part(issue_step(t, ct, code, message)) == issue_step(f, cf, code, message),
{
    if ct {
        assert(t.push((code, message)).drop_last() =~= t);
    }
}

proof fn lemma_lenient_first(t: Seq<PlanIssue>, f: Seq<PlanIssue>, plan: ProofPlanMetadata)
    requires
        lenient_part(t) == f,
    ensures
        lenient_part(plan_issues_first(t, plan, true)) == plan_issues_first(f, plan, false),
{
    reveal_strlit("PP0150");
    reveal_strlit("PP0210");
    let checked = plan.on_chain_checked;
    let status = plan.status@;
    let coverage = plan.codegen_coverage_status@;
    reveal_strlit("PP0005");
    assert("PP0005"@[3] != "PP0150"@[3]);
    assert("PP0005"@[3] != "PP0210"@[3]);
    lemma_lenient_step(t, f, checked != plan.evidence_tier.spec_is_checked(), checked != plan.evidence_tier.spec_is_checked(), "PP0005"@, "ProofPlan evidence_tier must agree with on_chain_checked"@);
    let t0 = issue_step(t, checked != plan.evidence_tier.spec_is_checked(), "PP0005"@, "ProofPlan evidence_tier must agree with on_chain_checked"@);
    let f0 = issue_step(f, checked != plan.evidence_tier.spec_is_checked(), "PP0005"@, "ProofPlan evidence_tier must agree with on_chain_checked"@);
    reveal_strlit("PP0006");
    assert("PP0006"@[3] != "PP0150"@[3]);
    assert("PP0006"@[3] != "PP0210"@[3]);
    lemma_lenient_step(t0, f0, coverage == "gap:metadata-only"@ && plan.evidence_tier != EvidenceTier::MetadataOnly, coverage == "gap:metadata-only"@ && plan.evidence_tier != EvidenceTier::MetadataOnly, "PP0006"@, "metadata-only codegen gap must use evidence_tier='metadata-only'"@);
    let t1 = issue_step(t0, coverage == "gap:metadata-only"@ && plan.evidence_tier != EvidenceTier::MetadataOnly, "PP0006"@, "metadata-only codegen gap must use evidence_tier='metadata-only'"@);
    let f1 = issue_step(f0, coverage == "gap:metadata-only"@ && plan.evidence_tier != EvidenceTier::MetadataOnly, "PP0006"@, "metadata-only codegen gap must use evidence_tier='metadata-only'"@);
    reveal_strlit("PP0007");
    assert("PP0007"@[3] != "PP0150"@[3]);
    assert("PP0007"@[3] != "PP0210"@[3]);
    lemma_lenient_step(t1, f1, coverage == "gap:runtime-helper-required"@ && plan.evidence_tier != EvidenceTier::RuntimeHelperRequired, coverage == "gap:runtime-helper-required"@ && plan.evidence_tier != EvidenceTier::RuntimeHelperRequired, "PP0007"@, "runtime-helper codegen gap must use evidence_tier='runtime-helper-required'"@);
    let t2 = issue_step(t1, coverage == "gap:runtime-helper-required"@ && plan.evidence_tier != EvidenceTier::RuntimeHelperRequired, "PP0007"@, "runtime-helper codegen gap must use evidence_tier='runtime-helper-required'"@);
    let f2 = issue_step(f1, coverage == "gap:runtime-helper-required"@ && plan.evidence_tier != EvidenceTier::RuntimeHelperRequired, "PP0007"@, "runtime-helper codegen gap must use evidence_tier='runtime-helper-required'"@);
    reveal_strlit("PP0101");
    assert("PP0101"@[4] != "PP0150"@[4]);
    assert("PP0101"@[3] != "PP0210"@[3]);
    lemma_lenient_step(t2, f2, checked && status == "runtime-required"@, checked && status == "runtime-required"@, "PP0101"@, "ProofPlan marks a runtime-required obligation as on-chain checked"@);
    let t3 = issue_step(t2, checked && status == "runtime-required"@, "PP0101"@, "ProofPlan marks a runtime-required obligation as on-chain checked"@);
    let f3 = issue_step(f2, checked && status == "runtime-required"@, "PP0101"@, "ProofPlan marks a runtime-required obligation as on-chain checked"@);
    reveal_strlit("PP0102");
    assert("PP0102"@[4] != "PP0150"@[4]);
    assert("PP0102"@[3] != "PP0210"@[3]);
    lemma_lenient_step(t3, f3, checked && coverage != "covered"@, checked && coverage != "covered"@, "PP0102"@, "on-chain checked ProofPlan record must have codegen_coverage_status='covered'"@);
    let t4 = issue_step(t3, checked && coverage != "covered"@, "PP0102"@, "on-chain checked ProofPlan record must have codegen_coverage_status='covered'"@);
    let f4 = issue_step(f3, checked && coverage != "covered"@, "PP0102"@, "on-chain checked ProofPlan record must have codegen_coverage_status='covered'"@);
    reveal_strlit("PP0103");
    assert("PP0103"@[4] != "PP0150"@[4]);
    assert("PP0103"@[3] != "PP0210"@[3]);
    lemma_lenient_step(t4, f4, (status == "checked-runtime"@ || status == "checked-static"@ || status == "ckb-runtime"@) && !checked, (status == "checked-runtime"@ || status == "checked-static"@ || status == "ckb-runtime"@) && !checked, "PP0103"@, "checked ProofPlan status is not reflected in on_chain_checked"@);
    let t5 = issue_step(t4, (status == "checked-runtime"@ || status == "checked-static"@ || status == "ckb-runtime"@) && !checked, "PP0103"@, "checked ProofPlan status is not reflected in on_chain_checked"@);
    let f5 = issue_step(f4, (status == "checked-runtime"@ || status == "checked-static"@ || status == "ckb-runtime"@) && !checked, "PP0103"@, "checked ProofPlan status is not reflected in on_chain_checked"@);
    reveal_strlit("PP0104");
    assert("PP0104"@[4] != "PP0150"@[4]);
    assert("PP0104"@[3] != "PP0210"@[3]);
    lemma_lenient_step(t5, f5, has_prefix(coverage, "gap:"@) && checked, has_prefix(coverage, "gap:"@) && checked, "PP0104"@, "ProofPlan coverage gap cannot be marked on-chain checked"@);
    let t6 = issue_step(t5, has_prefix(coverage, "gap:"@) && checked, "PP0104"@, "ProofPlan coverage gap cannot be marked on-chain checked"@);
    let f6 = issue_step(f5, has_prefix(coverage, "gap:"@) && checked, "PP0104"@, "ProofPlan coverage gap cannot be marked on-chain checked"@);
    reveal_strlit("PP0150");
    lemma_lenient_step(t6, f6, true && (status == "runtime-required"@ || coverage == "gap:metadata-only"@ || plan.evidence_tier
            == EvidenceTier::MetadataOnly), false && (status == "runtime-required"@ || coverage == "gap:metadata-only"@ || plan.evidence_tier
            == EvidenceTier::MetadataOnly), "PP0150"@, "strict v0.16 ProofPlan mode rejects metadata-only or runtime-required obligations"@);
    let t7 = issue_step(t6, true && (status == "runtime-required"@ || coverage == "gap:metadata-only"@ || plan.evidence_tier
            == EvidenceTier::MetadataOnly), "PP0150"@, "strict v0.16 ProofPlan mode rejects metadata-only or runtime-required obligations"@);
    let f7 = issue_step(f6, false && (status == "runtime-required"@ || coverage == "gap:metadata-only"@ || plan.evidence_tier
            == EvidenceTier::MetadataOnly), "PP0150"@, "strict v0.16 ProofPlan mode rejects metadata-only or runtime-required obligations"@);
    reveal_strlit("PP0201");
    assert("PP0201"@[3] != "PP0150"@[3]);
    assert("PP0201"@[4] != "PP0210"@[4]);
    lemma_lenient_step(t7, f7, plan.lock_args_fields@.len() > 0 && !has_value(plan.reads@, "lock_args"@), plan.lock_args_fields@.len() > 0 && !has_value(plan.reads@, "lock_args"@), "PP0201"@, "ProofPlan exposes lock_args fields but reads does not include lock_args"@);
    let t8 = issue_step(t7, plan.lock_args_fields@.len() > 0 && !has_value(plan.reads@, "lock_args"@), "PP0201"@, "ProofPlan exposes lock_args fields but reads does not include lock_args"@);
    let f8 = issue_step(f7, plan.lock_args_fields@.len() > 0 && !has_value(plan.reads@, "lock_args"@), "PP0201"@, "ProofPlan exposes lock_args fields but reads does not include lock_args"@);
    reveal_strlit("PP0202");
    assert("PP0202"@[3] != "PP0150"@[3]);
    assert("PP0202"@[4] != "PP0210"@[4]);
    lemma_lenient_step(t8, f8, plan.witness_fields@.len() > 0 && !has_value(plan.reads@, "witness"@), plan.witness_fields@.len() > 0 && !has_value(plan.reads@, "witness"@), "PP0202"@, "ProofPlan exposes witness fields but reads does not include witness"@);
    let t9 = issue_step(t8, plan.witness_fields@.len() > 0 && !has_value(plan.reads@, "witness"@), "PP0202"@, "ProofPlan exposes witness fields but reads does not include witness"@);
    let f9 = issue_step(f8, plan.witness_fields@.len() > 0 && !has_value(plan.reads@, "witness"@), "PP0202"@, "ProofPlan exposes witness fields but reads does not include witness"@);
    assert(plan_issues_first(t, plan, true) == t9);
    assert(plan_issues_first(f, plan, false) == f9);
}

proof fn lemma_lenient_last(t: Seq<PlanIssue>, f: Seq<PlanIssue>, plan: ProofPlanMetadata)
    requires
        lenient_part(t) == f,
    ensures
        lenient_part(plan_issues_last(t, plan, true)) == plan_issues_last(f, plan, false),
{
    reveal_strlit("PP0150");
    reveal_strlit("PP0210");
    let checked = plan.on_chain_checked;
    let status = plan.status@;
    let coverage = plan.codegen_coverage_status@;
    reveal_strlit("PP0203");
    assert("PP0203"@[3] != "PP0150"@[3]);
    assert("PP0203"@[4] != "PP0210"@[4]);
    lemma_lenient_step(t, f, blank(plan.trigger@), blank(plan.trigger@), "PP0203"@, "ProofPlan trigger must not be empty"@);
    let t0 = issue_step(t, blank(plan.trigger@), "PP0203"@, "ProofPlan trigger must not be empty"@);
    let f0 = issue_step(f, blank(plan.trigger@), "PP0203"@, "ProofPlan trigger must not be empty"@);
    reveal_strlit("PP0204");
    assert("PP0204"@[3] != "PP0150"@[3]);
    assert("PP0204"@[4] != "PP0210"@[4]);
    lemma_lenient_step(t0, f0, blank(plan.scope@), blank(plan.scope@), "PP0204"@, "ProofPlan scope must not be empty"@);
    let t1 = issue_step(t0, blank(plan.scope@), "PP0204"@, "ProofPlan scope must not be empty"@);
    let f1 = issue_step(f0, blank(plan.scope@), "PP0204"@, "ProofPlan scope must not be empty"@);
    reveal_strlit("PP0205");
    assert("PP0205"@[3] != "PP0150"@[3]);
    assert("PP0205"@[4] != "PP0210"@[4]);
    lemma_lenient_step(t1, f1, blank(plan.group_cardinality@), blank(plan.group_cardinality@), "PP0205"@, "ProofPlan group_cardinality must not be empty"@);
    let t2 = issue_step(t1, blank(plan.group_cardinality@), "PP0205"@, "ProofPlan group_cardinality must not be empty"@);
    let f2 = issue_step(f1, blank(plan.group_cardinality@), "PP0205"@, "ProofPlan group_cardinality must not be empty"@);
    reveal_strlit("PP0206");
    assert("PP0206"@[3] != "PP0150"@[3]);
    assert("PP0206"@[4] != "PP0210"@[4]);
    lemma_lenient_step(t2, f2, checked && plan.reads@.len() == 0 && requires_concrete_reads(plan), checked && plan.reads@.len() == 0 && requires_concrete_reads(plan), "PP0206"@, "on-chain checked ProofPlan record must declare concrete reads"@);
    let t3 = issue_step(t2, checked && plan.reads@.len() == 0 && requires_concrete_reads(plan), "PP0206"@, "on-chain checked ProofPlan record must declare concrete reads"@);
    let f3 = issue_step(f2, checked && plan.reads@.len() == 0 && requires_concrete_reads(plan), "PP0206"@, "on-chain checked ProofPlan record must declare concrete reads"@);
    reveal_strlit("PP0207");
    assert("PP0207"@[3] != "PP0150"@[3]);
    assert("PP0207"@[4] != "PP0210"@[4]);
    lemma_lenient_step(t3, f3, checked && plan.coverage@.len() == 0, checked && plan.coverage@.len() == 0, "PP0207"@, "on-chain checked ProofPlan record must declare coverage evidence"@);
    let t4 = issue_step(t3, checked && plan.coverage@.len() == 0, "PP0207"@, "on-chain checked ProofPlan record must declare coverage evidence"@);
    let f4 = issue_step(f3, checked && plan.coverage@.len() == 0, "PP0207"@, "on-chain checked ProofPlan record must declare coverage evidence"@);
    reveal_strlit("PP0208");
    assert("PP0208"@[3] != "PP0150"@[3]);
    assert("PP0208"@[4] != "PP0210"@[4]);
    lemma_lenient_step(t4, f4, checked && plan.on_chain_checked_obligations@.len() == 0, checked && plan.on_chain_checked_obligations@.len() == 0, "PP0208"@, "on-chain checked ProofPlan record must list checked obligation labels"@);
    let t5 = issue_step(t4, checked && plan.on_chain_checked_obligations@.len() == 0, "PP0208"@, "on-chain checked ProofPlan record must list checked obligation labels"@);
    let f5 = issue_step(f4, checked && plan.on_chain_checked_obligations@.len() == 0, "PP0208"@, "on-chain checked ProofPlan record must list checked obligation labels"@);
    reveal_strlit("PP0209");
    assert("PP0209"@[3] != "PP0150"@[3]);
    assert("PP0209"@[4] != "PP0210"@[4]);
    lemma_lenient_step(t5, f5, checked && !has_value(plan.on_chain_checked_obligations@, obligation_label(plan)), checked && !has_value(plan.on_chain_checked_obligations@, obligation_label(plan)), "PP0209"@, "on-chain checked ProofPlan record is missing its category:feature=status obligation label"@);
    let t6 = issue_step(t5, checked && !has_value(plan.on_chain_checked_obligations@, obligation_label(plan)), "PP0209"@, "on-chain checked ProofPlan record is missing its category:feature=status obligation label"@);
    let f6 = issue_step(f5, checked && !has_value(plan.on_chain_checked_obligations@, obligation_label(plan)), "PP0209"@, "on-chain checked ProofPlan record is missing its category:feature=status obligation label"@);
    reveal_strlit("PP0210");
    lemma_lenient_step(t6, f6, true && has_prefix(plan.origin@, "invariant:"@) && plan.source_span is None, false && has_prefix(plan.origin@, "invariant:"@) && plan.source_span is None, "PP0210"@, "source-declared invariant ProofPlan records must carry a source span in strict mode"@);
    let t7 = issue_step(t6, true && has_prefix(plan.origin@, "invariant:"@) && plan.source_span is None, "PP0210"@, "source-declared invariant ProofPlan records must carry a source span in strict mode"@);
    let f7 = issue_step(f6, false && has_prefix(plan.origin@, "invariant:"@) && plan.source_span is None, "PP0210"@, "source-declared invariant ProofPlan records must carry a source span in strict mode"@);
    reveal_strlit("PP0211");
    assert("PP0211"@[3] != "PP0150"@[3]);
    assert("PP0211"@[5] != "PP0210"@[5]);
    lemma_lenient_step(t7, f7, plan.source_span matches Some(span) && (span.end <= span.start || span.line == 0), plan.source_span matches Some(span) && (span.end <= span.start || span.line == 0), "PP0211"@, "ProofPlan source span must have end > start and a one-based line"@);
    let t8 = issue_step(t7, plan.source_span matches Some(span) && (span.end <= span.start || span.line == 0), "PP0211"@, "ProofPlan source span must have end > start and a one-based line"@);
    let f8 = issue_step(f7, plan.source_span matches Some(span) && (span.end <= span.start || span.line == 0), "PP0211"@, "ProofPlan source span must have end > start and a one-based line"@);
    reveal_strlit("PP0301");
    assert("PP0301"@[3] != "PP0150"@[3]);
    assert("PP0301"@[3] != "PP0210"@[3]);
    lemma_lenient_step(t8, f8, checked && any_holds(plan.builder_assumptions@, "runtime-required"@, "metadata-only"@), checked && any_holds(plan.builder_assumptions@, "runtime-required"@, "metadata-only"@), "PP0301"@, "on-chain checked ProofPlan record carries unchecked runtime/metadata-only builder assumptions"@);
    let t9 = issue_step(t8, checked && any_holds(plan.builder_assumptions@, "runtime-required"@, "metadata-only"@), "PP0301"@, "on-chain checked ProofPlan record carries unchecked runtime/metadata-only builder assumptions"@);
    let f9 = issue_step(f8, checked && any_holds(plan.builder_assumptions@, "runtime-required"@, "metadata-only"@), "PP0301"@, "on-chain checked ProofPlan record carries unchecked runtime/metadata-only builder assumptions"@);
    assert(plan_issues_last(t, plan, true) == t9);
    assert(plan_issues_last(f, plan, false) == f9);
}

proof fn lemma_lenient_reads(t: Seq<PlanIssue>, f: Seq<PlanIssue>, expected: Seq<Seq<char>>, reads: Seq<String>)
    requires
        lenient_part(t) == f,
    ensures
        lenient_part(t + missing_read_issues(expected, reads)) == f + missing_read_issues(expected, reads),
    decreases expected.len(),
{
    reveal_strlit("PP0150");
    reveal_strlit("PP0210");
    if expected.len() == 0 {
        assert(t + missing_read_issues(expected, reads) =~= t);
        assert(f + missing_read_issues(expected, reads) =~= f);
    } else {
        let m = missing_read_issues(expected.drop_last(), reads);
        lemma_lenient_reads(t, f, expected.drop_last(), reads);
        let cond = !has_value(reads, expected.last());
        let msg = "cell-access ProofPlan source requires reads to include '"@ + expected.last() + "'"@;
        reveal_strlit("PP0212");
        assert("PP0212"@[3] != "PP0150"@[3]);
        assert("PP0212"@[5] != "PP0210"@[5]);
        lemma_lenient_step(t + m, f + m, cond, cond, "PP0212"@, msg);
        if cond {
            assert(t + m.push(("PP0212"@, msg)) =~= (t + m).push(("PP0212"@, msg)));
            assert(f + m.push(("PP0212"@, msg)) =~= (f + m).push(("PP0212"@, msg)));
        }
    }
}

/// Strict mode adds only its own issues: the issues a record draws without strict mode are
/// those it draws in strict mode, in the same order, without the PP0150 and PP0210 issues.
pub proof fn lemma_strict_adds_only_its_issues(plan: ProofPlanMetadata)
    ensures
        lenient_part(plan_issue_list(plan, true)) == plan_issue_list(plan, false),
{
    let empty = Seq::<PlanIssue>::empty();
    lemma_lenient_first(empty, empty, plan);
    let reads = missing_read_issues(expected_reads(plan), plan.reads@);
    lemma_lenient_reads(plan_issues_first(empty, plan, true), plan_issues_first(empty, plan, false), expected_reads(plan), plan.reads@);
    lemma_lenient_last(plan_issues_first(empty, plan, true) + reads, plan_issues_first(empty, plan, false) + reads, plan);
}

proof fn lemma_record_issues_are_errors(ps: Seq<ProofPlanMetadata>, strict: bool, i: int)
    requires
        0 <= i < record_issues(ps, strict).len(),
    ensures
        record_issues(ps, strict)[i].0 == "error"@,
    decreases ps.len(),
{
    let prev = record_issues(ps.drop_last(), strict);
    if i < prev.len() {
        lemma_record_issues_are_errors(ps.drop_last(), strict, i);
    }
}

proof fn lemma_record_issues_empty(ps: Seq<ProofPlanMetadata>, strict: bool)
    ensures
        record_issues(ps, strict).len() == 0 <==> forall|k: int|
            0 <= k < ps.len() ==> (#[trigger] plan_issue_list(ps[k], strict)).len() == 0,
    decreases ps.len(),
{
    if ps.len() > 0 {
        lemma_record_issues_empty(ps.drop_last(), strict);
        if record_issues(ps, strict).len() == 0 {
            assert forall|k: int| 0 <= k < ps.len() implies (#[trigger] plan_issue_list(ps[k], strict)).len() == 0 by {
                if k < ps.len() - 1 {
                    assert(ps.drop_last()[k] == ps[k]);
                }
            }
        } else {
            if forall|k: int| 0 <= k < ps.len() ==> (#[trigger] plan_issue_list(ps[k], strict)).len() == 0 {
                assert forall|k: int| 0 <= k < ps.drop_last().len() implies (#[trigger] plan_issue_list(ps.drop_last()[k], strict)).len() == 0 by {
                    assert(ps.drop_last()[k] == ps[k]);
                }
                assert(plan_issue_list(ps[ps.len() - 1], strict).len() == 0);
            }
        }
    }
}

/// Strict mode never passes metadata that the lenient check fails: where a strict check finds
/// no error, a lenient one finds none either.
pub proof fn lemma_strict_pass_implies_lenient_pass(m: CompileMetadata)
    ensures
        !has_error_view(metadata_issues(m, true)) ==> !has_error_view(metadata_issues(m, false)),
{
    let plans = m.runtime.proof_plan@;
    if !has_error_view(metadata_issues(m, true)) {
        let strict_records = record_issues(plans, true);
        assert(strict_records.len() == 0) by {
            if strict_records.len() > 0 {
                lemma_record_issues_are_errors(plans, true, 0);
                let all = metadata_issues(m, true);
                let idx = all.len() - strict_records.len();
                assert(all[idx] == strict_records[0]);
            }
        }
        lemma_record_issues_empty(plans, true);
        assert forall|k: int| 0 <= k < plans.len() implies (#[trigger] plan_issue_list(plans[k], false)).len() == 0 by {
            lemma_strict_adds_only_its_issues(plans[k]);
            assert(plan_issue_list(plans[k], true).len() == 0);
            assert(lenient_part(plan_issue_list(plans[k], true)) =~= plan_issue_list(plans[k], true));
        }
        lemma_record_issues_empty(plans, false);
        assert(record_issues(plans, false) =~= Seq::<IssueView>::empty());
        assert(metadata_issues(m, false) =~= metadata_issues(m, true));
    }
}

/// Whether one of `s` has the code `c`.
pub open spec fn has_code(s: Seq<PlanIssue>, c: Seq<char>) -> bool {
    exists|k: int| 0 <= k < s.len() && (#[trigger] s[k]).0 == c
}

proof fn lemma_code_step(s: Seq<PlanIssue>, cond: bool, code: Seq<char>, message: Seq<char>, c: Seq<char>)
    ensures
        has_code(issue_step(s, cond, code, message), c) <==> (has_code(s, c) || (cond && code == c)),
{
    if cond {
        let t = s.push((code, message));
        if has_code(s, c) {
            let k = choose|k: int| 0 <= k < s.len() && (#[trigger] s[k]).0 == c;
            assert(t[k] == s[k]);
        }
        if has_code(t, c) {
            let k = choose|k: int| 0 <= k < t.len() && (#[trigger] t[k]).0 == c;
            if k < s.len() {
                assert(t[k] == s[k]);
            }
        }
        if code == c {
            assert(t[s.len() as int].0 == c);
        }
    }
}

proof fn lemma_code_concat(a: Seq<PlanIssue>, b: Seq<PlanIssue>, c: Seq<char>)
    ensures
        has_code(a + b, c) <==> (has_code(a, c) || has_code(b, c)),
{
    if has_code(a, c) {
        let k = choose|k: int| 0 <= k < a.len() && (#[trigger] a[k]).0 == c;
        assert((a + b)[k] == a[k]);
    }
    if has_code(b, c) {
        let k = choose|k: int| 0 <= k < b.len() && (#[trigger] b[k]).0 == c;
        assert((a + b)[a.len() + k] == b[k]);
    }
    if has_code(a + b, c) {
        let k = choose|k: int| 0 <= k < (a + b).len() && (#[trigger] (a + b)[k]).0 == c;
        if k < a.len() {
            assert((a + b)[k] == a[k]);
        } else {
            assert((a + b)[k] == b[k - a.len()]);
        }
    }
}

proof fn lemma_first_codes(prefix: Seq<PlanIssue>, plan: ProofPlanMetadata, strict: bool, c: Seq<char>)
    requires
        c == "PP0005"@,
    ensures
        has_code(plan_issues_first(prefix, plan, strict), c) <==> (has_code(prefix, c) || plan.on_chain_checked
            != plan.evidence_tier.spec_is_checked()),
{
    reveal_strlit("PP0005");
    reveal_strlit("PP0006");
    reveal_strlit("PP0007");
    reveal_strlit("PP0101");
    reveal_strlit("PP0102");
    reveal_strlit("PP0103");
    reveal_strlit("PP0104");
    reveal_strlit("PP0150");
    reveal_strlit("PP0201");
    reveal_strlit("PP0202");
    reveal_strlit("PP0203");
    reveal_strlit("PP0204");
    reveal_strlit("PP0205");
    reveal_strlit("PP0206");
    reveal_strlit("PP0207");
    reveal_strlit("PP0208");
    reveal_strlit("PP0209");
    reveal_strlit("PP0210");
    reveal_strlit("PP0211");
    reveal_strlit("PP0212");
    reveal_strlit("PP0301");
    assert("PP0006"@[5] != "PP0005"@[5]);
    assert("PP0007"@[5] != "PP0005"@[5]);
    assert("PP0101"@[3] != "PP0005"@[3]);
    assert("PP0102"@[3] != "PP0005"@[3]);
    assert("PP0103"@[3] != "PP0005"@[3]);
    assert("PP0104"@[3] != "PP0005"@[3]);
    assert("PP0150"@[3] != "PP0005"@[3]);
    assert("PP0201"@[3] != "PP0005"@[3]);
    assert("PP0202"@[3] != "PP0005"@[3]);
    assert("PP0203"@[3] != "PP0005"@[3]);
    assert("PP0204"@[3] != "PP0005"@[3]);
    assert("PP0205"@[3] != "PP0005"@[3]);
    assert("PP0206"@[3] != "PP0005"@[3]);
    assert("PP0207"@[3] != "PP0005"@[3]);
    assert("PP0208"@[3] != "PP0005"@[3]);
    assert("PP0209"@[3] != "PP0005"@[3]);
    assert("PP0210"@[3] != "PP0005"@[3]);
    assert("PP0211"@[3] != "PP0005"@[3]);
    assert("PP0212"@[3] != "PP0005"@[3]);
    assert("PP0301"@[3] != "PP0005"@[3]);
    let checked = plan.on_chain_checked;
    let status = plan.status@;
    let coverage = plan.codegen_coverage_status@;
    let s0 = issue_step(prefix, checked != plan.evidence_tier.spec_is_checked(), "PP0005"@, "ProofPlan evidence_tier must agree with on_chain_checked"@);
    lemma_code_step(prefix, checked != plan.evidence_tier.spec_is_checked(), "PP0005"@, "ProofPlan evidence_tier must agree with on_chain_checked"@, c);
    let s1 = issue_step(s0, coverage == "gap:metadata-only"@ && plan.evidence_tier != EvidenceTier::MetadataOnly, "PP0006"@, "metadata-only codegen gap must use evidence_tier='metadata-only'"@);
    lemma_code_step(s0, coverage == "gap:metadata-only"@ && plan.evidence_tier != EvidenceTier::MetadataOnly, "PP0006"@, "metadata-only codegen gap must use evidence_tier='metadata-only'"@, c);
    let s2 = issue_step(s1, coverage == "gap:runtime-helper-required"@ && plan.evidence_tier != EvidenceTier::RuntimeHelperRequired, "PP0007"@, "runtime-helper codegen gap must use evidence_tier='runtime-helper-required'"@);
    lemma_code_step(s1, coverage == "gap:runtime-helper-required"@ && plan.evidence_tier != EvidenceTier::RuntimeHelperRequired, "PP0007"@, "runtime-helper codegen gap must use evidence_tier='runtime-helper-required'"@, c);
    let s3 = issue_step(s2, checked && status == "runtime-required"@, "PP0101"@, "ProofPlan marks a runtime-required obligation as on-chain checked"@);
    lemma_code_step(s2, checked && status == "runtime-required"@, "PP0101"@, "ProofPlan marks a runtime-required obligation as on-chain checked"@, c);
    let s4 = issue_step(s3, checked && coverage != "covered"@, "PP0102"@, "on-chain checked ProofPlan record must have codegen_coverage_status='covered'"@);
    lemma_code_step(s3, checked && coverage != "covered"@, "PP0102"@, "on-chain checked ProofPlan record must have codegen_coverage_status='covered'"@, c);
    let s5 = issue_step(s4, (status == "checked-runtime"@ || status == "checked-static"@ || status == "ckb-runtime"@) && !checked, "PP0103"@, "checked ProofPlan status is not reflected in on_chain_checked"@);
    lemma_code_step(s4, (status == "checked-runtime"@ || status == "checked-static"@ || status == "ckb-runtime"@) && !checked, "PP0103"@, "checked ProofPlan status is not reflected in on_chain_checked"@, c);
    let s6 = issue_step(s5, has_prefix(coverage, "gap:"@) && checked, "PP0104"@, "ProofPlan coverage gap cannot be marked on-chain checked"@);
    lemma_code_step(s5, has_prefix(coverage, "gap:"@) && checked, "PP0104"@, "ProofPlan coverage gap cannot be marked on-chain checked"@, c);
    let s7 = issue_step(s6, strict && (status == "runtime-required"@ || coverage == "gap:metadata-only"@ || plan.evidence_tier
            == EvidenceTier::MetadataOnly), "PP0150"@, "strict v0.16 ProofPlan mode rejects metadata-only or runtime-required obligations"@);
    lemma_code_step(s6, strict && (status == "runtime-required"@ || coverage == "gap:metadata-only"@ || plan.evidence_tier
            == EvidenceTier::MetadataOnly), "PP0150"@, "strict v0.16 ProofPlan mode rejects metadata-only or runtime-required obligations"@, c);
    let s8 = issue_step(s7, plan.lock_args_fields@.len() > 0 && !has_value(plan.reads@, "lock_args"@), "PP0201"@, "ProofPlan exposes lock_args fields but reads does not include lock_args"@);
    lemma_code_step(s7, plan.lock_args_fields@.len() > 0 && !has_value(plan.reads@, "lock_args"@), "PP0201"@, "ProofPlan exposes lock_args fields but reads does not include lock_args"@, c);
    let s9 = issue_step(s8, plan.witness_fields@.len() > 0 && !has_value(plan.reads@, "witness"@), "PP0202"@, "ProofPlan exposes witness fields but reads does not include witness"@);
    lemma_code_step(s8, plan.witness_fields@.len() > 0 && !has_value(plan.reads@, "witness"@), "PP0202"@, "ProofPlan exposes witness fields but reads does not include witness"@, c);
    assert(s9 == plan_issues_first(prefix, plan, strict));
}

proof fn lemma_last_codes(prefix: Seq<PlanIssue>, plan: ProofPlanMetadata, strict: bool, c: Seq<char>)
    requires
        c == "PP0005"@,
    ensures
        has_code(plan_issues_last(prefix, plan, strict), c) <==> has_code(prefix, c),
{
    reveal_strlit("PP0005");
    reveal_strlit("PP0006");
    reveal_strlit("PP0007");
    reveal_strlit("PP0101");
    reveal_strlit("PP0102");
    reveal_strlit("PP0103");
    reveal_strlit("PP0104");
    reveal_strlit("PP0150");
    reveal_strlit("PP0201");
    reveal_strlit("PP0202");
    reveal_strlit("PP0203");
    reveal_strlit("PP0204");
    reveal_strlit("PP0205");
    reveal_strlit("PP0206");
    reveal_strlit("PP0207");
    reveal_strlit("PP0208");
    reveal_strlit("PP0209");
    reveal_strlit("PP0210");
    reveal_strlit("PP0211");
    reveal_strlit("PP0212");
    reveal_strlit("PP0301");
    assert("PP0006"@[5] != "PP0005"@[5]);
    assert("PP0007"@[5] != "PP0005"@[5]);
    assert("PP0101"@[3] != "PP0005"@[3]);
    assert("PP0102"@[3] != "PP0005"@[3]);
    assert("PP0103"@[3] != "PP0005"@[3]);
    assert("PP0104"@[3] != "PP0005"@[3]);
    assert("PP0150"@[3] != "PP0005"@[3]);
    assert("PP0201"@[3] != "PP0005"@[3]);
    assert("PP0202"@[3] != "PP0005"@[3]);
    assert("PP0203"@[3] != "PP0005"@[3]);
    assert("PP0204"@[3] != "PP0005"@[3]);
    assert("PP0205"@[3] != "PP0005"@[3]);
    assert("PP0206"@[3] != "PP0005"@[3]);
    assert("PP0207"@[3] != "PP0005"@[3]);
    assert("PP0208"@[3] != "PP0005"@[3]);
    assert("PP0209"@[3] != "PP0005"@[3]);
    assert("PP0210"@[3] != "PP0005"@[3]);
    assert("PP0211"@[3] != "PP0005"@[3]);
    assert("PP0212"@[3] != "PP0005"@[3]);
    assert("PP0301"@[3] != "PP0005"@[3]);
    let checked = plan.on_chain_checked;
    let status = plan.status@;
    let coverage = plan.codegen_coverage_status@;
    let s0 = issue_step(prefix, blank(plan.trigger@), "PP0203"@, "ProofPlan trigger must not be empty"@);
    lemma_code_step(prefix, blank(plan.trigger@), "PP0203"@, "ProofPlan trigger must not be empty"@, c);
    let s1 = issue_step(s0, blank(plan.scope@), "PP0204"@, "ProofPlan scope must not be empty"@);
    lemma_code_step(s0, blank(plan.scope@), "PP0204"@, "ProofPlan scope must not be empty"@, c);
    let s2 = issue_step(s1, blank(plan.group_cardinality@), "PP0205"@, "ProofPlan group_cardinality must not be empty"@);
    lemma_code_step(s1, blank(plan.group_cardinality@), "PP0205"@, "ProofPlan group_cardinality must not be empty"@, c);
    let s3 = issue_step(s2, checked && plan.reads@.len() == 0 && requires_concrete_reads(plan), "PP0206"@, "on-chain checked ProofPlan record must declare concrete reads"@);
    lemma_code_step(s2, checked && plan.reads@.len() == 0 && requires_concrete_reads(plan), "PP0206"@, "on-chain checked ProofPlan record must declare concrete reads"@, c);
    let s4 = issue_step(s3, checked && plan.coverage@.len() == 0, "PP0207"@, "on-chain checked ProofPlan record must declare coverage evidence"@);
    lemma_code_step(s3, checked && plan.coverage@.len() == 0, "PP0207"@, "on-chain checked ProofPlan record must declare coverage evidence"@, c);
    let s5 = issue_step(s4, checked && plan.on_chain_checked_obligations@.len() == 0, "PP0208"@, "on-chain checked ProofPlan record must list checked obligation labels"@);
    lemma_code_step(s4, checked && plan.on_chain_checked_obligations@.len() == 0, "PP0208"@, "on-chain checked ProofPlan record must list checked obligation labels"@, c);
    let s6 = issue_step(s5, checked && !has_value(plan.on_chain_checked_obligations@, obligation_label(plan)), "PP0209"@, "on-chain checked ProofPlan record is missing its category:feature=status obligation label"@);
    lemma_code_step(s5, checked && !has_value(plan.on_chain_checked_obligations@, obligation_label(plan)), "PP0209"@, "on-chain checked ProofPlan record is missing its category:feature=status obligation label"@, c);
    let s7 = issue_step(s6, strict && has_prefix(plan.origin@, "invariant:"@) && plan.source_span is None, "PP0210"@, "source-declared invariant ProofPlan records must carry a source span in strict mode"@);
    lemma_code_step(s6, strict && has_prefix(plan.origin@, "invariant:"@) && plan.source_span is None, "PP0210"@, "source-declared invariant ProofPlan records must carry a source span in strict mode"@, c);
    let s8 = issue_step(s7, plan.source_span matches Some(span) && (span.end <= span.start || span.line == 0), "PP0211"@, "ProofPlan source span must have end > start and a one-based line"@);
    lemma_code_step(s7, plan.source_span matches Some(span) && (span.end <= span.start || span.line == 0), "PP0211"@, "ProofPlan source span must have end > start and a one-based line"@, c);
    let s9 = issue_step(s8, checked && any_holds(plan.builder_assumptions@, "runtime-required"@, "metadata-only"@), "PP0301"@, "on-chain checked ProofPlan record carries unchecked runtime/metadata-only builder assumptions"@);
    lemma_code_step(s8, checked && any_holds(plan.builder_assumptions@, "runtime-required"@, "metadata-only"@), "PP0301"@, "on-chain checked ProofPlan record carries unchecked runtime/metadata-only builder assumptions"@, c);
    assert(s9 == plan_issues_last(prefix, plan, strict));
}

proof fn lemma_read_codes(expected: Seq<Seq<char>>, reads: Seq<String>, c: Seq<char>)
    requires
        c == "PP0005"@,
    ensures
        !has_code(missing_read_issues(expected, reads), c),
    decreases expected.len(),
{
    reveal_strlit("PP0005");
    reveal_strlit("PP0212");
    assert("PP0212"@[3] != "PP0005"@[3]);
    if expected.len() > 0 {
        lemma_read_codes(expected.drop_last(), reads, c);
        lemma_code_step(
            missing_read_issues(expected.drop_last(), reads),
            !has_value(reads, expected.last()),
            "PP0212"@,
            "cell-access ProofPlan source requires reads to include '"@ + expected.last() + "'"@,
            c,
        );
    }
}

/// A record draws the PP0005 issue, in strict mode or not, exactly when it claims an on-chain
/// check that its evidence tier does not give, or the other way round.
pub proof fn lemma_tier_mismatch_issue(plan: ProofPlanMetadata, strict: bool)
    ensures
        has_code(plan_issue_list(plan, strict), "PP0005"@) <==> plan.on_chain_checked != plan.evidence_tier.spec_is_checked(),
{
    let c = "PP0005"@;
    let empty = Seq::<PlanIssue>::empty();
    lemma_first_codes(empty, plan, strict, c);
    lemma_read_codes(expected_reads(plan), plan.reads@, c);
    let head = plan_issues_first(empty, plan, strict) + missing_read_issues(expected_reads(plan), plan.reads@);
    lemma_code_concat(plan_issues_first(empty, plan, strict), missing_read_issues(expected_reads(plan), plan.reads@), c);
    lemma_last_codes(head, plan, strict, c);
}


/// Adding an issue keeps every issue already there.
proof fn lemma_issue_step_keeps(s: Seq<PlanIssue>, cond: bool, code: Seq<char>, message: Seq<char>, x: PlanIssue)
    requires
        s.contains(x),
    ensures
        issue_step(s, cond, code, message).contains(x),
{
    let k = choose|k: int| 0 <= k < s.len() && s[k] == x;
    assert(issue_step(s, cond, code, message)[k] == x);
}

/// The checks after the reads keep every issue found before them.
proof fn lemma_last_keeps(prefix: Seq<PlanIssue>, plan: ProofPlanMetadata, strict: bool, x: PlanIssue)
    requires
        prefix.contains(x),
    ensures
        plan_issues_last(prefix, plan, strict).contains(x),
{
    let checked = plan.on_chain_checked;
    let status = plan.status@;
    let coverage = plan.codegen_coverage_status@;
    let s0 = issue_step(prefix, blank(plan.trigger@), "PP0203"@, "ProofPlan trigger must not be empty"@);
    lemma_issue_step_keeps(prefix, blank(plan.trigger@), "PP0203"@, "ProofPlan trigger must not be empty"@, x);
    let s1 = issue_step(s0, blank(plan.scope@), "PP0204"@, "ProofPlan scope must not be empty"@);
    lemma_issue_step_keeps(s0, blank(plan.scope@), "PP0204"@, "ProofPlan scope must not be empty"@, x);
    let s2 = issue_step(s1, blank(plan.group_cardinality@), "PP0205"@, "ProofPlan group_cardinality must not be empty"@);
    lemma_issue_step_keeps(s1, blank(plan.group_cardinality@), "PP0205"@, "ProofPlan group_cardinality must not be empty"@, x);
    let s3 = issue_step(s2, checked && plan.reads@.len() == 0 && requires_concrete_reads(plan), "PP0206"@, "on-chain checked ProofPlan record must declare concrete reads"@);
    lemma_issue_step_keeps(s2, checked && plan.reads@.len() == 0 && requires_concrete_reads(plan), "PP0206"@, "on-chain checked ProofPlan record must declare concrete reads"@, x);
    let s4 = issue_step(s3, checked && plan.coverage@.len() == 0, "PP0207"@, "on-chain checked ProofPlan record must declare coverage evidence"@);
    lemma_issue_step_keeps(s3, checked && plan.coverage@.len() == 0, "PP0207"@, "on-chain checked ProofPlan record must declare coverage evidence"@, x);
    let s5 = issue_step(s4, checked && plan.on_chain_checked_obligations@.len() == 0, "PP0208"@, "on-chain checked ProofPlan record must list checked obligation labels"@);
    lemma_issue_step_keeps(s4, checked && plan.on_chain_checked_obligations@.len() == 0, "PP0208"@, "on-chain checked ProofPlan record must list checked obligation labels"@, x);
    let s6 = issue_step(s5, checked && !has_value(plan.on_chain_checked_obligations@, obligation_label(plan)), "PP0209"@, "on-chain checked ProofPlan record is missing its category:feature=status obligation label"@);
    lemma_issue_step_keeps(s5, checked && !has_value(plan.on_chain_checked_obligations@, obligation_label(plan)), "PP0209"@, "on-chain checked ProofPlan record is missing its category:feature=status obligation label"@, x);
    let s7 = issue_step(s6, strict && has_prefix(plan.origin@, "invariant:"@) && plan.source_span is None, "PP0210"@, "source-declared invariant ProofPlan records must carry a source span in strict mode"@);
    lemma_issue_step_keeps(s6, strict && has_prefix(plan.origin@, "invariant:"@) && plan.source_span is None, "PP0210"@, "source-declared invariant ProofPlan records must carry a source span in strict mode"@, x);
    let s8 = issue_step(s7, plan.source_span matches Some(span) && (span.end <= span.start || span.line == 0), "PP0211"@, "ProofPlan source span must have end > start and a one-based line"@);
    lemma_issue_step_keeps(s7, plan.source_span matches Some(span) && (span.end <= span.start || span.line == 0), "PP0211"@, "ProofPlan source span must have end > start and a one-based line"@, x);
    let s9 = issue_step(s8, checked && any_holds(plan.builder_assumptions@, "runtime-required"@, "metadata-only"@), "PP0301"@, "on-chain checked ProofPlan record carries unchecked runtime/metadata-only builder assumptions"@);
    lemma_issue_step_keeps(s8, checked && any_holds(plan.builder_assumptions@, "runtime-required"@, "metadata-only"@), "PP0301"@, "on-chain checked ProofPlan record carries unchecked runtime/metadata-only builder assumptions"@, x);
    assert(s9 == plan_issues_last(prefix, plan, strict));
}

/// The issue reported for a cell-access record that does not declare `read`.
pub open spec fn missing_read_issue(read: Seq<char>) -> PlanIssue {
    ("PP0212"@, "cell-access ProofPlan source requires reads to include '"@ + read + "'"@)
}

/// Each expected read that is not declared draws its issue.
proof fn lemma_missing_read_reported(expected: Seq<Seq<char>>, reads: Seq<String>, i: int)
    requires
        0 <= i < expected.len(),
        !has_value(reads, expected[i]),
    ensures
        missing_read_issues(expected, reads).contains(missing_read_issue(expected[i])),
    decreases expected.len(),
{
    let rest = missing_read_issues(expected.drop_last(), reads);
    let x = missing_read_issue(expected[i]);
    if i == expected.len() - 1 {
        let t = rest.push(x);
        assert(t[rest.len() as int] == x);
    } else {
        assert(expected.drop_last()[i] == expected[i]);
        lemma_missing_read_reported(expected.drop_last(), reads, i);
        lemma_issue_step_keeps(
            rest,
            !has_value(reads, expected.last()),
            "PP0212"@,
            "cell-access ProofPlan source requires reads to include '"@ + expected.last() + "'"@,
            x,
        );
    }
}

/// The reads that each named cell source stands for: `CellDep` reads `cell_dep`, `HeaderDep`
/// reads `header_dep`, a script's arguments are read as `lock_args`, and so on.
pub open spec fn source_reads(source: Seq<char>, read: Seq<char>) -> bool {
    ||| source == "Transaction"@ && read == "transaction"@
    ||| source == "Input"@ && read == "input"@
    ||| source == "Output"@ && read == "output"@
    ||| source == "GroupInput"@ && read == "group_input"@
    ||| source == "GroupOutput"@ && read == "group_output"@
    ||| source == "GroupInput/GroupOutput"@ && (read == "group_input"@ || read == "group_output"@)
    ||| source == "Input/Output"@ && (read == "input"@ || read == "output"@ || read == "source_view"@)
    ||| source == "Input/HeaderDep"@ && (read == "input"@ || read == "header_dep"@)
    ||| source == "CellDep"@ && read == "cell_dep"@
    ||| source == "HeaderDep"@ && read == "header_dep"@
    ||| source == "Witness"@ && read == "witness"@
    ||| source == "ScriptArgs"@ && read == "lock_args"@
    ||| source == "SourceView"@ && read == "source_view"@
}

/// Where `read` stands in the reads that `source` requires.
proof fn lemma_source_read_index(source: Seq<char>, read: Seq<char>) -> (i: int)
    requires
        source_reads(source, read),
    ensures
        0 <= i < reads_for_cell_source(source).len(),
        reads_for_cell_source(source)[i] == read,
{
    reveal_strlit("Transaction");
    reveal_strlit("Input");
    reveal_strlit("Output");
    reveal_strlit("GroupInput");
    reveal_strlit("GroupOutput");
    reveal_strlit("GroupInput/GroupOutput");
    reveal_strlit("Input/Output");
    reveal_strlit("Input/HeaderDep");
    reveal_strlit("CellDep");
    reveal_strlit("HeaderDep");
    reveal_strlit("Witness");
    reveal_strlit("ScriptArgs");
    reveal_strlit("SourceView");
    let r = reads_for_cell_source(source);
    if source == "Transaction"@ {
        assert("Transaction"@.len() != "Input"@.len());
        assert("Transaction"@.len() != "Output"@.len());
        assert("Transaction"@.len() != "GroupInput"@.len());
        assert("Transaction"@[0] != "GroupOutput"@[0]);
        assert("Transaction"@.len() != "GroupInput/GroupOutput"@.len());
        assert("Transaction"@.len() != "Input/Output"@.len());
        assert("Transaction"@.len() != "Input/HeaderDep"@.len());
        assert("Transaction"@.len() != "CellDep"@.len());
        assert("Transaction"@.len() != "HeaderDep"@.len());
        assert("Transaction"@.len() != "Witness"@.len());
        assert("Transaction"@.len() != "ScriptArgs"@.len());
        assert("Transaction"@.len() != "SourceView"@.len());
        assert(r =~= seq!["transaction"@]);
        0
    } else if source == "Input"@ {
        assert("Input"@.len() != "Output"@.len());
        assert("Input"@.len() != "GroupInput"@.len());
        assert("Input"@.len() != "GroupOutput"@.len());
        assert("Input"@.len() != "GroupInput/GroupOutput"@.len());
        assert("Input"@.len() != "Input/Output"@.len());
        assert("Input"@.len() != "Input/HeaderDep"@.len());
        assert("Input"@.len() != "CellDep"@.len());
        assert("Input"@.len() != "HeaderDep"@.len());
        assert("Input"@.len() != "Witness"@.len());
        assert("Input"@.len() != "ScriptArgs"@.len());
        assert("Input"@.len() != "SourceView"@.len());
        assert("Input"@.len() != "Transaction"@.len());
        assert(r =~= seq!["input"@]);
        0
    } else if source == "Output"@ {
        assert("Output"@.len() != "GroupInput"@.len());
        assert("Output"@.len() != "GroupOutput"@.len());
        assert("Output"@.len() != "GroupInput/GroupOutput"@.len());
        assert("Output"@.len() != "Input/Output"@.len());
        assert("Output"@.len() != "Input/HeaderDep"@.len());
        assert("Output"@.len() != "CellDep"@.len());
        assert("Output"@.len() != "HeaderDep"@.len());
        assert("Output"@.len() != "Witness"@.len());
        assert("Output"@.len() != "ScriptArgs"@.len());
        assert("Output"@.len() != "SourceView"@.len());
        assert("Output"@.len() != "Transaction"@.len());
        assert("Output"@.len() != "Input"@.len());
        assert(r =~= seq!["output"@]);
        0
    } else if source == "GroupInput"@ {
        assert("GroupInput"@.len() != "GroupOutput"@.len());
        assert("GroupInput"@.len() != "GroupInput/GroupOutput"@.len());
        assert("GroupInput"@.len() != "Input/Output"@.len());
        assert("GroupInput"@.len() != "Input/HeaderDep"@.len());
        assert("GroupInput"@.len() != "CellDep"@.len());
        assert("GroupInput"@.len() != "HeaderDep"@.len());
        assert("GroupInput"@.len() != "Witness"@.len());
        assert("GroupInput"@[0] != "ScriptArgs"@[0]);
        assert("GroupInput"@[0] != "SourceView"@[0]);
        assert("GroupInput"@.len() != "Transaction"@.len());
        assert("GroupInput"@.len() != "Input"@.len());
        assert("GroupInput"@.len() != "Output"@.len());
        assert(r =~= seq!["group_input"@]);
        0
    } else if source == "GroupOutput"@ {
        assert("GroupOutput"@.len() != "GroupInput/GroupOutput"@.len());
        assert("GroupOutput"@.len() != "Input/Output"@.len());
        assert("GroupOutput"@.len() != "Input/HeaderDep"@.len());
        assert("GroupOutput"@.len() != "CellDep"@.len());
        assert("GroupOutput"@.len() != "HeaderDep"@.len());
        assert("GroupOutput"@.len() != "Witness"@.len());
        assert("GroupOutput"@.len() != "ScriptArgs"@.len());
        assert("GroupOutput"@.len() != "SourceView"@.len());
        assert("GroupOutput"@[0] != "Transaction"@[0]);
        assert("GroupOutput"@.len() != "Input"@.len());
        assert("GroupOutput"@.len() != "Output"@.len());
        assert("GroupOutput"@.len() != "GroupInput"@.len());
        assert(r =~= seq!["group_output"@]);
        0
    } else if source == "GroupInput/GroupOutput"@ {
        assert("GroupInput/GroupOutput"@.len() != "Input/Output"@.len());
        assert("GroupInput/GroupOutput"@.len() != "Input/HeaderDep"@.len());
        assert("GroupInput/GroupOutput"@.len() != "CellDep"@.len());
        assert("GroupInput/GroupOutput"@.len() != "HeaderDep"@.len());
        assert("GroupInput/GroupOutput"@.len() != "Witness"@.len());
        assert("GroupInput/GroupOutput"@.len() != "ScriptArgs"@.len());
        assert("GroupInput/GroupOutput"@.len() != "SourceView"@.len());
        assert("GroupInput/GroupOutput"@.len() != "Transaction"@.len());
        assert("GroupInput/GroupOutput"@.len() != "Input"@.len());
        assert("GroupInput/GroupOutput"@.len() != "Output"@.len());
        assert("GroupInput/GroupOutput"@.len() != "GroupInput"@.len());
        assert("GroupInput/GroupOutput"@.len() != "GroupOutput"@.len());
        assert(r =~= seq!["group_input"@, "group_output"@]);
        if read == "group_input"@ {
            0
        } else {
            1
        }
    } else if source == "Input/Output"@ {
        assert("Input/Output"@.len() != "Input/HeaderDep"@.len());
        assert("Input/Output"@.len() != "CellDep"@.len());
        assert("Input/Output"@.len() != "HeaderDep"@.len());
        assert("Input/Output"@.len() != "Witness"@.len());
        assert("Input/Output"@.len() != "ScriptArgs"@.len());
        assert("Input/Output"@.len() != "SourceView"@.len());
        assert("Input/Output"@.len() != "Transaction"@.len());
        assert("Input/Output"@.len() != "Input"@.len());
        assert("Input/Output"@.len() != "Output"@.len());
        assert("Input/Output"@.len() != "GroupInput"@.len());
        assert("Input/Output"@.len() != "GroupOutput"@.len());
        assert("Input/Output"@.len() != "GroupInput/GroupOutput"@.len());
        assert(r =~= seq!["input"@, "output"@, "source_view"@]);
        if read == "input"@ {
            0
        } else if read == "output"@ {
            1
        } else {
            2
        }
    } else if source == "Input/HeaderDep"@ {
        assert("Input/HeaderDep"@.len() != "CellDep"@.len());
        assert("Input/HeaderDep"@.len() != "HeaderDep"@.len());
        assert("Input/HeaderDep"@.len() != "Witness"@.len());
        assert("Input/HeaderDep"@.len() != "ScriptArgs"@.len());
        assert("Input/HeaderDep"@.len() != "SourceView"@.len());
        assert("Input/HeaderDep"@.len() != "Transaction"@.len());
        assert("Input/HeaderDep"@.len() != "Input"@.len());
        assert("Input/HeaderDep"@.len() != "Output"@.len());
        assert("Input/HeaderDep"@.len() != "GroupInput"@.len());
        assert("Input/HeaderDep"@.len() != "GroupOutput"@.len());
        assert("Input/HeaderDep"@.len() != "GroupInput/GroupOutput"@.len());
        assert("Input/HeaderDep"@.len() != "Input/Output"@.len());
        assert(r =~= seq!["input"@, "header_dep"@]);
        if read == "input"@ {
            0
        } else {
            1
        }
    } else if source == "CellDep"@ {
        assert("CellDep"@.len() != "HeaderDep"@.len());
        assert("CellDep"@[0] != "Witness"@[0]);
        assert("CellDep"@.len() != "ScriptArgs"@.len());
        assert("CellDep"@.len() != "SourceView"@.len());
        assert("CellDep"@.len() != "Transaction"@.len());
        assert("CellDep"@.len() != "Input"@.len());
        assert("CellDep"@.len() != "Output"@.len());
        assert("CellDep"@.len() != "GroupInput"@.len());
        assert("CellDep"@.len() != "GroupOutput"@.len());
        assert("CellDep"@.len() != "GroupInput/GroupOutput"@.len());
        assert("CellDep"@.len() != "Input/Output"@.len());
        assert("CellDep"@.len() != "Input/HeaderDep"@.len());
        assert(r =~= seq!["cell_dep"@]);
        0
    } else if source == "HeaderDep"@ {
        assert("HeaderDep"@.len() != "Witness"@.len());
        assert("HeaderDep"@.len() != "ScriptArgs"@.len());
        assert("HeaderDep"@.len() != "SourceView"@.len());
        assert("HeaderDep"@.len() != "Transaction"@.len());
        assert("HeaderDep"@.len() != "Input"@.len());
        assert("HeaderDep"@.len() != "Output"@.len());
        assert("HeaderDep"@.len() != "GroupInput"@.len());
        assert("HeaderDep"@.len() != "GroupOutput"@.len());
        assert("HeaderDep"@.len() != "GroupInput/GroupOutput"@.len());
        assert("HeaderDep"@.len() != "Input/Output"@.len());
        assert("HeaderDep"@.len() != "Input/HeaderDep"@.len());
        assert("HeaderDep"@.len() != "CellDep"@.len());
        assert(r =~= seq!["header_dep"@]);
        0
    } else if source == "Witness"@ {
        assert("Witness"@.len() != "ScriptArgs"@.len());
        assert("Witness"@.len() != "SourceView"@.len());
        assert("Witness"@.len() != "Transaction"@.len());
        assert("Witness"@.len() != "Input"@.len());
        assert("Witness"@.len() != "Output"@.len());
        assert("Witness"@.len() != "GroupInput"@.len());
        assert("Witness"@.len() != "GroupOutput"@.len());
        assert("Witness"@.len() != "GroupInput/GroupOutput"@.len());
        assert("Witness"@.len() != "Input/Output"@.len());
        assert("Witness"@.len() != "Input/HeaderDep"@.len());
        assert("Witness"@[0] != "CellDep"@[0]);
        assert("Witness"@.len() != "HeaderDep"@.len());
        assert(r =~= seq!["witness"@]);
        0
    } else if source == "ScriptArgs"@ {
        assert("ScriptArgs"@[1] != "SourceView"@[1]);
        assert("ScriptArgs"@.len() != "Transaction"@.len());
        assert("ScriptArgs"@.len() != "Input"@.len());
        assert("ScriptArgs"@.len() != "Output"@.len());
        assert("ScriptArgs"@[0] != "GroupInput"@[0]);
        assert("ScriptArgs"@.len() != "GroupOutput"@.len());
        assert("ScriptArgs"@.len() != "GroupInput/GroupOutput"@.len());
        assert("ScriptArgs"@.len() != "Input/Output"@.len());
        assert("ScriptArgs"@.len() != "Input/HeaderDep"@.len());
        assert("ScriptArgs"@.len() != "CellDep"@.len());
        assert("ScriptArgs"@.len() != "HeaderDep"@.len());
        assert("ScriptArgs"@.len() != "Witness"@.len());
        assert(r =~= seq!["lock_args"@]);
        0
    } else if source == "SourceView"@ {
        assert("SourceView"@.len() != "Transaction"@.len());
        assert("SourceView"@.len() != "Input"@.len());
        assert("SourceView"@.len() != "Output"@.len());
        assert("SourceView"@[0] != "GroupInput"@[0]);
        assert("SourceView"@.len() != "GroupOutput"@.len());
        assert("SourceView"@.len() != "GroupInput/GroupOutput"@.len());
        assert("SourceView"@.len() != "Input/Output"@.len());
        assert("SourceView"@.len() != "Input/HeaderDep"@.len());
        assert("SourceView"@.len() != "CellDep"@.len());
        assert("SourceView"@.len() != "HeaderDep"@.len());
        assert("SourceView"@.len() != "Witness"@.len());
        assert("SourceView"@[1] != "ScriptArgs"@[1]);
        assert(r =~= seq!["source_view"@]);
        0
    } else {
        0
    }
}

proof fn lemma_first_no_read_code(prefix: Seq<PlanIssue>, plan: ProofPlanMetadata, strict: bool, c: Seq<char>)
    requires
        c == "PP0212"@,
    ensures
        has_code(plan_issues_first(prefix, plan, strict), c) <==> has_code(prefix, c),
{
    reveal_strlit("PP0005");
    reveal_strlit("PP0006");
    reveal_strlit("PP0007");
    reveal_strlit("PP0101");
    reveal_strlit("PP0102");
    reveal_strlit("PP0103");
    reveal_strlit("PP0104");
    reveal_strlit("PP0150");
    reveal_strlit("PP0201");
    reveal_strlit("PP0202");
    reveal_strlit("PP0203");
    reveal_strlit("PP0204");
    reveal_strlit("PP0205");
    reveal_strlit("PP0206");
    reveal_strlit("PP0207");
    reveal_strlit("PP0208");
    reveal_strlit("PP0209");
    reveal_strlit("PP0210");
    reveal_strlit("PP0211");
    reveal_strlit("PP0212");
    reveal_strlit("PP0301");
    assert("PP0006"@[3] != "PP0212"@[3]);
    assert("PP0007"@[3] != "PP0212"@[3]);
    assert("PP0101"@[3] != "PP0212"@[3]);
    assert("PP0102"@[3] != "PP0212"@[3]);
    assert("PP0103"@[3] != "PP0212"@[3]);
    assert("PP0104"@[3] != "PP0212"@[3]);
    assert("PP0150"@[3] != "PP0212"@[3]);
    assert("PP0201"@[4] != "PP0212"@[4]);
    assert("PP0202"@[4] != "PP0212"@[4]);
    assert("PP0203"@[4] != "PP0212"@[4]);
    assert("PP0204"@[4] != "PP0212"@[4]);
    assert("PP0205"@[4] != "PP0212"@[4]);
    assert("PP0206"@[4] != "PP0212"@[4]);
    assert("PP0207"@[4] != "PP0212"@[4]);
    assert("PP0208"@[4] != "PP0212"@[4]);
    assert("PP0209"@[4] != "PP0212"@[4]);
    assert("PP0210"@[5] != "PP0212"@[5]);
    assert("PP0211"@[5] != "PP0212"@[5]);
    assert("PP0005"@[3] != "PP0212"@[3]);
    assert("PP0301"@[3] != "PP0212"@[3]);
    let checked = plan.on_chain_checked;
    let status = plan.status@;
    let coverage = plan.codegen_coverage_status@;
    let s0 = issue_step(prefix, checked != plan.evidence_tier.spec_is_checked(), "PP0005"@, "ProofPlan evidence_tier must agree with on_chain_checked"@);
    lemma_code_step(prefix, checked != plan.evidence_tier.spec_is_checked(), "PP0005"@, "ProofPlan evidence_tier must agree with on_chain_checked"@, c);
    let s1 = issue_step(s0, coverage == "gap:metadata-only"@ && plan.evidence_tier != EvidenceTier::MetadataOnly, "PP0006"@, "metadata-only codegen gap must use evidence_tier='metadata-only'"@);
    lemma_code_step(s0, coverage == "gap:metadata-only"@ && plan.evidence_tier != EvidenceTier::MetadataOnly, "PP0006"@, "metadata-only codegen gap must use evidence_tier='metadata-only'"@, c);
    let s2 = issue_step(s1, coverage == "gap:runtime-helper-required"@ && plan.evidence_tier != EvidenceTier::RuntimeHelperRequired, "PP0007"@, "runtime-helper codegen gap must use evidence_tier='runtime-helper-required'"@);
    lemma_code_step(s1, coverage == "gap:runtime-helper-required"@ && plan.evidence_tier != EvidenceTier::RuntimeHelperRequired, "PP0007"@, "runtime-helper codegen gap must use evidence_tier='runtime-helper-required'"@, c);
    let s3 = issue_step(s2, checked && status == "runtime-required"@, "PP0101"@, "ProofPlan marks a runtime-required obligation as on-chain checked"@);
    lemma_code_step(s2, checked && status == "runtime-required"@, "PP0101"@, "ProofPlan marks a runtime-required obligation as on-chain checked"@, c);
    let s4 = issue_step(s3, checked && coverage != "covered"@, "PP0102"@, "on-chain checked ProofPlan record must have codegen_coverage_status='covered'"@);
    lemma_code_step(s3, checked && coverage != "covered"@, "PP0102"@, "on-chain checked ProofPlan record must have codegen_coverage_status='covered'"@, c);
    let s5 = issue_step(s4, (status == "checked-runtime"@ || status == "checked-static"@ || status == "ckb-runtime"@) && !checked, "PP0103"@, "checked ProofPlan status is not reflected in on_chain_checked"@);
    lemma_code_step(s4, (status == "checked-runtime"@ || status == "checked-static"@ || status == "ckb-runtime"@) && !checked, "PP0103"@, "checked ProofPlan status is not reflected in on_chain_checked"@, c);
    let s6 = issue_step(s5, has_prefix(coverage, "gap:"@) && checked, "PP0104"@, "ProofPlan coverage gap cannot be marked on-chain checked"@);
    lemma_code_step(s5, has_prefix(coverage, "gap:"@) && checked, "PP0104"@, "ProofPlan coverage gap cannot be marked on-chain checked"@, c);
    let s7 = issue_step(s6, strict && (status == "runtime-required"@ || coverage == "gap:metadata-only"@ || plan.evidence_tier
            == EvidenceTier::MetadataOnly), "PP0150"@, "strict v0.16 ProofPlan mode rejects metadata-only or runtime-required obligations"@);
    lemma_code_step(s6, strict && (status == "runtime-required"@ || coverage == "gap:metadata-only"@ || plan.evidence_tier
            == EvidenceTier::MetadataOnly), "PP0150"@, "strict v0.16 ProofPlan mode rejects metadata-only or runtime-required obligations"@, c);
    let s8 = issue_step(s7, plan.lock_args_fields@.len() > 0 && !has_value(plan.reads@, "lock_args"@), "PP0201"@, "ProofPlan exposes lock_args fields but reads does not include lock_args"@);
    lemma_code_step(s7, plan.lock_args_fields@.len() > 0 && !has_value(plan.reads@, "lock_args"@), "PP0201"@, "ProofPlan exposes lock_args fields but reads does not include lock_args"@, c);
    let s9 = issue_step(s8, plan.witness_fields@.len() > 0 && !has_value(plan.reads@, "witness"@), "PP0202"@, "ProofPlan exposes witness fields but reads does not include witness"@);
    lemma_code_step(s8, plan.witness_fields@.len() > 0 && !has_value(plan.reads@, "witness"@), "PP0202"@, "ProofPlan exposes witness fields but reads does not include witness"@, c);
    assert(s9 == plan_issues_first(prefix, plan, strict));
}

proof fn lemma_last_no_read_code(prefix: Seq<PlanIssue>, plan: ProofPlanMetadata, strict: bool, c: Seq<char>)
    requires
        c == "PP0212"@,
    ensures
        has_code(plan_issues_last(prefix, plan, strict), c) <==> has_code(prefix, c),
{
    reveal_strlit("PP0005");
    reveal_strlit("PP0006");
    reveal_strlit("PP0007");
    reveal_strlit("PP0101");
    reveal_strlit("PP0102");
    reveal_strlit("PP0103");
    reveal_strlit("PP0104");
    reveal_strlit("PP0150");
    reveal_strlit("PP0201");
    reveal_strlit("PP0202");
    reveal_strlit("PP0203");
    reveal_strlit("PP0204");
    reveal_strlit("PP0205");
    reveal_strlit("PP0206");
    reveal_strlit("PP0207");
    reveal_strlit("PP0208");
    reveal_strlit("PP0209");
    reveal_strlit("PP0210");
    reveal_strlit("PP0211");
    reveal_strlit("PP0212");
    reveal_strlit("PP0301");
    assert("PP0006"@[3] != "PP0212"@[3]);
    assert("PP0007"@[3] != "PP0212"@[3]);
    assert("PP0101"@[3] != "PP0212"@[3]);
    assert("PP0102"@[3] != "PP0212"@[3]);
    assert("PP0103"@[3] != "PP0212"@[3]);
    assert("PP0104"@[3] != "PP0212"@[3]);
    assert("PP0150"@[3] != "PP0212"@[3]);
    assert("PP0201"@[4] != "PP0212"@[4]);
    assert("PP0202"@[4] != "PP0212"@[4]);
    assert("PP0203"@[4] != "PP0212"@[4]);
    assert("PP0204"@[4] != "PP0212"@[4]);
    assert("PP0205"@[4] != "PP0212"@[4]);
    assert("PP0206"@[4] != "PP0212"@[4]);
    assert("PP0207"@[4] != "PP0212"@[4]);
    assert("PP0208"@[4] != "PP0212"@[4]);
    assert("PP0209"@[4] != "PP0212"@[4]);
    assert("PP0210"@[5] != "PP0212"@[5]);
    assert("PP0211"@[5] != "PP0212"@[5]);
    assert("PP0005"@[3] != "PP0212"@[3]);
    assert("PP0301"@[3] != "PP0212"@[3]);
    let checked = plan.on_chain_checked;
    let status = plan.status@;
    let coverage = plan.codegen_coverage_status@;
    let s0 = issue_step(prefix, blank(plan.trigger@), "PP0203"@, "ProofPlan trigger must not be empty"@);
    lemma_code_step(prefix, blank(plan.trigger@), "PP0203"@, "ProofPlan trigger must not be empty"@, c);
    let s1 = issue_step(s0, blank(plan.scope@), "PP0204"@, "ProofPlan scope must not be empty"@);
    lemma_code_step(s0, blank(plan.scope@), "PP0204"@, "ProofPlan scope must not be empty"@, c);
    let s2 = issue_step(s1, blank(plan.group_cardinality@), "PP0205"@, "ProofPlan group_cardinality must not be empty"@);
    lemma_code_step(s1, blank(plan.group_cardinality@), "PP0205"@, "ProofPlan group_cardinality must not be empty"@, c);
    let s3 = issue_step(s2, checked && plan.reads@.len() == 0 && requires_concrete_reads(plan), "PP0206"@, "on-chain checked ProofPlan record must declare concrete reads"@);
    lemma_code_step(s2, checked && plan.reads@.len() == 0 && requires_concrete_reads(plan), "PP0206"@, "on-chain checked ProofPlan record must declare concrete reads"@, c);
    let s4 = issue_step(s3, checked && plan.coverage@.len() == 0, "PP0207"@, "on-chain checked ProofPlan record must declare coverage evidence"@);
    lemma_code_step(s3, checked && plan.coverage@.len() == 0, "PP0207"@, "on-chain checked ProofPlan record must declare coverage evidence"@, c);
    let s5 = issue_step(s4, checked && plan.on_chain_checked_obligations@.len() == 0, "PP0208"@, "on-chain checked ProofPlan record must list checked obligation labels"@);
    lemma_code_step(s4, checked && plan.on_chain_checked_obligations@.len() == 0, "PP0208"@, "on-chain checked ProofPlan record must list checked obligation labels"@, c);
    let s6 = issue_step(s5, checked && !has_value(plan.on_chain_checked_obligations@, obligation_label(plan)), "PP0209"@, "on-chain checked ProofPlan record is missing its category:feature=status obligation label"@);
    lemma_code_step(s5, checked && !has_value(plan.on_chain_checked_obligations@, obligation_label(plan)), "PP0209"@, "on-chain checked ProofPlan record is missing its category:feature=status obligation label"@, c);
    let s7 = issue_step(s6, strict && has_prefix(plan.origin@, "invariant:"@) && plan.source_span is None, "PP0210"@, "source-declared invariant ProofPlan records must carry a source span in strict mode"@);
    lemma_code_step(s6, strict && has_prefix(plan.origin@, "invariant:"@) && plan.source_span is None, "PP0210"@, "source-declared invariant ProofPlan records must carry a source span in strict mode"@, c);
    let s8 = issue_step(s7, plan.source_span matches Some(span) && (span.end <= span.start || span.line == 0), "PP0211"@, "ProofPlan source span must have end > start and a one-based line"@);
    lemma_code_step(s7, plan.source_span matches Some(span) && (span.end <= span.start || span.line == 0), "PP0211"@, "ProofPlan source span must have end > start and a one-based line"@, c);
    let s9 = issue_step(s8, checked && any_holds(plan.builder_assumptions@, "runtime-required"@, "metadata-only"@), "PP0301"@, "on-chain checked ProofPlan record carries unchecked runtime/metadata-only builder assumptions"@);
    lemma_code_step(s8, checked && any_holds(plan.builder_assumptions@, "runtime-required"@, "metadata-only"@), "PP0301"@, "on-chain checked ProofPlan record carries unchecked runtime/metadata-only builder assumptions"@, c);
    assert(s9 == plan_issues_last(prefix, plan, strict));
}

/// Each read that `source` requires is one that the source stands for.
proof fn lemma_source_read_member(source: Seq<char>, i: int)
    requires
        0 <= i < reads_for_cell_source(source).len(),
    ensures
        source_reads(source, reads_for_cell_source(source)[i]),
{
    reveal_strlit("Transaction");
    reveal_strlit("Input");
    reveal_strlit("Output");
    reveal_strlit("GroupInput");
    reveal_strlit("GroupOutput");
    reveal_strlit("GroupInput/GroupOutput");
    reveal_strlit("Input/Output");
    reveal_strlit("Input/HeaderDep");
    reveal_strlit("CellDep");
    reveal_strlit("HeaderDep");
    reveal_strlit("Witness");
    reveal_strlit("ScriptArgs");
    reveal_strlit("SourceView");
    let r = reads_for_cell_source(source);
    if source == "Transaction"@ {
        assert("Transaction"@.len() != "Input"@.len());
        assert("Transaction"@.len() != "Output"@.len());
        assert("Transaction"@.len() != "GroupInput"@.len());
        assert("Transaction"@[0] != "GroupOutput"@[0]);
        assert("Transaction"@.len() != "GroupInput/GroupOutput"@.len());
        assert("Transaction"@.len() != "Input/Output"@.len());
        assert("Transaction"@.len() != "Input/HeaderDep"@.len());
        assert("Transaction"@.len() != "CellDep"@.len());
        assert("Transaction"@.len() != "HeaderDep"@.len());
        assert("Transaction"@.len() != "Witness"@.len());
        assert("Transaction"@.len() != "ScriptArgs"@.len());
        assert("Transaction"@.len() != "SourceView"@.len());
        assert(r =~= seq!["transaction"@]);
    } else if source == "Input"@ {
        assert("Input"@.len() != "Output"@.len());
        assert("Input"@.len() != "GroupInput"@.len());
        assert("Input"@.len() != "GroupOutput"@.len());
        assert("Input"@.len() != "GroupInput/GroupOutput"@.len());
        assert("Input"@.len() != "Input/Output"@.len());
        assert("Input"@.len() != "Input/HeaderDep"@.len());
        assert("Input"@.len() != "CellDep"@.len());
        assert("Input"@.len() != "HeaderDep"@.len());
        assert("Input"@.len() != "Witness"@.len());
        assert("Input"@.len() != "ScriptArgs"@.len());
        assert("Input"@.len() != "SourceView"@.len());
        assert("Input"@.len() != "Transaction"@.len());
        assert(r =~= seq!["input"@]);
    } else if source == "Output"@ {
        assert("Output"@.len() != "GroupInput"@.len());
        assert("Output"@.len() != "GroupOutput"@.len());
        assert("Output"@.len() != "GroupInput/GroupOutput"@.len());
        assert("Output"@.len() != "Input/Output"@.len());
        assert("Output"@.len() != "Input/HeaderDep"@.len());
        assert("Output"@.len() != "CellDep"@.len());
        assert("Output"@.len() != "HeaderDep"@.len());
        assert("Output"@.len() != "Witness"@.len());
        assert("Output"@.len() != "ScriptArgs"@.len());
        assert("Output"@.len() != "SourceView"@.len());
        assert("Output"@.len() != "Transaction"@.len());
        assert("Output"@.len() != "Input"@.len());
        assert(r =~= seq!["output"@]);
    } else if source == "GroupInput"@ {
        assert("GroupInput"@.len() != "GroupOutput"@.len());
        assert("GroupInput"@.len() != "GroupInput/GroupOutput"@.len());
        assert("GroupInput"@.len() != "Input/Output"@.len());
        assert("GroupInput"@.len() != "Input/HeaderDep"@.len());
        assert("GroupInput"@.len() != "CellDep"@.len());
        assert("GroupInput"@.len() != "HeaderDep"@.len());
        assert("GroupInput"@.len() != "Witness"@.len());
        assert("GroupInput"@[0] != "ScriptArgs"@[0]);
        assert("GroupInput"@[0] != "SourceView"@[0]);
        assert("GroupInput"@.len() != "Transaction"@.len());
        assert("GroupInput"@.len() != "Input"@.len());
        assert("GroupInput"@.len() != "Output"@.len());
        assert(r =~= seq!["group_input"@]);
    } else if source == "GroupOutput"@ {
        assert("GroupOutput"@.len() != "GroupInput/GroupOutput"@.len());
        assert("GroupOutput"@.len() != "Input/Output"@.len());
        assert("GroupOutput"@.len() != "Input/HeaderDep"@.len());
        assert("GroupOutput"@.len() != "CellDep"@.len());
        assert("GroupOutput"@.len() != "HeaderDep"@.len());
        assert("GroupOutput"@.len() != "Witness"@.len());
        assert("GroupOutput"@.len() != "ScriptArgs"@.len());
        assert("GroupOutput"@.len() != "SourceView"@.len());
        assert("GroupOutput"@[0] != "Transaction"@[0]);
        assert("GroupOutput"@.len() != "Input"@.len());
        assert("GroupOutput"@.len() != "Output"@.len());
        assert("GroupOutput"@.len() != "GroupInput"@.len());
        assert(r =~= seq!["group_output"@]);
    } else if source == "GroupInput/GroupOutput"@ {
        assert("GroupInput/GroupOutput"@.len() != "Input/Output"@.len());
        assert("GroupInput/GroupOutput"@.len() != "Input/HeaderDep"@.len());
        assert("GroupInput/GroupOutput"@.len() != "CellDep"@.len());
        assert("GroupInput/GroupOutput"@.len() != "HeaderDep"@.len());
        assert("GroupInput/GroupOutput"@.len() != "Witness"@.len());
        assert("GroupInput/GroupOutput"@.len() != "ScriptArgs"@.len());
        assert("GroupInput/GroupOutput"@.len() != "SourceView"@.len());
        assert("GroupInput/GroupOutput"@.len() != "Transaction"@.len());
        assert("GroupInput/GroupOutput"@.len() != "Input"@.len());
        assert("GroupInput/GroupOutput"@.len() != "Output"@.len());
        assert("GroupInput/GroupOutput"@.len() != "GroupInput"@.len());
        assert("GroupInput/GroupOutput"@.len() != "GroupOutput"@.len());
        assert(r =~= seq!["group_input"@, "group_output"@]);
    } else if source == "Input/Output"@ {
        assert("Input/Output"@.len() != "Input/HeaderDep"@.len());
        assert("Input/Output"@.len() != "CellDep"@.len());
        assert("Input/Output"@.len() != "HeaderDep"@.len());
        assert("Input/Output"@.len() != "Witness"@.len());
        assert("Input/Output"@.len() != "ScriptArgs"@.len());
        assert("Input/Output"@.len() != "SourceView"@.len());
        assert("Input/Output"@.len() != "Transaction"@.len());
        assert("Input/Output"@.len() != "Input"@.len());
        assert("Input/Output"@.len() != "Output"@.len());
        assert("Input/Output"@.len() != "GroupInput"@.len());
        assert("Input/Output"@.len() != "GroupOutput"@.len());
        assert("Input/Output"@.len() != "GroupInput/GroupOutput"@.len());
        assert(r =~= seq!["input"@, "output"@, "source_view"@]);
    } else if source == "Input/HeaderDep"@ {
        assert("Input/HeaderDep"@.len() != "CellDep"@.len());
        assert("Input/HeaderDep"@.len() != "HeaderDep"@.len());
        assert("Input/HeaderDep"@.len() != "Witness"@.len());
        assert("Input/HeaderDep"@.len() != "ScriptArgs"@.len());
        assert("Input/HeaderDep"@.len() != "SourceView"@.len());
        assert("Input/HeaderDep"@.len() != "Transaction"@.len());
        assert("Input/HeaderDep"@.len() != "Input"@.len());
        assert("Input/HeaderDep"@.len() != "Output"@.len());
        assert("Input/HeaderDep"@.len() != "GroupInput"@.len());
        assert("Input/HeaderDep"@.len() != "GroupOutput"@.len());
        assert("Input/HeaderDep"@.len() != "GroupInput/GroupOutput"@.len());
        assert("Input/HeaderDep"@.len() != "Input/Output"@.len());
        assert(r =~= seq!["input"@, "header_dep"@]);
    } else if source == "CellDep"@ {
        assert("CellDep"@.len() != "HeaderDep"@.len());
        assert("CellDep"@[0] != "Witness"@[0]);
        assert("CellDep"@.len() != "ScriptArgs"@.len());
        assert("CellDep"@.len() != "SourceView"@.len());
        assert("CellDep"@.len() != "Transaction"@.len());
        assert("CellDep"@.len() != "Input"@.len());
        assert("CellDep"@.len() != "Output"@.len());
        assert("CellDep"@.len() != "GroupInput"@.len());
        assert("CellDep"@.len() != "GroupOutput"@.len());
        assert("CellDep"@.len() != "GroupInput/GroupOutput"@.len());
        assert("CellDep"@.len() != "Input/Output"@.len());
        assert("CellDep"@.len() != "Input/HeaderDep"@.len());
        assert(r =~= seq!["cell_dep"@]);
    } else if source == "HeaderDep"@ {
        assert("HeaderDep"@.len() != "Witness"@.len());
        assert("HeaderDep"@.len() != "ScriptArgs"@.len());
        assert("HeaderDep"@.len() != "SourceView"@.len());
        assert("HeaderDep"@.len() != "Transaction"@.len());
        assert("HeaderDep"@.len() != "Input"@.len());
        assert("HeaderDep"@.len() != "Output"@.len());
        assert("HeaderDep"@.len() != "GroupInput"@.len());
        assert("HeaderDep"@.len() != "GroupOutput"@.len());
        assert("HeaderDep"@.len() != "GroupInput/GroupOutput"@.len());
        assert("HeaderDep"@.len() != "Input/Output"@.len());
        assert("HeaderDep"@.len() != "Input/HeaderDep"@.len());
        assert("HeaderDep"@.len() != "CellDep"@.len());
        assert(r =~= seq!["header_dep"@]);
    } else if source == "Witness"@ {
        assert("Witness"@.len() != "ScriptArgs"@.len());
        assert("Witness"@.len() != "SourceView"@.len());
        assert("Witness"@.len() != "Transaction"@.len());
        assert("Witness"@.len() != "Input"@.len());
        assert("Witness"@.len() != "Output"@.len());
        assert("Witness"@.len() != "GroupInput"@.len());
        assert("Witness"@.len() != "GroupOutput"@.len());
        assert("Witness"@.len() != "GroupInput/GroupOutput"@.len());
        assert("Witness"@.len() != "Input/Output"@.len());
        assert("Witness"@.len() != "Input/HeaderDep"@.len());
        assert("Witness"@[0] != "CellDep"@[0]);
        assert("Witness"@.len() != "HeaderDep"@.len());
        assert(r =~= seq!["witness"@]);
    } else if source == "ScriptArgs"@ {
        assert("ScriptArgs"@[1] != "SourceView"@[1]);
        assert("ScriptArgs"@.len() != "Transaction"@.len());
        assert("ScriptArgs"@.len() != "Input"@.len());
        assert("ScriptArgs"@.len() != "Output"@.len());
        assert("ScriptArgs"@[0] != "GroupInput"@[0]);
        assert("ScriptArgs"@.len() != "GroupOutput"@.len());
        assert("ScriptArgs"@.len() != "GroupInput/GroupOutput"@.len());
        assert("ScriptArgs"@.len() != "Input/Output"@.len());
        assert("ScriptArgs"@.len() != "Input/HeaderDep"@.len());
        assert("ScriptArgs"@.len() != "CellDep"@.len());
        assert("ScriptArgs"@.len() != "HeaderDep"@.len());
        assert("ScriptArgs"@.len() != "Witness"@.len());
        assert(r =~= seq!["lock_args"@]);
    } else if source == "SourceView"@ {
        assert("SourceView"@.len() != "Transaction"@.len());
        assert("SourceView"@.len() != "Input"@.len());
        assert("SourceView"@.len() != "Output"@.len());
        assert("SourceView"@[0] != "GroupInput"@[0]);
        assert("SourceView"@.len() != "GroupOutput"@.len());
        assert("SourceView"@.len() != "GroupInput/GroupOutput"@.len());
        assert("SourceView"@.len() != "Input/Output"@.len());
        assert("SourceView"@.len() != "Input/HeaderDep"@.len());
        assert("SourceView"@.len() != "CellDep"@.len());
        assert("SourceView"@.len() != "HeaderDep"@.len());
        assert("SourceView"@.len() != "Witness"@.len());
        assert("SourceView"@[1] != "ScriptArgs"@[1]);
        assert(r =~= seq!["source_view"@]);
    }
}

/// The reads draw a PP0212 issue exactly when one expected read is not declared.
proof fn lemma_read_issue_code(expected: Seq<Seq<char>>, reads: Seq<String>)
    ensures
        has_code(missing_read_issues(expected, reads), "PP0212"@) <==> exists|i: int|
            0 <= i < expected.len() && !has_value(reads, #[trigger] expected[i]),
    decreases expected.len(),
{
    if expected.len() > 0 {
        let rest = expected.drop_last();
        lemma_read_issue_code(rest, reads);
        lemma_code_step(
            missing_read_issues(rest, reads),
            !has_value(reads, expected.last()),
            "PP0212"@,
            "cell-access ProofPlan source requires reads to include '"@ + expected.last() + "'"@,
            "PP0212"@,
        );
        if exists|i: int| 0 <= i < rest.len() && !has_value(reads, #[trigger] rest[i]) {
            let i = choose|i: int| 0 <= i < rest.len() && !has_value(reads, #[trigger] rest[i]);
            assert(expected[i] == rest[i]);
        }
        if exists|i: int| 0 <= i < expected.len() && !has_value(reads, #[trigger] expected[i]) {
            let i = choose|i: int| 0 <= i < expected.len() && !has_value(reads, #[trigger] expected[i]);
            if i < rest.len() {
                assert(expected[i] == rest[i]);
            }
        }
    } else {
        assert(missing_read_issues(expected, reads) =~= Seq::<PlanIssue>::empty());
    }
}

/// A record draws a PP0212 issue, in strict mode or not, exactly when it is a cell-access
/// record whose feature names a cell source and whose reads leave out one of the reads that
/// source stands for.
pub proof fn lemma_cell_source_read_issue_exact(plan: ProofPlanMetadata, strict: bool)
    ensures
        has_code(plan_issue_list(plan, strict), "PP0212"@) <==> (plan.category@ == "cell-access"@ && (cell_access_source(
            plan.feature@,
        ) matches Some(source) && exists|read: Seq<char>| #[trigger] source_reads(source, read) && !has_value(plan.reads@, read))),
{
    let c = "PP0212"@;
    let empty = Seq::<PlanIssue>::empty();
    let expected = expected_reads(plan);
    let first = plan_issues_first(empty, plan, strict);
    let reads = missing_read_issues(expected, plan.reads@);
    lemma_first_no_read_code(empty, plan, strict, c);
    lemma_code_concat(first, reads, c);
    lemma_last_no_read_code(first + reads, plan, strict, c);
    lemma_read_issue_code(expected, plan.reads@);
    if has_code(reads, c) {
        let i = choose|i: int| 0 <= i < expected.len() && !has_value(plan.reads@, #[trigger] expected[i]);
        assert(plan.category@ == "cell-access"@);
        let source = cell_access_source(plan.feature@)->Some_0;
        lemma_source_read_member(source, i);
        assert(source_reads(source, expected[i]));
    }
    if plan.category@ == "cell-access"@ && (cell_access_source(plan.feature@) matches Some(source) && exists|read: Seq<char>|
        #[trigger] source_reads(source, read) && !has_value(plan.reads@, read)) {
        let source = cell_access_source(plan.feature@)->Some_0;
        let read = choose|read: Seq<char>| #[trigger] source_reads(source, read) && !has_value(plan.reads@, read);
        let i = lemma_source_read_index(source, read);
        assert(expected[i] == read);
    }
    assert(!has_code(empty, c));
}

/// A cell-access record whose feature names a cell source, and whose reads leave out a read
/// that source stands for, draws the PP0212 issue for that read, in strict mode or not.
pub proof fn lemma_cell_source_reads_required(plan: ProofPlanMetadata, strict: bool, source: Seq<char>, read: Seq<char>)
    requires
        plan.category@ == "cell-access"@,
        cell_access_source(plan.feature@) == Some(source),
        source_reads(source, read),
        !has_value(plan.reads@, read),
    ensures
        plan_issue_list(plan, strict).contains(missing_read_issue(read)),
{
    let expected = expected_reads(plan);
    assert(expected == reads_for_cell_source(source));
    let i = lemma_source_read_index(source, read);
    lemma_missing_read_reported(expected, plan.reads@, i);
    let first = plan_issues_first(Seq::empty(), plan, strict);
    let reads = missing_read_issues(expected, plan.reads@);
    let k = choose|k: int| 0 <= k < reads.len() && reads[k] == missing_read_issue(read);
    assert((first + reads)[first.len() + k] == missing_read_issue(read));
    lemma_last_keeps(first + reads, plan, strict, missing_read_issue(read));
}

} // verus!
