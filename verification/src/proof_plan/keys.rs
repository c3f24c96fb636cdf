//! The keys ProofPlan records and runtime obligations are matched by, and the equality of
//! whole records.

use crate::protocol_bundle::order::{chars_lt, lemma_chars_lt_order, strs_sorted};
use crate::proof_plan::{ProofPlanDiagnosticMetadata, ProofPlanMetadata, ProofPlanSourceSpanMetadata};
use crate::text::{concat2, str_eq};
use vstd::prelude::*;

verus! {

/// The unit separator that joins the parts of a key.
pub open spec fn unit_sep() -> Seq<char> {
    seq!['\u{1f}']
}

/// The key of an obligation: origin, category, feature, status and detail, joined by the unit
/// separator.
pub open spec fn obligation_key(
    origin: Seq<char>,
    category: Seq<char>,
    feature: Seq<char>,
    status: Seq<char>,
    detail: Seq<char>,
) -> Seq<char> {
    origin + unit_sep() + category + unit_sep() + feature + unit_sep() + status + unit_sep() + detail
}

/// The identity key of a ProofPlan record: origin, feature and status, joined by the unit
/// separator.
pub open spec fn identity_key(p: ProofPlanMetadata) -> Seq<char> {
    p.origin@ + unit_sep() + p.feature@ + unit_sep() + p.status@
}

/// The obligation key of a ProofPlan record.
pub open spec fn plan_key(p: ProofPlanMetadata) -> Seq<char> {
    obligation_key(p.origin@, p.category@, p.feature@, p.status@, p.detail@)
}

/// Joins five parts with the unit separator.
pub fn join_key(a: &str, b: &str, c: &str, d: &str, e: &str) -> (r: String)
    ensures
        r@ == obligation_key(a@, b@, c@, d@, e@),
{
    let mut s = concat2(a, "\u{1f}");
    proof {
        reveal_strlit("\u{1f}");
    }
    s.append(b);
    s.append("\u{1f}");
    s.append(c);
    s.append("\u{1f}");
    s.append(d);
    s.append("\u{1f}");
    s.append(e);
    s
}

/// The identity key of a record.
pub fn identity_key_exec(p: &ProofPlanMetadata) -> (r: String)
    ensures
        r@ == identity_key(*p),
{
    proof {
        reveal_strlit("\u{1f}");
    }
    let mut s = concat2(p.origin.as_str(), "\u{1f}");
    s.append(p.feature.as_str());
    s.append("\u{1f}");
    s.append(p.status.as_str());
    s
}

/// The position of the first unit separator in `s`, if any.
pub open spec fn first_sep(s: Seq<char>) -> Option<int>
    decreases s.len(),
{
    if s.len() == 0 {
        None
    } else if s[0] == '\u{1f}' {
        Some(0)
    } else {
        match first_sep(s.drop_first()) {
            Some(i) => Some(i + 1),
            None => None,
        }
    }
}

/// Part `n` of `s` split at unit separators, or empty text where there are fewer parts.
pub open spec fn key_part(s: Seq<char>, n: nat) -> Seq<char>
    decreases s.len(),
{
    match first_sep(s) {
        None => if n == 0 {
            s
        } else {
            Seq::empty()
        },
        Some(i) => if n == 0 {
            s.take(i)
        } else {
            proof {
                lemma_first_sep_in_range(s);
            }
            key_part(s.skip(i + 1), (n - 1) as nat)
        },
    }
}

/// The first separator is in range, and nothing before it is one.
pub proof fn lemma_first_sep_in_range(s: Seq<char>)
    ensures
        first_sep(s) matches Some(i) ==> 0 <= i < s.len() && s[i] == '\u{1f}' && forall|j: int| 0 <= j < i ==> #[trigger] s[j] != '\u{1f}',
        first_sep(s) is None ==> forall|j: int| 0 <= j < s.len() ==> #[trigger] s[j] != '\u{1f}',
    decreases s.len(),
{
    if s.len() > 0 && s[0] != '\u{1f}' {
        lemma_first_sep_in_range(s.drop_first());
        assert forall|j: int| 0 < j < s.len() implies #[trigger] s[j] == s.drop_first()[j - 1] by {}
    }
}

fn find_sep(s: &Vec<char>, from: usize) -> (r: Option<usize>)
    requires
        from <= s@.len(),
    ensures
        match first_sep(s@.skip(from as int)) {
            Some(i) => r matches Some(x) && x == from + i && from <= x < s@.len(),
            None => r is None,
        },
{
    let mut i = from;
    while i < s.len()
        invariant
            from <= i <= s@.len(),
            forall|j: int| from <= j < i ==> #[trigger] s@[j] != '\u{1f}',
        decreases s@.len() - i,
    {
        if s[i] == '\u{1f}' {
            proof {
                lemma_first_sep_in_range(s@.skip(from as int));
                let t = s@.skip(from as int);
                match first_sep(t) {
                    Some(k) => {
                        if k < i - from {
                            assert(t[k] == s@[from + k]);
                        }
                        if k > i - from {
                            assert(t[i - from] == s@[i as int]);
                        }
                    },
                    None => {
                        assert(t[i - from] == s@[i as int]);
                    },
                }
            }
            return Some(i);
        }
        i += 1;
    }
    proof {
        lemma_first_sep_in_range(s@.skip(from as int));
        let t = s@.skip(from as int);
        if let Some(k) = first_sep(t) {
            assert(t[k] == s@[from + k]);
        }
    }
    None
}

fn chars_text(s: &Vec<char>, start: usize, end: usize) -> (r: String)
    requires
        start <= end <= s@.len(),
    ensures
        r@ == s@.subrange(start as int, end as int),
{
    let mut out = String::new();
    let mut i = start;
    while i < end
        invariant
            start <= i <= end <= s@.len(),
            out@ == s@.subrange(start as int, i as int),
        decreases end - i,
    {
        crate::text::push_char(&mut out, s[i]);
        assert(out@ =~= s@.subrange(start as int, i + 1));
        i += 1;
    }
    out
}

/// Part `n` of a key split at unit separators.
pub fn key_part_exec(key: &str, n: usize) -> (r: String)
    ensures
        r@ == key_part(key@, n as nat),
{
    let cs = crate::text::chars_of(key);
    let mut from: usize = 0;
    let mut k: usize = 0;
    assert(cs@.skip(0) =~= key@);
    let len = cs.len();
    while k < n
        invariant
            len == cs@.len(),
            from <= cs@.len(),
            k <= n,
            cs@ == key@,
            key_part(key@, n as nat) == key_part(cs@.skip(from as int), (n - k) as nat),
        decreases n - k,
    {
        let found = find_sep(&cs, from);
        match found {
            None => {
                return String::new();
            },
            Some(i) => {
                proof {
                    let t = cs@.skip(from as int);
                    assert(t.skip((i - from) + 1) =~= cs@.skip(i + 1));
                }
                from = i + 1;
            },
        }
        k += 1;
    }
    match find_sep(&cs, from) {
        None => chars_text(&cs, from, cs.len()),
        Some(i) => {
            proof {
                assert(cs@.skip(from as int).take(i - from) =~= cs@.subrange(from as int, i as int));
            }
            chars_text(&cs, from, i)
        },
    }
}

// ---------------------------------------------------------------------------------------------
// Whole-record equality.

/// Texts as characters.
pub open spec fn text_list(v: Seq<String>) -> Seq<Seq<char>> {
    v.map_values(|s: String| s@)
}

/// A diagnostic as characters.
pub open spec fn diagnostic_view(d: ProofPlanDiagnosticMetadata) -> (Seq<char>, Seq<char>) {
    (d.severity@, d.message@)
}

/// Two records agree in every field.
pub open spec fn same_record(a: ProofPlanMetadata, b: ProofPlanMetadata) -> bool {
    &&& a.name@ == b.name@
    &&& a.origin@ == b.origin@
    &&& a.category@ == b.category@
    &&& a.feature@ == b.feature@
    &&& a.evidence_tier == b.evidence_tier
    &&& a.source_span == b.source_span
    &&& a.trigger@ == b.trigger@
    &&& a.scope@ == b.scope@
    &&& text_list(a.reads@) == text_list(b.reads@)
    &&& text_list(a.coverage@) == text_list(b.coverage@)
    &&& text_list(a.input_output_relation_checks@) == text_list(b.input_output_relation_checks@)
    &&& a.group_cardinality@ == b.group_cardinality@
    &&& a.identity_lifecycle_policy@ == b.identity_lifecycle_policy@
    &&& text_list(a.preserved_fields@) == text_list(b.preserved_fields@)
    &&& text_list(a.witness_fields@) == text_list(b.witness_fields@)
    &&& text_list(a.lock_args_fields@) == text_list(b.lock_args_fields@)
    &&& a.on_chain_checked == b.on_chain_checked
    &&& text_list(a.on_chain_checked_obligations@) == text_list(b.on_chain_checked_obligations@)
    &&& text_list(a.builder_assumptions@) == text_list(b.builder_assumptions@)
    &&& a.codegen_coverage_status@ == b.codegen_coverage_status@
    &&& a.status@ == b.status@
    &&& a.detail@ == b.detail@
    &&& a.diagnostics@.map_values(|d: ProofPlanDiagnosticMetadata| diagnostic_view(d)) == b.diagnostics@.map_values(
        |d: ProofPlanDiagnosticMetadata| diagnostic_view(d),
    )
}

fn same_texts(a: &Vec<String>, b: &Vec<String>) -> (r: bool)
    ensures
        r == (text_list(a@) == text_list(b@)),
{
    if a.len() != b.len() {
        assert(text_list(a@).len() != text_list(b@).len());
        return false;
    }
    let mut i: usize = 0;
    while i < a.len()
        invariant
            a@.len() == b@.len(),
            i <= a@.len(),
            forall|j: int| 0 <= j < i ==> (#[trigger] a@[j])@ == b@[j]@,
        decreases a@.len() - i,
    {
        if !str_eq(a[i].as_str(), b[i].as_str()) {
            assert(text_list(a@)[i as int] != text_list(b@)[i as int]);
            return false;
        }
        i += 1;
    }
    assert(text_list(a@) =~= text_list(b@));
    true
}

fn same_diagnostics(a: &Vec<ProofPlanDiagnosticMetadata>, b: &Vec<ProofPlanDiagnosticMetadata>) -> (r: bool)
    ensures
        r == (a@.map_values(|d: ProofPlanDiagnosticMetadata| diagnostic_view(d)) == b@.map_values(
            |d: ProofPlanDiagnosticMetadata| diagnostic_view(d),
        )),
{
    let ghost av = a@.map_values(|d: ProofPlanDiagnosticMetadata| diagnostic_view(d));
    let ghost bv = b@.map_values(|d: ProofPlanDiagnosticMetadata| diagnostic_view(d));
    if a.len() != b.len() {
        assert(av.len() != bv.len());
        return false;
    }
    let mut i: usize = 0;
    while i < a.len()
        invariant
            a@.len() == b@.len(),
            i <= a@.len(),
            av == a@.map_values(|d: ProofPlanDiagnosticMetadata| diagnostic_view(d)),
            bv == b@.map_values(|d: ProofPlanDiagnosticMetadata| diagnostic_view(d)),
            forall|j: int| 0 <= j < i ==> diagnostic_view(#[trigger] a@[j]) == diagnostic_view(b@[j]),
        decreases a@.len() - i,
    {
        if !str_eq(a[i].severity.as_str(), b[i].severity.as_str()) || !str_eq(a[i].message.as_str(), b[i].message.as_str()) {
            assert(av[i as int] != bv[i as int]);
            return false;
        }
        i += 1;
    }
    assert(av =~= bv);
    true
}

fn same_span(a: &Option<ProofPlanSourceSpanMetadata>, b: &Option<ProofPlanSourceSpanMetadata>) -> (r: bool)
    ensures
        r == (*a == *b),
{
    match (a, b) {
        (None, None) => true,
        (Some(x), Some(y)) => x.start == y.start && x.end == y.end && x.line == y.line && x.column == y.column,
        _ => false,
    }
}

/// Whether two records agree in every field.
pub fn same_record_exec(a: &ProofPlanMetadata, b: &ProofPlanMetadata) -> (r: bool)
    ensures
        r == same_record(*a, *b),
{
    str_eq(a.name.as_str(), b.name.as_str()) && str_eq(a.origin.as_str(), b.origin.as_str()) && str_eq(
        a.category.as_str(),
        b.category.as_str(),
    ) && str_eq(a.feature.as_str(), b.feature.as_str()) && a.evidence_tier == b.evidence_tier && same_span(
        &a.source_span,
        &b.source_span,
    ) && str_eq(a.trigger.as_str(), b.trigger.as_str()) && str_eq(a.scope.as_str(), b.scope.as_str()) && same_texts(
        &a.reads,
        &b.reads,
    ) && same_texts(&a.coverage, &b.coverage) && same_texts(&a.input_output_relation_checks, &b.input_output_relation_checks)
        && str_eq(a.group_cardinality.as_str(), b.group_cardinality.as_str()) && str_eq(
        a.identity_lifecycle_policy.as_str(),
        b.identity_lifecycle_policy.as_str(),
    ) && same_texts(&a.preserved_fields, &b.preserved_fields) && same_texts(&a.witness_fields, &b.witness_fields) && same_texts(
        &a.lock_args_fields,
        &b.lock_args_fields,
    ) && a.on_chain_checked == b.on_chain_checked && same_texts(&a.on_chain_checked_obligations, &b.on_chain_checked_obligations)
        && same_texts(&a.builder_assumptions, &b.builder_assumptions) && str_eq(
        a.codegen_coverage_status.as_str(),
        b.codegen_coverage_status.as_str(),
    ) && str_eq(a.status.as_str(), b.status.as_str()) && str_eq(a.detail.as_str(), b.detail.as_str()) && same_diagnostics(
        &a.diagnostics,
        &b.diagnostics,
    )
}

// ---------------------------------------------------------------------------------------------
// Sorted key lists.

/// A strictly sorted list is determined by its elements.
pub proof fn lemma_sorted_unique(a: Seq<Seq<char>>, b: Seq<Seq<char>>)
    requires
        strs_sorted(a),
        strs_sorted(b),
        a.to_set() == b.to_set(),
    ensures
        a == b,
    decreases a.len(),
{
    if a.len() == 0 {
        if b.len() > 0 {
            assert(b.to_set().contains(b[0]));
        }
        assert(a =~= b);
    } else {
        assert(a.to_set().contains(a[0]));
        assert(b.to_set().contains(a[0]));
        let j = choose|j: int| 0 <= j < b.len() && b[j] == a[0];
        assert(b.to_set().contains(b[0]));
        assert(a.to_set().contains(b[0]));
        let i = choose|i: int| 0 <= i < a.len() && a[i] == b[0];
        if j > 0 {
            assert(chars_lt(b[0], b[j]));
            if i > 0 {
                assert(chars_lt(a[0], a[i]));
                lemma_chars_lt_order(a[0], b[0], a[0]);
            }
            lemma_chars_lt_order(b[0], a[0], b[0]);
        }
        assert(a[0] == b[0]);
        let at = a.drop_first();
        let bt = b.drop_first();
        assert forall|x: Seq<char>| at.to_set().contains(x) <==> bt.to_set().contains(x) by {
            if at.contains(x) {
                let k = choose|k: int| 0 <= k < at.len() && at[k] == x;
                assert(a[k + 1] == x);
                assert(chars_lt(a[0], a[k + 1]));
                lemma_chars_lt_order(a[0], x, a[0]);
                assert(a.to_set().contains(x));
                assert(b.contains(x));
                let m = choose|m: int| 0 <= m < b.len() && b[m] == x;
                assert(m != 0);
                assert(bt[m - 1] == x);
            }
            if bt.contains(x) {
                let k = choose|k: int| 0 <= k < bt.len() && bt[k] == x;
                assert(b[k + 1] == x);
                assert(chars_lt(b[0], b[k + 1]));
                lemma_chars_lt_order(b[0], x, b[0]);
                assert(b.to_set().contains(x));
                assert(a.contains(x));
                let m = choose|m: int| 0 <= m < a.len() && a[m] == x;
                assert(m != 0);
                assert(at[m - 1] == x);
            }
        }
        assert(at.to_set() =~= bt.to_set());
        assert forall|p: int, q: int| 0 <= p < q < at.len() implies chars_lt(#[trigger] at[p], #[trigger] at[q]) by {
            assert(at[p] == a[p + 1] && at[q] == a[q + 1]);
        }
        assert forall|p: int, q: int| 0 <= p < q < bt.len() implies chars_lt(#[trigger] bt[p], #[trigger] bt[q]) by {
            assert(bt[p] == b[p + 1] && bt[q] == b[q + 1]);
        }
        lemma_sorted_unique(at, bt);
        assert forall|k: int| 0 <= k < a.len() implies a[k] == b[k] by {
            if k > 0 {
                assert(a[k] == at[k - 1] && b[k] == bt[k - 1]);
            }
        }
        assert(a =~= b);
    }
}

/// The keys of `s`, sorted, each once.
pub open spec fn sorted_keys(s: Set<Seq<char>>) -> Seq<Seq<char>> {
    choose|ks: Seq<Seq<char>>| strs_sorted(ks) && ks.to_set() == s
}

/// A strictly sorted list of a set's elements is its sorted key list.
pub proof fn lemma_sorted_keys(ks: Seq<Seq<char>>, s: Set<Seq<char>>)
    requires
        strs_sorted(ks),
        ks.to_set() == s,
    ensures
        sorted_keys(s) == ks,
{
    let c = sorted_keys(s);
    assert(strs_sorted(c) && c.to_set() == s);
    lemma_sorted_unique(c, ks);
}

} // verus!
