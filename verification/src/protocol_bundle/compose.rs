//! Every conflict of a bundle, in one sorted list.

use super::conflicts::{
    all_canonical, artifacts_conflicts, closed_roles_conflicts, conflict_desc, descs, detect_artifact_conflicts,
    detect_closed_role_conflicts, detect_role_conflicts, references_error, role_claims_conflicts, role_claims_error,
    role_groups_conflicts, validate_claim_references,
};
use super::deps::{
    cell_dep_claims_conflicts, cell_dep_claims_error, cell_dep_names_conflicts, detect_cell_dep_conflicts,
    detect_header_dep_conflicts, detect_policy_conflicts, header_dep_claims_conflicts, header_dep_claims_error,
    header_dep_names_conflicts, policy_claims_conflicts, policy_claims_error, policy_kinds_conflicts,
};
use super::order::{conflict_key, conflict_lt, conflicts_sorted, lemma_conflict_lt_order, sorted_conflicts, texts};
use crate::proof_plan::keys::lemma_sorted_unique;
use super::witness::{detect_witness_conflicts, witness_claims_conflicts, witness_claims_error, witness_groups_conflicts};
use super::{first_error, ProtocolBundleConflict, ResolvedProtocolBundle};
use crate::error::Result;
use vstd::prelude::*;

verus! {

/// The error that stops conflict detection, if any: the reference checks first, then the
/// role, witness, cell dependency, header dependency and policy claims.
pub open spec fn bundle_error(b: ResolvedProtocolBundle) -> Option<Seq<char>> {
    first_error(
        references_error(b),
        first_error(
            role_claims_error(b, b.roles@.len() as int),
            first_error(
                witness_claims_error(b, b.witnesses@.len() as int),
                first_error(
                    cell_dep_claims_error(b, b.cell_deps@.len() as int),
                    first_error(
                        header_dep_claims_error(b, b.header_deps@.len() as int),
                        policy_claims_error(b, b.policies@.len() as int),
                    ),
                ),
            ),
        ),
    )
}

/// Every conflict of a bundle.
pub open spec fn bundle_conflicts(b: ResolvedProtocolBundle) -> Set<
    (Seq<char>, Seq<char>, Seq<char>, Set<Seq<char>>, Seq<char>),
> {
    artifacts_conflicts(b, b.artifacts@.len() as int) + role_claims_conflicts(b, b.roles@.len() as int)
        + role_groups_conflicts(b, b.roles@.len() as int) + closed_roles_conflicts(b, b.closed_roles@.len() as int)
        + witness_claims_conflicts(b, b.witnesses@.len() as int) + witness_groups_conflicts(b, b.witnesses@.len() as int)
        + cell_dep_claims_conflicts(b, b.cell_deps@.len() as int) + cell_dep_names_conflicts(b, b.cell_deps@.len() as int)
        + header_dep_claims_conflicts(b, b.header_deps@.len() as int) + header_dep_names_conflicts(
        b,
        b.header_deps@.len() as int,
    ) + policy_claims_conflicts(b, b.policies@.len() as int) + policy_kinds_conflicts(b, b.policies@.len() as int)
}

/// Two lists with the same conflict keys describe the same conflicts.
proof fn lemma_same_keys_same_descs(v: Seq<ProtocolBundleConflict>, w: Seq<ProtocolBundleConflict>)
    requires
        v.map_values(|x: ProtocolBundleConflict| conflict_key(x)).to_set() == w.map_values(
            |x: ProtocolBundleConflict| conflict_key(x),
        ).to_set(),
    ensures
        descs(v) == descs(w),
{
    let kv = v.map_values(|x: ProtocolBundleConflict| conflict_key(x));
    let kw = w.map_values(|x: ProtocolBundleConflict| conflict_key(x));
    let dv = v.map_values(|c: ProtocolBundleConflict| conflict_desc(c));
    let dw = w.map_values(|c: ProtocolBundleConflict| conflict_desc(c));
    assert forall|d| dv.to_set().contains(d) implies dw.to_set().contains(d) by {
        let i = choose|i: int| 0 <= i < dv.len() && dv[i] == d;
        assert(kv[i] == conflict_key(v[i]));
        assert(kv.to_set().contains(kv[i]));
        let j = choose|j: int| 0 <= j < kw.len() && kw[j] == kv[i];
        assert(conflict_key(w[j]) == conflict_key(v[i]));
        assert(conflict_desc(w[j]) == conflict_desc(v[i]));
        assert(dw[j] == d);
    }
    assert forall|d| dw.to_set().contains(d) implies dv.to_set().contains(d) by {
        let i = choose|i: int| 0 <= i < dw.len() && dw[i] == d;
        assert(kw[i] == conflict_key(w[i]));
        assert(kw.to_set().contains(kw[i]));
        let j = choose|j: int| 0 <= j < kv.len() && kv[j] == kw[i];
        assert(conflict_key(v[j]) == conflict_key(w[i]));
        assert(conflict_desc(v[j]) == conflict_desc(w[i]));
        assert(dv[j] == d);
    }
    assert(descs(v) =~= descs(w));
}

/// Every conflict between the claims of a composed bundle, sorted and without repeats; or the
/// first error of the checks, when a claim is malformed.
pub fn detect_conflicts(b: &ResolvedProtocolBundle) -> (r: Result<Vec<ProtocolBundleConflict>>)
    ensures
        match bundle_error(*b) {
            Some(m) => r matches Err(e) && e.message@ == m,
            None => r matches Ok(v) && conflicts_sorted(v@) && all_canonical(v@) && descs(v@) == bundle_conflicts(*b),
        },
{
    if let Err(e) = validate_claim_references(b) {
        return Err(e);
    }
    let mut conflicts: Vec<ProtocolBundleConflict> = Vec::new();
    proof {
        assert(descs(conflicts@) =~= Set::empty());
    }
    detect_artifact_conflicts(b, &mut conflicts);
    if let Err(e) = detect_role_conflicts(b, &mut conflicts) {
        return Err(e);
    }
    detect_closed_role_conflicts(b, &mut conflicts);
    if let Err(e) = detect_witness_conflicts(b, &mut conflicts) {
        return Err(e);
    }
    if let Err(e) = detect_cell_dep_conflicts(b, &mut conflicts) {
        return Err(e);
    }
    if let Err(e) = detect_header_dep_conflicts(b, &mut conflicts) {
        return Err(e);
    }
    if let Err(e) = detect_policy_conflicts(b, &mut conflicts) {
        return Err(e);
    }
    let ghost collected = conflicts@;
    proof {
        assert(descs(collected) =~= bundle_conflicts(*b));
    }
    let sorted = sorted_conflicts(conflicts);
    proof {
        lemma_same_keys_same_descs(sorted@, collected);
        assert forall|i: int| 0 <= i < sorted@.len() implies super::order::strs_sorted(texts(#[trigger] sorted@[i].artifacts@)) by {
            assert(sorted@.contains(sorted@[i]));
            let j = choose|j: int| 0 <= j < collected.len() && collected[j] == sorted@[i];
        }
    }
    Ok(sorted)
}

/// The key of a conflict, as its order sees it.
pub type ConflictKey = (Seq<char>, Seq<char>, Seq<char>, Seq<Seq<char>>, Seq<char>);

/// Keys in strictly increasing order.
pub open spec fn keys_sorted(s: Seq<ConflictKey>) -> bool {
    forall|i: int, j: int| 0 <= i < j < s.len() ==> conflict_lt(#[trigger] s[i], #[trigger] s[j])
}

/// A strictly increasing list of keys is determined by its elements.
proof fn lemma_keys_sorted_unique(a: Seq<ConflictKey>, b: Seq<ConflictKey>)
    requires
        keys_sorted(a),
        keys_sorted(b),
        a.to_set() == b.to_set(),
    ensures
        a == b,
    decreases a.len(),
{
    if a.len() == 0 {
        if b.len() > 0 {
            assert(b.to_set().contains(b[0]));
        }
        assert(a =~= b);
    } else {
        assert(a.to_set().contains(a[0]));
        assert(b.to_set().contains(a[0]));
        let j = choose|j: int| 0 <= j < b.len() && b[j] == a[0];
        assert(b.to_set().contains(b[0]));
        assert(a.to_set().contains(b[0]));
        let i = choose|i: int| 0 <= i < a.len() && a[i] == b[0];
        if j > 0 {
            assert(conflict_lt(b[0], b[j]));
            if i > 0 {
                assert(conflict_lt(a[0], a[i]));
                lemma_conflict_lt_order(a[0], b[0], a[0]);
            }
            lemma_conflict_lt_order(b[0], a[0], b[0]);
        }
        assert(a[0] == b[0]);
        let at = a.drop_first();
        let bt = b.drop_first();
        assert forall|x: ConflictKey| at.to_set().contains(x) <==> bt.to_set().contains(x) by {
            if at.contains(x) {
                let k = choose|k: int| 0 <= k < at.len() && at[k] == x;
                assert(a[k + 1] == x);
                assert(conflict_lt(a[0], a[k + 1]));
                lemma_conflict_lt_order(a[0], x, a[0]);
                assert(a.to_set().contains(x));
                assert(b.contains(x));
                let m = choose|m: int| 0 <= m < b.len() && b[m] == x;
                assert(m != 0);
                assert(bt[m - 1] == x);
            }
            if bt.contains(x) {
                let k = choose|k: int| 0 <= k < bt.len() && bt[k] == x;
                assert(b[k + 1] == x);
                assert(conflict_lt(b[0], b[k + 1]));
                lemma_conflict_lt_order(b[0], x, b[0]);
                assert(b.to_set().contains(x));
                assert(a.contains(x));
                let m = choose|m: int| 0 <= m < a.len() && a[m] == x;
                assert(m != 0);
                assert(at[m - 1] == x);
            }
        }
        assert(at.to_set() =~= bt.to_set());
        assert forall|p: int, q: int| 0 <= p < q < at.len() implies conflict_lt(#[trigger] at[p], #[trigger] at[q]) by {
            assert(at[p] == a[p + 1] && at[q] == a[q + 1]);
        }
        assert forall|p: int, q: int| 0 <= p < q < bt.len() implies conflict_lt(#[trigger] bt[p], #[trigger] bt[q]) by {
            assert(bt[p] == b[p + 1] && bt[q] == b[q + 1]);
        }
        lemma_keys_sorted_unique(at, bt);
        assert forall|k: int| 0 <= k < a.len() implies a[k] == b[k] by {
            if k > 0 {
                assert(a[k] == at[k - 1] && b[k] == bt[k - 1]);
            }
        }
        assert(a =~= b);
    }
}

/// A conflict of a canonical list, described in `descs`, has the key of any conflict of another
/// canonical list with the same description.
proof fn lemma_desc_determines_key(x: ProtocolBundleConflict, y: ProtocolBundleConflict)
    requires
        super::order::strs_sorted(texts(x.artifacts@)),
        super::order::strs_sorted(texts(y.artifacts@)),
        conflict_desc(x) == conflict_desc(y),
    ensures
        conflict_key(x) == conflict_key(y),
{
    lemma_sorted_unique(texts(x.artifacts@), texts(y.artifacts@));
    assert(x.artifacts@.map_values(|a: String| a@) == texts(x.artifacts@));
    assert(y.artifacts@.map_values(|a: String| a@) == texts(y.artifacts@));
}

/// Conflict detection is deterministic: any two lists its result contract allows for one bundle
/// hold the same conflicts, in the same order.
pub proof fn lemma_detected_conflicts_determined(b: ResolvedProtocolBundle, v: Seq<ProtocolBundleConflict>, w: Seq<ProtocolBundleConflict>)
    requires
        conflicts_sorted(v) && all_canonical(v) && descs(v) == bundle_conflicts(b),
        conflicts_sorted(w) && all_canonical(w) && descs(w) == bundle_conflicts(b),
    ensures
        v.map_values(|x: ProtocolBundleConflict| conflict_key(x)) == w.map_values(|x: ProtocolBundleConflict| conflict_key(x)),
{
    let kv = v.map_values(|x: ProtocolBundleConflict| conflict_key(x));
    let kw = w.map_values(|x: ProtocolBundleConflict| conflict_key(x));
    let dv = v.map_values(|c: ProtocolBundleConflict| conflict_desc(c));
    let dw = w.map_values(|c: ProtocolBundleConflict| conflict_desc(c));
    assert forall|k: ConflictKey| kv.to_set().contains(k) <==> kw.to_set().contains(k) by {
        if kv.contains(k) {
            let i = choose|i: int| 0 <= i < kv.len() && kv[i] == k;
            assert(dv.to_set().contains(dv[i]));
            assert(dw.contains(dv[i]));
            let j = choose|j: int| 0 <= j < dw.len() && dw[j] == dv[i];
            lemma_desc_determines_key(v[i], w[j]);
            assert(kw[j] == k);
        }
        if kw.contains(k) {
            let i = choose|i: int| 0 <= i < kw.len() && kw[i] == k;
            assert(dw.to_set().contains(dw[i]));
            assert(dv.contains(dw[i]));
            let j = choose|j: int| 0 <= j < dv.len() && dv[j] == dw[i];
            lemma_desc_determines_key(w[i], v[j]);
            assert(kv[j] == k);
        }
    }
    assert(kv.to_set() =~= kw.to_set());
    assert forall|p: int, q: int| 0 <= p < q < kv.len() implies conflict_lt(#[trigger] kv[p], #[trigger] kv[q]) by {
        assert(conflict_lt(conflict_key(v[p]), conflict_key(v[q])));
    }
    assert forall|p: int, q: int| 0 <= p < q < kw.len() implies conflict_lt(#[trigger] kw[p], #[trigger] kw[q]) by {
        assert(conflict_lt(conflict_key(w[p]), conflict_key(w[q])));
    }
    lemma_keys_sorted_unique(kv, kw);
}

} // verus!
