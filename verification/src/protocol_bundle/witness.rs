//! Conflicts between witness claims.

use super::conflicts::{all_canonical, descs, incompatible_detail, push_conflict, push_single, single, only_if};
use super::order::{lemma_push_to_set, texts};
use super::{
    canonical_hash32, hash32_error, name_error, validate_name, ProtocolBundleConflict, ProtocolWitnessClaim,
    ProtocolWitnessField, ProtocolWitnessOwnership, ResolvedProtocolBundle,
};
use crate::error::Result;
use crate::text::{concat2, concat3, decimal, decimal_string, str_eq};
use vstd::prelude::*;

verus! {

/// The word a witness field is keyed by.
pub open spec fn field_word(f: ProtocolWitnessField) -> Seq<char> {
    match f {
        ProtocolWitnessField::Lock => "lock"@,
        ProtocolWitnessField::InputType => "inputtype"@,
        ProtocolWitnessField::OutputType => "outputtype"@,
    }
}

/// The key of a witness field: `witness[2].lock`.
pub open spec fn witness_key(index: u32, f: ProtocolWitnessField) -> Seq<char> {
    "witness["@ + decimal(index as nat) + "]."@ + field_word(f)
}

fn witness_key_exec(index: u32, f: ProtocolWitnessField) -> (r: String)
    ensures
        r@ == witness_key(index, f),
{
    proof {
        reveal_strlit("witness[");
        reveal_strlit("].");
        reveal_strlit("lock");
        reveal_strlit("inputtype");
        reveal_strlit("outputtype");
    }
    let word = match f {
        ProtocolWitnessField::Lock => "lock",
        ProtocolWitnessField::InputType => "inputtype",
        ProtocolWitnessField::OutputType => "outputtype",
    };
    let digits = decimal_string(index as u128);
    let mut key = concat3("witness[", digits.as_str(), "].");
    key.append(word);
    key
}

/// The claim names a witness the skeleton has.
pub open spec fn witness_in_range(b: ResolvedProtocolBundle, c: ProtocolWitnessClaim) -> bool {
    (c.index as int) < b.transaction.witnesses@.len()
}

/// The commitment the skeleton holds for the field a claim names.
pub open spec fn skeleton_commitment(b: ResolvedProtocolBundle, c: ProtocolWitnessClaim) -> Option<String> {
    let w = b.transaction.witnesses@[c.index as int];
    match c.field {
        ProtocolWitnessField::Lock => w.lock,
        ProtocolWitnessField::InputType => w.input_type,
        ProtocolWitnessField::OutputType => w.output_type,
    }
}

/// The error the checks of one witness claim report, if any.
pub open spec fn witness_claim_error(b: ResolvedProtocolBundle, c: ProtocolWitnessClaim) -> Option<Seq<char>> {
    if let Some(m) = name_error(c.abi@, "witness ABI"@) {
        Some(m)
    } else if !witness_in_range(b, c) {
        None
    } else {
        match c.value_commitment {
            Some(v) => hash32_error(v@, "witness value_commitment"@),
            None => None,
        }
    }
}

/// The first error among the first `n` witness claims.
pub open spec fn witness_claims_error(b: ResolvedProtocolBundle, n: int) -> Option<Seq<char>>
    decreases n,
{
    if n <= 0 {
        None
    } else {
        super::first_error(witness_claims_error(b, n - 1), witness_claim_error(b, b.witnesses@[n - 1]))
    }
}

/// The conflicts one witness claim raises against the skeleton.
pub open spec fn witness_claim_conflicts(b: ResolvedProtocolBundle, c: ProtocolWitnessClaim) -> Set<
    (Seq<char>, Seq<char>, Seq<char>, Set<Seq<char>>, Seq<char>),
> {
    let key = witness_key(c.index, c.field);
    if !witness_in_range(b, c) {
        set![single("PB211"@, "skeleton-binding"@, key, c.artifact@, "witness index is outside the transaction skeleton"@)]
    } else {
        only_if(
            c.value_commitment matches Some(v) && !(skeleton_commitment(b, c) matches Some(a) && a@ == v@),
            single("PB202"@, "witness-abi"@, key, c.artifact@, "witness field commitment differs from the transaction skeleton"@),
        )
    }
}

/// The conflicts the first `n` witness claims raise one by one.
pub open spec fn witness_claims_conflicts(b: ResolvedProtocolBundle, n: int) -> Set<
    (Seq<char>, Seq<char>, Seq<char>, Set<Seq<char>>, Seq<char>),
>
    decreases n,
{
    if n <= 0 {
        Set::empty()
    } else {
        witness_claims_conflicts(b, n - 1) + witness_claim_conflicts(b, b.witnesses@[n - 1])
    }
}

fn field_eq(x: ProtocolWitnessField, y: ProtocolWitnessField) -> (r: bool)
    ensures
        r == (x == y),
{
    match (x, y) {
        (ProtocolWitnessField::Lock, ProtocolWitnessField::Lock) => true,
        (ProtocolWitnessField::InputType, ProtocolWitnessField::InputType) => true,
        (ProtocolWitnessField::OutputType, ProtocolWitnessField::OutputType) => true,
        _ => false,
    }
}

fn check_witness_claim(b: &ResolvedProtocolBundle, c: &ProtocolWitnessClaim, conflicts: &mut Vec<ProtocolBundleConflict>) -> (r: Result<()>)
    requires
        all_canonical(old(conflicts)@),
    ensures
        all_canonical(final(conflicts)@),
        match witness_claim_error(*b, *c) {
            Some(m) => r matches Err(e) && e.message@ == m,
            None => r is Ok && descs(final(conflicts)@) == descs(old(conflicts)@) + witness_claim_conflicts(*b, *c),
        },
{
    proof {
        reveal_strlit("PB211");
        reveal_strlit("PB202");
    }
    let ghost start = descs(conflicts@);
    if let Err(e) = validate_name(c.abi.as_str(), "witness ABI") {
        return Err(e);
    }
    let key = witness_key_exec(c.index, c.field);
    if c.index as usize >= b.transaction.witnesses.len() {
        push_single(conflicts, "PB211", "skeleton-binding", key, &c.artifact, "witness index is outside the transaction skeleton");
        proof {
            assert(descs(conflicts@) =~= start + witness_claim_conflicts(*b, *c));
        }
        return Ok(());
    }
    let w = &b.transaction.witnesses[c.index as usize];
    let actual = match c.field {
        ProtocolWitnessField::Lock => &w.lock,
        ProtocolWitnessField::InputType => &w.input_type,
        ProtocolWitnessField::OutputType => &w.output_type,
    };
    if let Some(commitment) = &c.value_commitment {
        if let Err(e) = canonical_hash32(commitment.as_str(), "witness value_commitment") {
            return Err(e);
        }
        let same = match actual {
            Some(a) => str_eq(a.as_str(), commitment.as_str()),
            None => false,
        };
        if !same {
            push_single(conflicts, "PB202", "witness-abi", key, &c.artifact, "witness field commitment differs from the transaction skeleton");
        }
    }
    proof {
        assert(descs(conflicts@) =~= start + witness_claim_conflicts(*b, *c));
    }
    Ok(())
}

// ---------------------------------------------------------------------------------------------
// Witness claims, by the field they name.

/// Claim `k` names the field `f` of witness `idx`, which exists.
pub open spec fn witness_member(b: ResolvedProtocolBundle, k: int, idx: u32, f: ProtocolWitnessField) -> bool {
    &&& 0 <= k < b.witnesses@.len()
    &&& witness_in_range(b, b.witnesses@[k])
    &&& b.witnesses@[k].index == idx
    &&& b.witnesses@[k].field == f
}

/// The artifacts that claim the field.
pub open spec fn witness_group_artifacts(b: ResolvedProtocolBundle, idx: u32, f: ProtocolWitnessField) -> Set<Seq<char>> {
    Set::new(|a: Seq<char>| exists|k: int| witness_member(b, k, idx, f) && #[trigger] b.witnesses@[k].artifact@ == a)
}

/// The value a witness claim declares for one aspect: ABI (0), value commitment (1) or signing
/// domain (2).
pub open spec fn witness_value(c: ProtocolWitnessClaim, aspect: u8) -> Option<Seq<char>> {
    if aspect == 0 {
        Some(c.abi@)
    } else if aspect == 1 {
        match c.value_commitment {
            Some(v) => Some(v@),
            None => None,
        }
    } else {
        match c.signing_domain {
            Some(v) => Some(v@),
            None => None,
        }
    }
}

/// Two claims on the field declare different values for one aspect.
pub open spec fn witness_values_differ(b: ResolvedProtocolBundle, idx: u32, f: ProtocolWitnessField, aspect: u8) -> bool {
    exists|k1: int, k2: int|
        #![trigger witness_value(b.witnesses@[k1], aspect), witness_value(b.witnesses@[k2], aspect)]
        witness_member(b, k1, idx, f) && witness_member(b, k2, idx, f) && witness_value(b.witnesses@[k1], aspect) is Some
            && witness_value(b.witnesses@[k2], aspect) is Some && witness_value(b.witnesses@[k1], aspect) != witness_value(
            b.witnesses@[k2],
            aspect,
        )
}

/// At least two artifacts claim the field, and two different claims write it exclusively.
pub open spec fn witness_exclusive_clash(b: ResolvedProtocolBundle, idx: u32, f: ProtocolWitnessField) -> bool {
    &&& exists|k1: int, k2: int|
        #![trigger b.witnesses@[k1], b.witnesses@[k2]]
        witness_member(b, k1, idx, f) && witness_member(b, k2, idx, f) && b.witnesses@[k1].artifact@
            != b.witnesses@[k2].artifact@
    &&& exists|k1: int, k2: int|
        #![trigger b.witnesses@[k1], b.witnesses@[k2]]
        k1 != k2 && witness_member(b, k1, idx, f) && witness_member(b, k2, idx, f) && b.witnesses@[k1].ownership
            == ProtocolWitnessOwnership::ExclusiveWrite && b.witnesses@[k2].ownership
            == ProtocolWitnessOwnership::ExclusiveWrite
}

/// The conflicts among the claims on one witness field.
pub open spec fn witness_group_conflicts(b: ResolvedProtocolBundle, idx: u32, f: ProtocolWitnessField) -> Set<
    (Seq<char>, Seq<char>, Seq<char>, Set<Seq<char>>, Seq<char>),
> {
    let key = witness_key(idx, f);
    let arts = witness_group_artifacts(b, idx, f);
    only_if(
        witness_exclusive_clash(b, idx, f),
        ("PB202"@, "witness-abi"@, key, arts, "multiple artifacts claim exclusive write ownership of one WitnessArgs field"@),
    ) + only_if(witness_values_differ(b, idx, f, 0), ("PB202"@, "witness-abi"@, key + ".abi"@, arts, incompatible_detail()))
        + only_if(witness_values_differ(b, idx, f, 1), ("PB202"@, "witness-abi"@, key + ".value"@, arts, incompatible_detail()))
        + only_if(
        witness_values_differ(b, idx, f, 2),
        ("PB210"@, "signature-policy"@, key + ".signing-domain"@, arts, incompatible_detail()),
    )
}

/// The conflicts among the claims on each field that one of the first `n` claims names.
pub open spec fn witness_groups_conflicts(b: ResolvedProtocolBundle, n: int) -> Set<
    (Seq<char>, Seq<char>, Seq<char>, Set<Seq<char>>, Seq<char>),
> {
    Set::new(
        |d: (Seq<char>, Seq<char>, Seq<char>, Set<Seq<char>>, Seq<char>)|
            exists|k: int|
                0 <= k < n && k < b.witnesses@.len() && witness_in_range(b, b.witnesses@[k]) && #[trigger] witness_group_conflicts(
                    b,
                    b.witnesses@[k].index,
                    b.witnesses@[k].field,
                ).contains(d),
    )
}

fn is_witness_member(b: &ResolvedProtocolBundle, k: usize, idx: u32, f: ProtocolWitnessField) -> (r: bool)
    requires
        k < b.witnesses@.len(),
    ensures
        r == witness_member(*b, k as int, idx, f),
{
    let c = &b.witnesses[k];
    (c.index as usize) < b.transaction.witnesses.len() && c.index == idx && field_eq(c.field, f)
}

fn witness_value_text(c: &ProtocolWitnessClaim, aspect: u8) -> (r: Option<&String>)
    ensures
        match r {
            Some(s) => witness_value(*c, aspect) == Some(s@),
            None => witness_value(*c, aspect) is None,
        },
{
    if aspect == 0 {
        Some(&c.abi)
    } else if aspect == 1 {
        match &c.value_commitment {
            Some(v) => Some(v),
            None => None,
        }
    } else {
        match &c.signing_domain {
            Some(v) => Some(v),
            None => None,
        }
    }
}

fn witness_values_differ_exec(b: &ResolvedProtocolBundle, idx: u32, f: ProtocolWitnessField, aspect: u8) -> (r: bool)
    ensures
        r == witness_values_differ(*b, idx, f, aspect),
{
    let n = b.witnesses.len();
    let mut first: usize = 0;
    let mut v0: Option<&String> = None;
    while first < n
        invariant_except_break
            v0 is None,
        invariant
            n == b.witnesses@.len(),
            first <= n,
            forall|k: int| 0 <= k < first ==> !(witness_member(*b, k, idx, f) && #[trigger] witness_value(b.witnesses@[k], aspect) is Some),
        ensures
            first <= n,
            forall|k: int| 0 <= k < first ==> !(witness_member(*b, k, idx, f) && #[trigger] witness_value(b.witnesses@[k], aspect) is Some),
            first < n ==> witness_member(*b, first as int, idx, f) && (v0 matches Some(s) && witness_value(b.witnesses@[first as int], aspect) == Some(s@)),
        decreases n - first,
    {
        if is_witness_member(b, first, idx, f) {
            let v = witness_value_text(&b.witnesses[first], aspect);
            if v.is_some() {
                v0 = v;
                break;
            }
        }
        first += 1;
    }
    if first == n {
        return false;
    }
    let base = match v0 {
        Some(s) => s,
        None => return false,
    };
    let mut k: usize = 0;
    while k < n
        invariant
            n == b.witnesses@.len(),
            first < n,
            witness_member(*b, first as int, idx, f),
            witness_value(b.witnesses@[first as int], aspect) == Some(base@),
            k <= n,
            forall|j: int|
                0 <= j < k && witness_member(*b, j, idx, f) && #[trigger] witness_value(b.witnesses@[j], aspect) is Some ==> witness_value(
                    b.witnesses@[j],
                    aspect,
                ) == Some(base@),
        decreases n - k,
    {
        if is_witness_member(b, k, idx, f) {
            match witness_value_text(&b.witnesses[k], aspect) {
                Some(v) => {
                    if !str_eq(v.as_str(), base.as_str()) {
                        proof {
                            assert(witness_value(b.witnesses@[first as int], aspect) is Some && witness_value(b.witnesses@[k as int], aspect) is Some);
                        }
                        return true;
                    }
                },
                None => {},
            }
        }
        k += 1;
    }
    false
}

fn witness_exclusive_clash_exec(b: &ResolvedProtocolBundle, idx: u32, f: ProtocolWitnessField) -> (r: bool)
    ensures
        r == witness_exclusive_clash(*b, idx, f),
{
    let n = b.witnesses.len();
    let mut first_art: Option<usize> = None;
    let mut two_artifacts = false;
    let mut seen: Option<usize> = None;
    let mut two_exclusive = false;
    let mut k: usize = 0;
    while k < n
        invariant
            n == b.witnesses@.len(),
            k <= n,
            match first_art {
                None => forall|j: int| 0 <= j < k ==> !witness_member(*b, j, idx, f),
                Some(s) => s < k && witness_member(*b, s as int, idx, f),
            },
            two_artifacts ==> exists|k1: int, k2: int|
                #![trigger b.witnesses@[k1], b.witnesses@[k2]]
                witness_member(*b, k1, idx, f) && witness_member(*b, k2, idx, f) && b.witnesses@[k1].artifact@
                    != b.witnesses@[k2].artifact@,
            !two_artifacts ==> (first_art matches Some(s) ==> forall|j: int|
                0 <= j < k && witness_member(*b, j, idx, f) ==> (#[trigger] b.witnesses@[j]).artifact@ == b.witnesses@[s as int].artifact@),
            two_exclusive ==> exists|k1: int, k2: int|
                #![trigger b.witnesses@[k1], b.witnesses@[k2]]
                k1 != k2 && witness_member(*b, k1, idx, f) && witness_member(*b, k2, idx, f) && b.witnesses@[k1].ownership
                    == ProtocolWitnessOwnership::ExclusiveWrite && b.witnesses@[k2].ownership
                    == ProtocolWitnessOwnership::ExclusiveWrite,
            !two_exclusive ==> match seen {
                None => forall|j: int|
                    0 <= j < k && witness_member(*b, j, idx, f) ==> (#[trigger] b.witnesses@[j]).ownership
                        != ProtocolWitnessOwnership::ExclusiveWrite,
                Some(s) => s < k && witness_member(*b, s as int, idx, f) && b.witnesses@[s as int].ownership
                    == ProtocolWitnessOwnership::ExclusiveWrite && forall|j: int|
                    0 <= j < k && j != s && witness_member(*b, j, idx, f) ==> (#[trigger] b.witnesses@[j]).ownership
                        != ProtocolWitnessOwnership::ExclusiveWrite,
            },
        decreases n - k,
    {
        if is_witness_member(b, k, idx, f) {
            match first_art {
                None => {
                    first_art = Some(k);
                },
                Some(s) => {
                    if !two_artifacts && !str_eq(b.witnesses[s].artifact.as_str(), b.witnesses[k].artifact.as_str()) {
                        proof {
                            assert(b.witnesses@[s as int] == b.witnesses@[s as int] && b.witnesses@[k as int] == b.witnesses@[k as int]);
                        }
                        two_artifacts = true;
                    }
                },
            }
            if b.witnesses[k].ownership == ProtocolWitnessOwnership::ExclusiveWrite && !two_exclusive {
                match seen {
                    None => {
                        seen = Some(k);
                    },
                    Some(s) => {
                        proof {
                            assert(b.witnesses@[s as int] == b.witnesses@[s as int] && b.witnesses@[k as int] == b.witnesses@[k as int]);
                        }
                        two_exclusive = true;
                    },
                }
            }
        }
        k += 1;
    }
    proof {
        if !two_artifacts {
            assert forall|k1: int, k2: int|
                #![trigger b.witnesses@[k1], b.witnesses@[k2]]
                witness_member(*b, k1, idx, f) && witness_member(*b, k2, idx, f) implies b.witnesses@[k1].artifact@
                    == b.witnesses@[k2].artifact@ by {
                assert(b.witnesses@[k1] == b.witnesses@[k1]);
                assert(b.witnesses@[k2] == b.witnesses@[k2]);
            }
        }
        if !two_exclusive {
            assert forall|k1: int, k2: int|
                #![trigger b.witnesses@[k1], b.witnesses@[k2]]
                k1 != k2 && witness_member(*b, k1, idx, f) && witness_member(*b, k2, idx, f) implies !(b.witnesses@[k1].ownership
                    == ProtocolWitnessOwnership::ExclusiveWrite && b.witnesses@[k2].ownership
                    == ProtocolWitnessOwnership::ExclusiveWrite) by {
                assert(b.witnesses@[k1] == b.witnesses@[k1]);
                assert(b.witnesses@[k2] == b.witnesses@[k2]);
            }
        }
    }
    two_artifacts && two_exclusive
}

fn witness_group_artifact_list(b: &ResolvedProtocolBundle, idx: u32, f: ProtocolWitnessField) -> (r: Vec<String>)
    ensures
        texts(r@).to_set() == witness_group_artifacts(*b, idx, f),
{
    let n = b.witnesses.len();
    let mut out: Vec<String> = Vec::new();
    let mut k: usize = 0;
    while k < n
        invariant
            n == b.witnesses@.len(),
            k <= n,
            forall|a: Seq<char>|
                texts(out@).to_set().contains(a) <==> exists|j: int|
                    0 <= j < k && witness_member(*b, j, idx, f) && #[trigger] b.witnesses@[j].artifact@ == a,
        decreases n - k,
    {
        if is_witness_member(b, k, idx, f) {
            let ghost before = texts(out@);
            out.push(b.witnesses[k].artifact.clone());
            proof {
                assert(texts(out@) =~= before.push(b.witnesses@[k as int].artifact@));
                lemma_push_to_set(before, b.witnesses@[k as int].artifact@);
            }
        }
        proof {
            assert forall|a: Seq<char>|
                texts(out@).to_set().contains(a) <==> exists|j: int|
                    0 <= j < k + 1 && witness_member(*b, j, idx, f) && #[trigger] b.witnesses@[j].artifact@ == a by {
                if exists|j: int| 0 <= j < k + 1 && witness_member(*b, j, idx, f) && #[trigger] b.witnesses@[j].artifact@ == a {
                    let j = choose|j: int| 0 <= j < k + 1 && witness_member(*b, j, idx, f) && #[trigger] b.witnesses@[j].artifact@ == a;
                    if j < k {
                        assert(exists|j: int| 0 <= j < k && witness_member(*b, j, idx, f) && #[trigger] b.witnesses@[j].artifact@ == a);
                    }
                }
            }
        }
        k += 1;
    }
    proof {
        assert(texts(out@).to_set() =~= witness_group_artifacts(*b, idx, f));
    }
    out
}

fn check_witness_group(
    b: &ResolvedProtocolBundle,
    idx: u32,
    f: ProtocolWitnessField,
    conflicts: &mut Vec<ProtocolBundleConflict>,
)
    requires
        all_canonical(old(conflicts)@),
    ensures
        all_canonical(final(conflicts)@),
        descs(final(conflicts)@) == descs(old(conflicts)@) + witness_group_conflicts(*b, idx, f),
{
    proof {
        reveal_strlit("PB202");
        reveal_strlit("PB210");
        reveal_strlit(".abi");
        reveal_strlit(".value");
        reveal_strlit(".signing-domain");
    }
    let ghost start = descs(conflicts@);
    let key = witness_key_exec(idx, f);
    if witness_exclusive_clash_exec(b, idx, f) {
        push_conflict(conflicts, "PB202", "witness-abi", concat2(key.as_str(), ""), witness_group_artifact_list(b, idx, f),
            "multiple artifacts claim exclusive write ownership of one WitnessArgs field");
    }
    if witness_values_differ_exec(b, idx, f, 0) {
        push_conflict(conflicts, "PB202", "witness-abi", concat2(key.as_str(), ".abi"), witness_group_artifact_list(b, idx, f),
            "artifacts declare incompatible values for the same transaction role");
    }
    if witness_values_differ_exec(b, idx, f, 1) {
        push_conflict(conflicts, "PB202", "witness-abi", concat2(key.as_str(), ".value"), witness_group_artifact_list(b, idx, f),
            "artifacts declare incompatible values for the same transaction role");
    }
    if witness_values_differ_exec(b, idx, f, 2) {
        push_conflict(conflicts, "PB210", "signature-policy", concat2(key.as_str(), ".signing-domain"),
            witness_group_artifact_list(b, idx, f), "artifacts declare incompatible values for the same transaction role");
    }
    proof {
        reveal_strlit("");
        assert(key@ + ""@ =~= key@);
        assert(descs(conflicts@) =~= start + witness_group_conflicts(*b, idx, f));
    }
}

fn witness_named_earlier(b: &ResolvedProtocolBundle, i: usize) -> (r: bool)
    requires
        i < b.witnesses@.len(),
    ensures
        r == exists|j: int| 0 <= j < i && witness_member(*b, j, b.witnesses@[i as int].index, b.witnesses@[i as int].field),
{
    let idx = b.witnesses[i].index;
    let f = b.witnesses[i].field;
    let mut j: usize = 0;
    while j < i
        invariant
            i < b.witnesses@.len(),
            idx == b.witnesses@[i as int].index,
            f == b.witnesses@[i as int].field,
            j <= i,
            forall|k: int| 0 <= k < j ==> !witness_member(*b, k, idx, f),
        decreases i - j,
    {
        if is_witness_member(b, j, idx, f) {
            return true;
        }
        j += 1;
    }
    false
}

/// Once an error is found among the first claims, it is the first error among more claims.
proof fn lemma_witness_claims_error_stays(b: ResolvedProtocolBundle, i: int, n: int)
    requires
        0 <= i <= n,
        witness_claims_error(b, i) is Some,
    ensures
        witness_claims_error(b, n) == witness_claims_error(b, i),
    decreases n - i,
{
    if i < n {
        lemma_witness_claims_error_stays(b, i, n - 1);
    }
}

/// Checks every witness claim against the skeleton, then the claims on each field against each
/// other, and records the conflicts. An invalid ABI name, or an invalid commitment of a claim
/// that names an existing witness, stops the check.
pub fn detect_witness_conflicts(b: &ResolvedProtocolBundle, conflicts: &mut Vec<ProtocolBundleConflict>) -> (r: Result<()>)
    requires
        all_canonical(old(conflicts)@),
    ensures
        all_canonical(final(conflicts)@),
        match witness_claims_error(*b, b.witnesses@.len() as int) {
            Some(m) => r matches Err(e) && e.message@ == m,
            None => r is Ok && descs(final(conflicts)@) == descs(old(conflicts)@) + witness_claims_conflicts(
                *b,
                b.witnesses@.len() as int,
            ) + witness_groups_conflicts(*b, b.witnesses@.len() as int),
        },
{
    let ghost start = descs(conflicts@);
    let n = b.witnesses.len();
    let mut i: usize = 0;
    while i < n
        invariant
            n == b.witnesses@.len(),
            i <= n,
            all_canonical(conflicts@),
            witness_claims_error(*b, i as int) is None,
            descs(conflicts@) == start + witness_claims_conflicts(*b, i as int),
        decreases n - i,
    {
        match check_witness_claim(b, &b.witnesses[i], conflicts) {
            Err(e) => {
                proof {
                    lemma_witness_claims_error_stays(*b, i + 1, n as int);
                }
                return Err(e);
            },
            Ok(()) => {},
        }
        proof {
            assert(descs(conflicts@) =~= start + witness_claims_conflicts(*b, i + 1));
        }
        i += 1;
    }
    let ghost mid = descs(conflicts@);
    let mut i: usize = 0;
    proof {
        assert(witness_groups_conflicts(*b, 0) =~= Set::empty());
        assert(descs(conflicts@) =~= mid + witness_groups_conflicts(*b, 0));
    }
    while i < n
        invariant
            n == b.witnesses@.len(),
            i <= n,
            all_canonical(conflicts@),
            descs(conflicts@) == mid + witness_groups_conflicts(*b, i as int),
        decreases n - i,
    {
        let in_range = (b.witnesses[i].index as usize) < b.transaction.witnesses.len();
        if in_range && !witness_named_earlier(b, i) {
            check_witness_group(b, b.witnesses[i].index, b.witnesses[i].field, conflicts);
        }
        proof {
            let ci = b.witnesses@[i as int];
            let g = witness_group_conflicts(*b, ci.index, ci.field);
            if in_range {
                if exists|j: int| 0 <= j < i && witness_member(*b, j, ci.index, ci.field) {
                    let j = choose|j: int| 0 <= j < i && witness_member(*b, j, ci.index, ci.field);
                    assert forall|d| g.contains(d) implies witness_groups_conflicts(*b, i as int).contains(d) by {
                        assert(witness_group_conflicts(*b, b.witnesses@[j].index, b.witnesses@[j].field).contains(d));
                    }
                }
                assert(witness_groups_conflicts(*b, i + 1) =~= witness_groups_conflicts(*b, i as int) + g) by {
                    assert forall|d| witness_groups_conflicts(*b, i + 1).contains(d) implies (witness_groups_conflicts(*b, i as int) + g).contains(d) by {
                        let k = choose|k: int|
                            0 <= k < i + 1 && k < b.witnesses@.len() && witness_in_range(*b, b.witnesses@[k]) && #[trigger] witness_group_conflicts(
                                *b,
                                b.witnesses@[k].index,
                                b.witnesses@[k].field,
                            ).contains(d);
                        if k < i {
                            assert(witness_groups_conflicts(*b, i as int).contains(d));
                        }
                    }
                    assert forall|d| (witness_groups_conflicts(*b, i as int) + g).contains(d) implies witness_groups_conflicts(*b, i + 1).contains(d) by {
                        if g.contains(d) {
                            assert(witness_group_conflicts(*b, b.witnesses@[i as int].index, b.witnesses@[i as int].field).contains(d));
                        } else {
                            let k = choose|k: int|
                                0 <= k < i && k < b.witnesses@.len() && witness_in_range(*b, b.witnesses@[k]) && #[trigger] witness_group_conflicts(
                                    *b,
                                    b.witnesses@[k].index,
                                    b.witnesses@[k].field,
                                ).contains(d);
                            assert(witness_group_conflicts(*b, b.witnesses@[k].index, b.witnesses@[k].field).contains(d));
                        }
                    }
                }
                assert(descs(conflicts@) =~= mid + witness_groups_conflicts(*b, i + 1));
            } else {
                assert(witness_groups_conflicts(*b, i + 1) =~= witness_groups_conflicts(*b, i as int)) by {
                    assert forall|d| witness_groups_conflicts(*b, i + 1).contains(d) implies witness_groups_conflicts(*b, i as int).contains(d) by {
                        let k = choose|k: int|
                            0 <= k < i + 1 && k < b.witnesses@.len() && witness_in_range(*b, b.witnesses@[k]) && #[trigger] witness_group_conflicts(
                                *b,
                                b.witnesses@[k].index,
                                b.witnesses@[k].field,
                            ).contains(d);
                        assert(k != i);
                    }
                }
            }
        }
        i += 1;
    }
    Ok(())
}

} // verus!
