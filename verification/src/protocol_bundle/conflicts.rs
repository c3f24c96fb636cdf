//! Conflicts between the claims the artifacts of a bundle make on one transaction skeleton.

use super::order::{lemma_push_to_set, sorted_texts, strs_sorted, texts};
use super::{
    canonical_hash32, first_error, hash32_error, name_error, script_error, validate_script, ProtocolArtifactIdentity,
    ProtocolBundleConflict, ProtocolCellDepClaim, ProtocolCellLocation, ProtocolCellSlot, ProtocolHeaderDepClaim, ProtocolWitnessClaim, ProtocolClosedRoleKind, ProtocolClosedRoleParticipant,
    ProtocolClosedRoleSource, ProtocolRoleBinding, ProtocolRoleOwnership, ProtocolRoleSchemaIdentity,
    ProtocolScriptIdentity, ProtocolWitnessOwnership, ResolvedProtocolBundle, ResolvedProtocolClosedRoleBinding,
};
use crate::error::{CompileError, Result};
use crate::text::{concat2, concat3, decimal, decimal_string, str_eq};
use vstd::prelude::*;

verus! {

/// A conflict as the checks describe it: code, class, key, the artifacts involved, detail.
pub open spec fn conflict_desc(c: ProtocolBundleConflict) -> (Seq<char>, Seq<char>, Seq<char>, Set<Seq<char>>, Seq<char>) {
    (c.code@, c.class@, c.key@, texts(c.artifacts@).to_set(), c.detail@)
}

/// The descriptions of a list of conflicts.
pub open spec fn descs(v: Seq<ProtocolBundleConflict>) -> Set<(Seq<char>, Seq<char>, Seq<char>, Set<Seq<char>>, Seq<char>)> {
    v.map_values(|c: ProtocolBundleConflict| conflict_desc(c)).to_set()
}

/// Every conflict lists its artifacts sorted and once each.
pub open spec fn all_canonical(v: Seq<ProtocolBundleConflict>) -> bool {
    forall|i: int| 0 <= i < v.len() ==> strs_sorted(texts(#[trigger] v[i].artifacts@))
}

/// A conflict description with a single artifact.
pub open spec fn single(
    code: Seq<char>,
    class: Seq<char>,
    key: Seq<char>,
    artifact: Seq<char>,
    detail: Seq<char>,
) -> (Seq<char>, Seq<char>, Seq<char>, Set<Seq<char>>, Seq<char>) {
    (code, class, key, set![artifact], detail)
}

/// A set holding `d` when `cond` holds, and nothing otherwise.
pub open spec fn only_if(
    cond: bool,
    d: (Seq<char>, Seq<char>, Seq<char>, Set<Seq<char>>, Seq<char>),
) -> Set<(Seq<char>, Seq<char>, Seq<char>, Set<Seq<char>>, Seq<char>)> {
    if cond {
        set![d]
    } else {
        Set::empty()
    }
}

proof fn lemma_descs_push(v: Seq<ProtocolBundleConflict>, c: ProtocolBundleConflict)
    ensures
        descs(v.push(c)) == descs(v).insert(conflict_desc(c)),
{
    let f = |x: ProtocolBundleConflict| conflict_desc(x);
    assert(v.push(c).map_values(f) =~= v.map_values(f).push(f(c)));
    lemma_push_to_set(v.map_values(f), f(c));
}

/// Adds a conflict, its artifacts sorted and once each.
pub(crate) fn push_conflict(
    conflicts: &mut Vec<ProtocolBundleConflict>,
    code: &str,
    class: &str,
    key: String,
    artifacts: Vec<String>,
    detail: &str,
)
    requires
        all_canonical(old(conflicts)@),
    ensures
        all_canonical(final(conflicts)@),
        descs(final(conflicts)@) == descs(old(conflicts)@).insert(
            (code@, class@, key@, texts(artifacts@).to_set(), detail@),
        ),
{
    let sorted = sorted_texts(&artifacts);
    let c = ProtocolBundleConflict {
        code: code.to_owned(),
        class: class.to_owned(),
        key,
        artifacts: sorted,
        detail: detail.to_owned(),
    };
    proof {
        lemma_descs_push(conflicts@, c);
    }
    conflicts.push(c);
}

/// Adds a conflict that concerns one artifact.
pub(crate) fn push_single(
    conflicts: &mut Vec<ProtocolBundleConflict>,
    code: &str,
    class: &str,
    key: String,
    artifact: &String,
    detail: &str,
)
    requires
        all_canonical(old(conflicts)@),
    ensures
        all_canonical(final(conflicts)@),
        descs(final(conflicts)@) == descs(old(conflicts)@).insert(single(code@, class@, key@, artifact@, detail@)),
{
    let mut v: Vec<String> = Vec::new();
    v.push(artifact.clone());
    proof {
        assert(texts(v@) =~= seq![artifact@]);
        assert(texts(v@).to_set() =~= set![artifact@]) by {
            assert(texts(v@)[0] == artifact@);
        }
    }
    push_conflict(conflicts, code, class, key, v, detail);
}

// ---------------------------------------------------------------------------------------------
// Scripts and cells.

/// Two Scripts with the same code hash, hash type and arguments.
pub open spec fn script_same(a: ProtocolScriptIdentity, b: ProtocolScriptIdentity) -> bool {
    a.code_hash@ == b.code_hash@ && a.hash_type@ == b.hash_type@ && a.args@ == b.args@
}

fn script_eq(a: &ProtocolScriptIdentity, b: &ProtocolScriptIdentity) -> (r: bool)
    ensures
        r == script_same(*a, *b),
{
    str_eq(a.code_hash.as_str(), b.code_hash.as_str()) && str_eq(a.hash_type.as_str(), b.hash_type.as_str()) && str_eq(
        a.args.as_str(),
        b.args.as_str(),
    )
}

/// The word a cell location is keyed by.
pub open spec fn location_word(l: ProtocolCellLocation) -> Seq<char> {
    match l {
        ProtocolCellLocation::Input => "input"@,
        ProtocolCellLocation::Output => "output"@,
    }
}

/// The key of a claimed cell: `input[3]` or `output[3]`.
pub open spec fn cell_key(l: ProtocolCellLocation, index: u32) -> Seq<char> {
    location_word(l) + "["@ + decimal(index as nat) + "]"@
}

fn cell_key_exec(l: ProtocolCellLocation, index: u32) -> (r: String)
    ensures
        r@ == cell_key(l, index),
{
    let word = match l {
        ProtocolCellLocation::Input => "input",
        ProtocolCellLocation::Output => "output",
    };
    proof {
        reveal_strlit("input");
        reveal_strlit("output");
    }
    let digits = decimal_string(index as u128);
    let mut key = concat3(word, "[", digits.as_str());
    key.append("]");
    key
}

/// The cells a claim at `location` refers to.
pub open spec fn cells_at(b: ResolvedProtocolBundle, l: ProtocolCellLocation) -> Seq<ProtocolCellSlot> {
    match l {
        ProtocolCellLocation::Input => b.transaction.inputs@,
        ProtocolCellLocation::Output => b.transaction.outputs@,
    }
}

/// The claim refers to a cell the skeleton has.
pub open spec fn role_in_range(b: ResolvedProtocolBundle, c: ProtocolRoleBinding) -> bool {
    (c.index as int) < cells_at(b, c.location).len()
}

// ---------------------------------------------------------------------------------------------
// Role claims, one by one.

/// The error the checks of one role claim report, if any.
pub open spec fn role_claim_error(b: ResolvedProtocolBundle, c: ProtocolRoleBinding) -> Option<Seq<char>> {
    if !role_in_range(b, c) {
        None
    } else {
        first_error(
            match c.expected_lock {
                Some(s) => script_error(s, "role expected_lock"@),
                None => None,
            },
            first_error(
                match c.expected_type {
                    Some(s) => script_error(s, "role expected_type"@),
                    None => None,
                },
                match c.cell_commitment {
                    Some(m) => hash32_error(m@, "role cell_commitment"@),
                    None => None,
                },
            ),
        )
    }
}

/// The first error among the first `n` role claims.
pub open spec fn role_claims_error(b: ResolvedProtocolBundle, n: int) -> Option<Seq<char>>
    decreases n,
{
    if n <= 0 {
        None
    } else {
        first_error(role_claims_error(b, n - 1), role_claim_error(b, b.roles@[n - 1]))
    }
}

/// The conflicts one role claim raises against the skeleton cell it names.
pub open spec fn role_claim_conflicts(b: ResolvedProtocolBundle, c: ProtocolRoleBinding) -> Set<
    (Seq<char>, Seq<char>, Seq<char>, Set<Seq<char>>, Seq<char>),
> {
    let key = cell_key(c.location, c.index);
    let a = c.artifact@;
    if !role_in_range(b, c) {
        set![single("PB211"@, "skeleton-binding"@, key, a, "role index is outside the transaction skeleton"@)]
    } else {
        let cell = cells_at(b, c.location)[c.index as int];
        only_if(
            c.expected_lock matches Some(s) && !script_same(s, cell.lock),
            single("PB204"@, "script-identity"@, key + ".lock"@, a, "role lock identity differs from the transaction skeleton"@),
        ) + only_if(
            c.expected_type matches Some(s) && !(cell.type_script matches Some(t) && script_same(t, s)),
            single("PB204"@, "script-identity"@, key + ".type"@, a, "role type identity differs from the transaction skeleton"@),
        ) + only_if(
            c.cell_commitment matches Some(m) && m@ != cell.cell_commitment@,
            single("PB201"@, "output-placement"@, key, a, "role cell commitment differs from the transaction skeleton"@),
        ) + only_if(
            c.exact_capacity matches Some(e) && e != cell.capacity,
            single(
                "PB206"@,
                "capacity"@,
                key,
                a,
                "role requires exact capacity "@ + decimal(c.exact_capacity->0 as nat) + ", skeleton contains "@
                    + decimal(cell.capacity as nat),
            ),
        ) + only_if(
            c.minimum_capacity matches Some(m) && cell.capacity < m,
            single(
                "PB206"@,
                "capacity"@,
                key,
                a,
                "role requires minimum capacity "@ + decimal(c.minimum_capacity->0 as nat) + ", skeleton contains "@
                    + decimal(cell.capacity as nat),
            ),
        )
    }
}

/// The conflicts the first `n` role claims raise one by one.
pub open spec fn role_claims_conflicts(b: ResolvedProtocolBundle, n: int) -> Set<
    (Seq<char>, Seq<char>, Seq<char>, Set<Seq<char>>, Seq<char>),
>
    decreases n,
{
    if n <= 0 {
        Set::empty()
    } else {
        role_claims_conflicts(b, n - 1) + role_claim_conflicts(b, b.roles@[n - 1])
    }
}

fn copy_text(s: &String) -> (r: String)
    ensures
        r@ == s@,
{
    s.clone()
}

/// Checks one role claim against the skeleton and records its conflicts.
fn check_role_claim(b: &ResolvedProtocolBundle, c: &ProtocolRoleBinding, conflicts: &mut Vec<ProtocolBundleConflict>) -> (r: Result<()>)
    requires
        all_canonical(old(conflicts)@),
    ensures
        all_canonical(final(conflicts)@),
        match role_claim_error(*b, *c) {
            Some(m) => r matches Err(e) && e.message@ == m,
            None => r is Ok && descs(final(conflicts)@) == descs(old(conflicts)@) + role_claim_conflicts(*b, *c),
        },
{
    let ghost start = descs(conflicts@);
    let key = cell_key_exec(c.location, c.index);
    let cells = match c.location {
        ProtocolCellLocation::Input => &b.transaction.inputs,
        ProtocolCellLocation::Output => &b.transaction.outputs,
    };
    proof {
        reveal_strlit("PB211");
        reveal_strlit("PB204");
        reveal_strlit("PB201");
        reveal_strlit("PB206");
        reveal_strlit(".lock");
        reveal_strlit(".type");
    }
    if c.index as usize >= cells.len() {
        push_single(conflicts, "PB211", "skeleton-binding", key, &c.artifact, "role index is outside the transaction skeleton");
        proof {
            assert(descs(conflicts@) =~= start + role_claim_conflicts(*b, *c));
        }
        return Ok(());
    }
    let cell = &cells[c.index as usize];
    let ghost cv = *c;
    let ghost cellv = *cell;
    let ghost a = c.artifact@;
    let ghost k = key@;
    let ghost mut added: Set<(Seq<char>, Seq<char>, Seq<char>, Set<Seq<char>>, Seq<char>)> = Set::empty();
    if let Some(expected) = &c.expected_lock {
        if let Err(e) = validate_script(expected, "role expected_lock") {
            return Err(e);
        }
        if !script_eq(expected, &cell.lock) {
            push_single(
                conflicts,
                "PB204",
                "script-identity",
                concat2(key.as_str(), ".lock"),
                &c.artifact,
                "role lock identity differs from the transaction skeleton",
            );
        }
    }
    proof {
        added = only_if(
            cv.expected_lock matches Some(s) && !script_same(s, cellv.lock),
            single("PB204"@, "script-identity"@, k + ".lock"@, a, "role lock identity differs from the transaction skeleton"@),
        );
        assert(descs(conflicts@) =~= start + added);
    }
    if let Some(expected) = &c.expected_type {
        if let Err(e) = validate_script(expected, "role expected_type") {
            return Err(e);
        }
        let same = match &cell.type_script {
            Some(t) => script_eq(t, expected),
            None => false,
        };
        if !same {
            push_single(
                conflicts,
                "PB204",
                "script-identity",
                concat2(key.as_str(), ".type"),
                &c.artifact,
                "role type identity differs from the transaction skeleton",
            );
        }
    }
    proof {
        added = added + only_if(
            cv.expected_type matches Some(s) && !(cellv.type_script matches Some(t) && script_same(t, s)),
            single("PB204"@, "script-identity"@, k + ".type"@, a, "role type identity differs from the transaction skeleton"@),
        );
        assert(descs(conflicts@) =~= start + added);
    }
    if let Some(commitment) = &c.cell_commitment {
        if let Err(e) = canonical_hash32(commitment.as_str(), "role cell_commitment") {
            return Err(e);
        }
        if !str_eq(commitment.as_str(), cell.cell_commitment.as_str()) {
            push_single(
                conflicts,
                "PB201",
                "output-placement",
                copy_text(&key),
                &c.artifact,
                "role cell commitment differs from the transaction skeleton",
            );
        }
    }
    proof {
        added = added + only_if(
            cv.cell_commitment matches Some(m) && m@ != cellv.cell_commitment@,
            single("PB201"@, "output-placement"@, k, a, "role cell commitment differs from the transaction skeleton"@),
        );
        assert(descs(conflicts@) =~= start + added);
    }
    if let Some(exact) = c.exact_capacity {
        if exact != cell.capacity {
            let mut detail = concat2("role requires exact capacity ", decimal_string(exact as u128).as_str());
            detail.append(", skeleton contains ");
            detail.append(decimal_string(cell.capacity as u128).as_str());
            push_single(conflicts, "PB206", "capacity", copy_text(&key), &c.artifact, detail.as_str());
        }
    }
    proof {
        added = added + only_if(
            cv.exact_capacity matches Some(e) && e != cellv.capacity,
            single(
                "PB206"@,
                "capacity"@,
                k,
                a,
                "role requires exact capacity "@ + decimal(cv.exact_capacity->0 as nat) + ", skeleton contains "@
                    + decimal(cellv.capacity as nat),
            ),
        );
        assert(descs(conflicts@) =~= start + added);
    }
    if let Some(minimum) = c.minimum_capacity {
        if cell.capacity < minimum {
            let mut detail = concat2("role requires minimum capacity ", decimal_string(minimum as u128).as_str());
            detail.append(", skeleton contains ");
            detail.append(decimal_string(cell.capacity as u128).as_str());
            push_single(conflicts, "PB206", "capacity", copy_text(&key), &c.artifact, detail.as_str());
        }
    }
    proof {
        added = added + only_if(
            cv.minimum_capacity matches Some(m) && cellv.capacity < m,
            single(
                "PB206"@,
                "capacity"@,
                k,
                a,
                "role requires minimum capacity "@ + decimal(cv.minimum_capacity->0 as nat) + ", skeleton contains "@
                    + decimal(cellv.capacity as nat),
            ),
        );
        assert(descs(conflicts@) =~= start + added);
        assert(added =~= role_claim_conflicts(*b, *c));
    }
    Ok(())
}


// ---------------------------------------------------------------------------------------------
// Role claims, by the cell they name.

/// The detail of a conflict between values several artifacts declare for one role.
pub open spec fn incompatible_detail() -> Seq<char> {
    "artifacts declare incompatible values for the same transaction role"@
}

/// Claim `k` names the skeleton cell at `l`, `idx`, which exists.
pub open spec fn role_member(b: ResolvedProtocolBundle, k: int, l: ProtocolCellLocation, idx: u32) -> bool {
    &&& 0 <= k < b.roles@.len()
    &&& role_in_range(b, b.roles@[k])
    &&& b.roles@[k].location == l
    &&& b.roles@[k].index == idx
}

/// The artifacts that claim the cell at `l`, `idx`.
pub open spec fn role_group_artifacts(b: ResolvedProtocolBundle, l: ProtocolCellLocation, idx: u32) -> Set<Seq<char>> {
    Set::new(|a: Seq<char>| exists|k: int| role_member(b, k, l, idx) && #[trigger] b.roles@[k].artifact@ == a)
}

/// The value a claim declares for one aspect of its cell: lock (0), type (1), resource (2) or
/// cell commitment (3).
pub open spec fn role_value(c: ProtocolRoleBinding, aspect: u8) -> Option<Seq<Seq<char>>> {
    if aspect == 0 {
        match c.expected_lock {
            Some(s) => Some(seq![s.code_hash@, s.hash_type@, s.args@]),
            None => None,
        }
    } else if aspect == 1 {
        match c.expected_type {
            Some(s) => Some(seq![s.code_hash@, s.hash_type@, s.args@]),
            None => None,
        }
    } else if aspect == 2 {
        match c.resource_identity {
            Some(r) => Some(seq![r@]),
            None => None,
        }
    } else {
        match c.cell_commitment {
            Some(m) => Some(seq![m@]),
            None => None,
        }
    }
}

/// Two claims on the cell declare different values for one aspect.
pub open spec fn role_values_differ(b: ResolvedProtocolBundle, l: ProtocolCellLocation, idx: u32, aspect: u8) -> bool {
    exists|k1: int, k2: int|
        #![trigger role_value(b.roles@[k1], aspect), role_value(b.roles@[k2], aspect)]
        role_member(b, k1, l, idx) && role_member(b, k2, l, idx) && role_value(b.roles@[k1], aspect) is Some
            && role_value(b.roles@[k2], aspect) is Some && role_value(b.roles@[k1], aspect) != role_value(
            b.roles@[k2],
            aspect,
        )
}

/// Two different claims on the cell are exclusive.
pub open spec fn exclusive_twice(b: ResolvedProtocolBundle, l: ProtocolCellLocation, idx: u32) -> bool {
    exists|k1: int, k2: int|
        #![trigger b.roles@[k1], b.roles@[k2]]
        k1 != k2 && role_member(b, k1, l, idx) && role_member(b, k2, l, idx) && b.roles@[k1].ownership
            == ProtocolRoleOwnership::Exclusive && b.roles@[k2].ownership == ProtocolRoleOwnership::Exclusive
}

/// The conflicts among the claims on the cell at `l`, `idx`.
pub open spec fn role_group_conflicts(b: ResolvedProtocolBundle, l: ProtocolCellLocation, idx: u32) -> Set<
    (Seq<char>, Seq<char>, Seq<char>, Set<Seq<char>>, Seq<char>),
> {
    let key = cell_key(l, idx);
    let arts = role_group_artifacts(b, l, idx);
    only_if(
        exclusive_twice(b, l, idx),
        ("PB200"@, "input-ownership"@, key, arts, "an exclusive cell role is also claimed by another artifact"@),
    ) + only_if(role_values_differ(b, l, idx, 0), ("PB204"@, "script-identity"@, key + ".lock"@, arts, incompatible_detail()))
        + only_if(role_values_differ(b, l, idx, 1), ("PB204"@, "script-identity"@, key + ".type"@, arts, incompatible_detail()))
        + only_if(
        role_values_differ(b, l, idx, 2),
        ("PB205"@, "resource-identity"@, key + ".resource"@, arts, incompatible_detail()),
    ) + only_if(role_values_differ(b, l, idx, 3), ("PB201"@, "output-placement"@, key + ".cell"@, arts, incompatible_detail()))
}

/// The conflicts among the claims on each cell that one of the first `n` claims names.
pub open spec fn role_groups_conflicts(b: ResolvedProtocolBundle, n: int) -> Set<
    (Seq<char>, Seq<char>, Seq<char>, Set<Seq<char>>, Seq<char>),
> {
    Set::new(
        |d: (Seq<char>, Seq<char>, Seq<char>, Set<Seq<char>>, Seq<char>)|
            exists|k: int|
                0 <= k < n && k < b.roles@.len() && role_in_range(b, b.roles@[k]) && #[trigger] role_group_conflicts(
                    b,
                    b.roles@[k].location,
                    b.roles@[k].index,
                ).contains(d),
    )
}

fn role_in_range_exec(b: &ResolvedProtocolBundle, c: &ProtocolRoleBinding) -> (r: bool)
    ensures
        r == role_in_range(*b, *c),
{
    match c.location {
        ProtocolCellLocation::Input => (c.index as usize) < b.transaction.inputs.len(),
        ProtocolCellLocation::Output => (c.index as usize) < b.transaction.outputs.len(),
    }
}

fn location_eq(x: ProtocolCellLocation, y: ProtocolCellLocation) -> (r: bool)
    ensures
        r == (x == y),
{
    match (x, y) {
        (ProtocolCellLocation::Input, ProtocolCellLocation::Input) => true,
        (ProtocolCellLocation::Output, ProtocolCellLocation::Output) => true,
        _ => false,
    }
}

fn is_member(b: &ResolvedProtocolBundle, k: usize, l: ProtocolCellLocation, idx: u32) -> (r: bool)
    requires
        k < b.roles@.len(),
    ensures
        r == role_member(*b, k as int, l, idx),
{
    let c = &b.roles[k];
    role_in_range_exec(b, c) && location_eq(c.location, l) && c.index == idx
}

fn role_has_value(c: &ProtocolRoleBinding, aspect: u8) -> (r: bool)
    ensures
        r == role_value(*c, aspect) is Some,
{
    if aspect == 0 {
        c.expected_lock.is_some()
    } else if aspect == 1 {
        c.expected_type.is_some()
    } else if aspect == 2 {
        c.resource_identity.is_some()
    } else {
        c.cell_commitment.is_some()
    }
}

fn role_values_equal(x: &ProtocolRoleBinding, y: &ProtocolRoleBinding, aspect: u8) -> (r: bool)
    requires
        role_value(*x, aspect) is Some,
        role_value(*y, aspect) is Some,
    ensures
        r == (role_value(*x, aspect) == role_value(*y, aspect)),
{
    if aspect == 0 {
        match (&x.expected_lock, &y.expected_lock) {
            (Some(s), Some(t)) => {
                let r = script_eq(s, t);
                proof {
                    let vs = seq![s.code_hash@, s.hash_type@, s.args@];
                    let vt = seq![t.code_hash@, t.hash_type@, t.args@];
                    if r {
                        assert(vs =~= vt);
                    } else {
                        assert(vs != vt) by {
                            if vs == vt {
                                assert(vs[0] == vt[0] && vs[1] == vt[1] && vs[2] == vt[2]);
                            }
                        }
                    }
                }
                r
            },
            _ => false,
        }
    } else if aspect == 1 {
        match (&x.expected_type, &y.expected_type) {
            (Some(s), Some(t)) => {
                let r = script_eq(s, t);
                proof {
                    let vs = seq![s.code_hash@, s.hash_type@, s.args@];
                    let vt = seq![t.code_hash@, t.hash_type@, t.args@];
                    if r {
                        assert(vs =~= vt);
                    } else {
                        assert(vs != vt) by {
                            if vs == vt {
                                assert(vs[0] == vt[0] && vs[1] == vt[1] && vs[2] == vt[2]);
                            }
                        }
                    }
                }
                r
            },
            _ => false,
        }
    } else if aspect == 2 {
        match (&x.resource_identity, &y.resource_identity) {
            (Some(s), Some(t)) => {
                let r = str_eq(s.as_str(), t.as_str());
                proof {
                    if r {
                        assert(seq![s@] =~= seq![t@]);
                    } else {
                        assert(seq![s@] != seq![t@]) by {
                            if seq![s@] == seq![t@] {
                                assert(seq![s@][0] == seq![t@][0]);
                            }
                        }
                    }
                }
                r
            },
            _ => false,
        }
    } else {
        match (&x.cell_commitment, &y.cell_commitment) {
            (Some(s), Some(t)) => {
                let r = str_eq(s.as_str(), t.as_str());
                proof {
                    if r {
                        assert(seq![s@] =~= seq![t@]);
                    } else {
                        assert(seq![s@] != seq![t@]) by {
                            if seq![s@] == seq![t@] {
                                assert(seq![s@][0] == seq![t@][0]);
                            }
                        }
                    }
                }
                r
            },
            _ => false,
        }
    }
}

/// Whether two claims on the cell declare different values for one aspect.
fn values_differ(b: &ResolvedProtocolBundle, l: ProtocolCellLocation, idx: u32, aspect: u8) -> (r: bool)
    ensures
        r == role_values_differ(*b, l, idx, aspect),
{
    let n = b.roles.len();
    let mut first: usize = 0;
    while first < n
        invariant
            n == b.roles@.len(),
            first <= n,
            forall|k: int| 0 <= k < first ==> !(role_member(*b, k, l, idx) && #[trigger] role_value(b.roles@[k], aspect) is Some),
        ensures
            first <= n,
            forall|k: int| 0 <= k < first ==> !(role_member(*b, k, l, idx) && #[trigger] role_value(b.roles@[k], aspect) is Some),
            first < n ==> role_member(*b, first as int, l, idx) && role_value(b.roles@[first as int], aspect) is Some,
        decreases n - first,
    {
        if is_member(b, first, l, idx) && role_has_value(&b.roles[first], aspect) {
            break;
        }
        first += 1;
    }
    if first == n {
        return false;
    }
    let mut k: usize = 0;
    while k < n
        invariant
            n == b.roles@.len(),
            first < n,
            role_member(*b, first as int, l, idx),
            role_value(b.roles@[first as int], aspect) is Some,
            forall|j: int| 0 <= j < first ==> !(role_member(*b, j, l, idx) && #[trigger] role_value(b.roles@[j], aspect) is Some),
            k <= n,
            forall|j: int|
                0 <= j < k && role_member(*b, j, l, idx) && #[trigger] role_value(b.roles@[j], aspect) is Some ==> role_value(
                    b.roles@[j],
                    aspect,
                ) == role_value(b.roles@[first as int], aspect),
        decreases n - k,
    {
        if is_member(b, k, l, idx) && role_has_value(&b.roles[k], aspect) {
            if !role_values_equal(&b.roles[first], &b.roles[k], aspect) {
                proof {
                    assert(role_value(b.roles@[first as int], aspect) is Some && role_value(b.roles@[k as int], aspect) is Some);
                }
                return true;
            }
        }
        k += 1;
    }
    false
}

/// Whether two different claims on the cell are exclusive.
fn exclusive_twice_exec(b: &ResolvedProtocolBundle, l: ProtocolCellLocation, idx: u32) -> (r: bool)
    ensures
        r == exclusive_twice(*b, l, idx),
{
    let n = b.roles.len();
    let mut seen: Option<usize> = None;
    let mut k: usize = 0;
    while k < n
        invariant
            n == b.roles@.len(),
            k <= n,
            match seen {
                None => forall|j: int|
                    0 <= j < k && role_member(*b, j, l, idx) ==> (#[trigger] b.roles@[j]).ownership
                        != ProtocolRoleOwnership::Exclusive,
                Some(s) => s < k && role_member(*b, s as int, l, idx) && b.roles@[s as int].ownership
                    == ProtocolRoleOwnership::Exclusive && forall|j: int|
                    0 <= j < k && j != s && role_member(*b, j, l, idx) ==> (#[trigger] b.roles@[j]).ownership
                        != ProtocolRoleOwnership::Exclusive,
            },
        decreases n - k,
    {
        if is_member(b, k, l, idx) && b.roles[k].ownership == ProtocolRoleOwnership::Exclusive {
            match seen {
                Some(s) => {
                    proof {
                        assert(b.roles@[s as int] == b.roles@[s as int] && b.roles@[k as int] == b.roles@[k as int]);
                    }
                    return true;
                },
                None => {
                    seen = Some(k);
                },
            }
        }
        k += 1;
    }
    proof {
        if exclusive_twice(*b, l, idx) {
            let (k1, k2) = choose|k1: int, k2: int|
                #![trigger b.roles@[k1], b.roles@[k2]]
                k1 != k2 && role_member(*b, k1, l, idx) && role_member(*b, k2, l, idx) && b.roles@[k1].ownership
                    == ProtocolRoleOwnership::Exclusive && b.roles@[k2].ownership == ProtocolRoleOwnership::Exclusive;
            assert(b.roles@[k1] == b.roles@[k1]);
            assert(b.roles@[k2] == b.roles@[k2]);
        }
    }
    false
}

/// The artifacts of the claims on the cell.
fn group_artifacts(b: &ResolvedProtocolBundle, l: ProtocolCellLocation, idx: u32) -> (r: Vec<String>)
    ensures
        texts(r@).to_set() == role_group_artifacts(*b, l, idx),
{
    let n = b.roles.len();
    let mut out: Vec<String> = Vec::new();
    let mut k: usize = 0;
    while k < n
        invariant
            n == b.roles@.len(),
            k <= n,
            forall|a: Seq<char>|
                texts(out@).to_set().contains(a) <==> exists|j: int|
                    0 <= j < k && role_member(*b, j, l, idx) && #[trigger] b.roles@[j].artifact@ == a,
        decreases n - k,
    {
        if is_member(b, k, l, idx) {
            let ghost before = texts(out@);
            out.push(b.roles[k].artifact.clone());
            proof {
                assert(texts(out@) =~= before.push(b.roles@[k as int].artifact@));
                lemma_push_to_set(before, b.roles@[k as int].artifact@);
            }
        }
        proof {
            assert forall|a: Seq<char>|
                texts(out@).to_set().contains(a) <==> exists|j: int|
                    0 <= j < k + 1 && role_member(*b, j, l, idx) && #[trigger] b.roles@[j].artifact@ == a by {
                if exists|j: int| 0 <= j < k + 1 && role_member(*b, j, l, idx) && #[trigger] b.roles@[j].artifact@ == a {
                    let j = choose|j: int| 0 <= j < k + 1 && role_member(*b, j, l, idx) && #[trigger] b.roles@[j].artifact@ == a;
                    if j < k {
                        assert(exists|j: int| 0 <= j < k && role_member(*b, j, l, idx) && #[trigger] b.roles@[j].artifact@ == a);
                    }
                }
            }
        }
        k += 1;
    }
    proof {
        assert(texts(out@).to_set() =~= role_group_artifacts(*b, l, idx));
    }
    out
}

/// Records the conflicts among the claims on one cell.
fn check_role_group(
    b: &ResolvedProtocolBundle,
    l: ProtocolCellLocation,
    idx: u32,
    conflicts: &mut Vec<ProtocolBundleConflict>,
)
    requires
        all_canonical(old(conflicts)@),
    ensures
        all_canonical(final(conflicts)@),
        descs(final(conflicts)@) == descs(old(conflicts)@) + role_group_conflicts(*b, l, idx),
{
    proof {
        reveal_strlit("PB200");
        reveal_strlit("PB204");
        reveal_strlit("PB205");
        reveal_strlit("PB201");
        reveal_strlit(".lock");
        reveal_strlit(".type");
        reveal_strlit(".resource");
        reveal_strlit(".cell");
    }
    let ghost start = descs(conflicts@);
    let key = cell_key_exec(l, idx);
    let ghost k = key@;
    let ghost arts = role_group_artifacts(*b, l, idx);
    if exclusive_twice_exec(b, l, idx) {
        push_conflict(
            conflicts,
            "PB200",
            "input-ownership",
            copy_text(&key),
            group_artifacts(b, l, idx),
            "an exclusive cell role is also claimed by another artifact",
        );
    }
    if values_differ(b, l, idx, 0) {
        push_conflict(conflicts, "PB204", "script-identity", concat2(key.as_str(), ".lock"), group_artifacts(b, l, idx),
            "artifacts declare incompatible values for the same transaction role");
    }
    if values_differ(b, l, idx, 1) {
        push_conflict(conflicts, "PB204", "script-identity", concat2(key.as_str(), ".type"), group_artifacts(b, l, idx),
            "artifacts declare incompatible values for the same transaction role");
    }
    if values_differ(b, l, idx, 2) {
        push_conflict(conflicts, "PB205", "resource-identity", concat2(key.as_str(), ".resource"), group_artifacts(b, l, idx),
            "artifacts declare incompatible values for the same transaction role");
    }
    if values_differ(b, l, idx, 3) {
        push_conflict(conflicts, "PB201", "output-placement", concat2(key.as_str(), ".cell"), group_artifacts(b, l, idx),
            "artifacts declare incompatible values for the same transaction role");
    }
    proof {
        assert(descs(conflicts@) =~= start + role_group_conflicts(*b, l, idx));
    }
}


fn named_earlier(b: &ResolvedProtocolBundle, i: usize) -> (r: bool)
    requires
        i < b.roles@.len(),
    ensures
        r == exists|j: int| 0 <= j < i && role_member(*b, j, b.roles@[i as int].location, b.roles@[i as int].index),
{
    let l = b.roles[i].location;
    let idx = b.roles[i].index;
    let mut j: usize = 0;
    while j < i
        invariant
            i < b.roles@.len(),
            l == b.roles@[i as int].location,
            idx == b.roles@[i as int].index,
            j <= i,
            forall|k: int| 0 <= k < j ==> !role_member(*b, k, l, idx),
        decreases i - j,
    {
        if is_member(b, j, l, idx) {
            return true;
        }
        j += 1;
    }
    false
}

/// Checks every role claim against the skeleton, then the claims on each cell against each
/// other, and records the conflicts. The first invalid Script or commitment of a claim that
/// names an existing cell stops the check.
pub fn detect_role_conflicts(b: &ResolvedProtocolBundle, conflicts: &mut Vec<ProtocolBundleConflict>) -> (r: Result<()>)
    requires
        all_canonical(old(conflicts)@),
    ensures
        all_canonical(final(conflicts)@),
        match role_claims_error(*b, b.roles@.len() as int) {
            Some(m) => r matches Err(e) && e.message@ == m,
            None => r is Ok && descs(final(conflicts)@) == descs(old(conflicts)@) + role_claims_conflicts(
                *b,
                b.roles@.len() as int,
            ) + role_groups_conflicts(*b, b.roles@.len() as int),
        },
{
    let ghost start = descs(conflicts@);
    let n = b.roles.len();
    let mut i: usize = 0;
    while i < n
        invariant
            n == b.roles@.len(),
            i <= n,
            all_canonical(conflicts@),
            role_claims_error(*b, i as int) is None,
            descs(conflicts@) == start + role_claims_conflicts(*b, i as int),
        decreases n - i,
    {
        match check_role_claim(b, &b.roles[i], conflicts) {
            Err(e) => {
                proof {
                    assert(role_claims_error(*b, i + 1) is Some);
                    lemma_role_claims_error_stays(*b, i + 1, n as int);
                }
                return Err(e);
            },
            Ok(()) => {},
        }
        proof {
            assert(descs(conflicts@) =~= start + role_claims_conflicts(*b, i + 1));
        }
        i += 1;
    }
    let ghost mid = descs(conflicts@);
    let mut i: usize = 0;
    proof {
        assert(role_groups_conflicts(*b, 0) =~= Set::empty());
        assert(descs(conflicts@) =~= mid + role_groups_conflicts(*b, 0));
    }
    while i < n
        invariant
            n == b.roles@.len(),
            i <= n,
            all_canonical(conflicts@),
            descs(conflicts@) == mid + role_groups_conflicts(*b, i as int),
        decreases n - i,
    {
        let ghost before = descs(conflicts@);
        let in_range = role_in_range_exec(b, &b.roles[i]);
        if in_range && !named_earlier(b, i) {
            check_role_group(b, b.roles[i].location, b.roles[i].index, conflicts);
        }
        proof {
            let ci = b.roles@[i as int];
            let g = role_group_conflicts(*b, ci.location, ci.index);
            if in_range {
                if exists|j: int| 0 <= j < i && role_member(*b, j, ci.location, ci.index) {
                    let j = choose|j: int| 0 <= j < i && role_member(*b, j, ci.location, ci.index);
                    assert forall|d| g.contains(d) implies role_groups_conflicts(*b, i as int).contains(d) by {
                        assert(role_group_conflicts(*b, b.roles@[j].location, b.roles@[j].index).contains(d));
                    }
                    assert(descs(conflicts@) == before);
                }
                assert(role_groups_conflicts(*b, i + 1) =~= role_groups_conflicts(*b, i as int) + g) by {
                    assert forall|d| role_groups_conflicts(*b, i + 1).contains(d) implies (role_groups_conflicts(*b, i as int) + g).contains(d) by {
                        let k = choose|k: int|
                            0 <= k < i + 1 && k < b.roles@.len() && role_in_range(*b, b.roles@[k]) && #[trigger] role_group_conflicts(
                                *b,
                                b.roles@[k].location,
                                b.roles@[k].index,
                            ).contains(d);
                        if k < i {
                            assert(role_groups_conflicts(*b, i as int).contains(d));
                        }
                    }
                    assert forall|d| (role_groups_conflicts(*b, i as int) + g).contains(d) implies role_groups_conflicts(*b, i + 1).contains(d) by {
                        if g.contains(d) {
                            assert(role_group_conflicts(*b, b.roles@[i as int].location, b.roles@[i as int].index).contains(d));
                        } else {
                            let k = choose|k: int|
                                0 <= k < i && k < b.roles@.len() && role_in_range(*b, b.roles@[k]) && #[trigger] role_group_conflicts(
                                    *b,
                                    b.roles@[k].location,
                                    b.roles@[k].index,
                                ).contains(d);
                            assert(role_group_conflicts(*b, b.roles@[k].location, b.roles@[k].index).contains(d));
                        }
                    }
                }
                assert(descs(conflicts@) =~= mid + role_groups_conflicts(*b, i + 1));
            } else {
                assert(role_groups_conflicts(*b, i + 1) =~= role_groups_conflicts(*b, i as int)) by {
                    assert forall|d| role_groups_conflicts(*b, i + 1).contains(d) implies role_groups_conflicts(*b, i as int).contains(d) by {
                        let k = choose|k: int|
                            0 <= k < i + 1 && k < b.roles@.len() && role_in_range(*b, b.roles@[k]) && #[trigger] role_group_conflicts(
                                *b,
                                b.roles@[k].location,
                                b.roles@[k].index,
                            ).contains(d);
                        assert(k != i);
                    }
                }
            }
        }
        i += 1;
    }
    Ok(())
}

/// Once an error is found among the first claims, it is the first error among more claims.
proof fn lemma_role_claims_error_stays(b: ResolvedProtocolBundle, i: int, n: int)
    requires
        0 <= i <= n,
        role_claims_error(b, i) is Some,
    ensures
        role_claims_error(b, n) == role_claims_error(b, i),
    decreases n - i,
{
    if i < n {
        lemma_role_claims_error_stays(b, i, n - 1);
    }
}


// ---------------------------------------------------------------------------------------------
// Closed roles.

/// The participants of a closed role: its provider first, then its consumers.
pub open spec fn participants(binding: ResolvedProtocolClosedRoleBinding) -> Seq<ProtocolClosedRoleParticipant> {
    seq![binding.provider] + binding.consumers@
}

/// The artifacts of all participants of a closed role.
pub open spec fn participant_artifacts(binding: ResolvedProtocolClosedRoleBinding) -> Set<Seq<char>> {
    participants(binding).map_values(|p: ProtocolClosedRoleParticipant| p.artifact@).to_set()
}

/// The first admitted artifact with id `id`, if any.
pub open spec fn artifact_with_id(b: ResolvedProtocolBundle, id: Seq<char>) -> Option<int> {
    if exists|k: int| 0 <= k < b.artifacts@.len() && #[trigger] b.artifacts@[k].id@ == id {
        Some(choose|k: int|
            0 <= k < b.artifacts@.len() && #[trigger] b.artifacts@[k].id@ == id && forall|j: int|
                0 <= j < k ==> #[trigger] b.artifacts@[j].id@ != id)
    } else {
        None
    }
}

/// The artifact lists the schema contract.
pub open spec fn lists_contract(a: ProtocolArtifactIdentity, si: ProtocolRoleSchemaIdentity) -> bool {
    exists|k: int|
        0 <= k < a.schema_contracts@.len() && #[trigger] a.schema_contracts@[k].molecule_type@ == si.molecule_type@
            && a.schema_contracts@[k].schema_hash@ == si.schema_hash@
}

/// The first role claim of `artifact` named `name`, if any.
pub open spec fn role_claim_named(b: ResolvedProtocolBundle, artifact: Seq<char>, name: Seq<char>) -> Option<int> {
    if exists|k: int| 0 <= k < b.roles@.len() && #[trigger] b.roles@[k].artifact@ == artifact && b.roles@[k].name@ == name {
        Some(choose|k: int|
            0 <= k < b.roles@.len() && #[trigger] b.roles@[k].artifact@ == artifact && b.roles@[k].name@ == name && forall|j: int|
                0 <= j < k ==> !(#[trigger] b.roles@[j].artifact@ == artifact && b.roles@[j].name@ == name))
    } else {
        None
    }
}

/// The first witness claim of `artifact` named `name`, if any.
pub open spec fn witness_claim_named(b: ResolvedProtocolBundle, artifact: Seq<char>, name: Seq<char>) -> Option<int> {
    if exists|k: int|
        0 <= k < b.witnesses@.len() && #[trigger] b.witnesses@[k].artifact@ == artifact && b.witnesses@[k].name@ == name {
        Some(choose|k: int|
            0 <= k < b.witnesses@.len() && #[trigger] b.witnesses@[k].artifact@ == artifact && b.witnesses@[k].name@ == name
                && forall|j: int| 0 <= j < k ==> !(#[trigger] b.witnesses@[j].artifact@ == artifact && b.witnesses@[j].name@ == name))
    } else {
        None
    }
}

/// The key of one aspect of a closed role: `closed_role:<id>.<aspect>`.
pub open spec fn closed_key(role_id: Seq<char>, aspect: Seq<char>) -> Seq<char> {
    "closed_role:"@ + role_id + aspect
}

/// The conflicts any participant that is an admitted artifact raises: a schema contract the
/// artifact does not list, and a consumer deployed as the provider's very Script.
pub open spec fn participant_common(
    b: ResolvedProtocolBundle,
    binding: ResolvedProtocolClosedRoleBinding,
    j: int,
    ai: int,
) -> Set<(Seq<char>, Seq<char>, Seq<char>, Set<Seq<char>>, Seq<char>)> {
    let p = participants(binding)[j];
    let id = binding.role_id@;
    let si = binding.schema_identity;
    only_if(
        !lists_contract(b.artifacts@[ai], si),
        single(
            "PB213"@,
            "closed-role-type"@,
            closed_key(id, ".schema"@),
            p.artifact@,
            "participant metadata does not expose Molecule type '"@ + si.molecule_type@ + "' with schema hash '"@
                + si.schema_hash@ + "'"@,
        ),
    ) + only_if(
        j != 0 && script_same(p.deployment.script, binding.provider.deployment.script),
        (
            "PB213"@,
            "closed-role-identity"@,
            closed_key(id, ".participant"@),
            set![binding.provider.artifact@, p.artifact@],
            "closed-foreign participants resolve to the same deployed Script identity"@,
        ),
    )
}

/// The conflicts the cell claim of a participant in a closed cell role raises.
pub open spec fn participant_cell_conflicts(
    b: ResolvedProtocolBundle,
    binding: ResolvedProtocolClosedRoleBinding,
    j: int,
) -> Set<(Seq<char>, Seq<char>, Seq<char>, Set<Seq<char>>, Seq<char>)> {
    let p = participants(binding)[j];
    let id = binding.role_id@;
    match role_claim_named(b, p.artifact@, p.claim@) {
        None => Set::empty(),
        Some(ci) => {
            let claim = b.roles@[ci];
            only_if(
                ProtocolClosedRoleSource::Cell { location: claim.location, index: claim.index } != binding.source,
                (
                    "PB213"@,
                    "closed-role-correspondence"@,
                    closed_key(id, ".source"@),
                    participant_artifacts(binding),
                    "provider and consumers do not reference the identical Cell slot"@,
                ),
            ) + only_if(
                claim.ownership != (if j == 0 {
                    ProtocolRoleOwnership::Exclusive
                } else {
                    ProtocolRoleOwnership::SharedRead
                }),
                single(
                    "PB213"@,
                    "closed-role-ownership"@,
                    closed_key(id, ".ownership"@),
                    p.artifact@,
                    if j == 0 {
                        "closed Cell-role provider must hold the exclusive physical claim"@
                    } else {
                        "closed Cell-role consumer must hold a shared-read physical claim"@
                    },
                ),
            ) + only_if(
                !(claim.resource_identity matches Some(r) && r@ == binding.schema_identity.molecule_type@),
                single(
                    "PB213"@,
                    "closed-role-type"@,
                    closed_key(id, ".resource"@),
                    p.artifact@,
                    "physical Cell claim resource_identity does not match the closed-role type name"@,
                ),
            )
        },
    }
}

/// The conflicts the witness claim of a participant in a closed witness role raises.
pub open spec fn participant_witness_conflicts(
    b: ResolvedProtocolBundle,
    binding: ResolvedProtocolClosedRoleBinding,
    j: int,
) -> Set<(Seq<char>, Seq<char>, Seq<char>, Set<Seq<char>>, Seq<char>)> {
    let p = participants(binding)[j];
    let id = binding.role_id@;
    match witness_claim_named(b, p.artifact@, p.claim@) {
        None => Set::empty(),
        Some(wi) => {
            let claim = b.witnesses@[wi];
            only_if(
                ProtocolClosedRoleSource::Witness { index: claim.index, field: claim.field } != binding.source,
                (
                    "PB213"@,
                    "closed-role-correspondence"@,
                    closed_key(id, ".source"@),
                    participant_artifacts(binding),
                    "provider and consumers do not reference the identical WitnessArgs field"@,
                ),
            ) + only_if(
                claim.ownership != (if j == 0 {
                    ProtocolWitnessOwnership::ExclusiveWrite
                } else {
                    ProtocolWitnessOwnership::SharedRead
                }),
                single(
                    "PB213"@,
                    "closed-role-ownership"@,
                    closed_key(id, ".ownership"@),
                    p.artifact@,
                    if j == 0 {
                        "closed witness-role provider must hold the exclusive-write physical claim"@
                    } else {
                        "closed witness-role consumer must hold a shared-read physical claim"@
                    },
                ),
            ) + only_if(
                claim.abi@ != binding.schema_identity.molecule_type@,
                single(
                    "PB213"@,
                    "closed-role-type"@,
                    closed_key(id, ".abi"@),
                    p.artifact@,
                    "physical witness claim ABI does not match the closed-role type name"@,
                ),
            )
        },
    }
}

/// The conflicts participant `j` of a closed role raises; a participant that is not an
/// admitted artifact raises none.
#[verifier::opaque]
pub open spec fn participant_conflicts(
    b: ResolvedProtocolBundle,
    binding: ResolvedProtocolClosedRoleBinding,
    j: int,
) -> Set<(Seq<char>, Seq<char>, Seq<char>, Set<Seq<char>>, Seq<char>)> {
    match artifact_with_id(b, participants(binding)[j].artifact@) {
        None => Set::empty(),
        Some(ai) => participant_common(b, binding, j, ai) + match binding.kind {
            ProtocolClosedRoleKind::Cell => participant_cell_conflicts(b, binding, j),
            ProtocolClosedRoleKind::Witness => participant_witness_conflicts(b, binding, j),
        },
    }
}

/// The conflicts the first `n` participants of a closed role raise.
pub open spec fn participants_conflicts(b: ResolvedProtocolBundle, binding: ResolvedProtocolClosedRoleBinding, n: int) -> Set<
    (Seq<char>, Seq<char>, Seq<char>, Set<Seq<char>>, Seq<char>),
>
    decreases n,
{
    if n <= 0 {
        Set::empty()
    } else {
        participants_conflicts(b, binding, n - 1) + participant_conflicts(b, binding, n - 1)
    }
}

/// The conflicts the participants of the first `n` closed roles raise.
pub open spec fn closed_roles_conflicts(b: ResolvedProtocolBundle, n: int) -> Set<
    (Seq<char>, Seq<char>, Seq<char>, Set<Seq<char>>, Seq<char>),
>
    decreases n,
{
    if n <= 0 {
        Set::empty()
    } else {
        closed_roles_conflicts(b, n - 1) + participants_conflicts(
            b,
            b.closed_roles@[n - 1],
            participants(b.closed_roles@[n - 1]).len() as int,
        )
    }
}

fn find_artifact(b: &ResolvedProtocolBundle, id: &str) -> (r: Option<usize>)
    ensures
        r is None <==> artifact_with_id(*b, id@) is None,
        r matches Some(k) ==> k < b.artifacts@.len() && artifact_with_id(*b, id@) == Some(k as int),
{
    let mut k: usize = 0;
    while k < b.artifacts.len()
        invariant
            k <= b.artifacts@.len(),
            forall|j: int| 0 <= j < k ==> #[trigger] b.artifacts@[j].id@ != id@,
        decreases b.artifacts@.len() - k,
    {
        if str_eq(b.artifacts[k].id.as_str(), id) {
            proof {
                let c = choose|c: int|
                    0 <= c < b.artifacts@.len() && #[trigger] b.artifacts@[c].id@ == id@ && forall|j: int|
                        0 <= j < c ==> #[trigger] b.artifacts@[j].id@ != id@;
                if c < k {
                } else if c > k {
                    assert(b.artifacts@[k as int].id@ == id@);
                }
            }
            return Some(k);
        }
        k += 1;
    }
    None
}

fn find_role_claim(b: &ResolvedProtocolBundle, artifact: &str, name: &str) -> (r: Option<usize>)
    ensures
        r is None <==> role_claim_named(*b, artifact@, name@) is None,
        r matches Some(k) ==> k < b.roles@.len() && role_claim_named(*b, artifact@, name@) == Some(k as int),
{
    let mut k: usize = 0;
    while k < b.roles.len()
        invariant
            k <= b.roles@.len(),
            forall|j: int| 0 <= j < k ==> !(#[trigger] b.roles@[j].artifact@ == artifact@ && b.roles@[j].name@ == name@),
        decreases b.roles@.len() - k,
    {
        if str_eq(b.roles[k].artifact.as_str(), artifact) && str_eq(b.roles[k].name.as_str(), name) {
            proof {
                let c = choose|c: int|
                    0 <= c < b.roles@.len() && #[trigger] b.roles@[c].artifact@ == artifact@ && b.roles@[c].name@ == name@
                        && forall|j: int| 0 <= j < c ==> !(#[trigger] b.roles@[j].artifact@ == artifact@ && b.roles@[j].name@ == name@);
                if c > k {
                    assert(b.roles@[k as int].artifact@ == artifact@);
                }
            }
            return Some(k);
        }
        k += 1;
    }
    None
}

fn find_witness_claim(b: &ResolvedProtocolBundle, artifact: &str, name: &str) -> (r: Option<usize>)
    ensures
        r is None <==> witness_claim_named(*b, artifact@, name@) is None,
        r matches Some(k) ==> k < b.witnesses@.len() && witness_claim_named(*b, artifact@, name@) == Some(k as int),
{
    let mut k: usize = 0;
    while k < b.witnesses.len()
        invariant
            k <= b.witnesses@.len(),
            forall|j: int| 0 <= j < k ==> !(#[trigger] b.witnesses@[j].artifact@ == artifact@ && b.witnesses@[j].name@ == name@),
        decreases b.witnesses@.len() - k,
    {
        if str_eq(b.witnesses[k].artifact.as_str(), artifact) && str_eq(b.witnesses[k].name.as_str(), name) {
            proof {
                let c = choose|c: int|
                    0 <= c < b.witnesses@.len() && #[trigger] b.witnesses@[c].artifact@ == artifact@ && b.witnesses@[c].name@
                        == name@ && forall|j: int|
                        0 <= j < c ==> !(#[trigger] b.witnesses@[j].artifact@ == artifact@ && b.witnesses@[j].name@ == name@);
                if c > k {
                    assert(b.witnesses@[k as int].artifact@ == artifact@);
                }
            }
            return Some(k);
        }
        k += 1;
    }
    None
}

fn lists_contract_exec(a: &ProtocolArtifactIdentity, si: &ProtocolRoleSchemaIdentity) -> (r: bool)
    ensures
        r == lists_contract(*a, *si),
{
    let mut k: usize = 0;
    while k < a.schema_contracts.len()
        invariant
            k <= a.schema_contracts@.len(),
            forall|j: int|
                0 <= j < k ==> !(#[trigger] a.schema_contracts@[j].molecule_type@ == si.molecule_type@
                    && a.schema_contracts@[j].schema_hash@ == si.schema_hash@),
        decreases a.schema_contracts@.len() - k,
    {
        if str_eq(a.schema_contracts[k].molecule_type.as_str(), si.molecule_type.as_str()) && str_eq(
            a.schema_contracts[k].schema_hash.as_str(),
            si.schema_hash.as_str(),
        ) {
            return true;
        }
        k += 1;
    }
    false
}

fn closed_key_exec(role_id: &String, aspect: &str) -> (r: String)
    ensures
        r@ == closed_key(role_id@, aspect@),
{
    proof {
        reveal_strlit("closed_role:");
    }
    concat3("closed_role:", role_id.as_str(), aspect)
}

/// The artifacts of all participants of a closed role.
fn participant_artifact_list(binding: &ResolvedProtocolClosedRoleBinding) -> (r: Vec<String>)
    ensures
        texts(r@).to_set() == participant_artifacts(*binding),
{
    let mut out: Vec<String> = Vec::new();
    out.push(binding.provider.artifact.clone());
    let mut k: usize = 0;
    let ghost ps = participants(*binding);
    let ghost f = |p: ProtocolClosedRoleParticipant| p.artifact@;
    proof {
        assert(texts(out@) =~= ps.map_values(f).take(1));
    }
    while k < binding.consumers.len()
        invariant
            ps == participants(*binding),
            f == (|p: ProtocolClosedRoleParticipant| p.artifact@),
            k <= binding.consumers@.len(),
            texts(out@) == ps.map_values(f).take(k + 1),
        decreases binding.consumers@.len() - k,
    {
        let ghost before = out@;
        out.push(binding.consumers[k].artifact.clone());
        proof {
            assert(ps[k + 1] == binding.consumers@[k as int]);
            assert(texts(out@) =~= texts(before).push(binding.consumers@[k as int].artifact@));
            assert(ps.map_values(f).take(k + 2) =~= ps.map_values(f).take(k + 1).push(f(ps[k + 1])));
        }
        k += 1;
    }
    proof {
        assert(ps.map_values(f).take(k + 1) =~= ps.map_values(f));
    }
    out
}

/// Records the conflicts one participant of a closed role raises.
#[verifier::spinoff_prover]
#[verifier::rlimit(40)]
fn check_participant(
    b: &ResolvedProtocolBundle,
    binding: &ResolvedProtocolClosedRoleBinding,
    p: &ProtocolClosedRoleParticipant,
    j: usize,
    conflicts: &mut Vec<ProtocolBundleConflict>,
)
    requires
        all_canonical(old(conflicts)@),
        j < participants(*binding).len(),
        *p == participants(*binding)[j as int],
    ensures
        all_canonical(final(conflicts)@),
        descs(final(conflicts)@) == descs(old(conflicts)@) + participant_conflicts(*b, *binding, j as int),
{
    proof {
        reveal_strlit("PB213");
        reveal_strlit(".schema");
        reveal_strlit(".participant");
        reveal_strlit(".source");
        reveal_strlit(".ownership");
        reveal_strlit(".resource");
        reveal_strlit(".abi");
    }
    reveal(participant_conflicts);
    let ghost start = descs(conflicts@);
    let is_provider = j == 0;
    let ai = match find_artifact(b, p.artifact.as_str()) {
        Some(ai) => ai,
        None => {
            proof {
                assert(descs(conflicts@) =~= start + participant_conflicts(*b, *binding, j as int));
            }
            return;
        },
    };
    let si = &binding.schema_identity;
    let ghost mut added: Set<(Seq<char>, Seq<char>, Seq<char>, Set<Seq<char>>, Seq<char>)> = Set::empty();
    if !lists_contract_exec(&b.artifacts[ai], si) {
        let mut detail = concat3("participant metadata does not expose Molecule type '", si.molecule_type.as_str(), "' with schema hash '");
        detail.append(si.schema_hash.as_str());
        detail.append("'");
        push_single(conflicts, "PB213", "closed-role-type", closed_key_exec(&binding.role_id, ".schema"), &p.artifact, detail.as_str());
    }
    if !is_provider && script_eq(&p.deployment.script, &binding.provider.deployment.script) {
        let mut pair: Vec<String> = Vec::new();
        pair.push(binding.provider.artifact.clone());
        pair.push(p.artifact.clone());
        proof {
            assert(texts(pair@).to_set() =~= set![binding.provider.artifact@, p.artifact@]) by {
                assert(texts(pair@)[0] == binding.provider.artifact@);
                assert(texts(pair@)[1] == p.artifact@);
            }
        }
        push_conflict(
            conflicts,
            "PB213",
            "closed-role-identity",
            closed_key_exec(&binding.role_id, ".participant"),
            pair,
            "closed-foreign participants resolve to the same deployed Script identity",
        );
    }
    proof {
        added = participant_common(*b, *binding, j as int, ai as int);
        assert(descs(conflicts@) =~= start + added);
        assert(participants(*binding)[j as int].artifact@ == p.artifact@);
        assert(artifact_with_id(*b, participants(*binding)[j as int].artifact@) == Some(ai as int));
        assert(participant_conflicts(*b, *binding, j as int) == added + match binding.kind {
            ProtocolClosedRoleKind::Cell => participant_cell_conflicts(*b, *binding, j as int),
            ProtocolClosedRoleKind::Witness => participant_witness_conflicts(*b, *binding, j as int),
        });
    }
    match binding.kind {
        ProtocolClosedRoleKind::Cell => {
            let ci = match find_role_claim(b, p.artifact.as_str(), p.claim.as_str()) {
                Some(ci) => ci,
                None => {
                    proof {
                        assert(participant_cell_conflicts(*b, *binding, j as int) =~= Set::empty());
                        assert(descs(conflicts@) =~= start + participant_conflicts(*b, *binding, j as int));
                    }
                    return;
                },
            };
            let claim = &b.roles[ci];
            let source = ProtocolClosedRoleSource::Cell { location: claim.location, index: claim.index };
            if source != binding.source {
                push_conflict(
                    conflicts,
                    "PB213",
                    "closed-role-correspondence",
                    closed_key_exec(&binding.role_id, ".source"),
                    participant_artifact_list(binding),
                    "provider and consumers do not reference the identical Cell slot",
                );
            }
            let wanted = if is_provider {
                ProtocolRoleOwnership::Exclusive
            } else {
                ProtocolRoleOwnership::SharedRead
            };
            if claim.ownership != wanted {
                let detail = if is_provider {
                    "closed Cell-role provider must hold the exclusive physical claim"
                } else {
                    "closed Cell-role consumer must hold a shared-read physical claim"
                };
                push_single(conflicts, "PB213", "closed-role-ownership", closed_key_exec(&binding.role_id, ".ownership"), &p.artifact, detail);
            }
            let resource_ok = match &claim.resource_identity {
                Some(r) => str_eq(r.as_str(), si.molecule_type.as_str()),
                None => false,
            };
            if !resource_ok {
                push_single(
                    conflicts,
                    "PB213",
                    "closed-role-type",
                    closed_key_exec(&binding.role_id, ".resource"),
                    &p.artifact,
                    "physical Cell claim resource_identity does not match the closed-role type name",
                );
            }
        },
        ProtocolClosedRoleKind::Witness => {
            let wi = match find_witness_claim(b, p.artifact.as_str(), p.claim.as_str()) {
                Some(wi) => wi,
                None => {
                    proof {
                        assert(participant_witness_conflicts(*b, *binding, j as int) =~= Set::empty());
                        assert(descs(conflicts@) =~= start + participant_conflicts(*b, *binding, j as int));
                    }
                    return;
                },
            };
            let claim = &b.witnesses[wi];
            let source = ProtocolClosedRoleSource::Witness { index: claim.index, field: claim.field };
            if source != binding.source {
                push_conflict(
                    conflicts,
                    "PB213",
                    "closed-role-correspondence",
                    closed_key_exec(&binding.role_id, ".source"),
                    participant_artifact_list(binding),
                    "provider and consumers do not reference the identical WitnessArgs field",
                );
            }
            let wanted = if is_provider {
                ProtocolWitnessOwnership::ExclusiveWrite
            } else {
                ProtocolWitnessOwnership::SharedRead
            };
            if claim.ownership != wanted {
                let detail = if is_provider {
                    "closed witness-role provider must hold the exclusive-write physical claim"
                } else {
                    "closed witness-role consumer must hold a shared-read physical claim"
                };
                push_single(conflicts, "PB213", "closed-role-ownership", closed_key_exec(&binding.role_id, ".ownership"), &p.artifact, detail);
            }
            if !str_eq(claim.abi.as_str(), si.molecule_type.as_str()) {
                push_single(
                    conflicts,
                    "PB213",
                    "closed-role-type",
                    closed_key_exec(&binding.role_id, ".abi"),
                    &p.artifact,
                    "physical witness claim ABI does not match the closed-role type name",
                );
            }
        },
    }
    proof {
        assert(descs(conflicts@) =~= start + participant_conflicts(*b, *binding, j as int));
    }
}

/// Checks that the participants of every closed role hold the physical claims the role
/// describes, and records the conflicts.
pub fn detect_closed_role_conflicts(b: &ResolvedProtocolBundle, conflicts: &mut Vec<ProtocolBundleConflict>)
    requires
        all_canonical(old(conflicts)@),
    ensures
        all_canonical(final(conflicts)@),
        descs(final(conflicts)@) == descs(old(conflicts)@) + closed_roles_conflicts(*b, b.closed_roles@.len() as int),
{
    let ghost start = descs(conflicts@);
    let mut i: usize = 0;
    proof {
        assert(descs(conflicts@) =~= start + closed_roles_conflicts(*b, 0));
    }
    while i < b.closed_roles.len()
        invariant
            i <= b.closed_roles@.len(),
            all_canonical(conflicts@),
            descs(conflicts@) == start + closed_roles_conflicts(*b, i as int),
        decreases b.closed_roles@.len() - i,
    {
        let binding = &b.closed_roles[i];
        let ghost mid = descs(conflicts@);
        check_participant(b, binding, &binding.provider, 0, conflicts);
        proof {
            assert(participants(*binding)[0] == binding.provider);
            assert(participants_conflicts(*b, *binding, 0) == Set::<(Seq<char>, Seq<char>, Seq<char>, Set<Seq<char>>, Seq<char>)>::empty());
            assert(participants_conflicts(*b, *binding, 1) =~= participant_conflicts(*b, *binding, 0));
            assert(descs(conflicts@) =~= mid + participants_conflicts(*b, *binding, 1));
        }
        let mut k: usize = 0;
        while k < binding.consumers.len()
            invariant
                binding == &b.closed_roles@[i as int],
                k <= binding.consumers@.len(),
                all_canonical(conflicts@),
                descs(conflicts@) == mid + participants_conflicts(*b, *binding, k + 1),
            decreases binding.consumers@.len() - k,
        {
            proof {
                assert(participants(*binding)[k + 1] == binding.consumers@[k as int]);
            }
            check_participant(b, binding, &binding.consumers[k], k + 1, conflicts);
            proof {
                assert(descs(conflicts@) =~= mid + participants_conflicts(*b, *binding, k + 2));
            }
            k += 1;
        }
        proof {
            assert(participants(*binding).len() == k + 1);
            assert(descs(conflicts@) =~= start + closed_roles_conflicts(*b, i + 1));
        }
        i += 1;
    }
}


// ---------------------------------------------------------------------------------------------
// Artifacts.

/// The conflicts artifact `k` raises: a deployment on another network, and a target profile
/// other than the first artifact's.
pub open spec fn artifact_conflicts_at(b: ResolvedProtocolBundle, k: int) -> Set<
    (Seq<char>, Seq<char>, Seq<char>, Set<Seq<char>>, Seq<char>),
> {
    let a = b.artifacts@[k];
    let first = b.artifacts@[0];
    only_if(
        !(a.deployment.network.chain_id@ == b.network.chain_id@ && a.deployment.network.genesis_hash@
            == b.network.genesis_hash@),
        single(
            "PB208"@,
            "network-deployment"@,
            "artifact:"@ + a.id@,
            a.id@,
            "artifact deployment network differs from the ProtocolBundle network"@,
        ),
    ) + only_if(
        a.target_profile_hash@ != first.target_profile_hash@,
        (
            "PB209"@,
            "profile-version"@,
            "target-profile"@,
            set![first.id@, a.id@],
            "artifacts have incompatible target/VM/ABI profiles"@,
        ),
    )
}

/// The conflicts the first `n` artifacts raise.
pub open spec fn artifacts_conflicts(b: ResolvedProtocolBundle, n: int) -> Set<
    (Seq<char>, Seq<char>, Seq<char>, Set<Seq<char>>, Seq<char>),
>
    decreases n,
{
    if n <= 0 {
        Set::empty()
    } else {
        artifacts_conflicts(b, n - 1) + artifact_conflicts_at(b, n - 1)
    }
}

/// Checks that every artifact is deployed on the bundle's network and shares the first
/// artifact's target profile, and records the conflicts.
pub fn detect_artifact_conflicts(b: &ResolvedProtocolBundle, conflicts: &mut Vec<ProtocolBundleConflict>)
    requires
        all_canonical(old(conflicts)@),
    ensures
        all_canonical(final(conflicts)@),
        descs(final(conflicts)@) == descs(old(conflicts)@) + artifacts_conflicts(*b, b.artifacts@.len() as int),
{
    proof {
        reveal_strlit("PB208");
        reveal_strlit("PB209");
        reveal_strlit("artifact:");
    }
    let ghost start = descs(conflicts@);
    if b.artifacts.len() == 0 {
        proof {
            assert(descs(conflicts@) =~= start + artifacts_conflicts(*b, 0));
        }
        return;
    }
    let first = &b.artifacts[0];
    let mut k: usize = 0;
    proof {
        assert(descs(conflicts@) =~= start + artifacts_conflicts(*b, 0));
    }
    while k < b.artifacts.len()
        invariant
            b.artifacts@.len() > 0,
            *first == b.artifacts@[0],
            k <= b.artifacts@.len(),
            all_canonical(conflicts@),
            descs(conflicts@) == start + artifacts_conflicts(*b, k as int),
        decreases b.artifacts@.len() - k,
    {
        let a = &b.artifacts[k];
        let ghost mid = descs(conflicts@);
        if !(str_eq(a.deployment.network.chain_id.as_str(), b.network.chain_id.as_str()) && str_eq(
            a.deployment.network.genesis_hash.as_str(),
            b.network.genesis_hash.as_str(),
        )) {
            push_single(
                conflicts,
                "PB208",
                "network-deployment",
                concat2("artifact:", a.id.as_str()),
                &a.id,
                "artifact deployment network differs from the ProtocolBundle network",
            );
        }
        if !str_eq(a.target_profile_hash.as_str(), first.target_profile_hash.as_str()) {
            let mut pair: Vec<String> = Vec::new();
            pair.push(first.id.clone());
            pair.push(a.id.clone());
            proof {
                assert(texts(pair@).to_set() =~= set![first.id@, a.id@]) by {
                    assert(texts(pair@)[0] == first.id@);
                    assert(texts(pair@)[1] == a.id@);
                }
            }
            push_conflict(
                conflicts,
                "PB209",
                "profile-version",
                "target-profile".to_owned(),
                pair,
                "artifacts have incompatible target/VM/ABI profiles",
            );
        }
        proof {
            assert(descs(conflicts@) =~= mid + artifact_conflicts_at(*b, k as int));
            assert(descs(conflicts@) =~= start + artifacts_conflicts(*b, k + 1));
        }
        k += 1;
    }
}


// ---------------------------------------------------------------------------------------------
// Claim references.

/// Every claim on a cell, witness or dependency, as its kind, artifact and name, in the order
/// the bundle lists them.
pub open spec fn claim_refs(b: ResolvedProtocolBundle) -> Seq<(Seq<char>, Seq<char>, Seq<char>)> {
    b.roles@.map_values(|c: ProtocolRoleBinding| ("role"@, c.artifact@, c.name@)) + b.witnesses@.map_values(
        |c: ProtocolWitnessClaim| ("witness"@, c.artifact@, c.name@),
    ) + b.cell_deps@.map_values(|c: ProtocolCellDepClaim| ("cell_dep"@, c.artifact@, c.name@))
        + b.header_deps@.map_values(|c: ProtocolHeaderDepClaim| ("header_dep"@, c.artifact@, c.name@))
}

/// Some admitted artifact has id `a`.
pub open spec fn artifact_known(b: ResolvedProtocolBundle, a: Seq<char>) -> bool {
    exists|k: int| 0 <= k < b.artifacts@.len() && #[trigger] b.artifacts@[k].id@ == a
}

/// The error claim reference `i` reports: an unknown artifact, an invalid name, or a repeat of
/// an earlier reference.
pub open spec fn claim_ref_error(b: ResolvedProtocolBundle, refs: Seq<(Seq<char>, Seq<char>, Seq<char>)>, i: int) -> Option<
    Seq<char>,
> {
    let (kind, a, n) = refs[i];
    if !artifact_known(b, a) {
        Some("ProtocolBundle "@ + kind + " claim '"@ + n + "' references unknown artifact '"@ + a + "'"@)
    } else if let Some(m) = name_error(n, kind + " claim name"@) {
        Some(m)
    } else if exists|j: int| 0 <= j < i && #[trigger] refs[j] == refs[i] {
        Some("duplicate ProtocolBundle "@ + kind + " claim '"@ + a + ":"@ + n + "'"@)
    } else {
        None
    }
}

/// The first error among the first `n` claim references.
pub open spec fn claim_refs_error(b: ResolvedProtocolBundle, refs: Seq<(Seq<char>, Seq<char>, Seq<char>)>, n: int) -> Option<
    Seq<char>,
>
    decreases n,
{
    if n <= 0 {
        None
    } else {
        first_error(claim_refs_error(b, refs, n - 1), claim_ref_error(b, refs, n - 1))
    }
}

/// The first policy claim of an unknown artifact among the first `n`, if any.
pub open spec fn policy_refs_error(b: ResolvedProtocolBundle, n: int) -> Option<Seq<char>>
    decreases n,
{
    if n <= 0 {
        None
    } else {
        first_error(
            policy_refs_error(b, n - 1),
            if artifact_known(b, b.policies@[n - 1].artifact@) {
                None
            } else {
                Some("ProtocolBundle policy claim references unknown artifact '"@ + b.policies@[n - 1].artifact@ + "'"@)
            },
        )
    }
}

/// The error the reference checks of a bundle report, if any.
pub open spec fn references_error(b: ResolvedProtocolBundle) -> Option<Seq<char>> {
    first_error(
        claim_refs_error(b, claim_refs(b), claim_refs(b).len() as int),
        policy_refs_error(b, b.policies@.len() as int),
    )
}

fn artifact_known_exec(b: &ResolvedProtocolBundle, a: &String) -> (r: bool)
    ensures
        r == artifact_known(*b, a@),
{
    let mut k: usize = 0;
    while k < b.artifacts.len()
        invariant
            k <= b.artifacts@.len(),
            forall|j: int| 0 <= j < k ==> #[trigger] b.artifacts@[j].id@ != a@,
        decreases b.artifacts@.len() - k,
    {
        if str_eq(b.artifacts[k].id.as_str(), a.as_str()) {
            return true;
        }
        k += 1;
    }
    false
}

/// The views of a list of claim references.
pub open spec fn ref_views(v: Seq<(&'static str, String, String)>) -> Seq<(Seq<char>, Seq<char>, Seq<char>)> {
    v.map_values(|r: (&'static str, String, String)| (r.0@, r.1@, r.2@))
}

fn push_refs_roles(b: &ResolvedProtocolBundle, out: &mut Vec<(&'static str, String, String)>)
    ensures
        ref_views(final(out)@) == ref_views(old(out)@) + b.roles@.map_values(|c: ProtocolRoleBinding| ("role"@, c.artifact@, c.name@)),
{
    let ghost start = ref_views(out@);
    let ghost all = b.roles@.map_values(|c: ProtocolRoleBinding| ("role"@, c.artifact@, c.name@));
    let mut i: usize = 0;
    while i < b.roles.len()
        invariant
            i <= b.roles@.len(),
            all == b.roles@.map_values(|c: ProtocolRoleBinding| ("role"@, c.artifact@, c.name@)),
            ref_views(out@) == start + all.take(i as int),
        decreases b.roles@.len() - i,
    {
        let ghost before = out@;
        out.push(("role", b.roles[i].artifact.clone(), b.roles[i].name.clone()));
        proof {
            assert(ref_views(out@) =~= ref_views(before).push(all[i as int]));
            assert(all.take(i + 1) =~= all.take(i as int).push(all[i as int]));
        }
        i += 1;
    }
    proof {
        assert(all.take(i as int) =~= all);
    }
}

fn push_refs_witnesses(b: &ResolvedProtocolBundle, out: &mut Vec<(&'static str, String, String)>)
    ensures
        ref_views(final(out)@) == ref_views(old(out)@) + b.witnesses@.map_values(
            |c: ProtocolWitnessClaim| ("witness"@, c.artifact@, c.name@),
        ),
{
    let ghost start = ref_views(out@);
    let ghost all = b.witnesses@.map_values(|c: ProtocolWitnessClaim| ("witness"@, c.artifact@, c.name@));
    let mut i: usize = 0;
    while i < b.witnesses.len()
        invariant
            i <= b.witnesses@.len(),
            all == b.witnesses@.map_values(|c: ProtocolWitnessClaim| ("witness"@, c.artifact@, c.name@)),
            ref_views(out@) == start + all.take(i as int),
        decreases b.witnesses@.len() - i,
    {
        let ghost before = out@;
        out.push(("witness", b.witnesses[i].artifact.clone(), b.witnesses[i].name.clone()));
        proof {
            assert(ref_views(out@) =~= ref_views(before).push(all[i as int]));
            assert(all.take(i + 1) =~= all.take(i as int).push(all[i as int]));
        }
        i += 1;
    }
    proof {
        assert(all.take(i as int) =~= all);
    }
}

fn push_refs_cell_deps(b: &ResolvedProtocolBundle, out: &mut Vec<(&'static str, String, String)>)
    ensures
        ref_views(final(out)@) == ref_views(old(out)@) + b.cell_deps@.map_values(
            |c: ProtocolCellDepClaim| ("cell_dep"@, c.artifact@, c.name@),
        ),
{
    let ghost start = ref_views(out@);
    let ghost all = b.cell_deps@.map_values(|c: ProtocolCellDepClaim| ("cell_dep"@, c.artifact@, c.name@));
    let mut i: usize = 0;
    while i < b.cell_deps.len()
        invariant
            i <= b.cell_deps@.len(),
            all == b.cell_deps@.map_values(|c: ProtocolCellDepClaim| ("cell_dep"@, c.artifact@, c.name@)),
            ref_views(out@) == start + all.take(i as int),
        decreases b.cell_deps@.len() - i,
    {
        let ghost before = out@;
        out.push(("cell_dep", b.cell_deps[i].artifact.clone(), b.cell_deps[i].name.clone()));
        proof {
            assert(ref_views(out@) =~= ref_views(before).push(all[i as int]));
            assert(all.take(i + 1) =~= all.take(i as int).push(all[i as int]));
        }
        i += 1;
    }
    proof {
        assert(all.take(i as int) =~= all);
    }
}

fn push_refs_header_deps(b: &ResolvedProtocolBundle, out: &mut Vec<(&'static str, String, String)>)
    ensures
        ref_views(final(out)@) == ref_views(old(out)@) + b.header_deps@.map_values(
            |c: ProtocolHeaderDepClaim| ("header_dep"@, c.artifact@, c.name@),
        ),
{
    let ghost start = ref_views(out@);
    let ghost all = b.header_deps@.map_values(|c: ProtocolHeaderDepClaim| ("header_dep"@, c.artifact@, c.name@));
    let mut i: usize = 0;
    while i < b.header_deps.len()
        invariant
            i <= b.header_deps@.len(),
            all == b.header_deps@.map_values(|c: ProtocolHeaderDepClaim| ("header_dep"@, c.artifact@, c.name@)),
            ref_views(out@) == start + all.take(i as int),
        decreases b.header_deps@.len() - i,
    {
        let ghost before = out@;
        out.push(("header_dep", b.header_deps[i].artifact.clone(), b.header_deps[i].name.clone()));
        proof {
            assert(ref_views(out@) =~= ref_views(before).push(all[i as int]));
            assert(all.take(i + 1) =~= all.take(i as int).push(all[i as int]));
        }
        i += 1;
    }
    proof {
        assert(all.take(i as int) =~= all);
    }
}

proof fn lemma_claim_refs_error_stays(
    b: ResolvedProtocolBundle,
    refs: Seq<(Seq<char>, Seq<char>, Seq<char>)>,
    i: int,
    n: int,
)
    requires
        0 <= i <= n,
        claim_refs_error(b, refs, i) is Some,
    ensures
        claim_refs_error(b, refs, n) == claim_refs_error(b, refs, i),
    decreases n - i,
{
    if i < n {
        lemma_claim_refs_error_stays(b, refs, i, n - 1);
    }
}

proof fn lemma_policy_refs_error_stays(b: ResolvedProtocolBundle, i: int, n: int)
    requires
        0 <= i <= n,
        policy_refs_error(b, i) is Some,
    ensures
        policy_refs_error(b, n) == policy_refs_error(b, i),
    decreases n - i,
{
    if i < n {
        lemma_policy_refs_error_stays(b, i, n - 1);
    }
}

/// Checks that every claim names an admitted artifact, carries a valid name, and is not
/// repeated.
pub fn validate_claim_references(b: &ResolvedProtocolBundle) -> (r: Result<()>)
    ensures
        super::reports(r, references_error(*b)),
{
    proof {
        reveal_strlit("ProtocolBundle ");
        reveal_strlit(" claim '");
        reveal_strlit("' references unknown artifact '");
        reveal_strlit("'");
        reveal_strlit(" claim name");
        reveal_strlit("duplicate ProtocolBundle ");
        reveal_strlit(":");
    }
    let mut refs: Vec<(&'static str, String, String)> = Vec::new();
    push_refs_roles(b, &mut refs);
    push_refs_witnesses(b, &mut refs);
    push_refs_cell_deps(b, &mut refs);
    push_refs_header_deps(b, &mut refs);
    let ghost all = claim_refs(*b);
    proof {
        assert(ref_views(refs@) =~= all);
    }
    let n = refs.len();
    let mut i: usize = 0;
    while i < n
        invariant
            n == refs@.len(),
            all == claim_refs(*b),
            ref_views(refs@) == all,
            i <= n,
            claim_refs_error(*b, all, i as int) is None,
        decreases n - i,
    {
        let kind = refs[i].0;
        let artifact = &refs[i].1;
        let name = &refs[i].2;
        proof {
            assert(all[i as int] == (kind@, artifact@, name@));
        }
        if !artifact_known_exec(b, artifact) {
            let mut m = concat3("ProtocolBundle ", kind, " claim '");
            m.append(name.as_str());
            m.append("' references unknown artifact '");
            m.append(artifact.as_str());
            m.append("'");
            proof {
                lemma_claim_refs_error_stays(*b, all, i + 1, n as int);
            }
            return Err(CompileError::without_span(m.as_str()));
        }
        let label = concat2(kind, " claim name");
        if let Err(e) = super::validate_name(name.as_str(), label.as_str()) {
            proof {
                lemma_claim_refs_error_stays(*b, all, i + 1, n as int);
            }
            return Err(e);
        }
        let mut j: usize = 0;
        while j < i
            invariant
                n == refs@.len(),
                ref_views(refs@) == all,
                all == claim_refs(*b),
                claim_refs_error(*b, all, i as int) is None,
                artifact_known(*b, all[i as int].1),
                name_error(all[i as int].2, all[i as int].0 + " claim name"@) is None,
                all[i as int] == (kind@, artifact@, name@),
                i < n,
                j <= i,
                forall|k: int| 0 <= k < j ==> #[trigger] all[k] != all[i as int],
            decreases i - j,
        {
            if str_eq(refs[j].0, refs[i].0) && str_eq(refs[j].1.as_str(), refs[i].1.as_str()) && str_eq(
                refs[j].2.as_str(),
                refs[i].2.as_str(),
            ) {
                proof {
                    assert(all[j as int] == all[i as int]);
                    lemma_claim_refs_error_stays(*b, all, i + 1, n as int);
                }
                let mut m = concat3("duplicate ProtocolBundle ", kind, " claim '");
                m.append(artifact.as_str());
                m.append(":");
                m.append(name.as_str());
                m.append("'");
                proof {
                    assert(artifact_known(*b, all[i as int].1));
                    assert(name_error(all[i as int].2, all[i as int].0 + " claim name"@) is None);
                    assert(exists|k: int| 0 <= k < i && #[trigger] all[k] == all[i as int]);
                    assert(claim_ref_error(*b, all, i as int) == Some(m@));
                }
                return Err(CompileError::without_span(m.as_str()));
            }
            proof {
                if all[j as int] == all[i as int] {
                    assert(refs@[j as int].0@ == refs@[i as int].0@);
                }
            }
            j += 1;
        }
        i += 1;
    }
    let mut i: usize = 0;
    while i < b.policies.len()
        invariant
            i <= b.policies@.len(),
            all == claim_refs(*b),
            claim_refs_error(*b, all, all.len() as int) is None,
            policy_refs_error(*b, i as int) is None,
        decreases b.policies@.len() - i,
    {
        if !artifact_known_exec(b, &b.policies[i].artifact) {
            proof {
                lemma_policy_refs_error_stays(*b, i + 1, b.policies@.len() as int);
            }
            return Err(
                CompileError::without_span(
                    concat3("ProtocolBundle policy claim references unknown artifact '", b.policies[i].artifact.as_str(), "'").as_str(),
                ),
            );
        }
        i += 1;
    }
    Ok(())
}

} // verus!
