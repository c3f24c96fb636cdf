//! Conflicts between dependency claims and between policy claims.

use super::conflicts::{all_canonical, descs, incompatible_detail, only_if, push_conflict, push_single, single};
use super::order::{lemma_push_to_set, texts};
use super::{
    canonical_hash32, cell_dep_error, first_error, hash32_error, validate_cell_dep, ProtocolBundleConflict,
    ProtocolCellDep, ProtocolDepType, ProtocolPolicyKind, ProtocolPolicyOwnership, ResolvedProtocolBundle,
};
use crate::error::Result;
use crate::text::{concat2, concat3, decimal, decimal_string, str_eq};
use vstd::prelude::*;

verus! {

/// Two cell dependencies at the same out point with the same dependency type.
pub open spec fn cell_dep_same(a: ProtocolCellDep, b: ProtocolCellDep) -> bool {
    a.out_point.tx_hash@ == b.out_point.tx_hash@ && a.out_point.index == b.out_point.index && a.dep_type == b.dep_type
}

fn cell_dep_eq(a: &ProtocolCellDep, b: &ProtocolCellDep) -> (r: bool)
    ensures
        r == cell_dep_same(*a, *b),
{
    let same_type = match (a.dep_type, b.dep_type) {
        (ProtocolDepType::Code, ProtocolDepType::Code) => true,
        (ProtocolDepType::DepGroup, ProtocolDepType::DepGroup) => true,
        _ => false,
    };
    str_eq(a.out_point.tx_hash.as_str(), b.out_point.tx_hash.as_str()) && a.out_point.index == b.out_point.index && same_type
}

fn indexed_key(prefix: &str, index: u32) -> (r: String)
    ensures
        r@ == prefix@ + "["@ + decimal(index as nat) + "]"@,
{
    let digits = decimal_string(index as u128);
    let mut key = concat3(prefix, "[", digits.as_str());
    key.append("]");
    key
}

// ---------------------------------------------------------------------------------------------
// Cell dependencies.

/// The conflicts one cell dependency claim raises against the skeleton.
pub open spec fn cell_dep_claim_conflicts(b: ResolvedProtocolBundle, k: int) -> Set<
    (Seq<char>, Seq<char>, Seq<char>, Set<Seq<char>>, Seq<char>),
> {
    let c = b.cell_deps@[k];
    let key = "cell_deps["@ + decimal(c.index as nat) + "]"@;
    if (c.index as int) < b.transaction.cell_deps@.len() {
        only_if(
            !cell_dep_same(b.transaction.cell_deps@[c.index as int], c.cell_dep),
            single("PB203"@, "celldep-ordering"@, key, c.artifact@, "CellDep claim differs from the exact dependency at this position"@),
        )
    } else {
        set![single("PB211"@, "skeleton-binding"@, key, c.artifact@, "CellDep index is outside the transaction skeleton"@)]
    }
}

/// The first error among the first `n` cell dependency claims.
pub open spec fn cell_dep_claims_error(b: ResolvedProtocolBundle, n: int) -> Option<Seq<char>>
    decreases n,
{
    if n <= 0 {
        None
    } else {
        first_error(cell_dep_claims_error(b, n - 1), cell_dep_error(b.cell_deps@[n - 1].cell_dep, "CellDep claim"@))
    }
}

/// The conflicts the first `n` cell dependency claims raise one by one.
pub open spec fn cell_dep_claims_conflicts(b: ResolvedProtocolBundle, n: int) -> Set<
    (Seq<char>, Seq<char>, Seq<char>, Set<Seq<char>>, Seq<char>),
>
    decreases n,
{
    if n <= 0 {
        Set::empty()
    } else {
        cell_dep_claims_conflicts(b, n - 1) + cell_dep_claim_conflicts(b, n - 1)
    }
}

/// The artifacts of the cell dependency claims named `name`.
pub open spec fn cell_dep_name_artifacts(b: ResolvedProtocolBundle, name: Seq<char>) -> Set<Seq<char>> {
    Set::new(|a: Seq<char>| exists|k: int| 0 <= k < b.cell_deps@.len() && b.cell_deps@[k].name@ == name && #[trigger] b.cell_deps@[k].artifact@ == a)
}

/// The conflict of a logical cell dependency name given two positions.
pub open spec fn cell_dep_name_conflicts(b: ResolvedProtocolBundle, name: Seq<char>) -> Set<
    (Seq<char>, Seq<char>, Seq<char>, Set<Seq<char>>, Seq<char>),
> {
    only_if(
        exists|k1: int, k2: int|
            #![trigger b.cell_deps@[k1], b.cell_deps@[k2]]
            0 <= k1 < b.cell_deps@.len() && 0 <= k2 < b.cell_deps@.len() && b.cell_deps@[k1].name@ == name && b.cell_deps@[k2].name@
                == name && b.cell_deps@[k1].index != b.cell_deps@[k2].index,
        (
            "PB203"@,
            "celldep-ordering"@,
            "cell_dep:"@ + name,
            cell_dep_name_artifacts(b, name),
            "the same logical CellDep name is assigned to different positions"@,
        ),
    )
}

/// The conflicts of each name one of the first `n` cell dependency claims carries.
pub open spec fn cell_dep_names_conflicts(b: ResolvedProtocolBundle, n: int) -> Set<
    (Seq<char>, Seq<char>, Seq<char>, Set<Seq<char>>, Seq<char>),
> {
    Set::new(
        |d: (Seq<char>, Seq<char>, Seq<char>, Set<Seq<char>>, Seq<char>)|
            exists|k: int| 0 <= k < n && k < b.cell_deps@.len() && #[trigger] cell_dep_name_conflicts(b, b.cell_deps@[k].name@).contains(d),
    )
}

fn check_cell_dep_name(b: &ResolvedProtocolBundle, name: &String, conflicts: &mut Vec<ProtocolBundleConflict>)
    requires
        all_canonical(old(conflicts)@),
    ensures
        all_canonical(final(conflicts)@),
        descs(final(conflicts)@) == descs(old(conflicts)@) + cell_dep_name_conflicts(*b, name@),
{
    proof {
        reveal_strlit("PB203");
        reveal_strlit("cell_dep:");
    }
    let ghost start = descs(conflicts@);
    let n = b.cell_deps.len();
    let mut arts: Vec<String> = Vec::new();
    let mut first: Option<usize> = None;
    let mut differ = false;
    let mut k: usize = 0;
    while k < n
        invariant
            n == b.cell_deps@.len(),
            k <= n,
            forall|a: Seq<char>|
                texts(arts@).to_set().contains(a) <==> exists|j: int|
                    0 <= j < k && b.cell_deps@[j].name@ == name@ && #[trigger] b.cell_deps@[j].artifact@ == a,
            match first {
                None => forall|j: int| 0 <= j < k ==> (#[trigger] b.cell_deps@[j]).name@ != name@,
                Some(s) => s < k && b.cell_deps@[s as int].name@ == name@,
            },
            differ ==> exists|k1: int, k2: int|
                #![trigger b.cell_deps@[k1], b.cell_deps@[k2]]
                0 <= k1 < b.cell_deps@.len() && 0 <= k2 < b.cell_deps@.len() && b.cell_deps@[k1].name@ == name@
                    && b.cell_deps@[k2].name@ == name@ && b.cell_deps@[k1].index != b.cell_deps@[k2].index,
            !differ ==> (first matches Some(s) ==> forall|j: int|
                0 <= j < k && (#[trigger] b.cell_deps@[j]).name@ == name@ ==> b.cell_deps@[j].index == b.cell_deps@[s as int].index),
        decreases n - k,
    {
        if str_eq(b.cell_deps[k].name.as_str(), name.as_str()) {
            let ghost before = texts(arts@);
            arts.push(b.cell_deps[k].artifact.clone());
            proof {
                assert(texts(arts@) =~= before.push(b.cell_deps@[k as int].artifact@));
                lemma_push_to_set(before, b.cell_deps@[k as int].artifact@);
            }
            match first {
                None => {
                    first = Some(k);
                },
                Some(s) => {
                    if b.cell_deps[s].index != b.cell_deps[k].index {
                        proof {
                            assert(b.cell_deps@[s as int] == b.cell_deps@[s as int] && b.cell_deps@[k as int] == b.cell_deps@[k as int]);
                        }
                        differ = true;
                    }
                },
            }
        }
        proof {
            assert forall|a: Seq<char>|
                texts(arts@).to_set().contains(a) <==> exists|j: int|
                    0 <= j < k + 1 && b.cell_deps@[j].name@ == name@ && #[trigger] b.cell_deps@[j].artifact@ == a by {
                if exists|j: int| 0 <= j < k + 1 && b.cell_deps@[j].name@ == name@ && #[trigger] b.cell_deps@[j].artifact@ == a {
                    let j = choose|j: int| 0 <= j < k + 1 && b.cell_deps@[j].name@ == name@ && #[trigger] b.cell_deps@[j].artifact@ == a;
                    if j < k {
                        assert(exists|j: int| 0 <= j < k && b.cell_deps@[j].name@ == name@ && #[trigger] b.cell_deps@[j].artifact@ == a);
                    }
                }
            }
        }
        k += 1;
    }
    proof {
        assert(texts(arts@).to_set() =~= cell_dep_name_artifacts(*b, name@));
        if !differ {
            assert forall|k1: int, k2: int|
                #![trigger b.cell_deps@[k1], b.cell_deps@[k2]]
                0 <= k1 < b.cell_deps@.len() && 0 <= k2 < b.cell_deps@.len() && b.cell_deps@[k1].name@ == name@
                    && b.cell_deps@[k2].name@ == name@ implies b.cell_deps@[k1].index == b.cell_deps@[k2].index by {
                assert(b.cell_deps@[k1] == b.cell_deps@[k1]);
                assert(b.cell_deps@[k2] == b.cell_deps@[k2]);
            }
        }
    }
    if differ {
        push_conflict(
            conflicts,
            "PB203",
            "celldep-ordering",
            concat2("cell_dep:", name.as_str()),
            arts,
            "the same logical CellDep name is assigned to different positions",
        );
    }
    proof {
        assert(descs(conflicts@) =~= start + cell_dep_name_conflicts(*b, name@));
    }
}

/// Once an error is found among the first claims, it is the first error among more claims.
proof fn lemma_cell_dep_claims_error_stays(b: ResolvedProtocolBundle, i: int, n: int)
    requires
        0 <= i <= n,
        cell_dep_claims_error(b, i) is Some,
    ensures
        cell_dep_claims_error(b, n) == cell_dep_claims_error(b, i),
    decreases n - i,
{
    if i < n {
        lemma_cell_dep_claims_error_stays(b, i, n - 1);
    }
}

/// Checks every cell dependency claim against the skeleton and every logical name for a single
/// position, and records the conflicts. An invalid transaction hash stops the check.
pub fn detect_cell_dep_conflicts(b: &ResolvedProtocolBundle, conflicts: &mut Vec<ProtocolBundleConflict>) -> (r: Result<()>)
    requires
        all_canonical(old(conflicts)@),
    ensures
        all_canonical(final(conflicts)@),
        match cell_dep_claims_error(*b, b.cell_deps@.len() as int) {
            Some(m) => r matches Err(e) && e.message@ == m,
            None => r is Ok && descs(final(conflicts)@) == descs(old(conflicts)@) + cell_dep_claims_conflicts(
                *b,
                b.cell_deps@.len() as int,
            ) + cell_dep_names_conflicts(*b, b.cell_deps@.len() as int),
        },
{
    proof {
        reveal_strlit("PB203");
        reveal_strlit("PB211");
        reveal_strlit("cell_deps");
        reveal_strlit("CellDep claim");
    }
    let ghost start = descs(conflicts@);
    let n = b.cell_deps.len();
    let mut i: usize = 0;
    while i < n
        invariant
            n == b.cell_deps@.len(),
            i <= n,
            all_canonical(conflicts@),
            cell_dep_claims_error(*b, i as int) is None,
            descs(conflicts@) == start + cell_dep_claims_conflicts(*b, i as int),
        decreases n - i,
    {
        let c = &b.cell_deps[i];
        if let Err(e) = validate_cell_dep(&c.cell_dep, "CellDep claim") {
            proof {
                lemma_cell_dep_claims_error_stays(*b, i + 1, n as int);
            }
            return Err(e);
        }
        let key = indexed_key("cell_deps", c.index);
        proof {
            reveal_strlit("cell_deps[");
            reveal_strlit("cell_deps");
            reveal_strlit("[");
            assert(("cell_deps"@ + "["@) =~= "cell_deps["@);
            assert(key@ =~= "cell_deps["@ + decimal(c.index as nat) + "]"@);
        }
        let ghost mid = descs(conflicts@);
        if (c.index as usize) < b.transaction.cell_deps.len() {
            if !cell_dep_eq(&b.transaction.cell_deps[c.index as usize], &c.cell_dep) {
                push_single(conflicts, "PB203", "celldep-ordering", key, &c.artifact, "CellDep claim differs from the exact dependency at this position");
            }
        } else {
            push_single(conflicts, "PB211", "skeleton-binding", key, &c.artifact, "CellDep index is outside the transaction skeleton");
        }
        proof {
            assert(descs(conflicts@) =~= mid + cell_dep_claim_conflicts(*b, i as int));
            assert(descs(conflicts@) =~= start + cell_dep_claims_conflicts(*b, i + 1));
        }
        i += 1;
    }
    let ghost mid = descs(conflicts@);
    let mut i: usize = 0;
    proof {
        assert(descs(conflicts@) =~= mid + cell_dep_names_conflicts(*b, 0));
    }
    while i < n
        invariant
            n == b.cell_deps@.len(),
            i <= n,
            all_canonical(conflicts@),
            descs(conflicts@) == mid + cell_dep_names_conflicts(*b, i as int),
        decreases n - i,
    {
        check_cell_dep_name(b, &b.cell_deps[i].name, conflicts);
        proof {
            let g = cell_dep_name_conflicts(*b, b.cell_deps@[i as int].name@);
            assert(cell_dep_names_conflicts(*b, i + 1) =~= cell_dep_names_conflicts(*b, i as int) + g) by {
                assert forall|d| cell_dep_names_conflicts(*b, i + 1).contains(d) implies (cell_dep_names_conflicts(*b, i as int) + g).contains(d) by {
                    let k = choose|k: int| 0 <= k < i + 1 && k < b.cell_deps@.len() && #[trigger] cell_dep_name_conflicts(*b, b.cell_deps@[k].name@).contains(d);
                    if k < i {
                        assert(cell_dep_names_conflicts(*b, i as int).contains(d));
                    }
                }
                assert forall|d| (cell_dep_names_conflicts(*b, i as int) + g).contains(d) implies cell_dep_names_conflicts(*b, i + 1).contains(d) by {
                    if g.contains(d) {
                        assert(cell_dep_name_conflicts(*b, b.cell_deps@[i as int].name@).contains(d));
                    } else {
                        let k = choose|k: int| 0 <= k < i && k < b.cell_deps@.len() && #[trigger] cell_dep_name_conflicts(*b, b.cell_deps@[k].name@).contains(d);
                        assert(cell_dep_name_conflicts(*b, b.cell_deps@[k].name@).contains(d));
                    }
                }
            }
            assert(descs(conflicts@) =~= mid + cell_dep_names_conflicts(*b, i + 1));
        }
        i += 1;
    }
    Ok(())
}

// ---------------------------------------------------------------------------------------------
// Header dependencies.

/// The conflicts one header dependency claim raises against the skeleton.
pub open spec fn header_dep_claim_conflicts(b: ResolvedProtocolBundle, k: int) -> Set<
    (Seq<char>, Seq<char>, Seq<char>, Set<Seq<char>>, Seq<char>),
> {
    let c = b.header_deps@[k];
    let key = "header_deps["@ + decimal(c.index as nat) + "]"@;
    if (c.index as int) < b.transaction.header_deps@.len() {
        only_if(
            b.transaction.header_deps@[c.index as int]@ != c.header_hash@,
            single("PB203"@, "celldep-ordering"@, key, c.artifact@, "HeaderDep claim differs from the exact header at this position"@),
        )
    } else {
        set![single("PB211"@, "skeleton-binding"@, key, c.artifact@, "HeaderDep index is outside the transaction skeleton"@)]
    }
}

/// The first error among the first `n` header dependency claims.
pub open spec fn header_dep_claims_error(b: ResolvedProtocolBundle, n: int) -> Option<Seq<char>>
    decreases n,
{
    if n <= 0 {
        None
    } else {
        first_error(header_dep_claims_error(b, n - 1), hash32_error(b.header_deps@[n - 1].header_hash@, "HeaderDep claim"@))
    }
}

/// The conflicts the first `n` header dependency claims raise one by one.
pub open spec fn header_dep_claims_conflicts(b: ResolvedProtocolBundle, n: int) -> Set<
    (Seq<char>, Seq<char>, Seq<char>, Set<Seq<char>>, Seq<char>),
>
    decreases n,
{
    if n <= 0 {
        Set::empty()
    } else {
        header_dep_claims_conflicts(b, n - 1) + header_dep_claim_conflicts(b, n - 1)
    }
}

/// The artifacts of the header dependency claims named `name`.
pub open spec fn header_dep_name_artifacts(b: ResolvedProtocolBundle, name: Seq<char>) -> Set<Seq<char>> {
    Set::new(|a: Seq<char>| exists|k: int| 0 <= k < b.header_deps@.len() && b.header_deps@[k].name@ == name && #[trigger] b.header_deps@[k].artifact@ == a)
}

/// The conflict of a logical header dependency name given two positions.
pub open spec fn header_dep_name_conflicts(b: ResolvedProtocolBundle, name: Seq<char>) -> Set<
    (Seq<char>, Seq<char>, Seq<char>, Set<Seq<char>>, Seq<char>),
> {
    only_if(
        exists|k1: int, k2: int|
            #![trigger b.header_deps@[k1], b.header_deps@[k2]]
            0 <= k1 < b.header_deps@.len() && 0 <= k2 < b.header_deps@.len() && b.header_deps@[k1].name@ == name && b.header_deps@[k2].name@
                == name && b.header_deps@[k1].index != b.header_deps@[k2].index,
        (
            "PB203"@,
            "celldep-ordering"@,
            "header_dep:"@ + name,
            header_dep_name_artifacts(b, name),
            "the same logical HeaderDep name is assigned to different positions"@,
        ),
    )
}

/// The conflicts of each name one of the first `n` header dependency claims carries.
pub open spec fn header_dep_names_conflicts(b: ResolvedProtocolBundle, n: int) -> Set<
    (Seq<char>, Seq<char>, Seq<char>, Set<Seq<char>>, Seq<char>),
> {
    Set::new(
        |d: (Seq<char>, Seq<char>, Seq<char>, Set<Seq<char>>, Seq<char>)|
            exists|k: int| 0 <= k < n && k < b.header_deps@.len() && #[trigger] header_dep_name_conflicts(b, b.header_deps@[k].name@).contains(d),
    )
}

fn check_header_dep_name(b: &ResolvedProtocolBundle, name: &String, conflicts: &mut Vec<ProtocolBundleConflict>)
    requires
        all_canonical(old(conflicts)@),
    ensures
        all_canonical(final(conflicts)@),
        descs(final(conflicts)@) == descs(old(conflicts)@) + header_dep_name_conflicts(*b, name@),
{
    proof {
        reveal_strlit("PB203");
        reveal_strlit("header_dep:");
    }
    let ghost start = descs(conflicts@);
    let n = b.header_deps.len();
    let mut arts: Vec<String> = Vec::new();
    let mut first: Option<usize> = None;
    let mut differ = false;
    let mut k: usize = 0;
    while k < n
        invariant
            n == b.header_deps@.len(),
            k <= n,
            forall|a: Seq<char>|
                texts(arts@).to_set().contains(a) <==> exists|j: int|
                    0 <= j < k && b.header_deps@[j].name@ == name@ && #[trigger] b.header_deps@[j].artifact@ == a,
            match first {
                None => forall|j: int| 0 <= j < k ==> (#[trigger] b.header_deps@[j]).name@ != name@,
                Some(s) => s < k && b.header_deps@[s as int].name@ == name@,
            },
            differ ==> exists|k1: int, k2: int|
                #![trigger b.header_deps@[k1], b.header_deps@[k2]]
                0 <= k1 < b.header_deps@.len() && 0 <= k2 < b.header_deps@.len() && b.header_deps@[k1].name@ == name@
                    && b.header_deps@[k2].name@ == name@ && b.header_deps@[k1].index != b.header_deps@[k2].index,
            !differ ==> (first matches Some(s) ==> forall|j: int|
                0 <= j < k && (#[trigger] b.header_deps@[j]).name@ == name@ ==> b.header_deps@[j].index == b.header_deps@[s as int].index),
        decreases n - k,
    {
        if str_eq(b.header_deps[k].name.as_str(), name.as_str()) {
            let ghost before = texts(arts@);
            arts.push(b.header_deps[k].artifact.clone());
            proof {
                assert(texts(arts@) =~= before.push(b.header_deps@[k as int].artifact@));
                lemma_push_to_set(before, b.header_deps@[k as int].artifact@);
            }
            match first {
                None => {
                    first = Some(k);
                },
                Some(s) => {
                    if b.header_deps[s].index != b.header_deps[k].index {
                        proof {
                            assert(b.header_deps@[s as int] == b.header_deps@[s as int] && b.header_deps@[k as int] == b.header_deps@[k as int]);
                        }
                        differ = true;
                    }
                },
            }
        }
        proof {
            assert forall|a: Seq<char>|
                texts(arts@).to_set().contains(a) <==> exists|j: int|
                    0 <= j < k + 1 && b.header_deps@[j].name@ == name@ && #[trigger] b.header_deps@[j].artifact@ == a by {
                if exists|j: int| 0 <= j < k + 1 && b.header_deps@[j].name@ == name@ && #[trigger] b.header_deps@[j].artifact@ == a {
                    let j = choose|j: int| 0 <= j < k + 1 && b.header_deps@[j].name@ == name@ && #[trigger] b.header_deps@[j].artifact@ == a;
                    if j < k {
                        assert(exists|j: int| 0 <= j < k && b.header_deps@[j].name@ == name@ && #[trigger] b.header_deps@[j].artifact@ == a);
                    }
                }
            }
        }
        k += 1;
    }
    proof {
        assert(texts(arts@).to_set() =~= header_dep_name_artifacts(*b, name@));
        if !differ {
            assert forall|k1: int, k2: int|
                #![trigger b.header_deps@[k1], b.header_deps@[k2]]
                0 <= k1 < b.header_deps@.len() && 0 <= k2 < b.header_deps@.len() && b.header_deps@[k1].name@ == name@
                    && b.header_deps@[k2].name@ == name@ implies b.header_deps@[k1].index == b.header_deps@[k2].index by {
                assert(b.header_deps@[k1] == b.header_deps@[k1]);
                assert(b.header_deps@[k2] == b.header_deps@[k2]);
            }
        }
    }
    if differ {
        push_conflict(
            conflicts,
            "PB203",
            "celldep-ordering",
            concat2("header_dep:", name.as_str()),
            arts,
            "the same logical HeaderDep name is assigned to different positions",
        );
    }
    proof {
        assert(descs(conflicts@) =~= start + header_dep_name_conflicts(*b, name@));
    }
}

/// Once an error is found among the first claims, it is the first error among more claims.
proof fn lemma_header_dep_claims_error_stays(b: ResolvedProtocolBundle, i: int, n: int)
    requires
        0 <= i <= n,
        header_dep_claims_error(b, i) is Some,
    ensures
        header_dep_claims_error(b, n) == header_dep_claims_error(b, i),
    decreases n - i,
{
    if i < n {
        lemma_header_dep_claims_error_stays(b, i, n - 1);
    }
}

/// Checks every header dependency claim against the skeleton and every logical name for a single
/// position, and records the conflicts. An invalid header hash stops the check.
pub fn detect_header_dep_conflicts(b: &ResolvedProtocolBundle, conflicts: &mut Vec<ProtocolBundleConflict>) -> (r: Result<()>)
    requires
        all_canonical(old(conflicts)@),
    ensures
        all_canonical(final(conflicts)@),
        match header_dep_claims_error(*b, b.header_deps@.len() as int) {
            Some(m) => r matches Err(e) && e.message@ == m,
            None => r is Ok && descs(final(conflicts)@) == descs(old(conflicts)@) + header_dep_claims_conflicts(
                *b,
                b.header_deps@.len() as int,
            ) + header_dep_names_conflicts(*b, b.header_deps@.len() as int),
        },
{
    proof {
        reveal_strlit("PB203");
        reveal_strlit("PB211");
        reveal_strlit("header_deps");
        reveal_strlit("HeaderDep claim");
    }
    let ghost start = descs(conflicts@);
    let n = b.header_deps.len();
    let mut i: usize = 0;
    while i < n
        invariant
            n == b.header_deps@.len(),
            i <= n,
            all_canonical(conflicts@),
            header_dep_claims_error(*b, i as int) is None,
            descs(conflicts@) == start + header_dep_claims_conflicts(*b, i as int),
        decreases n - i,
    {
        let c = &b.header_deps[i];
        if let Err(e) = canonical_hash32(c.header_hash.as_str(), "HeaderDep claim") {
            proof {
                lemma_header_dep_claims_error_stays(*b, i + 1, n as int);
            }
            return Err(e);
        }
        let key = indexed_key("header_deps", c.index);
        proof {
            reveal_strlit("header_deps[");
            reveal_strlit("header_deps");
            reveal_strlit("[");
            assert(("header_deps"@ + "["@) =~= "header_deps["@);
            assert(key@ =~= "header_deps["@ + decimal(c.index as nat) + "]"@);
        }
        let ghost mid = descs(conflicts@);
        if (c.index as usize) < b.transaction.header_deps.len() {
            if !str_eq(b.transaction.header_deps[c.index as usize].as_str(), c.header_hash.as_str()) {
                push_single(conflicts, "PB203", "celldep-ordering", key, &c.artifact, "HeaderDep claim differs from the exact header at this position");
            }
        } else {
            push_single(conflicts, "PB211", "skeleton-binding", key, &c.artifact, "HeaderDep index is outside the transaction skeleton");
        }
        proof {
            assert(descs(conflicts@) =~= mid + header_dep_claim_conflicts(*b, i as int));
            assert(descs(conflicts@) =~= start + header_dep_claims_conflicts(*b, i + 1));
        }
        i += 1;
    }
    let ghost mid = descs(conflicts@);
    let mut i: usize = 0;
    proof {
        assert(descs(conflicts@) =~= mid + header_dep_names_conflicts(*b, 0));
    }
    while i < n
        invariant
            n == b.header_deps@.len(),
            i <= n,
            all_canonical(conflicts@),
            descs(conflicts@) == mid + header_dep_names_conflicts(*b, i as int),
        decreases n - i,
    {
        check_header_dep_name(b, &b.header_deps[i].name, conflicts);
        proof {
            let g = header_dep_name_conflicts(*b, b.header_deps@[i as int].name@);
            assert(header_dep_names_conflicts(*b, i + 1) =~= header_dep_names_conflicts(*b, i as int) + g) by {
                assert forall|d| header_dep_names_conflicts(*b, i + 1).contains(d) implies (header_dep_names_conflicts(*b, i as int) + g).contains(d) by {
                    let k = choose|k: int| 0 <= k < i + 1 && k < b.header_deps@.len() && #[trigger] header_dep_name_conflicts(*b, b.header_deps@[k].name@).contains(d);
                    if k < i {
                        assert(header_dep_names_conflicts(*b, i as int).contains(d));
                    }
                }
                assert forall|d| (header_dep_names_conflicts(*b, i as int) + g).contains(d) implies header_dep_names_conflicts(*b, i + 1).contains(d) by {
                    if g.contains(d) {
                        assert(header_dep_name_conflicts(*b, b.header_deps@[i as int].name@).contains(d));
                    } else {
                        let k = choose|k: int| 0 <= k < i && k < b.header_deps@.len() && #[trigger] header_dep_name_conflicts(*b, b.header_deps@[k].name@).contains(d);
                        assert(header_dep_name_conflicts(*b, b.header_deps@[k].name@).contains(d));
                    }
                }
            }
            assert(descs(conflicts@) =~= mid + header_dep_names_conflicts(*b, i + 1));
        }
        i += 1;
    }
    Ok(())
}

// ---------------------------------------------------------------------------------------------
// Policies.

/// The key of a policy: `fee-policy` or `change-policy`.
pub open spec fn policy_key(k: ProtocolPolicyKind) -> Seq<char> {
    match k {
        ProtocolPolicyKind::Fee => "fee-policy"@,
        ProtocolPolicyKind::Change => "change-policy"@,
    }
}

/// The policy hash the skeleton holds for a policy kind.
pub open spec fn skeleton_policy(b: ResolvedProtocolBundle, k: ProtocolPolicyKind) -> Seq<char> {
    match k {
        ProtocolPolicyKind::Fee => b.transaction.fee_policy_hash@,
        ProtocolPolicyKind::Change => b.transaction.change_policy_hash@,
    }
}

/// The first error among the first `n` policy claims.
pub open spec fn policy_claims_error(b: ResolvedProtocolBundle, n: int) -> Option<Seq<char>>
    decreases n,
{
    if n <= 0 {
        None
    } else {
        first_error(policy_claims_error(b, n - 1), hash32_error(b.policies@[n - 1].policy_hash@, "policy_hash"@))
    }
}

/// The conflict one policy claim raises against the skeleton.
pub open spec fn policy_claim_conflicts(b: ResolvedProtocolBundle, k: int) -> Set<
    (Seq<char>, Seq<char>, Seq<char>, Set<Seq<char>>, Seq<char>),
> {
    let c = b.policies@[k];
    only_if(
        c.policy_hash@ != skeleton_policy(b, c.kind),
        single("PB207"@, "fee-change"@, policy_key(c.kind), c.artifact@, "artifact policy differs from the transaction skeleton policy"@),
    )
}

/// The conflicts the first `n` policy claims raise one by one.
pub open spec fn policy_claims_conflicts(b: ResolvedProtocolBundle, n: int) -> Set<
    (Seq<char>, Seq<char>, Seq<char>, Set<Seq<char>>, Seq<char>),
>
    decreases n,
{
    if n <= 0 {
        Set::empty()
    } else {
        policy_claims_conflicts(b, n - 1) + policy_claim_conflicts(b, n - 1)
    }
}

/// The artifacts that claim a policy kind.
pub open spec fn policy_kind_artifacts(b: ResolvedProtocolBundle, kind: ProtocolPolicyKind) -> Set<Seq<char>> {
    Set::new(|a: Seq<char>| exists|k: int| 0 <= k < b.policies@.len() && b.policies@[k].kind == kind && #[trigger] b.policies@[k].artifact@ == a)
}

/// The conflicts among the claims on one policy kind: several artifacts while one of them
/// claims it exclusively, and different policy hashes.
pub open spec fn policy_kind_conflicts(b: ResolvedProtocolBundle, kind: ProtocolPolicyKind) -> Set<
    (Seq<char>, Seq<char>, Seq<char>, Set<Seq<char>>, Seq<char>),
> {
    let arts = policy_kind_artifacts(b, kind);
    only_if(
        (exists|k1: int, k2: int|
            #![trigger b.policies@[k1], b.policies@[k2]]
            0 <= k1 < b.policies@.len() && 0 <= k2 < b.policies@.len() && b.policies@[k1].kind == kind && b.policies@[k2].kind
                == kind && b.policies@[k1].artifact@ != b.policies@[k2].artifact@) && (exists|k: int|
            0 <= k < b.policies@.len() && (#[trigger] b.policies@[k]).kind == kind && b.policies@[k].ownership
                == ProtocolPolicyOwnership::Exclusive),
        ("PB207"@, "fee-change"@, policy_key(kind), arts, "an exclusive remainder policy is claimed by multiple artifacts"@),
    ) + only_if(
        exists|k1: int, k2: int|
            #![trigger b.policies@[k1], b.policies@[k2]]
            0 <= k1 < b.policies@.len() && 0 <= k2 < b.policies@.len() && b.policies@[k1].kind == kind && b.policies@[k2].kind
                == kind && b.policies@[k1].policy_hash@ != b.policies@[k2].policy_hash@,
        ("PB207"@, "fee-change"@, policy_key(kind), arts, incompatible_detail()),
    )
}

/// The conflicts among the claims on each policy kind one of the first `n` claims names.
pub open spec fn policy_kinds_conflicts(b: ResolvedProtocolBundle, n: int) -> Set<
    (Seq<char>, Seq<char>, Seq<char>, Set<Seq<char>>, Seq<char>),
> {
    Set::new(
        |d: (Seq<char>, Seq<char>, Seq<char>, Set<Seq<char>>, Seq<char>)|
            exists|k: int| 0 <= k < n && k < b.policies@.len() && #[trigger] policy_kind_conflicts(b, b.policies@[k].kind).contains(d),
    )
}

fn policy_kind_eq(x: ProtocolPolicyKind, y: ProtocolPolicyKind) -> (r: bool)
    ensures
        r == (x == y),
{
    match (x, y) {
        (ProtocolPolicyKind::Fee, ProtocolPolicyKind::Fee) => true,
        (ProtocolPolicyKind::Change, ProtocolPolicyKind::Change) => true,
        _ => false,
    }
}

fn policy_key_exec(k: ProtocolPolicyKind) -> (r: String)
    ensures
        r@ == policy_key(k),
{
    match k {
        ProtocolPolicyKind::Fee => "fee-policy".to_owned(),
        ProtocolPolicyKind::Change => "change-policy".to_owned(),
    }
}

fn check_policy_kind(b: &ResolvedProtocolBundle, kind: ProtocolPolicyKind, conflicts: &mut Vec<ProtocolBundleConflict>)
    requires
        all_canonical(old(conflicts)@),
    ensures
        all_canonical(final(conflicts)@),
        descs(final(conflicts)@) == descs(old(conflicts)@) + policy_kind_conflicts(*b, kind),
{
    proof {
        reveal_strlit("PB207");
    }
    let ghost start = descs(conflicts@);
    let n = b.policies.len();
    let mut arts: Vec<String> = Vec::new();
    let mut first: Option<usize> = None;
    let mut two_artifacts = false;
    let mut two_hashes = false;
    let mut exclusive = false;
    let mut k: usize = 0;
    while k < n
        invariant
            n == b.policies@.len(),
            k <= n,
            forall|a: Seq<char>|
                texts(arts@).to_set().contains(a) <==> exists|j: int|
                    0 <= j < k && b.policies@[j].kind == kind && #[trigger] b.policies@[j].artifact@ == a,
            match first {
                None => forall|j: int| 0 <= j < k ==> (#[trigger] b.policies@[j]).kind != kind,
                Some(s) => s < k && b.policies@[s as int].kind == kind,
            },
            two_artifacts ==> exists|k1: int, k2: int|
                #![trigger b.policies@[k1], b.policies@[k2]]
                0 <= k1 < b.policies@.len() && 0 <= k2 < b.policies@.len() && b.policies@[k1].kind == kind
                    && b.policies@[k2].kind == kind && b.policies@[k1].artifact@ != b.policies@[k2].artifact@,
            !two_artifacts ==> (first matches Some(s) ==> forall|j: int|
                0 <= j < k && (#[trigger] b.policies@[j]).kind == kind ==> b.policies@[j].artifact@ == b.policies@[s as int].artifact@),
            two_hashes ==> exists|k1: int, k2: int|
                #![trigger b.policies@[k1], b.policies@[k2]]
                0 <= k1 < b.policies@.len() && 0 <= k2 < b.policies@.len() && b.policies@[k1].kind == kind
                    && b.policies@[k2].kind == kind && b.policies@[k1].policy_hash@ != b.policies@[k2].policy_hash@,
            !two_hashes ==> (first matches Some(s) ==> forall|j: int|
                0 <= j < k && (#[trigger] b.policies@[j]).kind == kind ==> b.policies@[j].policy_hash@
                    == b.policies@[s as int].policy_hash@),
            exclusive == exists|j: int|
                0 <= j < k && (#[trigger] b.policies@[j]).kind == kind && b.policies@[j].ownership
                    == ProtocolPolicyOwnership::Exclusive,
        decreases n - k,
    {
        if policy_kind_eq(b.policies[k].kind, kind) {
            let ghost before = texts(arts@);
            arts.push(b.policies[k].artifact.clone());
            proof {
                assert(texts(arts@) =~= before.push(b.policies@[k as int].artifact@));
                lemma_push_to_set(before, b.policies@[k as int].artifact@);
            }
            if b.policies[k].ownership == ProtocolPolicyOwnership::Exclusive {
                exclusive = true;
            }
            match first {
                None => {
                    first = Some(k);
                },
                Some(s) => {
                    if !str_eq(b.policies[s].artifact.as_str(), b.policies[k].artifact.as_str()) {
                        proof {
                            assert(b.policies@[s as int] == b.policies@[s as int] && b.policies@[k as int] == b.policies@[k as int]);
                        }
                        two_artifacts = true;
                    }
                    if !str_eq(b.policies[s].policy_hash.as_str(), b.policies[k].policy_hash.as_str()) {
                        proof {
                            assert(b.policies@[s as int] == b.policies@[s as int] && b.policies@[k as int] == b.policies@[k as int]);
                        }
                        two_hashes = true;
                    }
                },
            }
        }
        proof {
            assert forall|a: Seq<char>|
                texts(arts@).to_set().contains(a) <==> exists|j: int|
                    0 <= j < k + 1 && b.policies@[j].kind == kind && #[trigger] b.policies@[j].artifact@ == a by {
                if exists|j: int| 0 <= j < k + 1 && b.policies@[j].kind == kind && #[trigger] b.policies@[j].artifact@ == a {
                    let j = choose|j: int| 0 <= j < k + 1 && b.policies@[j].kind == kind && #[trigger] b.policies@[j].artifact@ == a;
                    if j < k {
                        assert(exists|j: int| 0 <= j < k && b.policies@[j].kind == kind && #[trigger] b.policies@[j].artifact@ == a);
                    }
                }
            }
            if exclusive {
                assert(exists|j: int|
                    0 <= j < k + 1 && (#[trigger] b.policies@[j]).kind == kind && b.policies@[j].ownership
                        == ProtocolPolicyOwnership::Exclusive);
            }
        }
        k += 1;
    }
    proof {
        assert(texts(arts@).to_set() =~= policy_kind_artifacts(*b, kind));
        if !two_artifacts {
            assert forall|k1: int, k2: int|
                #![trigger b.policies@[k1], b.policies@[k2]]
                0 <= k1 < b.policies@.len() && 0 <= k2 < b.policies@.len() && b.policies@[k1].kind == kind
                    && b.policies@[k2].kind == kind implies b.policies@[k1].artifact@ == b.policies@[k2].artifact@ by {
                assert(b.policies@[k1] == b.policies@[k1]);
                assert(b.policies@[k2] == b.policies@[k2]);
            }
        }
        if !two_hashes {
            assert forall|k1: int, k2: int|
                #![trigger b.policies@[k1], b.policies@[k2]]
                0 <= k1 < b.policies@.len() && 0 <= k2 < b.policies@.len() && b.policies@[k1].kind == kind
                    && b.policies@[k2].kind == kind implies b.policies@[k1].policy_hash@ == b.policies@[k2].policy_hash@ by {
                assert(b.policies@[k1] == b.policies@[k1]);
                assert(b.policies@[k2] == b.policies@[k2]);
            }
        }
    }
    let arts2 = copy_texts(&arts);
    if two_artifacts && exclusive {
        push_conflict(conflicts, "PB207", "fee-change", policy_key_exec(kind), arts, "an exclusive remainder policy is claimed by multiple artifacts");
    }
    if two_hashes {
        push_conflict(conflicts, "PB207", "fee-change", policy_key_exec(kind), arts2, "artifacts declare incompatible values for the same transaction role");
    }
    proof {
        assert(descs(conflicts@) =~= start + policy_kind_conflicts(*b, kind));
    }
}

fn copy_texts(v: &Vec<String>) -> (r: Vec<String>)
    ensures
        texts(r@) == texts(v@),
{
    let mut out: Vec<String> = Vec::new();
    let mut i: usize = 0;
    while i < v.len()
        invariant
            i <= v@.len(),
            texts(out@) == texts(v@).take(i as int),
        decreases v@.len() - i,
    {
        let ghost before = out@;
        out.push(v[i].clone());
        proof {
            assert(texts(out@) =~= texts(before).push(v@[i as int]@));
            assert(texts(v@).take(i + 1) =~= texts(v@).take(i as int).push(texts(v@)[i as int]));
        }
        i += 1;
    }
    proof {
        assert(texts(v@).take(v@.len() as int) =~= texts(v@));
    }
    out
}

/// Once an error is found among the first claims, it is the first error among more claims.
proof fn lemma_policy_claims_error_stays(b: ResolvedProtocolBundle, i: int, n: int)
    requires
        0 <= i <= n,
        policy_claims_error(b, i) is Some,
    ensures
        policy_claims_error(b, n) == policy_claims_error(b, i),
    decreases n - i,
{
    if i < n {
        lemma_policy_claims_error_stays(b, i, n - 1);
    }
}

/// Checks every policy claim against the skeleton's fee and change policies and the claims on
/// each policy against each other, and records the conflicts. An invalid policy hash stops the
/// check.
pub fn detect_policy_conflicts(b: &ResolvedProtocolBundle, conflicts: &mut Vec<ProtocolBundleConflict>) -> (r: Result<()>)
    requires
        all_canonical(old(conflicts)@),
    ensures
        all_canonical(final(conflicts)@),
        match policy_claims_error(*b, b.policies@.len() as int) {
            Some(m) => r matches Err(e) && e.message@ == m,
            None => r is Ok && descs(final(conflicts)@) == descs(old(conflicts)@) + policy_claims_conflicts(
                *b,
                b.policies@.len() as int,
            ) + policy_kinds_conflicts(*b, b.policies@.len() as int),
        },
{
    proof {
        reveal_strlit("PB207");
        reveal_strlit("policy_hash");
    }
    let ghost start = descs(conflicts@);
    let n = b.policies.len();
    let mut i: usize = 0;
    while i < n
        invariant
            n == b.policies@.len(),
            i <= n,
            all_canonical(conflicts@),
            policy_claims_error(*b, i as int) is None,
            descs(conflicts@) == start + policy_claims_conflicts(*b, i as int),
        decreases n - i,
    {
        let c = &b.policies[i];
        if let Err(e) = canonical_hash32(c.policy_hash.as_str(), "policy_hash") {
            proof {
                lemma_policy_claims_error_stays(*b, i + 1, n as int);
            }
            return Err(e);
        }
        let expected = match c.kind {
            ProtocolPolicyKind::Fee => &b.transaction.fee_policy_hash,
            ProtocolPolicyKind::Change => &b.transaction.change_policy_hash,
        };
        let ghost mid = descs(conflicts@);
        if !str_eq(c.policy_hash.as_str(), expected.as_str()) {
            push_single(conflicts, "PB207", "fee-change", policy_key_exec(c.kind), &c.artifact, "artifact policy differs from the transaction skeleton policy");
        }
        proof {
            assert(descs(conflicts@) =~= mid + policy_claim_conflicts(*b, i as int));
            assert(descs(conflicts@) =~= start + policy_claims_conflicts(*b, i + 1));
        }
        i += 1;
    }
    let ghost mid = descs(conflicts@);
    let mut i: usize = 0;
    proof {
        assert(descs(conflicts@) =~= mid + policy_kinds_conflicts(*b, 0));
    }
    while i < n
        invariant
            n == b.policies@.len(),
            i <= n,
            all_canonical(conflicts@),
            descs(conflicts@) == mid + policy_kinds_conflicts(*b, i as int),
        decreases n - i,
    {
        check_policy_kind(b, b.policies[i].kind, conflicts);
        proof {
            let g = policy_kind_conflicts(*b, b.policies@[i as int].kind);
            assert(policy_kinds_conflicts(*b, i + 1) =~= policy_kinds_conflicts(*b, i as int) + g) by {
                assert forall|d| policy_kinds_conflicts(*b, i + 1).contains(d) implies (policy_kinds_conflicts(*b, i as int) + g).contains(d) by {
                    let k = choose|k: int| 0 <= k < i + 1 && k < b.policies@.len() && #[trigger] policy_kind_conflicts(*b, b.policies@[k].kind).contains(d);
                    if k < i {
                        assert(policy_kinds_conflicts(*b, i as int).contains(d));
                    }
                }
                assert forall|d| (policy_kinds_conflicts(*b, i as int) + g).contains(d) implies policy_kinds_conflicts(*b, i + 1).contains(d) by {
                    if g.contains(d) {
                        assert(policy_kind_conflicts(*b, b.policies@[i as int].kind).contains(d));
                    } else {
                        let k = choose|k: int| 0 <= k < i && k < b.policies@.len() && #[trigger] policy_kind_conflicts(*b, b.policies@[k].kind).contains(d);
                        assert(policy_kind_conflicts(*b, b.policies@[k].kind).contains(d));
                    }
                }
            }
            assert(descs(conflicts@) =~= mid + policy_kinds_conflicts(*b, i + 1));
        }
        i += 1;
    }
    Ok(())
}

} // verus!
