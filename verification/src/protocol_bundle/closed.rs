//! Resolving closed roles: each declared participant becomes the admitted artifact it names,
//! bound to exactly one physical claim.

use super::order::{chars_lt, lemma_chars_lt_order, compare_text};
use super::{
    canonical_raw_hash32, first_error, name_error, raw_hash32_error, reports, validate_name, ProtocolArtifactIdentity,
    ProtocolCellLocation, ProtocolClosedRoleBinding, ProtocolClosedRoleKind, ProtocolClosedRoleParticipant,
    ProtocolClosedRoleSource, ProtocolPhysicalRoleRef, ProtocolRoleBinding, ProtocolRoleLocality, ProtocolRoleSchemaIdentity,
    ProtocolWitnessClaim, ResolvedProtocolClosedRoleBinding, PROTOCOL_CLOSED_ROLE_SCHEMA,
};
use super::skeleton::{bounded_count, count_error};
use crate::error::{CompileError, Result};
use crate::script_handle::{copy_deployment, copy_entry, ExactScriptHandleValue};
use crate::text::{concat2, concat3, str_eq};
use vstd::prelude::*;

verus! {

/// How many participants a closed role may have besides its provider.
pub const MAX_CLOSED_ROLE_CONSUMERS: usize = 63;

/// The single claim of `artifact` named `name` among `claims`, if there is exactly one.
pub open spec fn unique_role_claim(roles: Seq<ProtocolRoleBinding>, artifact: Seq<char>, name: Seq<char>) -> Option<int> {
    if exists|k: int|
        0 <= k < roles.len() && #[trigger] roles[k].artifact@ == artifact && roles[k].name@ == name && forall|j: int|
            0 <= j < roles.len() && #[trigger] roles[j].artifact@ == artifact && roles[j].name@ == name ==> j == k {
        Some(choose|k: int|
            0 <= k < roles.len() && #[trigger] roles[k].artifact@ == artifact && roles[k].name@ == name && forall|j: int|
                0 <= j < roles.len() && #[trigger] roles[j].artifact@ == artifact && roles[j].name@ == name ==> j == k)
    } else {
        None
    }
}

/// The single witness claim of `artifact` named `name`, if there is exactly one.
pub open spec fn unique_witness_claim(ws: Seq<ProtocolWitnessClaim>, artifact: Seq<char>, name: Seq<char>) -> Option<int> {
    if exists|k: int|
        0 <= k < ws.len() && #[trigger] ws[k].artifact@ == artifact && ws[k].name@ == name && forall|j: int|
            0 <= j < ws.len() && #[trigger] ws[j].artifact@ == artifact && ws[j].name@ == name ==> j == k {
        Some(choose|k: int|
            0 <= k < ws.len() && #[trigger] ws[k].artifact@ == artifact && ws[k].name@ == name && forall|j: int|
                0 <= j < ws.len() && #[trigger] ws[j].artifact@ == artifact && ws[j].name@ == name ==> j == k)
    } else {
        None
    }
}

/// The first admitted artifact with id `id`, if any.
pub open spec fn first_artifact(artifacts: Seq<ProtocolArtifactIdentity>, id: Seq<char>) -> Option<int> {
    if exists|k: int| 0 <= k < artifacts.len() && #[trigger] artifacts[k].id@ == id {
        Some(choose|k: int|
            0 <= k < artifacts.len() && #[trigger] artifacts[k].id@ == id && forall|j: int| 0 <= j < k ==> #[trigger] artifacts[j].id@ != id)
    } else {
        None
    }
}

/// The error resolving one participant reports, if any.
pub open spec fn participant_error(
    reference: ProtocolPhysicalRoleRef,
    kind: ProtocolClosedRoleKind,
    artifacts: Seq<ProtocolArtifactIdentity>,
    roles: Seq<ProtocolRoleBinding>,
    witnesses: Seq<ProtocolWitnessClaim>,
    role_id: Seq<char>,
) -> Option<Seq<char>> {
    let a = reference.artifact@;
    let c = reference.claim@;
    if let Some(m) = first_error(
        name_error(a, "closed role participant artifact"@),
        name_error(c, "closed role participant claim"@),
    ) {
        Some(m)
    } else if first_artifact(artifacts, a) is None {
        Some("ProtocolBundle closed role '"@ + role_id + "' references unknown artifact '"@ + a + "'"@)
    } else if kind == ProtocolClosedRoleKind::Cell && unique_role_claim(roles, a, c) is None {
        Some("ProtocolBundle closed role '"@ + role_id + "' requires exactly one cell claim '"@ + a + ":"@ + c + "'"@)
    } else if kind == ProtocolClosedRoleKind::Witness && unique_witness_claim(witnesses, a, c) is None {
        Some("ProtocolBundle closed role '"@ + role_id + "' requires exactly one witness claim '"@ + a + ":"@ + c + "'"@)
    } else {
        None
    }
}

/// `p` is artifact `a` taking part through its claim named `claim`.
pub open spec fn participant_of(p: ProtocolClosedRoleParticipant, a: ProtocolArtifactIdentity, claim: Seq<char>) -> bool {
    &&& p.artifact@ == a.id@
    &&& p.package_coordinate@ == a.package_coordinate@
    &&& p.entry == a.entry
    &&& p.script_role == a.script_role
    &&& p.claim@ == claim
    &&& p.interface_hash@ == a.interface_hash@
    &&& p.artifact_hash@ == a.artifact_hash@
    &&& p.deployment == a.deployment
    &&& p.exact_handle == a.exact_handle
    &&& p.exact_handle_hash@ == a.exact_handle_hash@
}

/// The physical slot the participant's claim names.
pub open spec fn participant_source(
    reference: ProtocolPhysicalRoleRef,
    kind: ProtocolClosedRoleKind,
    roles: Seq<ProtocolRoleBinding>,
    witnesses: Seq<ProtocolWitnessClaim>,
) -> ProtocolClosedRoleSource {
    match kind {
        ProtocolClosedRoleKind::Cell => {
            let k = unique_role_claim(roles, reference.artifact@, reference.claim@)->0;
            ProtocolClosedRoleSource::Cell { location: roles[k].location, index: roles[k].index }
        },
        ProtocolClosedRoleKind::Witness => {
            let k = unique_witness_claim(witnesses, reference.artifact@, reference.claim@)->0;
            ProtocolClosedRoleSource::Witness { index: witnesses[k].index, field: witnesses[k].field }
        },
    }
}

fn copy_handle(v: &ExactScriptHandleValue) -> (r: ExactScriptHandleValue)
    ensures
        r == *v,
{
    ExactScriptHandleValue {
        schema: v.schema.clone(),
        version: v.version,
        encoding: v.encoding.clone(),
        encoded: v.encoded.clone(),
    }
}

fn find_artifact(artifacts: &[ProtocolArtifactIdentity], id: &str) -> (r: Option<usize>)
    ensures
        r is None <==> first_artifact(artifacts@, id@) is None,
        r matches Some(k) ==> k < artifacts@.len() && first_artifact(artifacts@, id@) == Some(k as int) && artifacts@[k as int].id@
            == id@,
{
    let mut k: usize = 0;
    while k < artifacts.len()
        invariant
            k <= artifacts@.len(),
            forall|j: int| 0 <= j < k ==> #[trigger] artifacts@[j].id@ != id@,
        decreases artifacts@.len() - k,
    {
        if str_eq(artifacts[k].id.as_str(), id) {
            proof {
                let c = choose|c: int|
                    0 <= c < artifacts@.len() && #[trigger] artifacts@[c].id@ == id@ && forall|j: int|
                        0 <= j < c ==> #[trigger] artifacts@[j].id@ != id@;
                if c > k {
                    assert(artifacts@[k as int].id@ == id@);
                }
            }
            return Some(k);
        }
        k += 1;
    }
    None
}

fn find_unique_role(roles: &[ProtocolRoleBinding], artifact: &str, name: &str) -> (r: Option<usize>)
    ensures
        r is None <==> unique_role_claim(roles@, artifact@, name@) is None,
        r matches Some(k) ==> k < roles@.len() && unique_role_claim(roles@, artifact@, name@) == Some(k as int),
{
    let mut found: Option<usize> = None;
    let mut k: usize = 0;
    while k < roles.len()
        invariant
            k <= roles@.len(),
            match found {
                None => forall|j: int| 0 <= j < k ==> !(#[trigger] roles@[j].artifact@ == artifact@ && roles@[j].name@ == name@),
                Some(f) => f < k && roles@[f as int].artifact@ == artifact@ && roles@[f as int].name@ == name@ && forall|j: int|
                    0 <= j < k && #[trigger] roles@[j].artifact@ == artifact@ && roles@[j].name@ == name@ ==> j == f,
            },
        decreases roles@.len() - k,
    {
        if str_eq(roles[k].artifact.as_str(), artifact) && str_eq(roles[k].name.as_str(), name) {
            match found {
                Some(f) => {
                    proof {
                        if unique_role_claim(roles@, artifact@, name@) is Some {
                            let c = choose|c: int|
                                0 <= c < roles@.len() && #[trigger] roles@[c].artifact@ == artifact@ && roles@[c].name@ == name@
                                    && forall|j: int|
                                    0 <= j < roles@.len() && #[trigger] roles@[j].artifact@ == artifact@ && roles@[j].name@ == name@
                                        ==> j == c;
                            assert(roles@[f as int].artifact@ == artifact@);
                            assert(roles@[k as int].artifact@ == artifact@);
                        }
                    }
                    return None;
                },
                None => {
                    found = Some(k);
                },
            }
        }
        k += 1;
    }
    proof {
        match found {
            Some(f) => {
                assert(roles@[f as int].artifact@ == artifact@);
                let c = choose|c: int|
                    0 <= c < roles@.len() && #[trigger] roles@[c].artifact@ == artifact@ && roles@[c].name@ == name@ && forall|j: int|
                        0 <= j < roles@.len() && #[trigger] roles@[j].artifact@ == artifact@ && roles@[j].name@ == name@ ==> j == c;
                assert(roles@[c].artifact@ == artifact@);
            },
            None => {
                if unique_role_claim(roles@, artifact@, name@) is Some {
                    let c = choose|c: int|
                        0 <= c < roles@.len() && #[trigger] roles@[c].artifact@ == artifact@ && roles@[c].name@ == name@ && forall|j: int|
                            0 <= j < roles@.len() && #[trigger] roles@[j].artifact@ == artifact@ && roles@[j].name@ == name@ ==> j == c;
                    assert(roles@[c].artifact@ == artifact@);
                }
            },
        }
    }
    found
}

fn find_unique_witness(ws: &[ProtocolWitnessClaim], artifact: &str, name: &str) -> (r: Option<usize>)
    ensures
        r is None <==> unique_witness_claim(ws@, artifact@, name@) is None,
        r matches Some(k) ==> k < ws@.len() && unique_witness_claim(ws@, artifact@, name@) == Some(k as int),
{
    let mut found: Option<usize> = None;
    let mut k: usize = 0;
    while k < ws.len()
        invariant
            k <= ws@.len(),
            match found {
                None => forall|j: int| 0 <= j < k ==> !(#[trigger] ws@[j].artifact@ == artifact@ && ws@[j].name@ == name@),
                Some(f) => f < k && ws@[f as int].artifact@ == artifact@ && ws@[f as int].name@ == name@ && forall|j: int|
                    0 <= j < k && #[trigger] ws@[j].artifact@ == artifact@ && ws@[j].name@ == name@ ==> j == f,
            },
        decreases ws@.len() - k,
    {
        if str_eq(ws[k].artifact.as_str(), artifact) && str_eq(ws[k].name.as_str(), name) {
            match found {
                Some(f) => {
                    proof {
                        if unique_witness_claim(ws@, artifact@, name@) is Some {
                            let c = choose|c: int|
                                0 <= c < ws@.len() && #[trigger] ws@[c].artifact@ == artifact@ && ws@[c].name@ == name@ && forall|j: int|
                                    0 <= j < ws@.len() && #[trigger] ws@[j].artifact@ == artifact@ && ws@[j].name@ == name@ ==> j == c;
                            assert(ws@[f as int].artifact@ == artifact@);
                            assert(ws@[k as int].artifact@ == artifact@);
                        }
                    }
                    return None;
                },
                None => {
                    found = Some(k);
                },
            }
        }
        k += 1;
    }
    proof {
        match found {
            Some(f) => {
                assert(ws@[f as int].artifact@ == artifact@);
                let c = choose|c: int|
                    0 <= c < ws@.len() && #[trigger] ws@[c].artifact@ == artifact@ && ws@[c].name@ == name@ && forall|j: int|
                        0 <= j < ws@.len() && #[trigger] ws@[j].artifact@ == artifact@ && ws@[j].name@ == name@ ==> j == c;
                assert(ws@[c].artifact@ == artifact@);
            },
            None => {
                if unique_witness_claim(ws@, artifact@, name@) is Some {
                    let c = choose|c: int|
                        0 <= c < ws@.len() && #[trigger] ws@[c].artifact@ == artifact@ && ws@[c].name@ == name@ && forall|j: int|
                            0 <= j < ws@.len() && #[trigger] ws@[j].artifact@ == artifact@ && ws@[j].name@ == name@ ==> j == c;
                    assert(ws@[c].artifact@ == artifact@);
                }
            },
        }
    }
    found
}

/// Resolves one participant of a closed role to its admitted artifact and physical slot.
pub fn resolve_closed_role_participant(
    reference: &ProtocolPhysicalRoleRef,
    kind: ProtocolClosedRoleKind,
    artifacts: &[ProtocolArtifactIdentity],
    roles: &[ProtocolRoleBinding],
    witnesses: &[ProtocolWitnessClaim],
    role_id: &str,
) -> (r: Result<(ProtocolClosedRoleParticipant, ProtocolClosedRoleSource)>)
    ensures
        match participant_error(*reference, kind, artifacts@, roles@, witnesses@, role_id@) {
            Some(m) => r matches Err(e) && e.message@ == m,
            None => r matches Ok((p, s)) && participant_of(
                p,
                artifacts@[first_artifact(artifacts@, reference.artifact@)->0],
                reference.claim@,
            ) && p.artifact@ == reference.artifact@ && s == participant_source(*reference, kind, roles@, witnesses@),
        },
{
    proof {
        reveal_strlit("ProtocolBundle closed role '");
        reveal_strlit("' references unknown artifact '");
        reveal_strlit("' requires exactly one cell claim '");
        reveal_strlit("' requires exactly one witness claim '");
        reveal_strlit(":");
        reveal_strlit("'");
    }
    if let Err(e) = validate_name(reference.artifact.as_str(), "closed role participant artifact") {
        return Err(e);
    }
    if let Err(e) = validate_name(reference.claim.as_str(), "closed role participant claim") {
        return Err(e);
    }
    let ai = match find_artifact(artifacts, reference.artifact.as_str()) {
        Some(ai) => ai,
        None => {
            let mut m = concat3("ProtocolBundle closed role '", role_id, "' references unknown artifact '");
            m.append(reference.artifact.as_str());
            m.append("'");
            return Err(CompileError::without_span(m.as_str()));
        },
    };
    let source = match kind {
        ProtocolClosedRoleKind::Cell => match find_unique_role(roles, reference.artifact.as_str(), reference.claim.as_str()) {
            Some(k) => ProtocolClosedRoleSource::Cell { location: roles[k].location, index: roles[k].index },
            None => {
                let mut m = concat3("ProtocolBundle closed role '", role_id, "' requires exactly one cell claim '");
                m.append(reference.artifact.as_str());
                m.append(":");
                m.append(reference.claim.as_str());
                m.append("'");
                return Err(CompileError::without_span(m.as_str()));
            },
        },
        ProtocolClosedRoleKind::Witness => match find_unique_witness(witnesses, reference.artifact.as_str(), reference.claim.as_str()) {
            Some(k) => ProtocolClosedRoleSource::Witness { index: witnesses[k].index, field: witnesses[k].field },
            None => {
                let mut m = concat3("ProtocolBundle closed role '", role_id, "' requires exactly one witness claim '");
                m.append(reference.artifact.as_str());
                m.append(":");
                m.append(reference.claim.as_str());
                m.append("'");
                return Err(CompileError::without_span(m.as_str()));
            },
        },
    };
    let a = &artifacts[ai];
    let participant = ProtocolClosedRoleParticipant {
        artifact: a.id.clone(),
        package_coordinate: a.package_coordinate.clone(),
        entry: copy_entry(&a.entry),
        script_role: a.script_role,
        claim: reference.claim.clone(),
        interface_hash: a.interface_hash.clone(),
        artifact_hash: a.artifact_hash.clone(),
        deployment: copy_deployment(&a.deployment),
        exact_handle: copy_handle(&a.exact_handle),
        exact_handle_hash: a.exact_handle_hash.clone(),
    };
    Ok((participant, source))
}


/// The participants sorted by artifact, strictly.
pub open spec fn by_artifact(ps: Seq<ProtocolClosedRoleParticipant>) -> bool {
    forall|i: int, j: int| 0 <= i < j < ps.len() ==> chars_lt(#[trigger] ps[i].artifact@, #[trigger] ps[j].artifact@)
}

/// The resolved roles sorted by id, strictly.
pub open spec fn by_role_id(rs: Seq<ResolvedProtocolClosedRoleBinding>) -> bool {
    forall|i: int, j: int| 0 <= i < j < rs.len() ==> chars_lt(#[trigger] rs[i].role_id@, #[trigger] rs[j].role_id@)
}

/// Adds a participant whose artifact none of the sorted participants has.
fn insert_participant(out: &mut Vec<ProtocolClosedRoleParticipant>, p: ProtocolClosedRoleParticipant)
    requires
        by_artifact(old(out)@),
        forall|k: int| 0 <= k < old(out)@.len() ==> (#[trigger] old(out)@[k]).artifact@ != p.artifact@,
    ensures
        by_artifact(final(out)@),
        final(out)@.len() == old(out)@.len() + 1,
        forall|x: ProtocolClosedRoleParticipant| #[trigger] final(out)@.contains(x) <==> old(out)@.contains(x) || x == p,
{
    let ghost before = out@;
    let mut k: usize = 0;
    while k < out.len()
        invariant
            out@ == before,
            by_artifact(before),
            k <= out@.len(),
            forall|j: int| 0 <= j < k ==> chars_lt(#[trigger] before[j].artifact@, p.artifact@),
            forall|j: int| 0 <= j < before.len() ==> (#[trigger] before[j]).artifact@ != p.artifact@,
        ensures
            k <= out@.len(),
            forall|j: int| 0 <= j < k ==> chars_lt(#[trigger] before[j].artifact@, p.artifact@),
            k < out@.len() ==> chars_lt(p.artifact@, before[k as int].artifact@),
        decreases out@.len() - k,
    {
        if compare_text(out[k].artifact.as_str(), p.artifact.as_str()) == 1 {
            break;
        }
        proof {
            lemma_chars_lt_order(before[k as int].artifact@, p.artifact@, p.artifact@);
        }
        k += 1;
    }
    let ghost pv = p;
    out.insert(k, p);
    proof {
        let after = out@;
        assert(after =~= before.insert(k as int, pv));
        assert forall|i: int, j: int| 0 <= i < j < after.len() implies chars_lt(#[trigger] after[i].artifact@, #[trigger] after[j].artifact@) by {
            if i < k && j < k {
                assert(after[i] == before[i] && after[j] == before[j]);
            } else if i < k && j == k {
                assert(after[i] == before[i] && after[j] == pv);
            } else if i < k && j > k {
                assert(after[i] == before[i] && after[j] == before[j - 1]);
            } else if i == k {
                assert(after[i] == pv && after[j] == before[j - 1]);
                if j - 1 > k {
                    assert(chars_lt(before[k as int].artifact@, before[j - 1].artifact@));
                    lemma_chars_lt_order(pv.artifact@, before[k as int].artifact@, before[j - 1].artifact@);
                }
            } else {
                assert(after[i] == before[i - 1] && after[j] == before[j - 1]);
            }
        }
        assert forall|x: ProtocolClosedRoleParticipant| #[trigger] after.contains(x) <==> before.contains(x) || x == pv by {
            if after.contains(x) {
                let m = choose|m: int| 0 <= m < after.len() && after[m] == x;
                if m < k {
                    assert(before[m] == x);
                } else if m > k {
                    assert(before[m - 1] == x);
                }
            }
            if before.contains(x) {
                let m = choose|m: int| 0 <= m < before.len() && before[m] == x;
                if m < k {
                    assert(after[m] == x);
                } else {
                    assert(after[m + 1] == x);
                }
            }
            if x == pv {
                assert(after[k as int] == x);
            }
        }
    }
}

/// Adds a resolved role whose id none of the sorted roles has.
fn insert_resolved(out: &mut Vec<ResolvedProtocolClosedRoleBinding>, r: ResolvedProtocolClosedRoleBinding)
    requires
        by_role_id(old(out)@),
        forall|k: int| 0 <= k < old(out)@.len() ==> (#[trigger] old(out)@[k]).role_id@ != r.role_id@,
    ensures
        by_role_id(final(out)@),
        final(out)@.len() == old(out)@.len() + 1,
        forall|x: ResolvedProtocolClosedRoleBinding| #[trigger] final(out)@.contains(x) <==> old(out)@.contains(x) || x == r,
{
    let ghost before = out@;
    let mut k: usize = 0;
    while k < out.len()
        invariant
            out@ == before,
            by_role_id(before),
            k <= out@.len(),
            forall|j: int| 0 <= j < k ==> chars_lt(#[trigger] before[j].role_id@, r.role_id@),
            forall|j: int| 0 <= j < before.len() ==> (#[trigger] before[j]).role_id@ != r.role_id@,
        ensures
            k <= out@.len(),
            forall|j: int| 0 <= j < k ==> chars_lt(#[trigger] before[j].role_id@, r.role_id@),
            k < out@.len() ==> chars_lt(r.role_id@, before[k as int].role_id@),
        decreases out@.len() - k,
    {
        if compare_text(out[k].role_id.as_str(), r.role_id.as_str()) == 1 {
            break;
        }
        proof {
            lemma_chars_lt_order(before[k as int].role_id@, r.role_id@, r.role_id@);
        }
        k += 1;
    }
    let ghost rv = r;
    out.insert(k, r);
    proof {
        let after = out@;
        assert(after =~= before.insert(k as int, rv));
        assert forall|i: int, j: int| 0 <= i < j < after.len() implies chars_lt(#[trigger] after[i].role_id@, #[trigger] after[j].role_id@) by {
            if i < k && j < k {
                assert(after[i] == before[i] && after[j] == before[j]);
            } else if i < k && j == k {
                assert(after[i] == before[i] && after[j] == rv);
            } else if i < k && j > k {
                assert(after[i] == before[i] && after[j] == before[j - 1]);
            } else if i == k {
                assert(after[i] == rv && after[j] == before[j - 1]);
                if j - 1 > k {
                    assert(chars_lt(before[k as int].role_id@, before[j - 1].role_id@));
                    lemma_chars_lt_order(rv.role_id@, before[k as int].role_id@, before[j - 1].role_id@);
                }
            } else {
                assert(after[i] == before[i - 1] && after[j] == before[j - 1]);
            }
        }
        assert forall|x: ResolvedProtocolClosedRoleBinding| #[trigger] after.contains(x) <==> before.contains(x) || x == rv by {
            if after.contains(x) {
                let m = choose|m: int| 0 <= m < after.len() && after[m] == x;
                if m < k {
                    assert(before[m] == x);
                } else if m > k {
                    assert(before[m - 1] == x);
                }
            }
            if before.contains(x) {
                let m = choose|m: int| 0 <= m < before.len() && before[m] == x;
                if m < k {
                    assert(after[m] == x);
                } else {
                    assert(after[m + 1] == x);
                }
            }
            if x == rv {
                assert(after[k as int] == x);
            }
        }
    }
}


/// Consumer `k` repeats the provider's artifact or an earlier consumer's.
pub open spec fn repeats_artifact(d: ProtocolClosedRoleBinding, k: int) -> bool {
    d.consumers@[k].artifact@ == d.provider.artifact@ || exists|j: int|
        0 <= j < k && #[trigger] d.consumers@[j].artifact@ == d.consumers@[k].artifact@
}

/// The error resolving consumer `k` of a closed role reports, if any.
pub open spec fn consumer_error(
    d: ProtocolClosedRoleBinding,
    k: int,
    artifacts: Seq<ProtocolArtifactIdentity>,
    roles: Seq<ProtocolRoleBinding>,
    witnesses: Seq<ProtocolWitnessClaim>,
) -> Option<Seq<char>> {
    if repeats_artifact(d, k) {
        Some("ProtocolBundle closed role '"@ + d.role_id@ + "' repeats participant artifact '"@ + d.consumers@[k].artifact@ + "'"@)
    } else {
        participant_error(d.consumers@[k], d.kind, artifacts, roles, witnesses, d.role_id@)
    }
}

/// The first error among the first `n` consumers of a closed role.
pub open spec fn consumers_error(
    d: ProtocolClosedRoleBinding,
    n: int,
    artifacts: Seq<ProtocolArtifactIdentity>,
    roles: Seq<ProtocolRoleBinding>,
    witnesses: Seq<ProtocolWitnessClaim>,
) -> Option<Seq<char>>
    decreases n,
{
    if n <= 0 {
        None
    } else {
        first_error(consumers_error(d, n - 1, artifacts, roles, witnesses), consumer_error(d, n - 1, artifacts, roles, witnesses))
    }
}

/// The error the checks of closed role `i` that precede its participants report, if any.
pub open spec fn header_error(bindings: Seq<ProtocolClosedRoleBinding>, i: int) -> Option<Seq<char>> {
    let d = bindings[i];
    let id = d.role_id@;
    if d.schema@ != PROTOCOL_CLOSED_ROLE_SCHEMA@ {
        Some("unsupported ProtocolBundle closed role schema '"@ + d.schema@ + "'; expected '"@ + PROTOCOL_CLOSED_ROLE_SCHEMA@ + "'"@)
    } else if let Some(m) = first_error(
        name_error(id, "closed role id"@),
        first_error(
            name_error(d.schema_identity.molecule_type@, "closed role schema molecule type"@),
            raw_hash32_error(d.schema_identity.schema_hash@, "closed role schema_hash"@),
        ),
    ) {
        Some(m)
    } else if exists|j: int| 0 <= j < i && #[trigger] bindings[j].role_id@ == id {
        Some("duplicate ProtocolBundle closed role id '"@ + id + "'"@)
    } else if d.consumers@.len() == 0 {
        Some("ProtocolBundle closed role '"@ + id + "' requires at least one consumer"@)
    } else {
        count_error("closed role '"@ + id + "' consumers"@, d.consumers@.len(), MAX_CLOSED_ROLE_CONSUMERS as nat)
    }
}

/// The first error resolving closed role `i` reports, if any.
pub open spec fn binding_error(
    bindings: Seq<ProtocolClosedRoleBinding>,
    i: int,
    artifacts: Seq<ProtocolArtifactIdentity>,
    roles: Seq<ProtocolRoleBinding>,
    witnesses: Seq<ProtocolWitnessClaim>,
) -> Option<Seq<char>> {
    let d = bindings[i];
    if let Some(m) = header_error(bindings, i) {
        Some(m)
    } else {
        first_error(
            participant_error(d.provider, d.kind, artifacts, roles, witnesses, d.role_id@),
            consumers_error(d, d.consumers@.len() as int, artifacts, roles, witnesses),
        )
    }
}

/// The first error among the first `n` closed roles.
pub open spec fn bindings_error(
    bindings: Seq<ProtocolClosedRoleBinding>,
    n: int,
    artifacts: Seq<ProtocolArtifactIdentity>,
    roles: Seq<ProtocolRoleBinding>,
    witnesses: Seq<ProtocolWitnessClaim>,
) -> Option<Seq<char>>
    decreases n,
{
    if n <= 0 {
        None
    } else {
        first_error(
            bindings_error(bindings, n - 1, artifacts, roles, witnesses),
            binding_error(bindings, n - 1, artifacts, roles, witnesses),
        )
    }
}

/// The artifact a participant reference resolves to.
pub open spec fn referenced(artifacts: Seq<ProtocolArtifactIdentity>, r: ProtocolPhysicalRoleRef) -> ProtocolArtifactIdentity {
    artifacts[first_artifact(artifacts, r.artifact@)->0]
}

/// Each of the first `n` declared consumers of `d` is among `cs` as the artifact it names.
#[verifier::opaque]
pub open spec fn consumers_cover(
    cs: Seq<ProtocolClosedRoleParticipant>,
    d: ProtocolClosedRoleBinding,
    n: int,
    artifacts: Seq<ProtocolArtifactIdentity>,
) -> bool {
    forall|k: int|
        #![trigger d.consumers@[k]]
        0 <= k < n ==> exists|m: int|
            0 <= m < cs.len() && participant_of(
                #[trigger] cs[m],
                referenced(artifacts, d.consumers@[k]),
                d.consumers@[k].claim@,
            )
}

/// Each of `cs` has the artifact of one of the first `n` declared consumers of `d`.
#[verifier::opaque]
pub open spec fn consumers_declared(cs: Seq<ProtocolClosedRoleParticipant>, d: ProtocolClosedRoleBinding, n: int) -> bool {
    forall|m: int| 0 <= m < cs.len() ==> exists|j: int| 0 <= j < n && (#[trigger] cs[m]).artifact@ == d.consumers@[j].artifact@
}

/// `r` is the resolution of the declared closed role `d`: the same role, its provider's slot as
/// the source, and each declared participant as the admitted artifact it names, consumers
/// sorted by artifact.
#[verifier::opaque]
pub open spec fn resolved_from(
    r: ResolvedProtocolClosedRoleBinding,
    d: ProtocolClosedRoleBinding,
    artifacts: Seq<ProtocolArtifactIdentity>,
    roles: Seq<ProtocolRoleBinding>,
    witnesses: Seq<ProtocolWitnessClaim>,
) -> bool {
    &&& r.schema@ == d.schema@
    &&& r.role_id@ == d.role_id@
    &&& r.locality == ProtocolRoleLocality::ClosedForeign
    &&& r.kind == d.kind
    &&& r.schema_identity == d.schema_identity
    &&& r.correspondence == d.correspondence
    &&& r.source == participant_source(d.provider, d.kind, roles, witnesses)
    &&& participant_of(r.provider, referenced(artifacts, d.provider), d.provider.claim@)
    &&& r.consumers@.len() == d.consumers@.len()
    &&& by_artifact(r.consumers@)
    &&& consumers_cover(r.consumers@, d, d.consumers@.len() as int, artifacts)
}

/// Each of the first `n` declared closed roles is among `out` as its resolution.
#[verifier::opaque]
pub open spec fn roles_cover(
    out: Seq<ResolvedProtocolClosedRoleBinding>,
    bindings: Seq<ProtocolClosedRoleBinding>,
    n: int,
    artifacts: Seq<ProtocolArtifactIdentity>,
    roles: Seq<ProtocolRoleBinding>,
    witnesses: Seq<ProtocolWitnessClaim>,
) -> bool {
    forall|k: int|
        #![trigger bindings[k]]
        0 <= k < n ==> exists|m: int| 0 <= m < out.len() && resolved_from(#[trigger] out[m], bindings[k], artifacts, roles, witnesses)
}

/// Each of `out` has the id of one of the first `n` declared closed roles.
#[verifier::opaque]
pub open spec fn roles_declared(out: Seq<ResolvedProtocolClosedRoleBinding>, bindings: Seq<ProtocolClosedRoleBinding>, n: int) -> bool {
    forall|m: int| 0 <= m < out.len() ==> exists|k: int| 0 <= k < n && (#[trigger] out[m]).role_id@ == bindings[k].role_id@
}

fn copy_schema_identity(s: &ProtocolRoleSchemaIdentity) -> (r: ProtocolRoleSchemaIdentity)
    ensures
        r == *s,
{
    ProtocolRoleSchemaIdentity { molecule_type: s.molecule_type.clone(), schema_hash: s.schema_hash.clone() }
}

proof fn lemma_consumers_error_stays(
    d: ProtocolClosedRoleBinding,
    i: int,
    n: int,
    artifacts: Seq<ProtocolArtifactIdentity>,
    roles: Seq<ProtocolRoleBinding>,
    witnesses: Seq<ProtocolWitnessClaim>,
)
    requires
        0 <= i <= n,
        consumers_error(d, i, artifacts, roles, witnesses) is Some,
    ensures
        consumers_error(d, n, artifacts, roles, witnesses) == consumers_error(d, i, artifacts, roles, witnesses),
    decreases n - i,
{
    if i < n {
        lemma_consumers_error_stays(d, i, n - 1, artifacts, roles, witnesses);
    }
}

proof fn lemma_bindings_error_stays(
    bindings: Seq<ProtocolClosedRoleBinding>,
    i: int,
    n: int,
    artifacts: Seq<ProtocolArtifactIdentity>,
    roles: Seq<ProtocolRoleBinding>,
    witnesses: Seq<ProtocolWitnessClaim>,
)
    requires
        0 <= i <= n,
        bindings_error(bindings, i, artifacts, roles, witnesses) is Some,
    ensures
        bindings_error(bindings, n, artifacts, roles, witnesses) == bindings_error(bindings, i, artifacts, roles, witnesses),
    decreases n - i,
{
    if i < n {
        lemma_bindings_error_stays(bindings, i, n - 1, artifacts, roles, witnesses);
    }
}

/// A consumer whose artifact no earlier declared consumer has is new to the resolved ones.
proof fn lemma_consumer_fresh(cs: Seq<ProtocolClosedRoleParticipant>, d: ProtocolClosedRoleBinding, k: int, a: Seq<char>)
    requires
        consumers_declared(cs, d, k),
        forall|j: int| 0 <= j < k ==> #[trigger] d.consumers@[j].artifact@ != a,
    ensures
        forall|m: int| 0 <= m < cs.len() ==> (#[trigger] cs[m]).artifact@ != a,
{
    reveal(consumers_declared);
    assert forall|m: int| 0 <= m < cs.len() implies (#[trigger] cs[m]).artifact@ != a by {
        let j = choose|j: int| 0 <= j < k && (#[trigger] cs[m]).artifact@ == d.consumers@[j].artifact@;
        assert(d.consumers@[j].artifact@ != a);
    }
}

/// Adding the resolution of consumer `k` extends what the resolved consumers cover.
proof fn lemma_consumer_added(
    before: Seq<ProtocolClosedRoleParticipant>,
    after: Seq<ProtocolClosedRoleParticipant>,
    cv: ProtocolClosedRoleParticipant,
    d: ProtocolClosedRoleBinding,
    k: int,
    artifacts: Seq<ProtocolArtifactIdentity>,
)
    requires
        0 <= k < d.consumers@.len(),
        forall|x: ProtocolClosedRoleParticipant| #[trigger] after.contains(x) <==> before.contains(x) || x == cv,
        consumers_cover(before, d, k, artifacts),
        consumers_declared(before, d, k),
        participant_of(cv, referenced(artifacts, d.consumers@[k]), d.consumers@[k].claim@),
        cv.artifact@ == d.consumers@[k].artifact@,
    ensures
        consumers_cover(after, d, k + 1, artifacts),
        consumers_declared(after, d, k + 1),
{
    reveal(consumers_cover);
    reveal(consumers_declared);
    assert(after.contains(cv));
    assert forall|m: int|
        #![trigger d.consumers@[m]]
        0 <= m < k + 1 implies exists|j: int|
        0 <= j < after.len() && participant_of(
            #[trigger] after[j],
            referenced(artifacts, d.consumers@[m]),
            d.consumers@[m].claim@,
        ) by {
        if m < k {
            let j = choose|j: int|
                0 <= j < before.len() && participant_of(
                    #[trigger] before[j],
                    referenced(artifacts, d.consumers@[m]),
                    d.consumers@[m].claim@,
                );
            assert(before.contains(before[j]));
            assert(after.contains(before[j]));
            let j2 = choose|j2: int| 0 <= j2 < after.len() && after[j2] == before[j];
            assert(participant_of(after[j2], referenced(artifacts, d.consumers@[m]), d.consumers@[m].claim@));
        } else {
            let j2 = choose|j2: int| 0 <= j2 < after.len() && after[j2] == cv;
            assert(participant_of(after[j2], referenced(artifacts, d.consumers@[m]), d.consumers@[m].claim@));
        }
    }
    assert forall|m: int| 0 <= m < after.len() implies exists|j: int|
        0 <= j < k + 1 && (#[trigger] after[m]).artifact@ == d.consumers@[j].artifact@ by {
        assert(after.contains(after[m]));
        if after[m] == cv {
            assert(after[m].artifact@ == d.consumers@[k].artifact@);
        } else {
            assert(before.contains(after[m]));
            let x = choose|x: int| 0 <= x < before.len() && before[x] == after[m];
            let j = choose|j: int| 0 <= j < k && (#[trigger] before[x]).artifact@ == d.consumers@[j].artifact@;
        }
    }
}

/// A closed role whose id no earlier declared role has is new to the resolved ones.
proof fn lemma_role_fresh(out: Seq<ResolvedProtocolClosedRoleBinding>, bindings: Seq<ProtocolClosedRoleBinding>, i: int, id: Seq<char>)
    requires
        roles_declared(out, bindings, i),
        forall|j: int| 0 <= j < i ==> #[trigger] bindings[j].role_id@ != id,
    ensures
        forall|m: int| 0 <= m < out.len() ==> (#[trigger] out[m]).role_id@ != id,
{
    reveal(roles_declared);
    assert forall|m: int| 0 <= m < out.len() implies (#[trigger] out[m]).role_id@ != id by {
        let k = choose|k: int| 0 <= k < i && (#[trigger] out[m]).role_id@ == bindings[k].role_id@;
        assert(bindings[k].role_id@ != id);
    }
}

/// Adding the resolution of closed role `i` extends what the resolved roles cover.
proof fn lemma_role_added(
    before: Seq<ResolvedProtocolClosedRoleBinding>,
    after: Seq<ResolvedProtocolClosedRoleBinding>,
    rv: ResolvedProtocolClosedRoleBinding,
    bindings: Seq<ProtocolClosedRoleBinding>,
    i: int,
    artifacts: Seq<ProtocolArtifactIdentity>,
    roles: Seq<ProtocolRoleBinding>,
    witnesses: Seq<ProtocolWitnessClaim>,
)
    requires
        0 <= i < bindings.len(),
        forall|x: ResolvedProtocolClosedRoleBinding| #[trigger] after.contains(x) <==> before.contains(x) || x == rv,
        roles_cover(before, bindings, i, artifacts, roles, witnesses),
        roles_declared(before, bindings, i),
        resolved_from(rv, bindings[i], artifacts, roles, witnesses),
        rv.role_id@ == bindings[i].role_id@,
    ensures
        roles_cover(after, bindings, i + 1, artifacts, roles, witnesses),
        roles_declared(after, bindings, i + 1),
{
    reveal(roles_cover);
    reveal(roles_declared);
    assert(after.contains(rv));
    assert forall|k: int|
        #![trigger bindings[k]]
        0 <= k < i + 1 implies exists|m: int|
        0 <= m < after.len() && resolved_from(#[trigger] after[m], bindings[k], artifacts, roles, witnesses) by {
        if k < i {
            let m = choose|m: int| 0 <= m < before.len() && resolved_from(#[trigger] before[m], bindings[k], artifacts, roles, witnesses);
            assert(before.contains(before[m]));
            assert(after.contains(before[m]));
            let m2 = choose|m2: int| 0 <= m2 < after.len() && after[m2] == before[m];
            assert(resolved_from(after[m2], bindings[k], artifacts, roles, witnesses));
        } else {
            let m2 = choose|m2: int| 0 <= m2 < after.len() && after[m2] == rv;
            assert(resolved_from(after[m2], bindings[k], artifacts, roles, witnesses));
        }
    }
    assert forall|m: int| 0 <= m < after.len() implies exists|k: int| 0 <= k < i + 1 && (#[trigger] after[m]).role_id@ == bindings[k].role_id@ by {
        assert(after.contains(after[m]));
        if after[m] == rv {
            assert(after[m].role_id@ == bindings[i].role_id@);
        } else {
            assert(before.contains(after[m]));
            let x = choose|x: int| 0 <= x < before.len() && before[x] == after[m];
            let k = choose|k: int| 0 <= k < i && (#[trigger] before[x]).role_id@ == bindings[k].role_id@;
        }
    }
}

/// Checks closed role `i` up to its participants: schema, names, a fresh id and a bounded,
/// non-empty consumer list.
#[verifier::spinoff_prover]
fn check_binding_header(bindings: &[ProtocolClosedRoleBinding], i: usize) -> (r: Result<()>)
    requires
        i < bindings@.len(),
    ensures
        reports(r, header_error(bindings@, i as int)),
{
    proof {
        reveal_strlit("unsupported ProtocolBundle closed role schema '");
        reveal_strlit("'; expected '");
        reveal_strlit("'");
        reveal_strlit("closed role id");
        reveal_strlit("closed role schema molecule type");
        reveal_strlit("closed role schema_hash");
        reveal_strlit("duplicate ProtocolBundle closed role id '");
        reveal_strlit("ProtocolBundle closed role '");
        reveal_strlit("' requires at least one consumer");
        reveal_strlit("closed role '");
        reveal_strlit("' consumers");
    }
    let d = &bindings[i];
    if !str_eq(d.schema.as_str(), PROTOCOL_CLOSED_ROLE_SCHEMA) {
        let mut m = concat3("unsupported ProtocolBundle closed role schema '", d.schema.as_str(), "'; expected '");
        m.append(PROTOCOL_CLOSED_ROLE_SCHEMA);
        m.append("'");
        return Err(CompileError::without_span(m.as_str()));
    }
    if let Err(e) = validate_name(d.role_id.as_str(), "closed role id") {
        return Err(e);
    }
    if let Err(e) = validate_name(d.schema_identity.molecule_type.as_str(), "closed role schema molecule type") {
        return Err(e);
    }
    if let Err(e) = canonical_raw_hash32(d.schema_identity.schema_hash.as_str(), "closed role schema_hash") {
        return Err(e);
    }
    let mut j: usize = 0;
    while j < i
        invariant
            i < bindings@.len(),
            d == &bindings@[i as int],
            d.schema@ == PROTOCOL_CLOSED_ROLE_SCHEMA@,
            first_error(
                name_error(d.role_id@, "closed role id"@),
                first_error(
                    name_error(d.schema_identity.molecule_type@, "closed role schema molecule type"@),
                    raw_hash32_error(d.schema_identity.schema_hash@, "closed role schema_hash"@),
                ),
            ) is None,
            j <= i,
            forall|k: int| 0 <= k < j ==> #[trigger] bindings@[k].role_id@ != d.role_id@,
        decreases i - j,
    {
        if str_eq(bindings[j].role_id.as_str(), d.role_id.as_str()) {
            assert(bindings@[j as int].role_id@ == d.role_id@);
            return Err(CompileError::without_span(concat3("duplicate ProtocolBundle closed role id '", d.role_id.as_str(), "'").as_str()));
        }
        j += 1;
    }
    if d.consumers.len() == 0 {
        return Err(
            CompileError::without_span(concat3("ProtocolBundle closed role '", d.role_id.as_str(), "' requires at least one consumer").as_str()),
        );
    }
    let label = concat3("closed role '", d.role_id.as_str(), "' consumers");
    bounded_count(label.as_str(), d.consumers.len(), MAX_CLOSED_ROLE_CONSUMERS)
}

/// Resolves consumer `k` of a closed role, which may repeat neither the provider's artifact
/// nor an earlier consumer's.
#[verifier::spinoff_prover]
fn resolve_consumer(
    d: &ProtocolClosedRoleBinding,
    k: usize,
    artifacts: &[ProtocolArtifactIdentity],
    roles: &[ProtocolRoleBinding],
    witnesses: &[ProtocolWitnessClaim],
) -> (r: Result<ProtocolClosedRoleParticipant>)
    requires
        k < d.consumers@.len(),
    ensures
        match consumer_error(*d, k as int, artifacts@, roles@, witnesses@) {
            Some(m) => r matches Err(e) && e.message@ == m,
            None => r matches Ok(p) && participant_of(p, referenced(artifacts@, d.consumers@[k as int]), d.consumers@[k as int].claim@)
                && p.artifact@ == d.consumers@[k as int].artifact@ && !repeats_artifact(*d, k as int),
        },
{
    proof {
        reveal_strlit("ProtocolBundle closed role '");
        reveal_strlit("' repeats participant artifact '");
        reveal_strlit("'");
    }
    let r = &d.consumers[k];
    let mut repeated = str_eq(r.artifact.as_str(), d.provider.artifact.as_str());
    let mut j: usize = 0;
    while j < k && !repeated
        invariant
            k < d.consumers@.len(),
            r == &d.consumers@[k as int],
            j <= k,
            repeated == (d.consumers@[k as int].artifact@ == d.provider.artifact@ || exists|x: int|
                0 <= x < j && #[trigger] d.consumers@[x].artifact@ == d.consumers@[k as int].artifact@),
        decreases k - j,
    {
        if str_eq(d.consumers[j].artifact.as_str(), r.artifact.as_str()) {
            repeated = true;
        }
        j += 1;
    }
    if repeated {
        let mut m = concat3("ProtocolBundle closed role '", d.role_id.as_str(), "' repeats participant artifact '");
        m.append(r.artifact.as_str());
        m.append("'");
        return Err(CompileError::without_span(m.as_str()));
    }
    let (consumer, _) = match resolve_closed_role_participant(r, d.kind, artifacts, roles, witnesses, d.role_id.as_str()) {
        Ok(x) => x,
        Err(e) => return Err(e),
    };
    Ok(consumer)
}

/// Resolves the declared consumers of a closed role, in artifact order; none may repeat the
/// provider's artifact or another consumer's.
#[verifier::spinoff_prover]
fn resolve_consumers(
    d: &ProtocolClosedRoleBinding,
    artifacts: &[ProtocolArtifactIdentity],
    roles: &[ProtocolRoleBinding],
    witnesses: &[ProtocolWitnessClaim],
) -> (r: Result<Vec<ProtocolClosedRoleParticipant>>)
    ensures
        match consumers_error(*d, d.consumers@.len() as int, artifacts@, roles@, witnesses@) {
            Some(m) => r matches Err(e) && e.message@ == m,
            None => r matches Ok(v) && v@.len() == d.consumers@.len() && by_artifact(v@) && consumers_cover(
                v@,
                *d,
                d.consumers@.len() as int,
                artifacts@,
            ),
        },
{
    let mut consumers: Vec<ProtocolClosedRoleParticipant> = Vec::new();
    let mut k: usize = 0;
    let ghost dv = *d;
    assert(consumers_cover(consumers@, dv, 0, artifacts@)) by {
        reveal(consumers_cover);
    }
    assert(consumers_declared(consumers@, dv, 0)) by {
        reveal(consumers_declared);
    }
    while k < d.consumers.len()
        invariant
            dv == *d,
            k <= dv.consumers@.len(),
            consumers@.len() == k,
            consumers_error(dv, k as int, artifacts@, roles@, witnesses@) is None,
            by_artifact(consumers@),
            consumers_cover(consumers@, dv, k as int, artifacts@),
            consumers_declared(consumers@, dv, k as int),
        decreases dv.consumers@.len() - k,
    {
        let consumer = match resolve_consumer(d, k, artifacts, roles, witnesses) {
            Ok(p) => p,
            Err(e) => {
                proof {
                    lemma_consumers_error_stays(dv, k + 1, dv.consumers@.len() as int, artifacts@, roles@, witnesses@);
                }
                return Err(e);
            },
        };
        proof {
            assert forall|j: int| 0 <= j < k implies #[trigger] dv.consumers@[j].artifact@ != consumer.artifact@ by {
                if dv.consumers@[j].artifact@ == consumer.artifact@ {
                    assert(repeats_artifact(dv, k as int));
                }
            }
            lemma_consumer_fresh(consumers@, dv, k as int, consumer.artifact@);
        }
        let ghost before = consumers@;
        let ghost cv = consumer;
        insert_participant(&mut consumers, consumer);
        proof {
            lemma_consumer_added(before, consumers@, cv, dv, k as int, artifacts@);
        }
        k += 1;
    }
    Ok(consumers)
}

/// Resolves one declared closed role.
#[verifier::spinoff_prover]
fn resolve_binding(
    bindings: &[ProtocolClosedRoleBinding],
    i: usize,
    artifacts: &[ProtocolArtifactIdentity],
    roles: &[ProtocolRoleBinding],
    witnesses: &[ProtocolWitnessClaim],
) -> (r: Result<ResolvedProtocolClosedRoleBinding>)
    requires
        i < bindings@.len(),
    ensures
        match binding_error(bindings@, i as int, artifacts@, roles@, witnesses@) {
            Some(m) => r matches Err(e) && e.message@ == m,
            None => r matches Ok(v) && resolved_from(v, bindings@[i as int], artifacts@, roles@, witnesses@) && v.role_id@
                == bindings@[i as int].role_id@,
        },
{
    let d = &bindings[i];
    if let Err(e) = check_binding_header(bindings, i) {
        return Err(e);
    }
    let (provider, source) = match resolve_closed_role_participant(&d.provider, d.kind, artifacts, roles, witnesses, d.role_id.as_str()) {
        Ok(x) => x,
        Err(e) => return Err(e),
    };
    let consumers = match resolve_consumers(d, artifacts, roles, witnesses) {
        Ok(v) => v,
        Err(e) => return Err(e),
    };
    let out = ResolvedProtocolClosedRoleBinding {
        schema: d.schema.clone(),
        role_id: d.role_id.clone(),
        locality: ProtocolRoleLocality::ClosedForeign,
        kind: d.kind,
        schema_identity: copy_schema_identity(&d.schema_identity),
        source,
        provider,
        consumers,
        correspondence: d.correspondence,
    };
    proof {
        reveal(resolved_from);
    }
    Ok(out)
}

/// Resolves every declared closed role against the admitted artifacts and their physical
/// claims; the result is sorted by role id.
#[verifier::spinoff_prover]
pub fn resolve_closed_roles(
    bindings: &[ProtocolClosedRoleBinding],
    artifacts: &[ProtocolArtifactIdentity],
    roles: &[ProtocolRoleBinding],
    witnesses: &[ProtocolWitnessClaim],
) -> (r: Result<Vec<ResolvedProtocolClosedRoleBinding>>)
    ensures
        match bindings_error(bindings@, bindings@.len() as int, artifacts@, roles@, witnesses@) {
            Some(m) => r matches Err(e) && e.message@ == m,
            None => r matches Ok(v) && v@.len() == bindings@.len() && by_role_id(v@) && roles_cover(
                v@,
                bindings@,
                bindings@.len() as int,
                artifacts@,
                roles@,
                witnesses@,
            ),
        },
{
    proof {
        reveal(roles_cover);
        reveal(roles_declared);
    }
    let mut out: Vec<ResolvedProtocolClosedRoleBinding> = Vec::new();
    let mut i: usize = 0;
    while i < bindings.len()
        invariant
            i <= bindings@.len(),
            out@.len() == i,
            bindings_error(bindings@, i as int, artifacts@, roles@, witnesses@) is None,
            by_role_id(out@),
            roles_cover(out@, bindings@, i as int, artifacts@, roles@, witnesses@),
            roles_declared(out@, bindings@, i as int),
        decreases bindings@.len() - i,
    {
        let resolved = match resolve_binding(bindings, i, artifacts, roles, witnesses) {
            Ok(v) => v,
            Err(e) => {
                proof {
                    lemma_bindings_error_stays(bindings@, i + 1, bindings@.len() as int, artifacts@, roles@, witnesses@);
                }
                return Err(e);
            },
        };
        proof {
            assert(header_error(bindings@, i as int) is None);
            assert forall|j: int| 0 <= j < i implies #[trigger] bindings@[j].role_id@ != bindings@[i as int].role_id@ by {
                if bindings@[j].role_id@ == bindings@[i as int].role_id@ {
                    assert(exists|x: int| 0 <= x < i && #[trigger] bindings@[x].role_id@ == bindings@[i as int].role_id@);
                }
            }
            lemma_role_fresh(out@, bindings@, i as int, resolved.role_id@);
        }
        let ghost before = out@;
        let ghost rv = resolved;
        insert_resolved(&mut out, resolved);
        proof {
            lemma_role_added(before, out@, rv, bindings@, i as int, artifacts@, roles@, witnesses@);
        }
        i += 1;
    }
    Ok(out)
}

} // verus!
