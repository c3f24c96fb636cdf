//! The shape a bundle input must have before any artifact is admitted.

use super::skeleton::{
    bounded_count, count_error, transaction_error, validate_transaction, MAX_DEP_CLAIMS, MAX_ROLE_BINDINGS,
    MAX_WITNESS_CLAIMS,
};
use super::{
    deployment_error, first_error, name_error, network_error, reports, validate_deployment, validate_name,
    validate_network, ProtocolArtifactInput, ProtocolNetworkIdentity, ProtocolTransactionSkeleton,
    PROTOCOL_BUNDLE_INPUT_SCHEMA,
};
use crate::error::{CompileError, Result};
use crate::text::{concat3, str_eq};
use vstd::prelude::*;

verus! {

/// How many artifacts a bundle holds at most, and at least.
pub const MAX_ARTIFACTS: usize = 64;
pub const MIN_ARTIFACTS: usize = 2;

/// How many closed role bindings and policy claims a bundle may hold.
pub const MAX_CLOSED_ROLE_BINDINGS: usize = 1024;
pub const MAX_POLICY_CLAIMS: usize = 256;

/// How many claims of each kind a bundle input carries.
pub struct ProtocolClaimCounts {
    pub deployment_lines: usize,
    pub roles: usize,
    pub closed_roles: usize,
    pub witnesses: usize,
    pub cell_deps: usize,
    pub header_deps: usize,
    pub policies: usize,
}

/// Whether an artifact before position `i` has the same id as the artifact at `i`.
pub open spec fn id_taken(arts: Seq<ProtocolArtifactInput>, i: int) -> bool {
    exists|j: int| 0 <= j < i && (#[trigger] arts[j]).id@ == arts[i].id@
}

/// The error the artifact at position `i` draws: its id, an id used before, its package
/// coordinate, lock node, entry name and deployment, in that order.
pub open spec fn artifact_error(arts: Seq<ProtocolArtifactInput>, i: int) -> Option<Seq<char>> {
    let a = arts[i];
    first_error(
        name_error(a.id@, "artifact id"@),
        if id_taken(arts, i) {
            Some("duplicate ProtocolBundle artifact id '"@ + a.id@ + "'"@)
        } else {
            first_error(
                name_error(a.package_coordinate@, "package coordinate"@),
                first_error(
                    name_error(a.lock_node_id@, "Cell.lock node identity"@),
                    first_error(name_error(a.entry.name@, "entry name"@), deployment_error(a.deployment)),
                ),
            )
        },
    )
}

/// The first error among the first `n` artifacts.
pub open spec fn artifacts_error(arts: Seq<ProtocolArtifactInput>, n: int) -> Option<Seq<char>>
    decreases n,
{
    if n <= 0 {
        None
    } else {
        first_error(artifacts_error(arts, n - 1), artifact_error(arts, n - 1))
    }
}

/// The error a bundle input's shape draws: its schema, network, artifact count, claim counts,
/// artifacts and transaction skeleton, in that order.
pub open spec fn input_shape_error(
    schema: Seq<char>,
    network: ProtocolNetworkIdentity,
    arts: Seq<ProtocolArtifactInput>,
    c: ProtocolClaimCounts,
    t: ProtocolTransactionSkeleton,
) -> Option<Seq<char>> {
    if schema != PROTOCOL_BUNDLE_INPUT_SCHEMA@ {
        Some("unsupported ProtocolBundle schema '"@ + schema + "'; expected '"@ + PROTOCOL_BUNDLE_INPUT_SCHEMA@ + "'"@)
    } else {
        first_error(
            network_error(network, "bundle network"@),
            first_error(
                if arts.len() < MIN_ARTIFACTS || arts.len() > MAX_ARTIFACTS {
                    Some("ProtocolBundle must contain between 2 and 64 artifacts"@)
                } else {
                    None
                },
                first_error(
                    count_error("deployment-line admissions"@, c.deployment_lines as nat, MAX_ARTIFACTS as nat),
                    first_error(
                        count_error("role bindings"@, c.roles as nat, MAX_ROLE_BINDINGS as nat),
                        first_error(
                            count_error("closed role bindings"@, c.closed_roles as nat, MAX_CLOSED_ROLE_BINDINGS as nat),
                            first_error(
                                count_error("witness claims"@, c.witnesses as nat, MAX_WITNESS_CLAIMS as nat),
                                first_error(
                                    count_error("CellDep claims"@, c.cell_deps as nat, MAX_DEP_CLAIMS as nat),
                                    first_error(
                                        count_error("HeaderDep claims"@, c.header_deps as nat, MAX_DEP_CLAIMS as nat),
                                        first_error(
                                            count_error("policy claims"@, c.policies as nat, MAX_POLICY_CLAIMS as nat),
                                            first_error(artifacts_error(arts, arts.len() as int), transaction_error(t)),
                                        ),
                                    ),
                                ),
                            ),
                        ),
                    ),
                ),
            ),
        )
    }
}

proof fn lemma_first_artifact_error(arts: Seq<ProtocolArtifactInput>, i: int, n: int)
    requires
        0 <= i < n,
        artifacts_error(arts, i) is None,
        artifact_error(arts, i) is Some,
    ensures
        artifacts_error(arts, n) == artifact_error(arts, i),
    decreases n,
{
    if n > i + 1 {
        lemma_first_artifact_error(arts, i, n - 1);
    }
}

/// Checks the artifact at position `i`: its id, that no earlier artifact has it, its package
/// coordinate, lock node, entry name and deployment.
fn check_artifact(artifacts: &Vec<ProtocolArtifactInput>, i: usize) -> (r: Result<()>)
    requires
        i < artifacts@.len(),
    ensures
        reports(r, artifact_error(artifacts@, i as int)),
{
    let a = &artifacts[i];
    if let Err(e) = validate_name(a.id.as_str(), "artifact id") {
        return Err(e);
    }
    let mut j: usize = 0;
    while j < i
        invariant
            i < artifacts@.len(),
            j <= i,
            forall|k: int| 0 <= k < j ==> (#[trigger] artifacts@[k]).id@ != artifacts@[i as int].id@,
            name_error(artifacts@[i as int].id@, "artifact id"@) is None,
        decreases i - j,
    {
        if str_eq(artifacts[j].id.as_str(), artifacts[i].id.as_str()) {
            assert(artifacts@[j as int].id@ == artifacts@[i as int].id@);
            assert(id_taken(artifacts@, i as int));
            let m = concat3("duplicate ProtocolBundle artifact id '", artifacts[i].id.as_str(), "'");
            return Err(CompileError::without_span(m.as_str()));
        }
        j += 1;
    }
    assert(!id_taken(artifacts@, i as int));
    if let Err(e) = validate_name(a.package_coordinate.as_str(), "package coordinate") {
        return Err(e);
    }
    if let Err(e) = validate_name(a.lock_node_id.as_str(), "Cell.lock node identity") {
        return Err(e);
    }
    if let Err(e) = validate_name(a.entry.name.as_str(), "entry name") {
        return Err(e);
    }
    validate_deployment(&a.deployment)
}

/// Checks a bundle input's shape before any artifact is admitted: the input schema, the
/// network, between 2 and 64 artifacts, each kind of claim within its bound, every artifact's
/// names, unique ids and deployment, and the transaction skeleton; the first failure is reported.
pub fn validate_input_shape(
    schema: &str,
    network: &ProtocolNetworkIdentity,
    artifacts: &Vec<ProtocolArtifactInput>,
    counts: &ProtocolClaimCounts,
    transaction: &ProtocolTransactionSkeleton,
) -> (r: Result<()>)
    ensures
        reports(r, input_shape_error(schema@, *network, artifacts@, *counts, *transaction)),
{
    if !str_eq(schema, PROTOCOL_BUNDLE_INPUT_SCHEMA) {
        let mut m = concat3("unsupported ProtocolBundle schema '", schema, "'; expected '");
        m.append(PROTOCOL_BUNDLE_INPUT_SCHEMA);
        m.append("'");
        return Err(CompileError::without_span(m.as_str()));
    }
    if let Err(e) = validate_network(network, "bundle network") {
        return Err(e);
    }
    if artifacts.len() < MIN_ARTIFACTS || artifacts.len() > MAX_ARTIFACTS {
        return Err(CompileError::without_span("ProtocolBundle must contain between 2 and 64 artifacts"));
    }
    if let Err(e) = bounded_count("deployment-line admissions", counts.deployment_lines, MAX_ARTIFACTS) {
        return Err(e);
    }
    if let Err(e) = bounded_count("role bindings", counts.roles, MAX_ROLE_BINDINGS) {
        return Err(e);
    }
    if let Err(e) = bounded_count("closed role bindings", counts.closed_roles, MAX_CLOSED_ROLE_BINDINGS) {
        return Err(e);
    }
    if let Err(e) = bounded_count("witness claims", counts.witnesses, MAX_WITNESS_CLAIMS) {
        return Err(e);
    }
    if let Err(e) = bounded_count("CellDep claims", counts.cell_deps, MAX_DEP_CLAIMS) {
        return Err(e);
    }
    if let Err(e) = bounded_count("HeaderDep claims", counts.header_deps, MAX_DEP_CLAIMS) {
        return Err(e);
    }
    if let Err(e) = bounded_count("policy claims", counts.policies, MAX_POLICY_CLAIMS) {
        return Err(e);
    }
    assert(input_shape_error(schema@, *network, artifacts@, *counts, *transaction) == first_error(
        artifacts_error(artifacts@, artifacts@.len() as int),
        transaction_error(*transaction),
    ));
    let mut i: usize = 0;
    while i < artifacts.len()
        invariant
            i <= artifacts@.len(),
            artifacts_error(artifacts@, i as int) is None,
            input_shape_error(schema@, *network, artifacts@, *counts, *transaction) == first_error(
                artifacts_error(artifacts@, artifacts@.len() as int),
                transaction_error(*transaction),
            ),
        decreases artifacts@.len() - i,
    {
        if let Err(e) = check_artifact(artifacts, i) {
            proof {
                lemma_first_artifact_error(artifacts@, i as int, artifacts@.len() as int);
            }
            return Err(e);
        }
        i += 1;
    }
    assert(artifacts_error(artifacts@, artifacts@.len() as int) is None);
    validate_transaction(transaction)
}

} // verus!
