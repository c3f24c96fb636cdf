//! Covenant ProofPlan metadata for CKB trigger/scope/coverage auditing.

pub mod collection;
pub mod declared;
pub mod keys;
pub mod soundness;
pub mod validity;

pub use collection::{plan_for_borrow_region, plan_for_bounded_collection};
pub use declared::build_for_invariant;
pub use validity::build_for_type_validity;

use vstd::prelude::*;

verus! {

/// Where a ProofPlan record's source construct stands.
#[derive(Debug, Clone, PartialEq, Eq)]
pub struct ProofPlanSourceSpanMetadata {
    pub start: usize,
    pub end: usize,
    pub line: usize,
    pub column: usize,
}

/// A diagnostic attached to a ProofPlan record.
#[derive(Debug, Clone, PartialEq, Eq)]
pub struct ProofPlanDiagnosticMetadata {
    pub severity: String,
    pub message: String,
}

/// How strongly a ProofPlan obligation is backed: by an on-chain check, or by something
/// still owed by a runtime helper, a builder or the chain.
#[derive(Debug, Clone, Copy, PartialEq, Eq, Structural)]
pub enum EvidenceTier {
    CheckedStatic,
    CheckedRuntime,
    TrustedExternal,
    RuntimeHelperRequired,
    BuilderEvidenceRequired,
    MetadataOnly,
    ChainEvidenceRequired,
}

impl EvidenceTier {
    /// Every tier, in declaration order.
    pub const ALL: [EvidenceTier; 7] = [
        EvidenceTier::CheckedStatic,
        EvidenceTier::CheckedRuntime,
        EvidenceTier::TrustedExternal,
        EvidenceTier::RuntimeHelperRequired,
        EvidenceTier::BuilderEvidenceRequired,
        EvidenceTier::MetadataOnly,
        EvidenceTier::ChainEvidenceRequired,
    ];

    /// The kebab-case name of a tier.
    pub open spec fn spec_as_str(self) -> Seq<char> {
        match self {
            EvidenceTier::CheckedStatic => "checked-static"@,
            EvidenceTier::CheckedRuntime => "checked-runtime"@,
            EvidenceTier::TrustedExternal => "trusted-external"@,
            EvidenceTier::RuntimeHelperRequired => "runtime-helper-required"@,
            EvidenceTier::BuilderEvidenceRequired => "builder-evidence-required"@,
            EvidenceTier::MetadataOnly => "metadata-only"@,
            EvidenceTier::ChainEvidenceRequired => "chain-evidence-required"@,
        }
    }

    /// The kebab-case name of a tier.
    pub fn as_str(self) -> (r: &'static str)
        ensures
            r@ == self.spec_as_str(),
    {
        match self {
            EvidenceTier::CheckedStatic => "checked-static",
            EvidenceTier::CheckedRuntime => "checked-runtime",
            EvidenceTier::TrustedExternal => "trusted-external",
            EvidenceTier::RuntimeHelperRequired => "runtime-helper-required",
            EvidenceTier::BuilderEvidenceRequired => "builder-evidence-required",
            EvidenceTier::MetadataOnly => "metadata-only",
            EvidenceTier::ChainEvidenceRequired => "chain-evidence-required",
        }
    }

    /// Whether the tier stands for evidence that is checked: statically, at run time, or by a
    /// trusted external verifier.
    pub open spec fn spec_is_checked(self) -> bool {
        self is CheckedStatic || self is CheckedRuntime || self is TrustedExternal
    }

    /// Whether the tier stands for checked evidence.
    pub fn is_checked(self) -> (r: bool)
        ensures
            r == self.spec_is_checked(),
    {
        match self {
            EvidenceTier::CheckedStatic | EvidenceTier::CheckedRuntime | EvidenceTier::TrustedExternal => true,
            _ => false,
        }
    }
}

impl Default for EvidenceTier {
    fn default() -> (r: Self)
        ensures
            r == EvidenceTier::MetadataOnly,
    {
        EvidenceTier::MetadataOnly
    }
}

/// One ProofPlan record: an obligation, where it comes from, what it reads and covers, and how
/// it is checked.
#[derive(Debug, Clone, PartialEq, Eq)]
pub struct ProofPlanMetadata {
    pub name: String,
    pub origin: String,
    pub category: String,
    pub feature: String,
    pub evidence_tier: EvidenceTier,
    pub source_span: Option<ProofPlanSourceSpanMetadata>,
    pub trigger: String,
    pub scope: String,
    pub reads: Vec<String>,
    pub coverage: Vec<String>,
    pub input_output_relation_checks: Vec<String>,
    pub group_cardinality: String,
    pub identity_lifecycle_policy: String,
    pub preserved_fields: Vec<String>,
    pub witness_fields: Vec<String>,
    pub lock_args_fields: Vec<String>,
    pub on_chain_checked: bool,
    pub on_chain_checked_obligations: Vec<String>,
    pub builder_assumptions: Vec<String>,
    pub codegen_coverage_status: String,
    pub status: String,
    pub detail: String,
    pub diagnostics: Vec<ProofPlanDiagnosticMetadata>,
}

/// Distinct tiers have distinct names.
pub proof fn lemma_evidence_tier_names_distinct(a: EvidenceTier, b: EvidenceTier)
    ensures
        a.spec_as_str() == b.spec_as_str() ==> a == b,
{
    reveal_strlit("checked-static");
    reveal_strlit("checked-runtime");
    reveal_strlit("trusted-external");
    reveal_strlit("runtime-helper-required");
    reveal_strlit("builder-evidence-required");
    reveal_strlit("metadata-only");
    reveal_strlit("chain-evidence-required");
    assert("checked-static"@.len() == 14);
    assert("checked-runtime"@.len() == 15);
    assert("trusted-external"@.len() == 16);
    assert("runtime-helper-required"@.len() == 23);
    assert("builder-evidence-required"@.len() == 25);
    assert("metadata-only"@.len() == 13);
    assert("chain-evidence-required"@.len() == 23);
    assert("runtime-helper-required"@[0] == 'r');
    assert("chain-evidence-required"@[0] == 'c');
}

} // verus!
