//! Stable runtime verifier error codes emitted by generated CellScript artifacts.
//!
//! The codes are part of the debugging and release-reporting surface and are stable: the same
//! generated verifier condition returns the same numeric code across releases.

use crate::error::CompileError;
use crate::text::{contains_seq, parse_u64, spec_parse_u64, str_contains, str_eq};
use vstd::prelude::*;

verus! {

/// A runtime verifier failure, identified by a stable numeric code.
#[derive(Debug, Clone, Copy, PartialEq, Eq, Structural, PartialOrd, Ord, Hash)]
pub enum CellScriptRuntimeError {
    SyscallFailed,
    BoundsCheckFailed,
    CellLoadFailed,
    ExactSizeMismatch,
    AssertionFailed,
    FlowTransitionMismatch,
    FlowNewStateInvalid,
    FlowOldStateInvalid,
    EntryWitnessMagicMismatch,
    TypeHashPreservationMismatch,
    LockHashPreservationMismatch,
    FieldPreservationMismatch,
    MutateTransitionMismatch,
    DataPreservationMismatch,
    DynamicFieldBoundsInvalid,
    TypeHashMismatch,
    FixedByteComparisonUnresolved,
    NumericOrDiscriminantInvalid,
    CollectionBoundsInvalid,
    ConsumeInvalidOperand,
    DestroyInvalidOperand,
    CollectionRuntimeUnsupported,
    EntryWitnessAbiInvalid,
    CapacityPreservationMismatch,
    DynamicFieldValueMismatch,
    OutPointMismatch,
    ScriptFieldMalformed,
    DaoHeaderLineageMismatch,
    DaoMaturityViolation,
    CkbSinceMalformed,
    ScriptArgsMismatch,
    MetaPointMismatch,
    MetaPointCardinalityMismatch,
    ScriptIdentityMismatch,
    WitnessMalformed,
    WitnessFieldTruncated,
    CkbSourceViewInvalid,
    HeaderDepMissing,
    DaoFieldMalformed,
    ScriptRoleMismatch,
    XudtBindingMismatch,
    AggregateAmountMismatch,
    Bip340PipeCreateFailed,
    Bip340SpawnFailed,
    Bip340MessageWriteFailed,
    Bip340PubkeyWriteFailed,
    Bip340SignatureWriteFailed,
    Bip340VerifierReadFailed,
    Bip340ChildRejected,
    FixedU64LeInputUnresolved,
    FixedByteComparisonMaterializationUnresolved,
    Bip340MessageMaterializationUnresolved,
    Bip340PubkeyMaterializationUnresolved,
    Bip340SignatureMaterializationUnresolved,
    PackedHashPreimageMaterializationUnresolved,
    BoundedCellDepNotFound,
    MerkleRootMismatch,
    ShiftAmountInvalid,
    SighashAllUnsupported,
}

/// The message fragment that marks the deferred canonical CKB sighash feature.
pub const CKB_SIGHASH_ALL_FEATURE: &'static str = "ckb-sighash-all-deferred";

impl CellScriptRuntimeError {
    /// The stable numeric code.
    pub open spec fn spec_code(self) -> u64 {
        match self {
            CellScriptRuntimeError::SyscallFailed => 1,
            CellScriptRuntimeError::BoundsCheckFailed => 2,
            CellScriptRuntimeError::CellLoadFailed => 3,
            CellScriptRuntimeError::ExactSizeMismatch => 4,
            CellScriptRuntimeError::AssertionFailed => 5,
            CellScriptRuntimeError::FlowTransitionMismatch => 7,
            CellScriptRuntimeError::FlowNewStateInvalid => 8,
            CellScriptRuntimeError::FlowOldStateInvalid => 9,
            CellScriptRuntimeError::EntryWitnessMagicMismatch => 10,
            CellScriptRuntimeError::TypeHashPreservationMismatch => 11,
            CellScriptRuntimeError::LockHashPreservationMismatch => 12,
            CellScriptRuntimeError::FieldPreservationMismatch => 13,
            CellScriptRuntimeError::MutateTransitionMismatch => 14,
            CellScriptRuntimeError::DataPreservationMismatch => 15,
            CellScriptRuntimeError::DynamicFieldBoundsInvalid => 16,
            CellScriptRuntimeError::TypeHashMismatch => 17,
            CellScriptRuntimeError::FixedByteComparisonUnresolved => 18,
            CellScriptRuntimeError::NumericOrDiscriminantInvalid => 20,
            CellScriptRuntimeError::CollectionBoundsInvalid => 21,
            CellScriptRuntimeError::ConsumeInvalidOperand => 22,
            CellScriptRuntimeError::DestroyInvalidOperand => 23,
            CellScriptRuntimeError::CollectionRuntimeUnsupported => 24,
            CellScriptRuntimeError::EntryWitnessAbiInvalid => 25,
            CellScriptRuntimeError::CapacityPreservationMismatch => 26,
            CellScriptRuntimeError::DynamicFieldValueMismatch => 32,
            CellScriptRuntimeError::OutPointMismatch => 33,
            CellScriptRuntimeError::ScriptFieldMalformed => 34,
            CellScriptRuntimeError::DaoHeaderLineageMismatch => 35,
            CellScriptRuntimeError::DaoMaturityViolation => 36,
            CellScriptRuntimeError::CkbSinceMalformed => 37,
            CellScriptRuntimeError::ScriptArgsMismatch => 38,
            CellScriptRuntimeError::MetaPointMismatch => 39,
            CellScriptRuntimeError::MetaPointCardinalityMismatch => 40,
            CellScriptRuntimeError::ScriptIdentityMismatch => 41,
            CellScriptRuntimeError::WitnessMalformed => 42,
            CellScriptRuntimeError::WitnessFieldTruncated => 43,
            CellScriptRuntimeError::CkbSourceViewInvalid => 44,
            CellScriptRuntimeError::HeaderDepMissing => 45,
            CellScriptRuntimeError::DaoFieldMalformed => 46,
            CellScriptRuntimeError::ScriptRoleMismatch => 47,
            CellScriptRuntimeError::XudtBindingMismatch => 48,
            CellScriptRuntimeError::AggregateAmountMismatch => 49,
            CellScriptRuntimeError::Bip340PipeCreateFailed => 50,
            CellScriptRuntimeError::Bip340SpawnFailed => 51,
            CellScriptRuntimeError::Bip340MessageWriteFailed => 52,
            CellScriptRuntimeError::Bip340PubkeyWriteFailed => 53,
            CellScriptRuntimeError::Bip340SignatureWriteFailed => 54,
            CellScriptRuntimeError::Bip340VerifierReadFailed => 55,
            CellScriptRuntimeError::Bip340ChildRejected => 56,
            CellScriptRuntimeError::FixedU64LeInputUnresolved => 57,
            CellScriptRuntimeError::FixedByteComparisonMaterializationUnresolved => 58,
            CellScriptRuntimeError::Bip340MessageMaterializationUnresolved => 59,
            CellScriptRuntimeError::Bip340PubkeyMaterializationUnresolved => 60,
            CellScriptRuntimeError::Bip340SignatureMaterializationUnresolved => 61,
            CellScriptRuntimeError::PackedHashPreimageMaterializationUnresolved => 62,
            CellScriptRuntimeError::BoundedCellDepNotFound => 63,
            CellScriptRuntimeError::MerkleRootMismatch => 64,
            CellScriptRuntimeError::ShiftAmountInvalid => 65,
            CellScriptRuntimeError::SighashAllUnsupported => 66,
        }
    }

    /// The stable kebab-case name.
    pub open spec fn spec_name(self) -> Seq<char> {
        match self {
            CellScriptRuntimeError::SyscallFailed => "syscall-failed"@,
            CellScriptRuntimeError::BoundsCheckFailed => "bounds-check-failed"@,
            CellScriptRuntimeError::CellLoadFailed => "cell-load-failed"@,
            CellScriptRuntimeError::ExactSizeMismatch => "exact-size-mismatch"@,
            CellScriptRuntimeError::AssertionFailed => "assertion-failed"@,
            CellScriptRuntimeError::FlowTransitionMismatch => "flow-transition-mismatch"@,
            CellScriptRuntimeError::FlowNewStateInvalid => "flow-new-state-invalid"@,
            CellScriptRuntimeError::FlowOldStateInvalid => "flow-old-state-invalid"@,
            CellScriptRuntimeError::EntryWitnessMagicMismatch => "entry-witness-magic-mismatch"@,
            CellScriptRuntimeError::TypeHashPreservationMismatch => "type-hash-preservation-mismatch"@,
            CellScriptRuntimeError::LockHashPreservationMismatch => "lock-hash-preservation-mismatch"@,
            CellScriptRuntimeError::FieldPreservationMismatch => "field-preservation-mismatch"@,
            CellScriptRuntimeError::MutateTransitionMismatch => "mutate-transition-mismatch"@,
            CellScriptRuntimeError::DataPreservationMismatch => "data-preservation-mismatch"@,
            CellScriptRuntimeError::DynamicFieldBoundsInvalid => "dynamic-field-bounds-invalid"@,
            CellScriptRuntimeError::TypeHashMismatch => "type-hash-mismatch"@,
            CellScriptRuntimeError::FixedByteComparisonUnresolved => "fixed-byte-comparison-unresolved"@,
            CellScriptRuntimeError::NumericOrDiscriminantInvalid => "numeric-or-discriminant-invalid"@,
            CellScriptRuntimeError::CollectionBoundsInvalid => "collection-bounds-invalid"@,
            CellScriptRuntimeError::ConsumeInvalidOperand => "consume-invalid-operand"@,
            CellScriptRuntimeError::DestroyInvalidOperand => "destroy-invalid-operand"@,
            CellScriptRuntimeError::CollectionRuntimeUnsupported => "collection-runtime-unsupported"@,
            CellScriptRuntimeError::EntryWitnessAbiInvalid => "entry-witness-abi-invalid"@,
            CellScriptRuntimeError::CapacityPreservationMismatch => "capacity-preservation-mismatch"@,
            CellScriptRuntimeError::DynamicFieldValueMismatch => "dynamic-field-value-mismatch"@,
            CellScriptRuntimeError::OutPointMismatch => "out-point-mismatch"@,
            CellScriptRuntimeError::ScriptFieldMalformed => "script-field-malformed"@,
            CellScriptRuntimeError::DaoHeaderLineageMismatch => "dao-header-lineage-mismatch"@,
            CellScriptRuntimeError::DaoMaturityViolation => "dao-maturity-violation"@,
            CellScriptRuntimeError::CkbSinceMalformed => "ckb-since-malformed"@,
            CellScriptRuntimeError::ScriptArgsMismatch => "script-args-mismatch"@,
            CellScriptRuntimeError::MetaPointMismatch => "metapoint-mismatch"@,
            CellScriptRuntimeError::MetaPointCardinalityMismatch => "metapoint-cardinality-mismatch"@,
            CellScriptRuntimeError::ScriptIdentityMismatch => "script-identity-mismatch"@,
            CellScriptRuntimeError::WitnessMalformed => "witness-malformed"@,
            CellScriptRuntimeError::WitnessFieldTruncated => "witness-field-truncated"@,
            CellScriptRuntimeError::CkbSourceViewInvalid => "ckb-source-view-invalid"@,
            CellScriptRuntimeError::HeaderDepMissing => "header-dep-missing"@,
            CellScriptRuntimeError::DaoFieldMalformed => "dao-field-malformed"@,
            CellScriptRuntimeError::ScriptRoleMismatch => "script-role-mismatch"@,
            CellScriptRuntimeError::XudtBindingMismatch => "xudt-binding-mismatch"@,
            CellScriptRuntimeError::AggregateAmountMismatch => "aggregate-amount-mismatch"@,
            CellScriptRuntimeError::Bip340PipeCreateFailed => "bip340-pipe-create-failed"@,
            CellScriptRuntimeError::Bip340SpawnFailed => "bip340-spawn-failed"@,
            CellScriptRuntimeError::Bip340MessageWriteFailed => "bip340-message-write-failed"@,
            CellScriptRuntimeError::Bip340PubkeyWriteFailed => "bip340-pubkey-write-failed"@,
            CellScriptRuntimeError::Bip340SignatureWriteFailed => "bip340-signature-write-failed"@,
            CellScriptRuntimeError::Bip340VerifierReadFailed => "bip340-verifier-read-failed"@,
            CellScriptRuntimeError::Bip340ChildRejected => "bip340-child-rejected"@,
            CellScriptRuntimeError::FixedU64LeInputUnresolved => "fixed-u64-le-input-unresolved"@,
            CellScriptRuntimeError::FixedByteComparisonMaterializationUnresolved => "fixed-byte-comparison-materialization-unresolved"@,
            CellScriptRuntimeError::Bip340MessageMaterializationUnresolved => "bip340-message-materialization-unresolved"@,
            CellScriptRuntimeError::Bip340PubkeyMaterializationUnresolved => "bip340-pubkey-materialization-unresolved"@,
            CellScriptRuntimeError::Bip340SignatureMaterializationUnresolved => "bip340-signature-materialization-unresolved"@,
            CellScriptRuntimeError::PackedHashPreimageMaterializationUnresolved => "packed-hash-preimage-materialization-unresolved"@,
            CellScriptRuntimeError::BoundedCellDepNotFound => "bounded-cell-dep-not-found"@,
            CellScriptRuntimeError::MerkleRootMismatch => "merkle-root-mismatch"@,
            CellScriptRuntimeError::ShiftAmountInvalid => "shift-amount-invalid"@,
            CellScriptRuntimeError::SighashAllUnsupported => "sighash-all-unsupported"@,
        }
    }

    /// What went wrong.
    pub open spec fn spec_description(self) -> Seq<char> {
        match self {
            CellScriptRuntimeError::SyscallFailed => "A target VM syscall returned a non-zero status while loading transaction context."@,
            CellScriptRuntimeError::BoundsCheckFailed => "Loaded bytes were smaller than the verifier-required minimum."@,
            CellScriptRuntimeError::CellLoadFailed => "Cell data or field loading failed or returned an unusable result."@,
            CellScriptRuntimeError::ExactSizeMismatch => "Loaded bytes did not match the exact fixed-size schema requirement."@,
            CellScriptRuntimeError::AssertionFailed => "A source-level assert or invariant check evaluated to false."@,
            CellScriptRuntimeError::FlowTransitionMismatch => "A flow transition did not match the declared transition rule."@,
            CellScriptRuntimeError::FlowNewStateInvalid => "A created or proposed output state value was outside the declared state range."@,
            CellScriptRuntimeError::FlowOldStateInvalid => "A consumed state value was outside the declared state range."@,
            CellScriptRuntimeError::EntryWitnessMagicMismatch => "Entry witness bytes did not start with the CellScript witness ABI magic."@,
            CellScriptRuntimeError::TypeHashPreservationMismatch => "A proposed output did not preserve the consumed input type hash."@,
            CellScriptRuntimeError::LockHashPreservationMismatch => "A proposed output did not preserve the consumed input lock hash."@,
            CellScriptRuntimeError::FieldPreservationMismatch => "An output field required to be preserved differs from its input field."@,
            CellScriptRuntimeError::MutateTransitionMismatch => "A proposed output failed its declared field transition check."@,
            CellScriptRuntimeError::DataPreservationMismatch => "Proposed output data outside transition ranges differs from the input data."@,
            CellScriptRuntimeError::DynamicFieldBoundsInvalid => "A Molecule dynamic field offset or length failed bounds validation."@,
            CellScriptRuntimeError::TypeHashMismatch => "A loaded cell type hash did not match the expected CellScript type identity."@,
            CellScriptRuntimeError::FixedByteComparisonUnresolved => "A fixed-byte verifier comparison could not resolve its trusted source bytes."@,
            CellScriptRuntimeError::NumericOrDiscriminantInvalid => "A numeric verifier check, enum discriminant, or arithmetic guard failed."@,
            CellScriptRuntimeError::CollectionBoundsInvalid => "A runtime collection index, length, or capacity check failed."@,
            CellScriptRuntimeError::ConsumeInvalidOperand => "A consume operation reached codegen with an invalid or unsupported operand."@,
            CellScriptRuntimeError::DestroyInvalidOperand => "A destroy operation reached codegen with an invalid or unsupported operand."@,
            CellScriptRuntimeError::CollectionRuntimeUnsupported => "A runtime collection helper shape is not supported by the current backend."@,
            CellScriptRuntimeError::EntryWitnessAbiInvalid => "Entry witness payload layout, width, or parameter ABI placement was invalid."@,
            CellScriptRuntimeError::CapacityPreservationMismatch => "A proposed output did not preserve the consumed input capacity."@,
            CellScriptRuntimeError::DynamicFieldValueMismatch => "A dynamic Molecule field value did not match the expected verifier source."@,
            CellScriptRuntimeError::OutPointMismatch => "A loaded input OutPoint field did not match the expected transaction lineage."@,
            CellScriptRuntimeError::ScriptFieldMalformed => "A loaded CKB Script field did not match the expected Molecule Script layout."@,
            CellScriptRuntimeError::DaoHeaderLineageMismatch => "The DAO field loaded from an input's committed block header did not match the supplied HeaderDep."@,
            CellScriptRuntimeError::DaoMaturityViolation => "The DAO input since value was below the required maturity lower bound."@,
            CellScriptRuntimeError::CkbSinceMalformed => "A CKB since value or requested since constructor argument was malformed."@,
            CellScriptRuntimeError::ScriptArgsMismatch => "A loaded CKB Script args field did not match the expected args policy."@,
            CellScriptRuntimeError::MetaPointMismatch => "A loaded CKB MetaPoint relation did not match the expected input/output index and relative distance."@,
            CellScriptRuntimeError::MetaPointCardinalityMismatch => "A current-script lock/type MetaPoint pair scan found a duplicate, missing, or unbalanced relation."@,
            CellScriptRuntimeError::ScriptIdentityMismatch => "A loaded CKB Script code_hash or hash_type did not match the expected identity."@,
            CellScriptRuntimeError::WitnessMalformed => "Loaded witness bytes did not match the expected Molecule WitnessArgs layout or ABI magic."@,
            CellScriptRuntimeError::WitnessFieldTruncated => "A WitnessArgs field offset or length exceeded the loaded witness byte range."@,
            CellScriptRuntimeError::CkbSourceViewInvalid => "A CKB SourceView value was malformed or used with an incompatible source-specific helper."@,
            CellScriptRuntimeError::HeaderDepMissing => "A required HeaderDep source view was absent or could not be bound to the requested header."@,
            CellScriptRuntimeError::DaoFieldMalformed => "A loaded DAO header or cell field did not match the expected encoded layout."@,
            CellScriptRuntimeError::ScriptRoleMismatch => "The script was used in a lock/type role that violates the declared invariant."@,
            CellScriptRuntimeError::XudtBindingMismatch => "An xUDT type args, owner-mode, or amount binding check failed."@,
            CellScriptRuntimeError::AggregateAmountMismatch => "A lowered aggregate/C256 accounting equality or inequality check failed."@,
            CellScriptRuntimeError::Bip340PipeCreateFailed => "The BIP340 runtime verifier path failed while creating the IPC pipe."@,
            CellScriptRuntimeError::Bip340SpawnFailed => "The BIP340 runtime verifier path failed while resolving or spawning the verifier CellDep."@,
            CellScriptRuntimeError::Bip340MessageWriteFailed => "The BIP340 runtime verifier path failed while writing the 32-byte message hash."@,
            CellScriptRuntimeError::Bip340PubkeyWriteFailed => "The BIP340 runtime verifier path failed while writing the 32-byte x-only pubkey."@,
            CellScriptRuntimeError::Bip340SignatureWriteFailed => "The BIP340 runtime verifier path failed while writing the 64-byte signature."@,
            CellScriptRuntimeError::Bip340VerifierReadFailed => "The BIP340 runtime verifier path failed while closing or reading verifier IPC status."@,
            CellScriptRuntimeError::Bip340ChildRejected => "The spawned BIP340 child verifier returned a non-zero verification status."@,
            CellScriptRuntimeError::FixedU64LeInputUnresolved => "The backend could not materialize a fixed-byte input for a u64 little-endian load."@,
            CellScriptRuntimeError::FixedByteComparisonMaterializationUnresolved => "The backend could not materialize one side of a fixed-byte comparison."@,
            CellScriptRuntimeError::Bip340MessageMaterializationUnresolved => "The backend could not materialize the 32-byte BIP340 message hash for verifier IPC."@,
            CellScriptRuntimeError::Bip340PubkeyMaterializationUnresolved => "The backend could not materialize the 32-byte BIP340 x-only pubkey for verifier IPC."@,
            CellScriptRuntimeError::Bip340SignatureMaterializationUnresolved => "The backend could not materialize the 64-byte BIP340 signature for verifier IPC."@,
            CellScriptRuntimeError::PackedHashPreimageMaterializationUnresolved => "The backend could not materialize canonical packed bytes for a packed hash preimage."@,
            CellScriptRuntimeError::BoundedCellDepNotFound => "A bounded CellDep scan did not find the required data hash before reaching the declared scan limit."@,
            CellScriptRuntimeError::MerkleRootMismatch => "A bounded Merkle proof did not reconstruct the expected root."@,
            CellScriptRuntimeError::ShiftAmountInvalid => "A runtime integer shift amount was greater than or equal to the left operand width."@,
            CellScriptRuntimeError::SighashAllUnsupported => "Canonical CKB transaction sighash construction is deferred and cannot produce a digest."@,
        }
    }

    /// Where to look first.
    pub open spec fn spec_hint(self) -> Seq<char> {
        match self {
            CellScriptRuntimeError::SyscallFailed => "Check transaction input/output/cell_dep indexes, source flags, and target-profile syscall compatibility."@,
            CellScriptRuntimeError::BoundsCheckFailed => "Check witness or cell data length against the schema manifest and entry ABI report."@,
            CellScriptRuntimeError::CellLoadFailed => "Check that the expected input, output, or dep cell exists and is reachable by the generated script."@,
            CellScriptRuntimeError::ExactSizeMismatch => "Check fixed-width schema fields and ensure the builder encodes the exact Molecule byte length."@,
            CellScriptRuntimeError::AssertionFailed => "Inspect the action invariant or assert expression and the transaction values that feed it."@,
            CellScriptRuntimeError::FlowTransitionMismatch => "Compare consumed and produced state fields with the declared flow transitions."@,
            CellScriptRuntimeError::FlowNewStateInvalid => "Check created output state values and declared flow states."@,
            CellScriptRuntimeError::FlowOldStateInvalid => "Check consumed input state values and declared flow states."@,
            CellScriptRuntimeError::EntryWitnessMagicMismatch => "Encode entry witnesses with cellc entry-witness or the documented CSARGv1 wire format."@,
            CellScriptRuntimeError::TypeHashPreservationMismatch => "Check the proposed output type script and builder output ordering."@,
            CellScriptRuntimeError::LockHashPreservationMismatch => "Check the proposed output lock script and builder output ordering."@,
            CellScriptRuntimeError::FieldPreservationMismatch => "Check proposed output fields that should preserve lock/type/data identity."@,
            CellScriptRuntimeError::MutateTransitionMismatch => "Check the mutable field delta against the documented transition formula."@,
            CellScriptRuntimeError::DataPreservationMismatch => "Check that non-transition output data bytes are copied from the consumed input."@,
            CellScriptRuntimeError::DynamicFieldBoundsInvalid => "Validate Molecule table offsets, field count, and dynamic field lengths."@,
            CellScriptRuntimeError::TypeHashMismatch => "Check type script hash/hash_type/args and the expected CellScript type identity."@,
            CellScriptRuntimeError::FixedByteComparisonUnresolved => "Use schema-backed parameters or fixed-byte values that the verifier can address."@,
            CellScriptRuntimeError::NumericOrDiscriminantInvalid => "Check enum tags, arithmetic bounds, and generated collection length arithmetic."@,
            CellScriptRuntimeError::CollectionBoundsInvalid => "Check collection length, index, and capacity values in witness or cell data."@,
            CellScriptRuntimeError::ConsumeInvalidOperand => "This indicates an unsupported lowering path; inspect compiler metadata blockers."@,
            CellScriptRuntimeError::DestroyInvalidOperand => "This indicates an unsupported lowering path; inspect compiler metadata blockers."@,
            CellScriptRuntimeError::CollectionRuntimeUnsupported => "Avoid advertising this collection helper as production-ready until support is implemented."@,
            CellScriptRuntimeError::EntryWitnessAbiInvalid => "Inspect cellc constraints or cellc abi output for parameter slots and witness byte layout."@,
            CellScriptRuntimeError::CapacityPreservationMismatch => "Check the proposed output capacity and builder output ordering."@,
            CellScriptRuntimeError::DynamicFieldValueMismatch => "Check dynamic Molecule field encoding and the value source used by the verifier."@,
            CellScriptRuntimeError::OutPointMismatch => "Check the input OutPoint tx hash/index and the expected lineage binding."@,
            CellScriptRuntimeError::ScriptFieldMalformed => "Check the lock/type Script Molecule encoding, args length, and whether the cell actually has that script field."@,
            CellScriptRuntimeError::DaoHeaderLineageMismatch => "Bind the HeaderDep to the exact input/deposit header used for DAO accumulated-rate accounting."@,
            CellScriptRuntimeError::DaoMaturityViolation => "Check the withdrawal request since value and ensure the consumed DAO input has reached the required maturity."@,
            CellScriptRuntimeError::CkbSinceMalformed => "Check reserved flags, metric type, scalar and timestamp bounds, epoch number/index/length, and requested mode/metric."@,
            CellScriptRuntimeError::ScriptArgsMismatch => "Check lock/type script args and whether this protocol path requires empty script args."@,
            CellScriptRuntimeError::MetaPointMismatch => "Check the paired input OutPoints or output indexes and the signed relative-distance field."@,
            CellScriptRuntimeError::MetaPointCardinalityMismatch => "Check current-script lock-only/type-only cell counts and ensure every MetaPoint has exactly one paired cell."@,
            CellScriptRuntimeError::ScriptIdentityMismatch => "Check Script code_hash, hash_type, deployed dep, and whether lock/type role is correct."@,
            CellScriptRuntimeError::WitnessMalformed => "Check witness byte layout, WitnessArgs table header, and entry ABI magic bytes."@,
            CellScriptRuntimeError::WitnessFieldTruncated => "Check that expected WitnessArgs field offsets plus field lengths stay within loaded witness size."@,
            CellScriptRuntimeError::CkbSourceViewInvalid => "Pass a SourceView produced by the matching source::* helper and keep indexes in range."@,
            CellScriptRuntimeError::HeaderDepMissing => "Add the required header dep and bind it to the input/deposit whose DAO data is read."@,
            CellScriptRuntimeError::DaoFieldMalformed => "Check DAO header bytes, accumulated-rate width, and deposit/withdrawal cell data layout."@,
            CellScriptRuntimeError::ScriptRoleMismatch => "Check whether the script is deployed and invoked as the expected lock or type script."@,
            CellScriptRuntimeError::XudtBindingMismatch => "Check xUDT type args, owner-mode flags, input type hash, and token data layout."@,
            CellScriptRuntimeError::AggregateAmountMismatch => "Compare generated aggregate inputs/outputs and inspect overflow or exact-equality assumptions."@,
            CellScriptRuntimeError::Bip340PipeCreateFailed => "Check CKB VM v2 pipe syscall availability and parent script VM version."@,
            CellScriptRuntimeError::Bip340SpawnFailed => "Check verifier CellDep ordering, out_point, hash_type, and spawn source/place wiring."@,
            CellScriptRuntimeError::Bip340MessageWriteFailed => "Compare the generated 32-byte message hash words with the verifier CLI input."@,
            CellScriptRuntimeError::Bip340PubkeyWriteFailed => "Compare the generated 32-byte x-only pubkey words with the verifier CLI input."@,
            CellScriptRuntimeError::Bip340SignatureWriteFailed => "Compare the generated 64-byte signature words with the verifier CLI input."@,
            CellScriptRuntimeError::Bip340VerifierReadFailed => "Check IPC fd close/read/wait wiring between parent and child verifier."@,
            CellScriptRuntimeError::Bip340ChildRejected => "Run the exact message, pubkey, and signature tuple through the local verifier CLI."@,
            CellScriptRuntimeError::FixedU64LeInputUnresolved => "Inspect schema field provenance for the fixed-byte scalar source."@,
            CellScriptRuntimeError::FixedByteComparisonMaterializationUnresolved => "Inspect fixed-byte provenance for schema fields, aliases, nested projections, and local aggregates."@,
            CellScriptRuntimeError::Bip340MessageMaterializationUnresolved => "Compare signed_intent_hash provenance with the local verifier tuple."@,
            CellScriptRuntimeError::Bip340PubkeyMaterializationUnresolved => "Inspect the nested witness pubkey field source and copied ABI bytes."@,
            CellScriptRuntimeError::Bip340SignatureMaterializationUnresolved => "Inspect the nested witness signature field source and copied ABI bytes."@,
            CellScriptRuntimeError::PackedHashPreimageMaterializationUnresolved => "Inspect packed-hash lowering and schema-backed fixed aggregate materialization."@,
            CellScriptRuntimeError::BoundedCellDepNotFound => "Check the expected data hash, resolved CellDep order, scan limit, and manifest-pinned DepGroup origin."@,
            CellScriptRuntimeError::MerkleRootMismatch => "Check leaf byte order, sibling order, depth, leaf index, hash algorithm, and expected root."@,
            CellScriptRuntimeError::ShiftAmountInvalid => "Keep runtime shift amounts below the bit width of the shifted integer value."@,
            CellScriptRuntimeError::SighashAllUnsupported => "Use an authenticated standard Lock or an explicit verifier with an independently specified message contract."@,
        }
    }

    /// The stable numeric code.
    pub fn code(self) -> (r: u64)
        ensures
            r == self.spec_code(),
    {
        match self {
            CellScriptRuntimeError::SyscallFailed => 1,
            CellScriptRuntimeError::BoundsCheckFailed => 2,
            CellScriptRuntimeError::CellLoadFailed => 3,
            CellScriptRuntimeError::ExactSizeMismatch => 4,
            CellScriptRuntimeError::AssertionFailed => 5,
            CellScriptRuntimeError::FlowTransitionMismatch => 7,
            CellScriptRuntimeError::FlowNewStateInvalid => 8,
            CellScriptRuntimeError::FlowOldStateInvalid => 9,
            CellScriptRuntimeError::EntryWitnessMagicMismatch => 10,
            CellScriptRuntimeError::TypeHashPreservationMismatch => 11,
            CellScriptRuntimeError::LockHashPreservationMismatch => 12,
            CellScriptRuntimeError::FieldPreservationMismatch => 13,
            CellScriptRuntimeError::MutateTransitionMismatch => 14,
            CellScriptRuntimeError::DataPreservationMismatch => 15,
            CellScriptRuntimeError::DynamicFieldBoundsInvalid => 16,
            CellScriptRuntimeError::TypeHashMismatch => 17,
            CellScriptRuntimeError::FixedByteComparisonUnresolved => 18,
            CellScriptRuntimeError::NumericOrDiscriminantInvalid => 20,
            CellScriptRuntimeError::CollectionBoundsInvalid => 21,
            CellScriptRuntimeError::ConsumeInvalidOperand => 22,
            CellScriptRuntimeError::DestroyInvalidOperand => 23,
            CellScriptRuntimeError::CollectionRuntimeUnsupported => 24,
            CellScriptRuntimeError::EntryWitnessAbiInvalid => 25,
            CellScriptRuntimeError::CapacityPreservationMismatch => 26,
            CellScriptRuntimeError::DynamicFieldValueMismatch => 32,
            CellScriptRuntimeError::OutPointMismatch => 33,
            CellScriptRuntimeError::ScriptFieldMalformed => 34,
            CellScriptRuntimeError::DaoHeaderLineageMismatch => 35,
            CellScriptRuntimeError::DaoMaturityViolation => 36,
            CellScriptRuntimeError::CkbSinceMalformed => 37,
            CellScriptRuntimeError::ScriptArgsMismatch => 38,
            CellScriptRuntimeError::MetaPointMismatch => 39,
            CellScriptRuntimeError::MetaPointCardinalityMismatch => 40,
            CellScriptRuntimeError::ScriptIdentityMismatch => 41,
            CellScriptRuntimeError::WitnessMalformed => 42,
            CellScriptRuntimeError::WitnessFieldTruncated => 43,
            CellScriptRuntimeError::CkbSourceViewInvalid => 44,
            CellScriptRuntimeError::HeaderDepMissing => 45,
            CellScriptRuntimeError::DaoFieldMalformed => 46,
            CellScriptRuntimeError::ScriptRoleMismatch => 47,
            CellScriptRuntimeError::XudtBindingMismatch => 48,
            CellScriptRuntimeError::AggregateAmountMismatch => 49,
            CellScriptRuntimeError::Bip340PipeCreateFailed => 50,
            CellScriptRuntimeError::Bip340SpawnFailed => 51,
            CellScriptRuntimeError::Bip340MessageWriteFailed => 52,
            CellScriptRuntimeError::Bip340PubkeyWriteFailed => 53,
            CellScriptRuntimeError::Bip340SignatureWriteFailed => 54,
            CellScriptRuntimeError::Bip340VerifierReadFailed => 55,
            CellScriptRuntimeError::Bip340ChildRejected => 56,
            CellScriptRuntimeError::FixedU64LeInputUnresolved => 57,
            CellScriptRuntimeError::FixedByteComparisonMaterializationUnresolved => 58,
            CellScriptRuntimeError::Bip340MessageMaterializationUnresolved => 59,
            CellScriptRuntimeError::Bip340PubkeyMaterializationUnresolved => 60,
            CellScriptRuntimeError::Bip340SignatureMaterializationUnresolved => 61,
            CellScriptRuntimeError::PackedHashPreimageMaterializationUnresolved => 62,
            CellScriptRuntimeError::BoundedCellDepNotFound => 63,
            CellScriptRuntimeError::MerkleRootMismatch => 64,
            CellScriptRuntimeError::ShiftAmountInvalid => 65,
            CellScriptRuntimeError::SighashAllUnsupported => 66,
        }
    }

    /// The stable kebab-case name.
    pub fn name(self) -> (r: &'static str)
        ensures
            r@ == self.spec_name(),
    {
        match self {
            CellScriptRuntimeError::SyscallFailed => "syscall-failed",
            CellScriptRuntimeError::BoundsCheckFailed => "bounds-check-failed",
            CellScriptRuntimeError::CellLoadFailed => "cell-load-failed",
            CellScriptRuntimeError::ExactSizeMismatch => "exact-size-mismatch",
            CellScriptRuntimeError::AssertionFailed => "assertion-failed",
            CellScriptRuntimeError::FlowTransitionMismatch => "flow-transition-mismatch",
            CellScriptRuntimeError::FlowNewStateInvalid => "flow-new-state-invalid",
            CellScriptRuntimeError::FlowOldStateInvalid => "flow-old-state-invalid",
            CellScriptRuntimeError::EntryWitnessMagicMismatch => "entry-witness-magic-mismatch",
            CellScriptRuntimeError::TypeHashPreservationMismatch => "type-hash-preservation-mismatch",
            CellScriptRuntimeError::LockHashPreservationMismatch => "lock-hash-preservation-mismatch",
            CellScriptRuntimeError::FieldPreservationMismatch => "field-preservation-mismatch",
            CellScriptRuntimeError::MutateTransitionMismatch => "mutate-transition-mismatch",
            CellScriptRuntimeError::DataPreservationMismatch => "data-preservation-mismatch",
            CellScriptRuntimeError::DynamicFieldBoundsInvalid => "dynamic-field-bounds-invalid",
            CellScriptRuntimeError::TypeHashMismatch => "type-hash-mismatch",
            CellScriptRuntimeError::FixedByteComparisonUnresolved => "fixed-byte-comparison-unresolved",
            CellScriptRuntimeError::NumericOrDiscriminantInvalid => "numeric-or-discriminant-invalid",
            CellScriptRuntimeError::CollectionBoundsInvalid => "collection-bounds-invalid",
            CellScriptRuntimeError::ConsumeInvalidOperand => "consume-invalid-operand",
            CellScriptRuntimeError::DestroyInvalidOperand => "destroy-invalid-operand",
            CellScriptRuntimeError::CollectionRuntimeUnsupported => "collection-runtime-unsupported",
            CellScriptRuntimeError::EntryWitnessAbiInvalid => "entry-witness-abi-invalid",
            CellScriptRuntimeError::CapacityPreservationMismatch => "capacity-preservation-mismatch",
            CellScriptRuntimeError::DynamicFieldValueMismatch => "dynamic-field-value-mismatch",
            CellScriptRuntimeError::OutPointMismatch => "out-point-mismatch",
            CellScriptRuntimeError::ScriptFieldMalformed => "script-field-malformed",
            CellScriptRuntimeError::DaoHeaderLineageMismatch => "dao-header-lineage-mismatch",
            CellScriptRuntimeError::DaoMaturityViolation => "dao-maturity-violation",
            CellScriptRuntimeError::CkbSinceMalformed => "ckb-since-malformed",
            CellScriptRuntimeError::ScriptArgsMismatch => "script-args-mismatch",
            CellScriptRuntimeError::MetaPointMismatch => "metapoint-mismatch",
            CellScriptRuntimeError::MetaPointCardinalityMismatch => "metapoint-cardinality-mismatch",
            CellScriptRuntimeError::ScriptIdentityMismatch => "script-identity-mismatch",
            CellScriptRuntimeError::WitnessMalformed => "witness-malformed",
            CellScriptRuntimeError::WitnessFieldTruncated => "witness-field-truncated",
            CellScriptRuntimeError::CkbSourceViewInvalid => "ckb-source-view-invalid",
            CellScriptRuntimeError::HeaderDepMissing => "header-dep-missing",
            CellScriptRuntimeError::DaoFieldMalformed => "dao-field-malformed",
            CellScriptRuntimeError::ScriptRoleMismatch => "script-role-mismatch",
            CellScriptRuntimeError::XudtBindingMismatch => "xudt-binding-mismatch",
            CellScriptRuntimeError::AggregateAmountMismatch => "aggregate-amount-mismatch",
            CellScriptRuntimeError::Bip340PipeCreateFailed => "bip340-pipe-create-failed",
            CellScriptRuntimeError::Bip340SpawnFailed => "bip340-spawn-failed",
            CellScriptRuntimeError::Bip340MessageWriteFailed => "bip340-message-write-failed",
            CellScriptRuntimeError::Bip340PubkeyWriteFailed => "bip340-pubkey-write-failed",
            CellScriptRuntimeError::Bip340SignatureWriteFailed => "bip340-signature-write-failed",
            CellScriptRuntimeError::Bip340VerifierReadFailed => "bip340-verifier-read-failed",
            CellScriptRuntimeError::Bip340ChildRejected => "bip340-child-rejected",
            CellScriptRuntimeError::FixedU64LeInputUnresolved => "fixed-u64-le-input-unresolved",
            CellScriptRuntimeError::FixedByteComparisonMaterializationUnresolved => "fixed-byte-comparison-materialization-unresolved",
            CellScriptRuntimeError::Bip340MessageMaterializationUnresolved => "bip340-message-materialization-unresolved",
            CellScriptRuntimeError::Bip340PubkeyMaterializationUnresolved => "bip340-pubkey-materialization-unresolved",
            CellScriptRuntimeError::Bip340SignatureMaterializationUnresolved => "bip340-signature-materialization-unresolved",
            CellScriptRuntimeError::PackedHashPreimageMaterializationUnresolved => "packed-hash-preimage-materialization-unresolved",
            CellScriptRuntimeError::BoundedCellDepNotFound => "bounded-cell-dep-not-found",
            CellScriptRuntimeError::MerkleRootMismatch => "merkle-root-mismatch",
            CellScriptRuntimeError::ShiftAmountInvalid => "shift-amount-invalid",
            CellScriptRuntimeError::SighashAllUnsupported => "sighash-all-unsupported",
        }
    }

    /// What went wrong.
    pub fn description(self) -> (r: &'static str)
        ensures
            r@ == self.spec_description(),
    {
        match self {
            CellScriptRuntimeError::SyscallFailed => "A target VM syscall returned a non-zero status while loading transaction context.",
            CellScriptRuntimeError::BoundsCheckFailed => "Loaded bytes were smaller than the verifier-required minimum.",
            CellScriptRuntimeError::CellLoadFailed => "Cell data or field loading failed or returned an unusable result.",
            CellScriptRuntimeError::ExactSizeMismatch => "Loaded bytes did not match the exact fixed-size schema requirement.",
            CellScriptRuntimeError::AssertionFailed => "A source-level assert or invariant check evaluated to false.",
            CellScriptRuntimeError::FlowTransitionMismatch => "A flow transition did not match the declared transition rule.",
            CellScriptRuntimeError::FlowNewStateInvalid => "A created or proposed output state value was outside the declared state range.",
            CellScriptRuntimeError::FlowOldStateInvalid => "A consumed state value was outside the declared state range.",
            CellScriptRuntimeError::EntryWitnessMagicMismatch => "Entry witness bytes did not start with the CellScript witness ABI magic.",
            CellScriptRuntimeError::TypeHashPreservationMismatch => "A proposed output did not preserve the consumed input type hash.",
            CellScriptRuntimeError::LockHashPreservationMismatch => "A proposed output did not preserve the consumed input lock hash.",
            CellScriptRuntimeError::FieldPreservationMismatch => "An output field required to be preserved differs from its input field.",
            CellScriptRuntimeError::MutateTransitionMismatch => "A proposed output failed its declared field transition check.",
            CellScriptRuntimeError::DataPreservationMismatch => "Proposed output data outside transition ranges differs from the input data.",
            CellScriptRuntimeError::DynamicFieldBoundsInvalid => "A Molecule dynamic field offset or length failed bounds validation.",
            CellScriptRuntimeError::TypeHashMismatch => "A loaded cell type hash did not match the expected CellScript type identity.",
            CellScriptRuntimeError::FixedByteComparisonUnresolved => "A fixed-byte verifier comparison could not resolve its trusted source bytes.",
            CellScriptRuntimeError::NumericOrDiscriminantInvalid => "A numeric verifier check, enum discriminant, or arithmetic guard failed.",
            CellScriptRuntimeError::CollectionBoundsInvalid => "A runtime collection index, length, or capacity check failed.",
            CellScriptRuntimeError::ConsumeInvalidOperand => "A consume operation reached codegen with an invalid or unsupported operand.",
            CellScriptRuntimeError::DestroyInvalidOperand => "A destroy operation reached codegen with an invalid or unsupported operand.",
            CellScriptRuntimeError::CollectionRuntimeUnsupported => "A runtime collection helper shape is not supported by the current backend.",
            CellScriptRuntimeError::EntryWitnessAbiInvalid => "Entry witness payload layout, width, or parameter ABI placement was invalid.",
            CellScriptRuntimeError::CapacityPreservationMismatch => "A proposed output did not preserve the consumed input capacity.",
            CellScriptRuntimeError::DynamicFieldValueMismatch => "A dynamic Molecule field value did not match the expected verifier source.",
            CellScriptRuntimeError::OutPointMismatch => "A loaded input OutPoint field did not match the expected transaction lineage.",
            CellScriptRuntimeError::ScriptFieldMalformed => "A loaded CKB Script field did not match the expected Molecule Script layout.",
            CellScriptRuntimeError::DaoHeaderLineageMismatch => "The DAO field loaded from an input's committed block header did not match the supplied HeaderDep.",
            CellScriptRuntimeError::DaoMaturityViolation => "The DAO input since value was below the required maturity lower bound.",
            CellScriptRuntimeError::CkbSinceMalformed => "A CKB since value or requested since constructor argument was malformed.",
            CellScriptRuntimeError::ScriptArgsMismatch => "A loaded CKB Script args field did not match the expected args policy.",
            CellScriptRuntimeError::MetaPointMismatch => "A loaded CKB MetaPoint relation did not match the expected input/output index and relative distance.",
            CellScriptRuntimeError::MetaPointCardinalityMismatch => "A current-script lock/type MetaPoint pair scan found a duplicate, missing, or unbalanced relation.",
            CellScriptRuntimeError::ScriptIdentityMismatch => "A loaded CKB Script code_hash or hash_type did not match the expected identity.",
            CellScriptRuntimeError::WitnessMalformed => "Loaded witness bytes did not match the expected Molecule WitnessArgs layout or ABI magic.",
            CellScriptRuntimeError::WitnessFieldTruncated => "A WitnessArgs field offset or length exceeded the loaded witness byte range.",
            CellScriptRuntimeError::CkbSourceViewInvalid => "A CKB SourceView value was malformed or used with an incompatible source-specific helper.",
            CellScriptRuntimeError::HeaderDepMissing => "A required HeaderDep source view was absent or could not be bound to the requested header.",
            CellScriptRuntimeError::DaoFieldMalformed => "A loaded DAO header or cell field did not match the expected encoded layout.",
            CellScriptRuntimeError::ScriptRoleMismatch => "The script was used in a lock/type role that violates the declared invariant.",
            CellScriptRuntimeError::XudtBindingMismatch => "An xUDT type args, owner-mode, or amount binding check failed.",
            CellScriptRuntimeError::AggregateAmountMismatch => "A lowered aggregate/C256 accounting equality or inequality check failed.",
            CellScriptRuntimeError::Bip340PipeCreateFailed => "The BIP340 runtime verifier path failed while creating the IPC pipe.",
            CellScriptRuntimeError::Bip340SpawnFailed => "The BIP340 runtime verifier path failed while resolving or spawning the verifier CellDep.",
            CellScriptRuntimeError::Bip340MessageWriteFailed => "The BIP340 runtime verifier path failed while writing the 32-byte message hash.",
            CellScriptRuntimeError::Bip340PubkeyWriteFailed => "The BIP340 runtime verifier path failed while writing the 32-byte x-only pubkey.",
            CellScriptRuntimeError::Bip340SignatureWriteFailed => "The BIP340 runtime verifier path failed while writing the 64-byte signature.",
            CellScriptRuntimeError::Bip340VerifierReadFailed => "The BIP340 runtime verifier path failed while closing or reading verifier IPC status.",
            CellScriptRuntimeError::Bip340ChildRejected => "The spawned BIP340 child verifier returned a non-zero verification status.",
            CellScriptRuntimeError::FixedU64LeInputUnresolved => "The backend could not materialize a fixed-byte input for a u64 little-endian load.",
            CellScriptRuntimeError::FixedByteComparisonMaterializationUnresolved => "The backend could not materialize one side of a fixed-byte comparison.",
            CellScriptRuntimeError::Bip340MessageMaterializationUnresolved => "The backend could not materialize the 32-byte BIP340 message hash for verifier IPC.",
            CellScriptRuntimeError::Bip340PubkeyMaterializationUnresolved => "The backend could not materialize the 32-byte BIP340 x-only pubkey for verifier IPC.",
            CellScriptRuntimeError::Bip340SignatureMaterializationUnresolved => "The backend could not materialize the 64-byte BIP340 signature for verifier IPC.",
            CellScriptRuntimeError::PackedHashPreimageMaterializationUnresolved => "The backend could not materialize canonical packed bytes for a packed hash preimage.",
            CellScriptRuntimeError::BoundedCellDepNotFound => "A bounded CellDep scan did not find the required data hash before reaching the declared scan limit.",
            CellScriptRuntimeError::MerkleRootMismatch => "A bounded Merkle proof did not reconstruct the expected root.",
            CellScriptRuntimeError::ShiftAmountInvalid => "A runtime integer shift amount was greater than or equal to the left operand width.",
            CellScriptRuntimeError::SighashAllUnsupported => "Canonical CKB transaction sighash construction is deferred and cannot produce a digest.",
        }
    }

    /// Where to look first.
    pub fn hint(self) -> (r: &'static str)
        ensures
            r@ == self.spec_hint(),
    {
        match self {
            CellScriptRuntimeError::SyscallFailed => "Check transaction input/output/cell_dep indexes, source flags, and target-profile syscall compatibility.",
            CellScriptRuntimeError::BoundsCheckFailed => "Check witness or cell data length against the schema manifest and entry ABI report.",
            CellScriptRuntimeError::CellLoadFailed => "Check that the expected input, output, or dep cell exists and is reachable by the generated script.",
            CellScriptRuntimeError::ExactSizeMismatch => "Check fixed-width schema fields and ensure the builder encodes the exact Molecule byte length.",
            CellScriptRuntimeError::AssertionFailed => "Inspect the action invariant or assert expression and the transaction values that feed it.",
            CellScriptRuntimeError::FlowTransitionMismatch => "Compare consumed and produced state fields with the declared flow transitions.",
            CellScriptRuntimeError::FlowNewStateInvalid => "Check created output state values and declared flow states.",
            CellScriptRuntimeError::FlowOldStateInvalid => "Check consumed input state values and declared flow states.",
            CellScriptRuntimeError::EntryWitnessMagicMismatch => "Encode entry witnesses with cellc entry-witness or the documented CSARGv1 wire format.",
            CellScriptRuntimeError::TypeHashPreservationMismatch => "Check the proposed output type script and builder output ordering.",
            CellScriptRuntimeError::LockHashPreservationMismatch => "Check the proposed output lock script and builder output ordering.",
            CellScriptRuntimeError::FieldPreservationMismatch => "Check proposed output fields that should preserve lock/type/data identity.",
            CellScriptRuntimeError::MutateTransitionMismatch => "Check the mutable field delta against the documented transition formula.",
            CellScriptRuntimeError::DataPreservationMismatch => "Check that non-transition output data bytes are copied from the consumed input.",
            CellScriptRuntimeError::DynamicFieldBoundsInvalid => "Validate Molecule table offsets, field count, and dynamic field lengths.",
            CellScriptRuntimeError::TypeHashMismatch => "Check type script hash/hash_type/args and the expected CellScript type identity.",
            CellScriptRuntimeError::FixedByteComparisonUnresolved => "Use schema-backed parameters or fixed-byte values that the verifier can address.",
            CellScriptRuntimeError::NumericOrDiscriminantInvalid => "Check enum tags, arithmetic bounds, and generated collection length arithmetic.",
            CellScriptRuntimeError::CollectionBoundsInvalid => "Check collection length, index, and capacity values in witness or cell data.",
            CellScriptRuntimeError::ConsumeInvalidOperand => "This indicates an unsupported lowering path; inspect compiler metadata blockers.",
            CellScriptRuntimeError::DestroyInvalidOperand => "This indicates an unsupported lowering path; inspect compiler metadata blockers.",
            CellScriptRuntimeError::CollectionRuntimeUnsupported => "Avoid advertising this collection helper as production-ready until support is implemented.",
            CellScriptRuntimeError::EntryWitnessAbiInvalid => "Inspect cellc constraints or cellc abi output for parameter slots and witness byte layout.",
            CellScriptRuntimeError::CapacityPreservationMismatch => "Check the proposed output capacity and builder output ordering.",
            CellScriptRuntimeError::DynamicFieldValueMismatch => "Check dynamic Molecule field encoding and the value source used by the verifier.",
            CellScriptRuntimeError::OutPointMismatch => "Check the input OutPoint tx hash/index and the expected lineage binding.",
            CellScriptRuntimeError::ScriptFieldMalformed => "Check the lock/type Script Molecule encoding, args length, and whether the cell actually has that script field.",
            CellScriptRuntimeError::DaoHeaderLineageMismatch => "Bind the HeaderDep to the exact input/deposit header used for DAO accumulated-rate accounting.",
            CellScriptRuntimeError::DaoMaturityViolation => "Check the withdrawal request since value and ensure the consumed DAO input has reached the required maturity.",
            CellScriptRuntimeError::CkbSinceMalformed => "Check reserved flags, metric type, scalar and timestamp bounds, epoch number/index/length, and requested mode/metric.",
            CellScriptRuntimeError::ScriptArgsMismatch => "Check lock/type script args and whether this protocol path requires empty script args.",
            CellScriptRuntimeError::MetaPointMismatch => "Check the paired input OutPoints or output indexes and the signed relative-distance field.",
            CellScriptRuntimeError::MetaPointCardinalityMismatch => "Check current-script lock-only/type-only cell counts and ensure every MetaPoint has exactly one paired cell.",
            CellScriptRuntimeError::ScriptIdentityMismatch => "Check Script code_hash, hash_type, deployed dep, and whether lock/type role is correct.",
            CellScriptRuntimeError::WitnessMalformed => "Check witness byte layout, WitnessArgs table header, and entry ABI magic bytes.",
            CellScriptRuntimeError::WitnessFieldTruncated => "Check that expected WitnessArgs field offsets plus field lengths stay within loaded witness size.",
            CellScriptRuntimeError::CkbSourceViewInvalid => "Pass a SourceView produced by the matching source::* helper and keep indexes in range.",
            CellScriptRuntimeError::HeaderDepMissing => "Add the required header dep and bind it to the input/deposit whose DAO data is read.",
            CellScriptRuntimeError::DaoFieldMalformed => "Check DAO header bytes, accumulated-rate width, and deposit/withdrawal cell data layout.",
            CellScriptRuntimeError::ScriptRoleMismatch => "Check whether the script is deployed and invoked as the expected lock or type script.",
            CellScriptRuntimeError::XudtBindingMismatch => "Check xUDT type args, owner-mode flags, input type hash, and token data layout.",
            CellScriptRuntimeError::AggregateAmountMismatch => "Compare generated aggregate inputs/outputs and inspect overflow or exact-equality assumptions.",
            CellScriptRuntimeError::Bip340PipeCreateFailed => "Check CKB VM v2 pipe syscall availability and parent script VM version.",
            CellScriptRuntimeError::Bip340SpawnFailed => "Check verifier CellDep ordering, out_point, hash_type, and spawn source/place wiring.",
            CellScriptRuntimeError::Bip340MessageWriteFailed => "Compare the generated 32-byte message hash words with the verifier CLI input.",
            CellScriptRuntimeError::Bip340PubkeyWriteFailed => "Compare the generated 32-byte x-only pubkey words with the verifier CLI input.",
            CellScriptRuntimeError::Bip340SignatureWriteFailed => "Compare the generated 64-byte signature words with the verifier CLI input.",
            CellScriptRuntimeError::Bip340VerifierReadFailed => "Check IPC fd close/read/wait wiring between parent and child verifier.",
            CellScriptRuntimeError::Bip340ChildRejected => "Run the exact message, pubkey, and signature tuple through the local verifier CLI.",
            CellScriptRuntimeError::FixedU64LeInputUnresolved => "Inspect schema field provenance for the fixed-byte scalar source.",
            CellScriptRuntimeError::FixedByteComparisonMaterializationUnresolved => "Inspect fixed-byte provenance for schema fields, aliases, nested projections, and local aggregates.",
            CellScriptRuntimeError::Bip340MessageMaterializationUnresolved => "Compare signed_intent_hash provenance with the local verifier tuple.",
            CellScriptRuntimeError::Bip340PubkeyMaterializationUnresolved => "Inspect the nested witness pubkey field source and copied ABI bytes.",
            CellScriptRuntimeError::Bip340SignatureMaterializationUnresolved => "Inspect the nested witness signature field source and copied ABI bytes.",
            CellScriptRuntimeError::PackedHashPreimageMaterializationUnresolved => "Inspect packed-hash lowering and schema-backed fixed aggregate materialization.",
            CellScriptRuntimeError::BoundedCellDepNotFound => "Check the expected data hash, resolved CellDep order, scan limit, and manifest-pinned DepGroup origin.",
            CellScriptRuntimeError::MerkleRootMismatch => "Check leaf byte order, sibling order, depth, leaf index, hash algorithm, and expected root.",
            CellScriptRuntimeError::ShiftAmountInvalid => "Keep runtime shift amounts below the bit width of the shifted integer value.",
            CellScriptRuntimeError::SighashAllUnsupported => "Use an authenticated standard Lock or an explicit verifier with an independently specified message contract.",
        }
    }

    /// The error registered under `code`, if any.
    pub fn from_code(code: u64) -> (r: Option<Self>)
        ensures
            r matches Some(e) ==> e.spec_code() == code,
            r is None <==> (forall|e: Self| #[trigger] e.spec_code() != code),
    {
        let r = match code {
            1 => Some(CellScriptRuntimeError::SyscallFailed),
            2 => Some(CellScriptRuntimeError::BoundsCheckFailed),
            3 => Some(CellScriptRuntimeError::CellLoadFailed),
            4 => Some(CellScriptRuntimeError::ExactSizeMismatch),
            5 => Some(CellScriptRuntimeError::AssertionFailed),
            7 => Some(CellScriptRuntimeError::FlowTransitionMismatch),
            8 => Some(CellScriptRuntimeError::FlowNewStateInvalid),
            9 => Some(CellScriptRuntimeError::FlowOldStateInvalid),
            10 => Some(CellScriptRuntimeError::EntryWitnessMagicMismatch),
            11 => Some(CellScriptRuntimeError::TypeHashPreservationMismatch),
            12 => Some(CellScriptRuntimeError::LockHashPreservationMismatch),
            13 => Some(CellScriptRuntimeError::FieldPreservationMismatch),
            14 => Some(CellScriptRuntimeError::MutateTransitionMismatch),
            15 => Some(CellScriptRuntimeError::DataPreservationMismatch),
            16 => Some(CellScriptRuntimeError::DynamicFieldBoundsInvalid),
            17 => Some(CellScriptRuntimeError::TypeHashMismatch),
            18 => Some(CellScriptRuntimeError::FixedByteComparisonUnresolved),
            20 => Some(CellScriptRuntimeError::NumericOrDiscriminantInvalid),
            21 => Some(CellScriptRuntimeError::CollectionBoundsInvalid),
            22 => Some(CellScriptRuntimeError::ConsumeInvalidOperand),
            23 => Some(CellScriptRuntimeError::DestroyInvalidOperand),
            24 => Some(CellScriptRuntimeError::CollectionRuntimeUnsupported),
            25 => Some(CellScriptRuntimeError::EntryWitnessAbiInvalid),
            26 => Some(CellScriptRuntimeError::CapacityPreservationMismatch),
            32 => Some(CellScriptRuntimeError::DynamicFieldValueMismatch),
            33 => Some(CellScriptRuntimeError::OutPointMismatch),
            34 => Some(CellScriptRuntimeError::ScriptFieldMalformed),
            35 => Some(CellScriptRuntimeError::DaoHeaderLineageMismatch),
            36 => Some(CellScriptRuntimeError::DaoMaturityViolation),
            37 => Some(CellScriptRuntimeError::CkbSinceMalformed),
            38 => Some(CellScriptRuntimeError::ScriptArgsMismatch),
            39 => Some(CellScriptRuntimeError::MetaPointMismatch),
            40 => Some(CellScriptRuntimeError::MetaPointCardinalityMismatch),
            41 => Some(CellScriptRuntimeError::ScriptIdentityMismatch),
            42 => Some(CellScriptRuntimeError::WitnessMalformed),
            43 => Some(CellScriptRuntimeError::WitnessFieldTruncated),
            44 => Some(CellScriptRuntimeError::CkbSourceViewInvalid),
            45 => Some(CellScriptRuntimeError::HeaderDepMissing),
            46 => Some(CellScriptRuntimeError::DaoFieldMalformed),
            47 => Some(CellScriptRuntimeError::ScriptRoleMismatch),
            48 => Some(CellScriptRuntimeError::XudtBindingMismatch),
            49 => Some(CellScriptRuntimeError::AggregateAmountMismatch),
            50 => Some(CellScriptRuntimeError::Bip340PipeCreateFailed),
            51 => Some(CellScriptRuntimeError::Bip340SpawnFailed),
            52 => Some(CellScriptRuntimeError::Bip340MessageWriteFailed),
            53 => Some(CellScriptRuntimeError::Bip340PubkeyWriteFailed),
            54 => Some(CellScriptRuntimeError::Bip340SignatureWriteFailed),
            55 => Some(CellScriptRuntimeError::Bip340VerifierReadFailed),
            56 => Some(CellScriptRuntimeError::Bip340ChildRejected),
            57 => Some(CellScriptRuntimeError::FixedU64LeInputUnresolved),
            58 => Some(CellScriptRuntimeError::FixedByteComparisonMaterializationUnresolved),
            59 => Some(CellScriptRuntimeError::Bip340MessageMaterializationUnresolved),
            60 => Some(CellScriptRuntimeError::Bip340PubkeyMaterializationUnresolved),
            61 => Some(CellScriptRuntimeError::Bip340SignatureMaterializationUnresolved),
            62 => Some(CellScriptRuntimeError::PackedHashPreimageMaterializationUnresolved),
            63 => Some(CellScriptRuntimeError::BoundedCellDepNotFound),
            64 => Some(CellScriptRuntimeError::MerkleRootMismatch),
            65 => Some(CellScriptRuntimeError::ShiftAmountInvalid),
            66 => Some(CellScriptRuntimeError::SighashAllUnsupported),
            _ => None,
        };
        proof {
            if let Some(e) = r {
                assert(e.spec_code() == code);
            }
        }
        r
    }
}

/// Every registered error, in code order.
pub open spec fn spec_all_runtime_errors() -> Seq<CellScriptRuntimeError> {
    seq![
        CellScriptRuntimeError::SyscallFailed,
        CellScriptRuntimeError::BoundsCheckFailed,
        CellScriptRuntimeError::CellLoadFailed,
        CellScriptRuntimeError::ExactSizeMismatch,
        CellScriptRuntimeError::AssertionFailed,
        CellScriptRuntimeError::FlowTransitionMismatch,
        CellScriptRuntimeError::FlowNewStateInvalid,
        CellScriptRuntimeError::FlowOldStateInvalid,
        CellScriptRuntimeError::EntryWitnessMagicMismatch,
        CellScriptRuntimeError::TypeHashPreservationMismatch,
        CellScriptRuntimeError::LockHashPreservationMismatch,
        CellScriptRuntimeError::FieldPreservationMismatch,
        CellScriptRuntimeError::MutateTransitionMismatch,
        CellScriptRuntimeError::DataPreservationMismatch,
        CellScriptRuntimeError::DynamicFieldBoundsInvalid,
        CellScriptRuntimeError::TypeHashMismatch,
        CellScriptRuntimeError::FixedByteComparisonUnresolved,
        CellScriptRuntimeError::NumericOrDiscriminantInvalid,
        CellScriptRuntimeError::CollectionBoundsInvalid,
        CellScriptRuntimeError::ConsumeInvalidOperand,
        CellScriptRuntimeError::DestroyInvalidOperand,
        CellScriptRuntimeError::CollectionRuntimeUnsupported,
        CellScriptRuntimeError::EntryWitnessAbiInvalid,
        CellScriptRuntimeError::CapacityPreservationMismatch,
        CellScriptRuntimeError::DynamicFieldValueMismatch,
        CellScriptRuntimeError::OutPointMismatch,
        CellScriptRuntimeError::ScriptFieldMalformed,
        CellScriptRuntimeError::DaoHeaderLineageMismatch,
        CellScriptRuntimeError::DaoMaturityViolation,
        CellScriptRuntimeError::CkbSinceMalformed,
        CellScriptRuntimeError::ScriptArgsMismatch,
        CellScriptRuntimeError::MetaPointMismatch,
        CellScriptRuntimeError::MetaPointCardinalityMismatch,
        CellScriptRuntimeError::ScriptIdentityMismatch,
        CellScriptRuntimeError::WitnessMalformed,
        CellScriptRuntimeError::WitnessFieldTruncated,
        CellScriptRuntimeError::CkbSourceViewInvalid,
        CellScriptRuntimeError::HeaderDepMissing,
        CellScriptRuntimeError::DaoFieldMalformed,
        CellScriptRuntimeError::ScriptRoleMismatch,
        CellScriptRuntimeError::XudtBindingMismatch,
        CellScriptRuntimeError::AggregateAmountMismatch,
        CellScriptRuntimeError::Bip340PipeCreateFailed,
        CellScriptRuntimeError::Bip340SpawnFailed,
        CellScriptRuntimeError::Bip340MessageWriteFailed,
        CellScriptRuntimeError::Bip340PubkeyWriteFailed,
        CellScriptRuntimeError::Bip340SignatureWriteFailed,
        CellScriptRuntimeError::Bip340VerifierReadFailed,
        CellScriptRuntimeError::Bip340ChildRejected,
        CellScriptRuntimeError::FixedU64LeInputUnresolved,
        CellScriptRuntimeError::FixedByteComparisonMaterializationUnresolved,
        CellScriptRuntimeError::Bip340MessageMaterializationUnresolved,
        CellScriptRuntimeError::Bip340PubkeyMaterializationUnresolved,
        CellScriptRuntimeError::Bip340SignatureMaterializationUnresolved,
        CellScriptRuntimeError::PackedHashPreimageMaterializationUnresolved,
        CellScriptRuntimeError::BoundedCellDepNotFound,
        CellScriptRuntimeError::MerkleRootMismatch,
        CellScriptRuntimeError::ShiftAmountInvalid,
        CellScriptRuntimeError::SighashAllUnsupported,
    ]
}

/// Every registered error, in code order.
#[verifier::rlimit(40)]
pub fn all_runtime_errors() -> (v: Vec<CellScriptRuntimeError>)
    ensures
        v@ == spec_all_runtime_errors(),
{
    let mut v: Vec<CellScriptRuntimeError> = Vec::new();
    v.push(CellScriptRuntimeError::SyscallFailed);
    v.push(CellScriptRuntimeError::BoundsCheckFailed);
    v.push(CellScriptRuntimeError::CellLoadFailed);
    v.push(CellScriptRuntimeError::ExactSizeMismatch);
    v.push(CellScriptRuntimeError::AssertionFailed);
    v.push(CellScriptRuntimeError::FlowTransitionMismatch);
    v.push(CellScriptRuntimeError::FlowNewStateInvalid);
    v.push(CellScriptRuntimeError::FlowOldStateInvalid);
    v.push(CellScriptRuntimeError::EntryWitnessMagicMismatch);
    v.push(CellScriptRuntimeError::TypeHashPreservationMismatch);
    v.push(CellScriptRuntimeError::LockHashPreservationMismatch);
    v.push(CellScriptRuntimeError::FieldPreservationMismatch);
    v.push(CellScriptRuntimeError::MutateTransitionMismatch);
    v.push(CellScriptRuntimeError::DataPreservationMismatch);
    v.push(CellScriptRuntimeError::DynamicFieldBoundsInvalid);
    v.push(CellScriptRuntimeError::TypeHashMismatch);
    v.push(CellScriptRuntimeError::FixedByteComparisonUnresolved);
    v.push(CellScriptRuntimeError::NumericOrDiscriminantInvalid);
    v.push(CellScriptRuntimeError::CollectionBoundsInvalid);
    v.push(CellScriptRuntimeError::ConsumeInvalidOperand);
    v.push(CellScriptRuntimeError::DestroyInvalidOperand);
    v.push(CellScriptRuntimeError::CollectionRuntimeUnsupported);
    v.push(CellScriptRuntimeError::EntryWitnessAbiInvalid);
    v.push(CellScriptRuntimeError::CapacityPreservationMismatch);
    v.push(CellScriptRuntimeError::DynamicFieldValueMismatch);
    v.push(CellScriptRuntimeError::OutPointMismatch);
    v.push(CellScriptRuntimeError::ScriptFieldMalformed);
    v.push(CellScriptRuntimeError::DaoHeaderLineageMismatch);
    v.push(CellScriptRuntimeError::DaoMaturityViolation);
    v.push(CellScriptRuntimeError::CkbSinceMalformed);
    v.push(CellScriptRuntimeError::ScriptArgsMismatch);
    v.push(CellScriptRuntimeError::MetaPointMismatch);
    v.push(CellScriptRuntimeError::MetaPointCardinalityMismatch);
    v.push(CellScriptRuntimeError::ScriptIdentityMismatch);
    v.push(CellScriptRuntimeError::WitnessMalformed);
    v.push(CellScriptRuntimeError::WitnessFieldTruncated);
    v.push(CellScriptRuntimeError::CkbSourceViewInvalid);
    v.push(CellScriptRuntimeError::HeaderDepMissing);
    v.push(CellScriptRuntimeError::DaoFieldMalformed);
    v.push(CellScriptRuntimeError::ScriptRoleMismatch);
    v.push(CellScriptRuntimeError::XudtBindingMismatch);
    v.push(CellScriptRuntimeError::AggregateAmountMismatch);
    v.push(CellScriptRuntimeError::Bip340PipeCreateFailed);
    v.push(CellScriptRuntimeError::Bip340SpawnFailed);
    v.push(CellScriptRuntimeError::Bip340MessageWriteFailed);
    v.push(CellScriptRuntimeError::Bip340PubkeyWriteFailed);
    v.push(CellScriptRuntimeError::Bip340SignatureWriteFailed);
    v.push(CellScriptRuntimeError::Bip340VerifierReadFailed);
    v.push(CellScriptRuntimeError::Bip340ChildRejected);
    v.push(CellScriptRuntimeError::FixedU64LeInputUnresolved);
    v.push(CellScriptRuntimeError::FixedByteComparisonMaterializationUnresolved);
    v.push(CellScriptRuntimeError::Bip340MessageMaterializationUnresolved);
    v.push(CellScriptRuntimeError::Bip340PubkeyMaterializationUnresolved);
    v.push(CellScriptRuntimeError::Bip340SignatureMaterializationUnresolved);
    v.push(CellScriptRuntimeError::PackedHashPreimageMaterializationUnresolved);
    v.push(CellScriptRuntimeError::BoundedCellDepNotFound);
    v.push(CellScriptRuntimeError::MerkleRootMismatch);
    v.push(CellScriptRuntimeError::ShiftAmountInvalid);
    v.push(CellScriptRuntimeError::SighashAllUnsupported);
    assert(v@ =~= spec_all_runtime_errors());
    v
}

/// Codes that are deliberately left unassigned.
pub open spec fn spec_reserved_runtime_error_codes() -> Seq<u64> {
    seq![6, 19, 27, 28, 29, 30, 31]
}

/// Codes that are deliberately left unassigned.
pub fn reserved_runtime_error_codes() -> (v: Vec<u64>)
    ensures
        v@ == spec_reserved_runtime_error_codes(),
{
    let mut v: Vec<u64> = Vec::new();
    v.push(6);
    v.push(19);
    v.push(27);
    v.push(28);
    v.push(29);
    v.push(30);
    v.push(31);
    assert(v@ =~= spec_reserved_runtime_error_codes());
    v
}

/// The code, name, description and hint of one runtime error.
#[derive(Debug, Clone, Copy, PartialEq, Eq)]
pub struct CellScriptRuntimeErrorInfo {
    pub code: u64,
    pub name: &'static str,
    pub description: &'static str,
    pub hint: &'static str,
}

/// `info` holds exactly the registry entry of `error`.
pub open spec fn describes(info: CellScriptRuntimeErrorInfo, error: CellScriptRuntimeError) -> bool {
    &&& info.code == error.spec_code()
    &&& info.name@ == error.spec_name()
    &&& info.description@ == error.spec_description()
    &&& info.hint@ == error.spec_hint()
}

/// `r` is the registry entry of `e`, or nothing when `e` is nothing.
pub open spec fn info_of(r: Option<CellScriptRuntimeErrorInfo>, e: Option<CellScriptRuntimeError>) -> bool {
    match e {
        Some(e) => r matches Some(i) && describes(i, e),
        None => r is None,
    }
}

/// The error registered under `code`, if any.
pub open spec fn spec_error_of_code(code: u64) -> Option<CellScriptRuntimeError> {
    if exists|e: CellScriptRuntimeError| e.spec_code() == code {
        Some(choose|e: CellScriptRuntimeError| e.spec_code() == code)
    } else {
        None
    }
}

/// The error registered under `name`, if any.
pub open spec fn spec_error_of_name(name: Seq<char>) -> Option<CellScriptRuntimeError> {
    if exists|e: CellScriptRuntimeError| e.spec_name() == name {
        Some(choose|e: CellScriptRuntimeError| e.spec_name() == name)
    } else {
        None
    }
}

/// The registry entry of `error`.
pub fn runtime_error_info(error: CellScriptRuntimeError) -> (info: CellScriptRuntimeErrorInfo)
    ensures
        describes(info, error),
{
    CellScriptRuntimeErrorInfo {
        code: error.code(),
        name: error.name(),
        description: error.description(),
        hint: error.hint(),
    }
}

/// The registry entry for `code`; `None` for unassigned and reserved codes.
pub fn runtime_error_info_by_code(code: u64) -> (r: Option<CellScriptRuntimeErrorInfo>)
    ensures
        info_of(r, spec_error_of_code(code)),
{
    match CellScriptRuntimeError::from_code(code) {
        Some(error) => {
            proof {
                let chosen = choose|e: CellScriptRuntimeError| e.spec_code() == code;
                lemma_runtime_error_codes_distinct(chosen, error);
            }
            Some(runtime_error_info(error))
        },
        None => None,
    }
}

/// The registry entry whose name is `name`.
pub fn runtime_error_info_by_name(name: &str) -> (r: Option<CellScriptRuntimeErrorInfo>)
    ensures
        info_of(r, spec_error_of_name(name@)),
{
    let all = all_runtime_errors();
    let mut i: usize = 0;
    while i < all.len()
        invariant
            all@ == spec_all_runtime_errors(),
            i <= all@.len(),
            forall|j: int| 0 <= j < i ==> (#[trigger] all@[j]).spec_name() != name@,
        decreases all@.len() - i,
    {
        let error = all[i];
        if str_eq(error.name(), name) {
            proof {
                let chosen = choose|e: CellScriptRuntimeError| e.spec_name() == name@;
                lemma_runtime_error_names_distinct(chosen, error);
            }
            return Some(runtime_error_info(error));
        }
        i += 1;
    }
    proof {
        assert forall|e: CellScriptRuntimeError| #[trigger] e.spec_name() != name@ by {
            lemma_all_runtime_errors_complete(e);
            let k = choose|k: int| 0 <= k < all@.len() && all@[k] == e;
            assert(all@[k].spec_name() != name@);
        }
    }
    None
}

/// The first error, in code order, whose name occurs in `message`.
pub open spec fn first_named_in(errors: Seq<CellScriptRuntimeError>, message: Seq<char>) -> Option<CellScriptRuntimeError>
    decreases errors.len(),
{
    if errors.len() == 0 {
        None
    } else if contains_seq(message, errors[0].spec_name()) {
        Some(errors[0])
    } else {
        first_named_in(errors.drop_first(), message)
    }
}

/// How a legacy diagnostic message maps to a runtime error: the first registered name it
/// holds, else a few known message fragments.
pub open spec fn spec_classify_message(message: Seq<char>) -> Option<CellScriptRuntimeError> {
    match first_named_in(spec_all_runtime_errors(), message) {
        Some(e) => Some(e),
        None => if contains_seq(message, CKB_SIGHASH_ALL_FEATURE@) {
            Some(CellScriptRuntimeError::SighashAllUnsupported)
        } else if contains_seq(message, "fixed-byte-comparison"@) {
            Some(CellScriptRuntimeError::FixedByteComparisonUnresolved)
        } else if contains_seq(message, "collection-"@) || contains_seq(message, "cell-backed collection"@) {
            Some(CellScriptRuntimeError::CollectionRuntimeUnsupported)
        } else if contains_seq(message, "entry witness"@) || contains_seq(message, "entry-witness"@) {
            Some(CellScriptRuntimeError::EntryWitnessAbiInvalid)
        } else if contains_seq(message, "mutate-field-transition"@) {
            Some(CellScriptRuntimeError::MutateTransitionMismatch)
        } else {
            None
        },
    }
}

/// The number in a diagnostic code of the form `E<decimal>`.
pub open spec fn spec_diagnostic_runtime_code(code: Seq<char>) -> Option<u64> {
    if code.len() > 0 && code[0] == 'E' {
        spec_parse_u64(code.drop_first())
    } else {
        None
    }
}

/// The runtime error a diagnostic stands for: by its `E<code>` when it carries one that parses,
/// else by its message.
pub open spec fn spec_classify_diagnostic(code: Option<String>, message: Seq<char>) -> Option<CellScriptRuntimeError> {
    match code {
        Some(c) => match spec_diagnostic_runtime_code(c@) {
            Some(n) => spec_error_of_code(n),
            None => spec_classify_message(message),
        },
        None => spec_classify_message(message),
    }
}

fn parse_diagnostic_runtime_code(code: &str) -> (r: Option<u64>)
    ensures
        r == spec_diagnostic_runtime_code(code@),
{
    let cs = crate::text::chars_of(code);
    if cs.len() == 0 || cs[0] != 'E' {
        return None;
    }
    let rest = crate::text::substring_from(code, 1);
    parse_u64(rest.as_str())
}

/// The runtime error a compiler diagnostic stands for: its typed `E####` code wins over
/// the message.
pub fn runtime_error_info_for_diagnostic(error: &CompileError) -> (r: Option<CellScriptRuntimeErrorInfo>)
    ensures
        info_of(r, spec_classify_diagnostic(error.code, error.message@)),
{
    if let Some(code) = &error.code {
        if let Some(number) = parse_diagnostic_runtime_code(code.as_str()) {
            return runtime_error_info_by_code(number);
        }
    }
    runtime_error_info_for_diagnostic_message(error.message.as_str())
}

/// Maps a legacy diagnostic message, which carries no typed code, to a runtime error.
pub fn runtime_error_info_for_diagnostic_message(message: &str) -> (r: Option<CellScriptRuntimeErrorInfo>)
    ensures
        info_of(r, spec_classify_message(message@)),
{
    let all = all_runtime_errors();
    let mut i: usize = 0;
    assert(all@.skip(0) =~= all@);
    while i < all.len()
        invariant
            all@ == spec_all_runtime_errors(),
            i <= all@.len(),
            first_named_in(all@.skip(i as int), message@) == first_named_in(all@, message@),
        decreases all@.len() - i,
    {
        let error = all[i];
        assert(all@.skip(i as int).drop_first() =~= all@.skip(i + 1));
        if str_contains(message, error.name()) {
            return Some(runtime_error_info(error));
        }
        i += 1;
    }
    assert(all@.skip(i as int).len() == 0);
    if str_contains(message, CKB_SIGHASH_ALL_FEATURE) {
        return Some(runtime_error_info(CellScriptRuntimeError::SighashAllUnsupported));
    }
    if str_contains(message, "fixed-byte-comparison") {
        return Some(runtime_error_info(CellScriptRuntimeError::FixedByteComparisonUnresolved));
    }
    if str_contains(message, "collection-") || str_contains(message, "cell-backed collection") {
        return Some(runtime_error_info(CellScriptRuntimeError::CollectionRuntimeUnsupported));
    }
    if str_contains(message, "entry witness") || str_contains(message, "entry-witness") {
        return Some(runtime_error_info(CellScriptRuntimeError::EntryWitnessAbiInvalid));
    }
    if str_contains(message, "mutate-field-transition") {
        return Some(runtime_error_info(CellScriptRuntimeError::MutateTransitionMismatch));
    }
    None
}

/// Distinct runtime errors have distinct codes.
pub proof fn lemma_runtime_error_codes_distinct(a: CellScriptRuntimeError, b: CellScriptRuntimeError)
    ensures
        a.spec_code() == b.spec_code() ==> a == b,
{
}

/// Distinct runtime errors have distinct names.
pub proof fn lemma_runtime_error_names_distinct(a: CellScriptRuntimeError, b: CellScriptRuntimeError)
    ensures
        a.spec_name() == b.spec_name() ==> a == b,
{
    reveal_strlit("syscall-failed");
    reveal_strlit("bounds-check-failed");
    reveal_strlit("cell-load-failed");
    reveal_strlit("exact-size-mismatch");
    reveal_strlit("assertion-failed");
    reveal_strlit("flow-transition-mismatch");
    reveal_strlit("flow-new-state-invalid");
    reveal_strlit("flow-old-state-invalid");
    reveal_strlit("entry-witness-magic-mismatch");
    reveal_strlit("type-hash-preservation-mismatch");
    reveal_strlit("lock-hash-preservation-mismatch");
    reveal_strlit("field-preservation-mismatch");
    reveal_strlit("mutate-transition-mismatch");
    reveal_strlit("data-preservation-mismatch");
    reveal_strlit("dynamic-field-bounds-invalid");
    reveal_strlit("type-hash-mismatch");
    reveal_strlit("fixed-byte-comparison-unresolved");
    reveal_strlit("numeric-or-discriminant-invalid");
    reveal_strlit("collection-bounds-invalid");
    reveal_strlit("consume-invalid-operand");
    reveal_strlit("destroy-invalid-operand");
    reveal_strlit("collection-runtime-unsupported");
    reveal_strlit("entry-witness-abi-invalid");
    reveal_strlit("capacity-preservation-mismatch");
    reveal_strlit("dynamic-field-value-mismatch");
    reveal_strlit("out-point-mismatch");
    reveal_strlit("script-field-malformed");
    reveal_strlit("dao-header-lineage-mismatch");
    reveal_strlit("dao-maturity-violation");
    reveal_strlit("ckb-since-malformed");
    reveal_strlit("script-args-mismatch");
    reveal_strlit("metapoint-mismatch");
    reveal_strlit("metapoint-cardinality-mismatch");
    reveal_strlit("script-identity-mismatch");
    reveal_strlit("witness-malformed");
    reveal_strlit("witness-field-truncated");
    reveal_strlit("ckb-source-view-invalid");
    reveal_strlit("header-dep-missing");
    reveal_strlit("dao-field-malformed");
    reveal_strlit("script-role-mismatch");
    reveal_strlit("xudt-binding-mismatch");
    reveal_strlit("aggregate-amount-mismatch");
    reveal_strlit("bip340-pipe-create-failed");
    reveal_strlit("bip340-spawn-failed");
    reveal_strlit("bip340-message-write-failed");
    reveal_strlit("bip340-pubkey-write-failed");
    reveal_strlit("bip340-signature-write-failed");
    reveal_strlit("bip340-verifier-read-failed");
    reveal_strlit("bip340-child-rejected");
    reveal_strlit("fixed-u64-le-input-unresolved");
    reveal_strlit("fixed-byte-comparison-materialization-unresolved");
    reveal_strlit("bip340-message-materialization-unresolved");
    reveal_strlit("bip340-pubkey-materialization-unresolved");
    reveal_strlit("bip340-signature-materialization-unresolved");
    reveal_strlit("packed-hash-preimage-materialization-unresolved");
    reveal_strlit("bounded-cell-dep-not-found");
    reveal_strlit("merkle-root-mismatch");
    reveal_strlit("shift-amount-invalid");
    reveal_strlit("sighash-all-unsupported");
    assert("syscall-failed"@.len() == 14);
    assert("bounds-check-failed"@.len() == 19);
    assert("cell-load-failed"@.len() == 16);
    assert("exact-size-mismatch"@.len() == 19);
    assert("assertion-failed"@.len() == 16);
    assert("flow-transition-mismatch"@.len() == 24);
    assert("flow-new-state-invalid"@.len() == 22);
    assert("flow-old-state-invalid"@.len() == 22);
    assert("entry-witness-magic-mismatch"@.len() == 28);
    assert("type-hash-preservation-mismatch"@.len() == 31);
    assert("lock-hash-preservation-mismatch"@.len() == 31);
    assert("field-preservation-mismatch"@.len() == 27);
    assert("mutate-transition-mismatch"@.len() == 26);
    assert("data-preservation-mismatch"@.len() == 26);
    assert("dynamic-field-bounds-invalid"@.len() == 28);
    assert("type-hash-mismatch"@.len() == 18);
    assert("fixed-byte-comparison-unresolved"@.len() == 32);
    assert("numeric-or-discriminant-invalid"@.len() == 31);
    assert("collection-bounds-invalid"@.len() == 25);
    assert("consume-invalid-operand"@.len() == 23);
    assert("destroy-invalid-operand"@.len() == 23);
    assert("collection-runtime-unsupported"@.len() == 30);
    assert("entry-witness-abi-invalid"@.len() == 25);
    assert("capacity-preservation-mismatch"@.len() == 30);
    assert("dynamic-field-value-mismatch"@.len() == 28);
    assert("out-point-mismatch"@.len() == 18);
    assert("script-field-malformed"@.len() == 22);
    assert("dao-header-lineage-mismatch"@.len() == 27);
    assert("dao-maturity-violation"@.len() == 22);
    assert("ckb-since-malformed"@.len() == 19);
    assert("script-args-mismatch"@.len() == 20);
    assert("metapoint-mismatch"@.len() == 18);
    assert("metapoint-cardinality-mismatch"@.len() == 30);
    assert("script-identity-mismatch"@.len() == 24);
    assert("witness-malformed"@.len() == 17);
    assert("witness-field-truncated"@.len() == 23);
    assert("ckb-source-view-invalid"@.len() == 23);
    assert("header-dep-missing"@.len() == 18);
    assert("dao-field-malformed"@.len() == 19);
    assert("script-role-mismatch"@.len() == 20);
    assert("xudt-binding-mismatch"@.len() == 21);
    assert("aggregate-amount-mismatch"@.len() == 25);
    assert("bip340-pipe-create-failed"@.len() == 25);
    assert("bip340-spawn-failed"@.len() == 19);
    assert("bip340-message-write-failed"@.len() == 27);
    assert("bip340-pubkey-write-failed"@.len() == 26);
    assert("bip340-signature-write-failed"@.len() == 29);
    assert("bip340-verifier-read-failed"@.len() == 27);
    assert("bip340-child-rejected"@.len() == 21);
    assert("fixed-u64-le-input-unresolved"@.len() == 29);
    assert("fixed-byte-comparison-materialization-unresolved"@.len() == 48);
    assert("bip340-message-materialization-unresolved"@.len() == 41);
    assert("bip340-pubkey-materialization-unresolved"@.len() == 40);
    assert("bip340-signature-materialization-unresolved"@.len() == 43);
    assert("packed-hash-preimage-materialization-unresolved"@.len() == 47);
    assert("bounded-cell-dep-not-found"@.len() == 26);
    assert("merkle-root-mismatch"@.len() == 20);
    assert("shift-amount-invalid"@.len() == 20);
    assert("sighash-all-unsupported"@.len() == 23);
    assert("aggregate-amount-mismatch"@[0] == 'a');
    assert("assertion-failed"@[0] == 'a');
    assert("bip340-child-rejected"@[0] == 'b');
    assert("bip340-message-write-failed"@[0] == 'b');
    assert("bip340-message-write-failed"@[7] == 'm');
    assert("bip340-pipe-create-failed"@[0] == 'b');
    assert("bip340-pubkey-write-failed"@[0] == 'b');
    assert("bip340-pubkey-write-failed"@[1] == 'i');
    assert("bip340-signature-write-failed"@[0] == 'b');
    assert("bip340-spawn-failed"@[0] == 'b');
    assert("bip340-spawn-failed"@[1] == 'i');
    assert("bip340-verifier-read-failed"@[0] == 'b');
    assert("bip340-verifier-read-failed"@[7] == 'v');
    assert("bounded-cell-dep-not-found"@[0] == 'b');
    assert("bounded-cell-dep-not-found"@[1] == 'o');
    assert("bounds-check-failed"@[0] == 'b');
    assert("bounds-check-failed"@[1] == 'o');
    assert("capacity-preservation-mismatch"@[0] == 'c');
    assert("capacity-preservation-mismatch"@[1] == 'a');
    assert("cell-load-failed"@[0] == 'c');
    assert("ckb-since-malformed"@[0] == 'c');
    assert("ckb-source-view-invalid"@[0] == 'c');
    assert("ckb-source-view-invalid"@[1] == 'k');
    assert("collection-bounds-invalid"@[0] == 'c');
    assert("collection-runtime-unsupported"@[0] == 'c');
    assert("collection-runtime-unsupported"@[1] == 'o');
    assert("consume-invalid-operand"@[0] == 'c');
    assert("consume-invalid-operand"@[1] == 'o');
    assert("dao-field-malformed"@[0] == 'd');
    assert("dao-header-lineage-mismatch"@[0] == 'd');
    assert("dao-maturity-violation"@[0] == 'd');
    assert("data-preservation-mismatch"@[0] == 'd');
    assert("destroy-invalid-operand"@[0] == 'd');
    assert("dynamic-field-bounds-invalid"@[0] == 'd');
    assert("dynamic-field-bounds-invalid"@[14] == 'b');
    assert("dynamic-field-value-mismatch"@[0] == 'd');
    assert("dynamic-field-value-mismatch"@[14] == 'v');
    assert("entry-witness-abi-invalid"@[0] == 'e');
    assert("entry-witness-magic-mismatch"@[0] == 'e');
    assert("exact-size-mismatch"@[0] == 'e');
    assert("field-preservation-mismatch"@[0] == 'f');
    assert("fixed-u64-le-input-unresolved"@[0] == 'f');
    assert("flow-new-state-invalid"@[0] == 'f');
    assert("flow-new-state-invalid"@[5] == 'n');
    assert("flow-old-state-invalid"@[0] == 'f');
    assert("flow-old-state-invalid"@[5] == 'o');
    assert("flow-transition-mismatch"@[0] == 'f');
    assert("header-dep-missing"@[0] == 'h');
    assert("lock-hash-preservation-mismatch"@[0] == 'l');
    assert("merkle-root-mismatch"@[0] == 'm');
    assert("metapoint-cardinality-mismatch"@[0] == 'm');
    assert("metapoint-mismatch"@[0] == 'm');
    assert("mutate-transition-mismatch"@[0] == 'm');
    assert("numeric-or-discriminant-invalid"@[0] == 'n');
    assert("out-point-mismatch"@[0] == 'o');
    assert("script-args-mismatch"@[0] == 's');
    assert("script-args-mismatch"@[1] == 'c');
    assert("script-args-mismatch"@[7] == 'a');
    assert("script-field-malformed"@[0] == 's');
    assert("script-identity-mismatch"@[0] == 's');
    assert("script-role-mismatch"@[0] == 's');
    assert("script-role-mismatch"@[1] == 'c');
    assert("script-role-mismatch"@[7] == 'r');
    assert("shift-amount-invalid"@[0] == 's');
    assert("shift-amount-invalid"@[1] == 'h');
    assert("sighash-all-unsupported"@[0] == 's');
    assert("type-hash-mismatch"@[0] == 't');
    assert("type-hash-preservation-mismatch"@[0] == 't');
    assert("witness-field-truncated"@[0] == 'w');
    assert("xudt-binding-mismatch"@[0] == 'x');
    match a {
        CellScriptRuntimeError::SyscallFailed => {},
        CellScriptRuntimeError::BoundsCheckFailed => {},
        CellScriptRuntimeError::CellLoadFailed => {},
        CellScriptRuntimeError::ExactSizeMismatch => {},
        CellScriptRuntimeError::AssertionFailed => {},
        CellScriptRuntimeError::FlowTransitionMismatch => {},
        CellScriptRuntimeError::FlowNewStateInvalid => {},
        CellScriptRuntimeError::FlowOldStateInvalid => {},
        CellScriptRuntimeError::EntryWitnessMagicMismatch => {},
        CellScriptRuntimeError::TypeHashPreservationMismatch => {},
        CellScriptRuntimeError::LockHashPreservationMismatch => {},
        CellScriptRuntimeError::FieldPreservationMismatch => {},
        CellScriptRuntimeError::MutateTransitionMismatch => {},
        CellScriptRuntimeError::DataPreservationMismatch => {},
        CellScriptRuntimeError::DynamicFieldBoundsInvalid => {},
        CellScriptRuntimeError::TypeHashMismatch => {},
        CellScriptRuntimeError::FixedByteComparisonUnresolved => {},
        CellScriptRuntimeError::NumericOrDiscriminantInvalid => {},
        CellScriptRuntimeError::CollectionBoundsInvalid => {},
        CellScriptRuntimeError::ConsumeInvalidOperand => {},
        CellScriptRuntimeError::DestroyInvalidOperand => {},
        CellScriptRuntimeError::CollectionRuntimeUnsupported => {},
        CellScriptRuntimeError::EntryWitnessAbiInvalid => {},
        CellScriptRuntimeError::CapacityPreservationMismatch => {},
        CellScriptRuntimeError::DynamicFieldValueMismatch => {},
        CellScriptRuntimeError::OutPointMismatch => {},
        CellScriptRuntimeError::ScriptFieldMalformed => {},
        CellScriptRuntimeError::DaoHeaderLineageMismatch => {},
        CellScriptRuntimeError::DaoMaturityViolation => {},
        CellScriptRuntimeError::CkbSinceMalformed => {},
        CellScriptRuntimeError::ScriptArgsMismatch => {},
        CellScriptRuntimeError::MetaPointMismatch => {},
        CellScriptRuntimeError::MetaPointCardinalityMismatch => {},
        CellScriptRuntimeError::ScriptIdentityMismatch => {},
        CellScriptRuntimeError::WitnessMalformed => {},
        CellScriptRuntimeError::WitnessFieldTruncated => {},
        CellScriptRuntimeError::CkbSourceViewInvalid => {},
        CellScriptRuntimeError::HeaderDepMissing => {},
        CellScriptRuntimeError::DaoFieldMalformed => {},
        CellScriptRuntimeError::ScriptRoleMismatch => {},
        CellScriptRuntimeError::XudtBindingMismatch => {},
        CellScriptRuntimeError::AggregateAmountMismatch => {},
        CellScriptRuntimeError::Bip340PipeCreateFailed => {},
        CellScriptRuntimeError::Bip340SpawnFailed => {},
        CellScriptRuntimeError::Bip340MessageWriteFailed => {},
        CellScriptRuntimeError::Bip340PubkeyWriteFailed => {},
        CellScriptRuntimeError::Bip340SignatureWriteFailed => {},
        CellScriptRuntimeError::Bip340VerifierReadFailed => {},
        CellScriptRuntimeError::Bip340ChildRejected => {},
        CellScriptRuntimeError::FixedU64LeInputUnresolved => {},
        CellScriptRuntimeError::FixedByteComparisonMaterializationUnresolved => {},
        CellScriptRuntimeError::Bip340MessageMaterializationUnresolved => {},
        CellScriptRuntimeError::Bip340PubkeyMaterializationUnresolved => {},
        CellScriptRuntimeError::Bip340SignatureMaterializationUnresolved => {},
        CellScriptRuntimeError::PackedHashPreimageMaterializationUnresolved => {},
        CellScriptRuntimeError::BoundedCellDepNotFound => {},
        CellScriptRuntimeError::MerkleRootMismatch => {},
        CellScriptRuntimeError::ShiftAmountInvalid => {},
        CellScriptRuntimeError::SighashAllUnsupported => {},
    }
}

/// The registry lists every runtime error.
pub proof fn lemma_all_runtime_errors_complete(e: CellScriptRuntimeError)
    ensures
        exists|k: int| 0 <= k < spec_all_runtime_errors().len() && spec_all_runtime_errors()[k] == e,
{
    match e {
        CellScriptRuntimeError::SyscallFailed => assert(spec_all_runtime_errors()[0] == e),
        CellScriptRuntimeError::BoundsCheckFailed => assert(spec_all_runtime_errors()[1] == e),
        CellScriptRuntimeError::CellLoadFailed => assert(spec_all_runtime_errors()[2] == e),
        CellScriptRuntimeError::ExactSizeMismatch => assert(spec_all_runtime_errors()[3] == e),
        CellScriptRuntimeError::AssertionFailed => assert(spec_all_runtime_errors()[4] == e),
        CellScriptRuntimeError::FlowTransitionMismatch => assert(spec_all_runtime_errors()[5] == e),
        CellScriptRuntimeError::FlowNewStateInvalid => assert(spec_all_runtime_errors()[6] == e),
        CellScriptRuntimeError::FlowOldStateInvalid => assert(spec_all_runtime_errors()[7] == e),
        CellScriptRuntimeError::EntryWitnessMagicMismatch => assert(spec_all_runtime_errors()[8] == e),
        CellScriptRuntimeError::TypeHashPreservationMismatch => assert(spec_all_runtime_errors()[9] == e),
        CellScriptRuntimeError::LockHashPreservationMismatch => assert(spec_all_runtime_errors()[10] == e),
        CellScriptRuntimeError::FieldPreservationMismatch => assert(spec_all_runtime_errors()[11] == e),
        CellScriptRuntimeError::MutateTransitionMismatch => assert(spec_all_runtime_errors()[12] == e),
        CellScriptRuntimeError::DataPreservationMismatch => assert(spec_all_runtime_errors()[13] == e),
        CellScriptRuntimeError::DynamicFieldBoundsInvalid => assert(spec_all_runtime_errors()[14] == e),
        CellScriptRuntimeError::TypeHashMismatch => assert(spec_all_runtime_errors()[15] == e),
        CellScriptRuntimeError::FixedByteComparisonUnresolved => assert(spec_all_runtime_errors()[16] == e),
        CellScriptRuntimeError::NumericOrDiscriminantInvalid => assert(spec_all_runtime_errors()[17] == e),
        CellScriptRuntimeError::CollectionBoundsInvalid => assert(spec_all_runtime_errors()[18] == e),
        CellScriptRuntimeError::ConsumeInvalidOperand => assert(spec_all_runtime_errors()[19] == e),
        CellScriptRuntimeError::DestroyInvalidOperand => assert(spec_all_runtime_errors()[20] == e),
        CellScriptRuntimeError::CollectionRuntimeUnsupported => assert(spec_all_runtime_errors()[21] == e),
        CellScriptRuntimeError::EntryWitnessAbiInvalid => assert(spec_all_runtime_errors()[22] == e),
        CellScriptRuntimeError::CapacityPreservationMismatch => assert(spec_all_runtime_errors()[23] == e),
        CellScriptRuntimeError::DynamicFieldValueMismatch => assert(spec_all_runtime_errors()[24] == e),
        CellScriptRuntimeError::OutPointMismatch => assert(spec_all_runtime_errors()[25] == e),
        CellScriptRuntimeError::ScriptFieldMalformed => assert(spec_all_runtime_errors()[26] == e),
        CellScriptRuntimeError::DaoHeaderLineageMismatch => assert(spec_all_runtime_errors()[27] == e),
        CellScriptRuntimeError::DaoMaturityViolation => assert(spec_all_runtime_errors()[28] == e),
        CellScriptRuntimeError::CkbSinceMalformed => assert(spec_all_runtime_errors()[29] == e),
        CellScriptRuntimeError::ScriptArgsMismatch => assert(spec_all_runtime_errors()[30] == e),
        CellScriptRuntimeError::MetaPointMismatch => assert(spec_all_runtime_errors()[31] == e),
        CellScriptRuntimeError::MetaPointCardinalityMismatch => assert(spec_all_runtime_errors()[32] == e),
        CellScriptRuntimeError::ScriptIdentityMismatch => assert(spec_all_runtime_errors()[33] == e),
        CellScriptRuntimeError::WitnessMalformed => assert(spec_all_runtime_errors()[34] == e),
        CellScriptRuntimeError::WitnessFieldTruncated => assert(spec_all_runtime_errors()[35] == e),
        CellScriptRuntimeError::CkbSourceViewInvalid => assert(spec_all_runtime_errors()[36] == e),
        CellScriptRuntimeError::HeaderDepMissing => assert(spec_all_runtime_errors()[37] == e),
        CellScriptRuntimeError::DaoFieldMalformed => assert(spec_all_runtime_errors()[38] == e),
        CellScriptRuntimeError::ScriptRoleMismatch => assert(spec_all_runtime_errors()[39] == e),
        CellScriptRuntimeError::XudtBindingMismatch => assert(spec_all_runtime_errors()[40] == e),
        CellScriptRuntimeError::AggregateAmountMismatch => assert(spec_all_runtime_errors()[41] == e),
        CellScriptRuntimeError::Bip340PipeCreateFailed => assert(spec_all_runtime_errors()[42] == e),
        CellScriptRuntimeError::Bip340SpawnFailed => assert(spec_all_runtime_errors()[43] == e),
        CellScriptRuntimeError::Bip340MessageWriteFailed => assert(spec_all_runtime_errors()[44] == e),
        CellScriptRuntimeError::Bip340PubkeyWriteFailed => assert(spec_all_runtime_errors()[45] == e),
        CellScriptRuntimeError::Bip340SignatureWriteFailed => assert(spec_all_runtime_errors()[46] == e),
        CellScriptRuntimeError::Bip340VerifierReadFailed => assert(spec_all_runtime_errors()[47] == e),
        CellScriptRuntimeError::Bip340ChildRejected => assert(spec_all_runtime_errors()[48] == e),
        CellScriptRuntimeError::FixedU64LeInputUnresolved => assert(spec_all_runtime_errors()[49] == e),
        CellScriptRuntimeError::FixedByteComparisonMaterializationUnresolved => assert(spec_all_runtime_errors()[50] == e),
        CellScriptRuntimeError::Bip340MessageMaterializationUnresolved => assert(spec_all_runtime_errors()[51] == e),
        CellScriptRuntimeError::Bip340PubkeyMaterializationUnresolved => assert(spec_all_runtime_errors()[52] == e),
        CellScriptRuntimeError::Bip340SignatureMaterializationUnresolved => assert(spec_all_runtime_errors()[53] == e),
        CellScriptRuntimeError::PackedHashPreimageMaterializationUnresolved => assert(spec_all_runtime_errors()[54] == e),
        CellScriptRuntimeError::BoundedCellDepNotFound => assert(spec_all_runtime_errors()[55] == e),
        CellScriptRuntimeError::MerkleRootMismatch => assert(spec_all_runtime_errors()[56] == e),
        CellScriptRuntimeError::ShiftAmountInvalid => assert(spec_all_runtime_errors()[57] == e),
        CellScriptRuntimeError::SighashAllUnsupported => assert(spec_all_runtime_errors()[58] == e),
    }
}


/// The codes in use are exactly those from 1 to 66 that are not reserved.
pub proof fn lemma_assigned_codes(code: u64)
    ensures
        spec_error_of_code(code) is Some <==> (1 <= code <= 66 && !spec_reserved_runtime_error_codes().contains(code)),
{
    let w: Option<CellScriptRuntimeError> = match code {
            1 => Some(CellScriptRuntimeError::SyscallFailed),
            2 => Some(CellScriptRuntimeError::BoundsCheckFailed),
            3 => Some(CellScriptRuntimeError::CellLoadFailed),
            4 => Some(CellScriptRuntimeError::ExactSizeMismatch),
            5 => Some(CellScriptRuntimeError::AssertionFailed),
            7 => Some(CellScriptRuntimeError::FlowTransitionMismatch),
            8 => Some(CellScriptRuntimeError::FlowNewStateInvalid),
            9 => Some(CellScriptRuntimeError::FlowOldStateInvalid),
            10 => Some(CellScriptRuntimeError::EntryWitnessMagicMismatch),
            11 => Some(CellScriptRuntimeError::TypeHashPreservationMismatch),
            12 => Some(CellScriptRuntimeError::LockHashPreservationMismatch),
            13 => Some(CellScriptRuntimeError::FieldPreservationMismatch),
            14 => Some(CellScriptRuntimeError::MutateTransitionMismatch),
            15 => Some(CellScriptRuntimeError::DataPreservationMismatch),
            16 => Some(CellScriptRuntimeError::DynamicFieldBoundsInvalid),
            17 => Some(CellScriptRuntimeError::TypeHashMismatch),
            18 => Some(CellScriptRuntimeError::FixedByteComparisonUnresolved),
            20 => Some(CellScriptRuntimeError::NumericOrDiscriminantInvalid),
            21 => Some(CellScriptRuntimeError::CollectionBoundsInvalid),
            22 => Some(CellScriptRuntimeError::ConsumeInvalidOperand),
            23 => Some(CellScriptRuntimeError::DestroyInvalidOperand),
            24 => Some(CellScriptRuntimeError::CollectionRuntimeUnsupported),
            25 => Some(CellScriptRuntimeError::EntryWitnessAbiInvalid),
            26 => Some(CellScriptRuntimeError::CapacityPreservationMismatch),
            32 => Some(CellScriptRuntimeError::DynamicFieldValueMismatch),
            33 => Some(CellScriptRuntimeError::OutPointMismatch),
            34 => Some(CellScriptRuntimeError::ScriptFieldMalformed),
            35 => Some(CellScriptRuntimeError::DaoHeaderLineageMismatch),
            36 => Some(CellScriptRuntimeError::DaoMaturityViolation),
            37 => Some(CellScriptRuntimeError::CkbSinceMalformed),
            38 => Some(CellScriptRuntimeError::ScriptArgsMismatch),
            39 => Some(CellScriptRuntimeError::MetaPointMismatch),
            40 => Some(CellScriptRuntimeError::MetaPointCardinalityMismatch),
            41 => Some(CellScriptRuntimeError::ScriptIdentityMismatch),
            42 => Some(CellScriptRuntimeError::WitnessMalformed),
            43 => Some(CellScriptRuntimeError::WitnessFieldTruncated),
            44 => Some(CellScriptRuntimeError::CkbSourceViewInvalid),
            45 => Some(CellScriptRuntimeError::HeaderDepMissing),
            46 => Some(CellScriptRuntimeError::DaoFieldMalformed),
            47 => Some(CellScriptRuntimeError::ScriptRoleMismatch),
            48 => Some(CellScriptRuntimeError::XudtBindingMismatch),
            49 => Some(CellScriptRuntimeError::AggregateAmountMismatch),
            50 => Some(CellScriptRuntimeError::Bip340PipeCreateFailed),
            51 => Some(CellScriptRuntimeError::Bip340SpawnFailed),
            52 => Some(CellScriptRuntimeError::Bip340MessageWriteFailed),
            53 => Some(CellScriptRuntimeError::Bip340PubkeyWriteFailed),
            54 => Some(CellScriptRuntimeError::Bip340SignatureWriteFailed),
            55 => Some(CellScriptRuntimeError::Bip340VerifierReadFailed),
            56 => Some(CellScriptRuntimeError::Bip340ChildRejected),
            57 => Some(CellScriptRuntimeError::FixedU64LeInputUnresolved),
            58 => Some(CellScriptRuntimeError::FixedByteComparisonMaterializationUnresolved),
            59 => Some(CellScriptRuntimeError::Bip340MessageMaterializationUnresolved),
            60 => Some(CellScriptRuntimeError::Bip340PubkeyMaterializationUnresolved),
            61 => Some(CellScriptRuntimeError::Bip340SignatureMaterializationUnresolved),
            62 => Some(CellScriptRuntimeError::PackedHashPreimageMaterializationUnresolved),
            63 => Some(CellScriptRuntimeError::BoundedCellDepNotFound),
            64 => Some(CellScriptRuntimeError::MerkleRootMismatch),
            65 => Some(CellScriptRuntimeError::ShiftAmountInvalid),
            66 => Some(CellScriptRuntimeError::SighashAllUnsupported),
            _ => None,
    };
    if 1 <= code <= 66 && !spec_reserved_runtime_error_codes().contains(code) {
        assert(code != 6 && code != 19 && code != 27 && code != 28 && code != 29 && code != 30 && code != 31) by {
            assert(spec_reserved_runtime_error_codes()[0] == 6);
            assert(spec_reserved_runtime_error_codes()[1] == 19);
            assert(spec_reserved_runtime_error_codes()[2] == 27);
            assert(spec_reserved_runtime_error_codes()[3] == 28);
            assert(spec_reserved_runtime_error_codes()[4] == 29);
            assert(spec_reserved_runtime_error_codes()[5] == 30);
            assert(spec_reserved_runtime_error_codes()[6] == 31);
        }
        assert(w is Some);
        assert(w.unwrap().spec_code() == code);
    }
    if spec_error_of_code(code) is Some {
        let e = choose|e: CellScriptRuntimeError| e.spec_code() == code;
        assert(e.spec_code() == code);
        assert(1 <= code <= 66);
        if spec_reserved_runtime_error_codes().contains(code) {
            let k = choose|k: int| 0 <= k < spec_reserved_runtime_error_codes().len() && spec_reserved_runtime_error_codes()[k] == code;
            lemma_reserved_codes_unassigned(e, k);
        }
    }
}

/// Looking an error up by its own code finds it again.
pub proof fn lemma_runtime_error_code_roundtrip(e: CellScriptRuntimeError)
    ensures
        spec_error_of_code(e.spec_code()) == Some(e),
{
    let chosen = choose|x: CellScriptRuntimeError| x.spec_code() == e.spec_code();
    lemma_runtime_error_codes_distinct(chosen, e);
}

/// Looking an error up by its own name finds it again.
pub proof fn lemma_runtime_error_name_roundtrip(e: CellScriptRuntimeError)
    ensures
        spec_error_of_name(e.spec_name()) == Some(e),
{
    let chosen = choose|x: CellScriptRuntimeError| x.spec_name() == e.spec_name();
    lemma_runtime_error_names_distinct(chosen, e);
}

/// No registered error uses a reserved code.
pub proof fn lemma_reserved_codes_unassigned(e: CellScriptRuntimeError, k: int)
    requires
        0 <= k < spec_reserved_runtime_error_codes().len(),
    ensures
        e.spec_code() != spec_reserved_runtime_error_codes()[k],
        spec_error_of_code(spec_reserved_runtime_error_codes()[k]) is None,
{
    assert forall|x: CellScriptRuntimeError| #[trigger] x.spec_code() != spec_reserved_runtime_error_codes()[k] by {}
}

/// The registry lists the errors in strictly increasing code order, so none twice.
pub proof fn lemma_all_runtime_errors_sorted(i: int, j: int)
    requires
        0 <= i < j < spec_all_runtime_errors().len(),
    ensures
        spec_all_runtime_errors()[i].spec_code() < spec_all_runtime_errors()[j].spec_code(),
    decreases j - i,
{
    lemma_adjacent_codes_increase(j - 1);
    if i < j - 1 {
        lemma_all_runtime_errors_sorted(i, j - 1);
    }
}

proof fn lemma_adjacent_codes_increase(k: int)
    requires
        0 <= k < spec_all_runtime_errors().len() - 1,
    ensures
        spec_all_runtime_errors()[k].spec_code() < spec_all_runtime_errors()[k + 1].spec_code(),
{
    if k == 0 {
        assert(spec_all_runtime_errors()[0] == CellScriptRuntimeError::SyscallFailed && spec_all_runtime_errors()[1] == CellScriptRuntimeError::BoundsCheckFailed);
    } else if k == 1 {
        assert(spec_all_runtime_errors()[1] == CellScriptRuntimeError::BoundsCheckFailed && spec_all_runtime_errors()[2] == CellScriptRuntimeError::CellLoadFailed);
    } else if k == 2 {
        assert(spec_all_runtime_errors()[2] == CellScriptRuntimeError::CellLoadFailed && spec_all_runtime_errors()[3] == CellScriptRuntimeError::ExactSizeMismatch);
    } else if k == 3 {
        assert(spec_all_runtime_errors()[3] == CellScriptRuntimeError::ExactSizeMismatch && spec_all_runtime_errors()[4] == CellScriptRuntimeError::AssertionFailed);
    } else if k == 4 {
        assert(spec_all_runtime_errors()[4] == CellScriptRuntimeError::AssertionFailed && spec_all_runtime_errors()[5] == CellScriptRuntimeError::FlowTransitionMismatch);
    } else if k == 5 {
        assert(spec_all_runtime_errors()[5] == CellScriptRuntimeError::FlowTransitionMismatch && spec_all_runtime_errors()[6] == CellScriptRuntimeError::FlowNewStateInvalid);
    } else if k == 6 {
        assert(spec_all_runtime_errors()[6] == CellScriptRuntimeError::FlowNewStateInvalid && spec_all_runtime_errors()[7] == CellScriptRuntimeError::FlowOldStateInvalid);
    } else if k == 7 {
        assert(spec_all_runtime_errors()[7] == CellScriptRuntimeError::FlowOldStateInvalid && spec_all_runtime_errors()[8] == CellScriptRuntimeError::EntryWitnessMagicMismatch);
    } else if k == 8 {
        assert(spec_all_runtime_errors()[8] == CellScriptRuntimeError::EntryWitnessMagicMismatch && spec_all_runtime_errors()[9] == CellScriptRuntimeError::TypeHashPreservationMismatch);
    } else if k == 9 {
        assert(spec_all_runtime_errors()[9] == CellScriptRuntimeError::TypeHashPreservationMismatch && spec_all_runtime_errors()[10] == CellScriptRuntimeError::LockHashPreservationMismatch);
    } else if k == 10 {
        assert(spec_all_runtime_errors()[10] == CellScriptRuntimeError::LockHashPreservationMismatch && spec_all_runtime_errors()[11] == CellScriptRuntimeError::FieldPreservationMismatch);
    } else if k == 11 {
        assert(spec_all_runtime_errors()[11] == CellScriptRuntimeError::FieldPreservationMismatch && spec_all_runtime_errors()[12] == CellScriptRuntimeError::MutateTransitionMismatch);
    } else if k == 12 {
        assert(spec_all_runtime_errors()[12] == CellScriptRuntimeError::MutateTransitionMismatch && spec_all_runtime_errors()[13] == CellScriptRuntimeError::DataPreservationMismatch);
    } else if k == 13 {
        assert(spec_all_runtime_errors()[13] == CellScriptRuntimeError::DataPreservationMismatch && spec_all_runtime_errors()[14] == CellScriptRuntimeError::DynamicFieldBoundsInvalid);
    } else if k == 14 {
        assert(spec_all_runtime_errors()[14] == CellScriptRuntimeError::DynamicFieldBoundsInvalid && spec_all_runtime_errors()[15] == CellScriptRuntimeError::TypeHashMismatch);
    } else if k == 15 {
        assert(spec_all_runtime_errors()[15] == CellScriptRuntimeError::TypeHashMismatch && spec_all_runtime_errors()[16] == CellScriptRuntimeError::FixedByteComparisonUnresolved);
    } else if k == 16 {
        assert(spec_all_runtime_errors()[16] == CellScriptRuntimeError::FixedByteComparisonUnresolved && spec_all_runtime_errors()[17] == CellScriptRuntimeError::NumericOrDiscriminantInvalid);
    } else if k == 17 {
        assert(spec_all_runtime_errors()[17] == CellScriptRuntimeError::NumericOrDiscriminantInvalid && spec_all_runtime_errors()[18] == CellScriptRuntimeError::CollectionBoundsInvalid);
    } else if k == 18 {
        assert(spec_all_runtime_errors()[18] == CellScriptRuntimeError::CollectionBoundsInvalid && spec_all_runtime_errors()[19] == CellScriptRuntimeError::ConsumeInvalidOperand);
    } else if k == 19 {
        assert(spec_all_runtime_errors()[19] == CellScriptRuntimeError::ConsumeInvalidOperand && spec_all_runtime_errors()[20] == CellScriptRuntimeError::DestroyInvalidOperand);
    } else if k == 20 {
        assert(spec_all_runtime_errors()[20] == CellScriptRuntimeError::DestroyInvalidOperand && spec_all_runtime_errors()[21] == CellScriptRuntimeError::CollectionRuntimeUnsupported);
    } else if k == 21 {
        assert(spec_all_runtime_errors()[21] == CellScriptRuntimeError::CollectionRuntimeUnsupported && spec_all_runtime_errors()[22] == CellScriptRuntimeError::EntryWitnessAbiInvalid);
    } else if k == 22 {
        assert(spec_all_runtime_errors()[22] == CellScriptRuntimeError::EntryWitnessAbiInvalid && spec_all_runtime_errors()[23] == CellScriptRuntimeError::CapacityPreservationMismatch);
    } else if k == 23 {
        assert(spec_all_runtime_errors()[23] == CellScriptRuntimeError::CapacityPreservationMismatch && spec_all_runtime_errors()[24] == CellScriptRuntimeError::DynamicFieldValueMismatch);
    } else if k == 24 {
        assert(spec_all_runtime_errors()[24] == CellScriptRuntimeError::DynamicFieldValueMismatch && spec_all_runtime_errors()[25] == CellScriptRuntimeError::OutPointMismatch);
    } else if k == 25 {
        assert(spec_all_runtime_errors()[25] == CellScriptRuntimeError::OutPointMismatch && spec_all_runtime_errors()[26] == CellScriptRuntimeError::ScriptFieldMalformed);
    } else if k == 26 {
        assert(spec_all_runtime_errors()[26] == CellScriptRuntimeError::ScriptFieldMalformed && spec_all_runtime_errors()[27] == CellScriptRuntimeError::DaoHeaderLineageMismatch);
    } else if k == 27 {
        assert(spec_all_runtime_errors()[27] == CellScriptRuntimeError::DaoHeaderLineageMismatch && spec_all_runtime_errors()[28] == CellScriptRuntimeError::DaoMaturityViolation);
    } else if k == 28 {
        assert(spec_all_runtime_errors()[28] == CellScriptRuntimeError::DaoMaturityViolation && spec_all_runtime_errors()[29] == CellScriptRuntimeError::CkbSinceMalformed);
    } else if k == 29 {
        assert(spec_all_runtime_errors()[29] == CellScriptRuntimeError::CkbSinceMalformed && spec_all_runtime_errors()[30] == CellScriptRuntimeError::ScriptArgsMismatch);
    } else if k == 30 {
        assert(spec_all_runtime_errors()[30] == CellScriptRuntimeError::ScriptArgsMismatch && spec_all_runtime_errors()[31] == CellScriptRuntimeError::MetaPointMismatch);
    } else if k == 31 {
        assert(spec_all_runtime_errors()[31] == CellScriptRuntimeError::MetaPointMismatch && spec_all_runtime_errors()[32] == CellScriptRuntimeError::MetaPointCardinalityMismatch);
    } else if k == 32 {
        assert(spec_all_runtime_errors()[32] == CellScriptRuntimeError::MetaPointCardinalityMismatch && spec_all_runtime_errors()[33] == CellScriptRuntimeError::ScriptIdentityMismatch);
    } else if k == 33 {
        assert(spec_all_runtime_errors()[33] == CellScriptRuntimeError::ScriptIdentityMismatch && spec_all_runtime_errors()[34] == CellScriptRuntimeError::WitnessMalformed);
    } else if k == 34 {
        assert(spec_all_runtime_errors()[34] == CellScriptRuntimeError::WitnessMalformed && spec_all_runtime_errors()[35] == CellScriptRuntimeError::WitnessFieldTruncated);
    } else if k == 35 {
        assert(spec_all_runtime_errors()[35] == CellScriptRuntimeError::WitnessFieldTruncated && spec_all_runtime_errors()[36] == CellScriptRuntimeError::CkbSourceViewInvalid);
    } else if k == 36 {
        assert(spec_all_runtime_errors()[36] == CellScriptRuntimeError::CkbSourceViewInvalid && spec_all_runtime_errors()[37] == CellScriptRuntimeError::HeaderDepMissing);
    } else if k == 37 {
        assert(spec_all_runtime_errors()[37] == CellScriptRuntimeError::HeaderDepMissing && spec_all_runtime_errors()[38] == CellScriptRuntimeError::DaoFieldMalformed);
    } else if k == 38 {
        assert(spec_all_runtime_errors()[38] == CellScriptRuntimeError::DaoFieldMalformed && spec_all_runtime_errors()[39] == CellScriptRuntimeError::ScriptRoleMismatch);
    } else if k == 39 {
        assert(spec_all_runtime_errors()[39] == CellScriptRuntimeError::ScriptRoleMismatch && spec_all_runtime_errors()[40] == CellScriptRuntimeError::XudtBindingMismatch);
    } else if k == 40 {
        assert(spec_all_runtime_errors()[40] == CellScriptRuntimeError::XudtBindingMismatch && spec_all_runtime_errors()[41] == CellScriptRuntimeError::AggregateAmountMismatch);
    } else if k == 41 {
        assert(spec_all_runtime_errors()[41] == CellScriptRuntimeError::AggregateAmountMismatch && spec_all_runtime_errors()[42] == CellScriptRuntimeError::Bip340PipeCreateFailed);
    } else if k == 42 {
        assert(spec_all_runtime_errors()[42] == CellScriptRuntimeError::Bip340PipeCreateFailed && spec_all_runtime_errors()[43] == CellScriptRuntimeError::Bip340SpawnFailed);
    } else if k == 43 {
        assert(spec_all_runtime_errors()[43] == CellScriptRuntimeError::Bip340SpawnFailed && spec_all_runtime_errors()[44] == CellScriptRuntimeError::Bip340MessageWriteFailed);
    } else if k == 44 {
        assert(spec_all_runtime_errors()[44] == CellScriptRuntimeError::Bip340MessageWriteFailed && spec_all_runtime_errors()[45] == CellScriptRuntimeError::Bip340PubkeyWriteFailed);
    } else if k == 45 {
        assert(spec_all_runtime_errors()[45] == CellScriptRuntimeError::Bip340PubkeyWriteFailed && spec_all_runtime_errors()[46] == CellScriptRuntimeError::Bip340SignatureWriteFailed);
    } else if k == 46 {
        assert(spec_all_runtime_errors()[46] == CellScriptRuntimeError::Bip340SignatureWriteFailed && spec_all_runtime_errors()[47] == CellScriptRuntimeError::Bip340VerifierReadFailed);
    } else if k == 47 {
        assert(spec_all_runtime_errors()[47] == CellScriptRuntimeError::Bip340VerifierReadFailed && spec_all_runtime_errors()[48] == CellScriptRuntimeError::Bip340ChildRejected);
    } else if k == 48 {
        assert(spec_all_runtime_errors()[48] == CellScriptRuntimeError::Bip340ChildRejected && spec_all_runtime_errors()[49] == CellScriptRuntimeError::FixedU64LeInputUnresolved);
    } else if k == 49 {
        assert(spec_all_runtime_errors()[49] == CellScriptRuntimeError::FixedU64LeInputUnresolved && spec_all_runtime_errors()[50] == CellScriptRuntimeError::FixedByteComparisonMaterializationUnresolved);
    } else if k == 50 {
        assert(spec_all_runtime_errors()[50] == CellScriptRuntimeError::FixedByteComparisonMaterializationUnresolved && spec_all_runtime_errors()[51] == CellScriptRuntimeError::Bip340MessageMaterializationUnresolved);
    } else if k == 51 {
        assert(spec_all_runtime_errors()[51] == CellScriptRuntimeError::Bip340MessageMaterializationUnresolved && spec_all_runtime_errors()[52] == CellScriptRuntimeError::Bip340PubkeyMaterializationUnresolved);
    } else if k == 52 {
        assert(spec_all_runtime_errors()[52] == CellScriptRuntimeError::Bip340PubkeyMaterializationUnresolved && spec_all_runtime_errors()[53] == CellScriptRuntimeError::Bip340SignatureMaterializationUnresolved);
    } else if k == 53 {
        assert(spec_all_runtime_errors()[53] == CellScriptRuntimeError::Bip340SignatureMaterializationUnresolved && spec_all_runtime_errors()[54] == CellScriptRuntimeError::PackedHashPreimageMaterializationUnresolved);
    } else if k == 54 {
        assert(spec_all_runtime_errors()[54] == CellScriptRuntimeError::PackedHashPreimageMaterializationUnresolved && spec_all_runtime_errors()[55] == CellScriptRuntimeError::BoundedCellDepNotFound);
    } else if k == 55 {
        assert(spec_all_runtime_errors()[55] == CellScriptRuntimeError::BoundedCellDepNotFound && spec_all_runtime_errors()[56] == CellScriptRuntimeError::MerkleRootMismatch);
    } else if k == 56 {
        assert(spec_all_runtime_errors()[56] == CellScriptRuntimeError::MerkleRootMismatch && spec_all_runtime_errors()[57] == CellScriptRuntimeError::ShiftAmountInvalid);
    } else if k == 57 {
        assert(spec_all_runtime_errors()[57] == CellScriptRuntimeError::ShiftAmountInvalid && spec_all_runtime_errors()[58] == CellScriptRuntimeError::SighashAllUnsupported);
    }
}

/// Every registered error has a name, a description and a hint.
pub proof fn lemma_runtime_error_texts_nonempty(e: CellScriptRuntimeError)
    ensures
        e.spec_name().len() > 0,
        e.spec_description().len() > 0,
        e.spec_hint().len() > 0,
{
    match e {
        CellScriptRuntimeError::SyscallFailed => {
            reveal_strlit("syscall-failed");
            reveal_strlit("A target VM syscall returned a non-zero status while loading transaction context.");
            reveal_strlit("Check transaction input/output/cell_dep indexes, source flags, and target-profile syscall compatibility.");
            assert("syscall-failed"@.len() == 14);
            assert("A target VM syscall returned a non-zero status while loading transaction context."@.len() == 81);
            assert("Check transaction input/output/cell_dep indexes, source flags, and target-profile syscall compatibility."@.len() == 104);
        },
        CellScriptRuntimeError::BoundsCheckFailed => {
            reveal_strlit("bounds-check-failed");
            reveal_strlit("Loaded bytes were smaller than the verifier-required minimum.");
            reveal_strlit("Check witness or cell data length against the schema manifest and entry ABI report.");
            assert("bounds-check-failed"@.len() == 19);
            assert("Loaded bytes were smaller than the verifier-required minimum."@.len() == 61);
            assert("Check witness or cell data length against the schema manifest and entry ABI report."@.len() == 83);
        },
        CellScriptRuntimeError::CellLoadFailed => {
            reveal_strlit("cell-load-failed");
            reveal_strlit("Cell data or field loading failed or returned an unusable result.");
            reveal_strlit("Check that the expected input, output, or dep cell exists and is reachable by the generated script.");
            assert("cell-load-failed"@.len() == 16);
            assert("Cell data or field loading failed or returned an unusable result."@.len() == 65);
            assert("Check that the expected input, output, or dep cell exists and is reachable by the generated script."@.len() == 99);
        },
        CellScriptRuntimeError::ExactSizeMismatch => {
            reveal_strlit("exact-size-mismatch");
            reveal_strlit("Loaded bytes did not match the exact fixed-size schema requirement.");
            reveal_strlit("Check fixed-width schema fields and ensure the builder encodes the exact Molecule byte length.");
            assert("exact-size-mismatch"@.len() == 19);
            assert("Loaded bytes did not match the exact fixed-size schema requirement."@.len() == 67);
            assert("Check fixed-width schema fields and ensure the builder encodes the exact Molecule byte length."@.len() == 94);
        },
        CellScriptRuntimeError::AssertionFailed => {
            reveal_strlit("assertion-failed");
            reveal_strlit("A source-level assert or invariant check evaluated to false.");
            reveal_strlit("Inspect the action invariant or assert expression and the transaction values that feed it.");
            assert("assertion-failed"@.len() == 16);
            assert("A source-level assert or invariant check evaluated to false."@.len() == 60);
            assert("Inspect the action invariant or assert expression and the transaction values that feed it."@.len() == 90);
        },
        CellScriptRuntimeError::FlowTransitionMismatch => {
            reveal_strlit("flow-transition-mismatch");
            reveal_strlit("A flow transition did not match the declared transition rule.");
            reveal_strlit("Compare consumed and produced state fields with the declared flow transitions.");
            assert("flow-transition-mismatch"@.len() == 24);
            assert("A flow transition did not match the declared transition rule."@.len() == 61);
            assert("Compare consumed and produced state fields with the declared flow transitions."@.len() == 78);
        },
        CellScriptRuntimeError::FlowNewStateInvalid => {
            reveal_strlit("flow-new-state-invalid");
            reveal_strlit("A created or proposed output state value was outside the declared state range.");
            reveal_strlit("Check created output state values and declared flow states.");
            assert("flow-new-state-invalid"@.len() == 22);
            assert("A created or proposed output state value was outside the declared state range."@.len() == 78);
            assert("Check created output state values and declared flow states."@.len() == 59);
        },
        CellScriptRuntimeError::FlowOldStateInvalid => {
            reveal_strlit("flow-old-state-invalid");
            reveal_strlit("A consumed state value was outside the declared state range.");
            reveal_strlit("Check consumed input state values and declared flow states.");
            assert("flow-old-state-invalid"@.len() == 22);
            assert("A consumed state value was outside the declared state range."@.len() == 60);
            assert("Check consumed input state values and declared flow states."@.len() == 59);
        },
        CellScriptRuntimeError::EntryWitnessMagicMismatch => {
            reveal_strlit("entry-witness-magic-mismatch");
            reveal_strlit("Entry witness bytes did not start with the CellScript witness ABI magic.");
            reveal_strlit("Encode entry witnesses with cellc entry-witness or the documented CSARGv1 wire format.");
            assert("entry-witness-magic-mismatch"@.len() == 28);
            assert("Entry witness bytes did not start with the CellScript witness ABI magic."@.len() == 72);
            assert("Encode entry witnesses with cellc entry-witness or the documented CSARGv1 wire format."@.len() == 86);
        },
        CellScriptRuntimeError::TypeHashPreservationMismatch => {
            reveal_strlit("type-hash-preservation-mismatch");
            reveal_strlit("A proposed output did not preserve the consumed input type hash.");
            reveal_strlit("Check the proposed output type script and builder output ordering.");
            assert("type-hash-preservation-mismatch"@.len() == 31);
            assert("A proposed output did not preserve the consumed input type hash."@.len() == 64);
            assert("Check the proposed output type script and builder output ordering."@.len() == 66);
        },
        CellScriptRuntimeError::LockHashPreservationMismatch => {
            reveal_strlit("lock-hash-preservation-mismatch");
            reveal_strlit("A proposed output did not preserve the consumed input lock hash.");
            reveal_strlit("Check the proposed output lock script and builder output ordering.");
            assert("lock-hash-preservation-mismatch"@.len() == 31);
            assert("A proposed output did not preserve the consumed input lock hash."@.len() == 64);
            assert("Check the proposed output lock script and builder output ordering."@.len() == 66);
        },
        CellScriptRuntimeError::FieldPreservationMismatch => {
            reveal_strlit("field-preservation-mismatch");
            reveal_strlit("An output field required to be preserved differs from its input field.");
            reveal_strlit("Check proposed output fields that should preserve lock/type/data identity.");
            assert("field-preservation-mismatch"@.len() == 27);
            assert("An output field required to be preserved differs from its input field."@.len() == 70);
            assert("Check proposed output fields that should preserve lock/type/data identity."@.len() == 74);
        },
        CellScriptRuntimeError::MutateTransitionMismatch => {
            reveal_strlit("mutate-transition-mismatch");
            reveal_strlit("A proposed output failed its declared field transition check.");
            reveal_strlit("Check the mutable field delta against the documented transition formula.");
            assert("mutate-transition-mismatch"@.len() == 26);
            assert("A proposed output failed its declared field transition check."@.len() == 61);
            assert("Check the mutable field delta against the documented transition formula."@.len() == 72);
        },
        CellScriptRuntimeError::DataPreservationMismatch => {
            reveal_strlit("data-preservation-mismatch");
            reveal_strlit("Proposed output data outside transition ranges differs from the input data.");
            reveal_strlit("Check that non-transition output data bytes are copied from the consumed input.");
            assert("data-preservation-mismatch"@.len() == 26);
            assert("Proposed output data outside transition ranges differs from the input data."@.len() == 75);
            assert("Check that non-transition output data bytes are copied from the consumed input."@.len() == 79);
        },
        CellScriptRuntimeError::DynamicFieldBoundsInvalid => {
            reveal_strlit("dynamic-field-bounds-invalid");
            reveal_strlit("A Molecule dynamic field offset or length failed bounds validation.");
            reveal_strlit("Validate Molecule table offsets, field count, and dynamic field lengths.");
            assert("dynamic-field-bounds-invalid"@.len() == 28);
            assert("A Molecule dynamic field offset or length failed bounds validation."@.len() == 67);
            assert("Validate Molecule table offsets, field count, and dynamic field lengths."@.len() == 72);
        },
        CellScriptRuntimeError::TypeHashMismatch => {
            reveal_strlit("type-hash-mismatch");
            reveal_strlit("A loaded cell type hash did not match the expected CellScript type identity.");
            reveal_strlit("Check type script hash/hash_type/args and the expected CellScript type identity.");
            assert("type-hash-mismatch"@.len() == 18);
            assert("A loaded cell type hash did not match the expected CellScript type identity."@.len() == 76);
            assert("Check type script hash/hash_type/args and the expected CellScript type identity."@.len() == 80);
        },
        CellScriptRuntimeError::FixedByteComparisonUnresolved => {
            reveal_strlit("fixed-byte-comparison-unresolved");
            reveal_strlit("A fixed-byte verifier comparison could not resolve its trusted source bytes.");
            reveal_strlit("Use schema-backed parameters or fixed-byte values that the verifier can address.");
            assert("fixed-byte-comparison-unresolved"@.len() == 32);
            assert("A fixed-byte verifier comparison could not resolve its trusted source bytes."@.len() == 76);
            assert("Use schema-backed parameters or fixed-byte values that the verifier can address."@.len() == 80);
        },
        CellScriptRuntimeError::NumericOrDiscriminantInvalid => {
            reveal_strlit("numeric-or-discriminant-invalid");
            reveal_strlit("A numeric verifier check, enum discriminant, or arithmetic guard failed.");
            reveal_strlit("Check enum tags, arithmetic bounds, and generated collection length arithmetic.");
            assert("numeric-or-discriminant-invalid"@.len() == 31);
            assert("A numeric verifier check, enum discriminant, or arithmetic guard failed."@.len() == 72);
            assert("Check enum tags, arithmetic bounds, and generated collection length arithmetic."@.len() == 79);
        },
        CellScriptRuntimeError::CollectionBoundsInvalid => {
            reveal_strlit("collection-bounds-invalid");
            reveal_strlit("A runtime collection index, length, or capacity check failed.");
            reveal_strlit("Check collection length, index, and capacity values in witness or cell data.");
            assert("collection-bounds-invalid"@.len() == 25);
            assert("A runtime collection index, length, or capacity check failed."@.len() == 61);
            assert("Check collection length, index, and capacity values in witness or cell data."@.len() == 76);
        },
        CellScriptRuntimeError::ConsumeInvalidOperand => {
            reveal_strlit("consume-invalid-operand");
            reveal_strlit("A consume operation reached codegen with an invalid or unsupported operand.");
            reveal_strlit("This indicates an unsupported lowering path; inspect compiler metadata blockers.");
            assert("consume-invalid-operand"@.len() == 23);
            assert("A consume operation reached codegen with an invalid or unsupported operand."@.len() == 75);
            assert("This indicates an unsupported lowering path; inspect compiler metadata blockers."@.len() == 80);
        },
        CellScriptRuntimeError::DestroyInvalidOperand => {
            reveal_strlit("destroy-invalid-operand");
            reveal_strlit("A destroy operation reached codegen with an invalid or unsupported operand.");
            reveal_strlit("This indicates an unsupported lowering path; inspect compiler metadata blockers.");
            assert("destroy-invalid-operand"@.len() == 23);
            assert("A destroy operation reached codegen with an invalid or unsupported operand."@.len() == 75);
            assert("This indicates an unsupported lowering path; inspect compiler metadata blockers."@.len() == 80);
        },
        CellScriptRuntimeError::CollectionRuntimeUnsupported => {
            reveal_strlit("collection-runtime-unsupported");
            reveal_strlit("A runtime collection helper shape is not supported by the current backend.");
            reveal_strlit("Avoid advertising this collection helper as production-ready until support is implemented.");
            assert("collection-runtime-unsupported"@.len() == 30);
            assert("A runtime collection helper shape is not supported by the current backend."@.len() == 74);
            assert("Avoid advertising this collection helper as production-ready until support is implemented."@.len() == 90);
        },
        CellScriptRuntimeError::EntryWitnessAbiInvalid => {
            reveal_strlit("entry-witness-abi-invalid");
            reveal_strlit("Entry witness payload layout, width, or parameter ABI placement was invalid.");
            reveal_strlit("Inspect cellc constraints or cellc abi output for parameter slots and witness byte layout.");
            assert("entry-witness-abi-invalid"@.len() == 25);
            assert("Entry witness payload layout, width, or parameter ABI placement was invalid."@.len() == 76);
            assert("Inspect cellc constraints or cellc abi output for parameter slots and witness byte layout."@.len() == 90);
        },
        CellScriptRuntimeError::CapacityPreservationMismatch => {
            reveal_strlit("capacity-preservation-mismatch");
            reveal_strlit("A proposed output did not preserve the consumed input capacity.");
            reveal_strlit("Check the proposed output capacity and builder output ordering.");
            assert("capacity-preservation-mismatch"@.len() == 30);
            assert("A proposed output did not preserve the consumed input capacity."@.len() == 63);
            assert("Check the proposed output capacity and builder output ordering."@.len() == 63);
        },
        CellScriptRuntimeError::DynamicFieldValueMismatch => {
            reveal_strlit("dynamic-field-value-mismatch");
            reveal_strlit("A dynamic Molecule field value did not match the expected verifier source.");
            reveal_strlit("Check dynamic Molecule field encoding and the value source used by the verifier.");
            assert("dynamic-field-value-mismatch"@.len() == 28);
            assert("A dynamic Molecule field value did not match the expected verifier source."@.len() == 74);
            assert("Check dynamic Molecule field encoding and the value source used by the verifier."@.len() == 80);
        },
        CellScriptRuntimeError::OutPointMismatch => {
            reveal_strlit("out-point-mismatch");
            reveal_strlit("A loaded input OutPoint field did not match the expected transaction lineage.");
            reveal_strlit("Check the input OutPoint tx hash/index and the expected lineage binding.");
            assert("out-point-mismatch"@.len() == 18);
            assert("A loaded input OutPoint field did not match the expected transaction lineage."@.len() == 77);
            assert("Check the input OutPoint tx hash/index and the expected lineage binding."@.len() == 72);
        },
        CellScriptRuntimeError::ScriptFieldMalformed => {
            reveal_strlit("script-field-malformed");
            reveal_strlit("A loaded CKB Script field did not match the expected Molecule Script layout.");
            reveal_strlit("Check the lock/type Script Molecule encoding, args length, and whether the cell actually has that script field.");
            assert("script-field-malformed"@.len() == 22);
            assert("A loaded CKB Script field did not match the expected Molecule Script layout."@.len() == 76);
            assert("Check the lock/type Script Molecule encoding, args length, and whether the cell actually has that script field."@.len() == 111);
        },
        CellScriptRuntimeError::DaoHeaderLineageMismatch => {
            reveal_strlit("dao-header-lineage-mismatch");
            reveal_strlit("The DAO field loaded from an input's committed block header did not match the supplied HeaderDep.");
            reveal_strlit("Bind the HeaderDep to the exact input/deposit header used for DAO accumulated-rate accounting.");
            assert("dao-header-lineage-mismatch"@.len() == 27);
            assert("The DAO field loaded from an input's committed block header did not match the supplied HeaderDep."@.len() == 97);
            assert("Bind the HeaderDep to the exact input/deposit header used for DAO accumulated-rate accounting."@.len() == 94);
        },
        CellScriptRuntimeError::DaoMaturityViolation => {
            reveal_strlit("dao-maturity-violation");
            reveal_strlit("The DAO input since value was below the required maturity lower bound.");
            reveal_strlit("Check the withdrawal request since value and ensure the consumed DAO input has reached the required maturity.");
            assert("dao-maturity-violation"@.len() == 22);
            assert("The DAO input since value was below the required maturity lower bound."@.len() == 70);
            assert("Check the withdrawal request since value and ensure the consumed DAO input has reached the required maturity."@.len() == 109);
        },
        CellScriptRuntimeError::CkbSinceMalformed => {
            reveal_strlit("ckb-since-malformed");
            reveal_strlit("A CKB since value or requested since constructor argument was malformed.");
            reveal_strlit("Check reserved flags, metric type, scalar and timestamp bounds, epoch number/index/length, and requested mode/metric.");
            assert("ckb-since-malformed"@.len() == 19);
            assert("A CKB since value or requested since constructor argument was malformed."@.len() == 72);
            assert("Check reserved flags, metric type, scalar and timestamp bounds, epoch number/index/length, and requested mode/metric."@.len() == 117);
        },
        CellScriptRuntimeError::ScriptArgsMismatch => {
            reveal_strlit("script-args-mismatch");
            reveal_strlit("A loaded CKB Script args field did not match the expected args policy.");
            reveal_strlit("Check lock/type script args and whether this protocol path requires empty script args.");
            assert("script-args-mismatch"@.len() == 20);
            assert("A loaded CKB Script args field did not match the expected args policy."@.len() == 70);
            assert("Check lock/type script args and whether this protocol path requires empty script args."@.len() == 86);
        },
        CellScriptRuntimeError::MetaPointMismatch => {
            reveal_strlit("metapoint-mismatch");
            reveal_strlit("A loaded CKB MetaPoint relation did not match the expected input/output index and relative distance.");
            reveal_strlit("Check the paired input OutPoints or output indexes and the signed relative-distance field.");
            assert("metapoint-mismatch"@.len() == 18);
            assert("A loaded CKB MetaPoint relation did not match the expected input/output index and relative distance."@.len() == 100);
            assert("Check the paired input OutPoints or output indexes and the signed relative-distance field."@.len() == 90);
        },
        CellScriptRuntimeError::MetaPointCardinalityMismatch => {
            reveal_strlit("metapoint-cardinality-mismatch");
            reveal_strlit("A current-script lock/type MetaPoint pair scan found a duplicate, missing, or unbalanced relation.");
            reveal_strlit("Check current-script lock-only/type-only cell counts and ensure every MetaPoint has exactly one paired cell.");
            assert("metapoint-cardinality-mismatch"@.len() == 30);
            assert("A current-script lock/type MetaPoint pair scan found a duplicate, missing, or unbalanced relation."@.len() == 98);
            assert("Check current-script lock-only/type-only cell counts and ensure every MetaPoint has exactly one paired cell."@.len() == 108);
        },
        CellScriptRuntimeError::ScriptIdentityMismatch => {
            reveal_strlit("script-identity-mismatch");
            reveal_strlit("A loaded CKB Script code_hash or hash_type did not match the expected identity.");
            reveal_strlit("Check Script code_hash, hash_type, deployed dep, and whether lock/type role is correct.");
            assert("script-identity-mismatch"@.len() == 24);
            assert("A loaded CKB Script code_hash or hash_type did not match the expected identity."@.len() == 79);
            assert("Check Script code_hash, hash_type, deployed dep, and whether lock/type role is correct."@.len() == 87);
        },
        CellScriptRuntimeError::WitnessMalformed => {
            reveal_strlit("witness-malformed");
            reveal_strlit("Loaded witness bytes did not match the expected Molecule WitnessArgs layout or ABI magic.");
            reveal_strlit("Check witness byte layout, WitnessArgs table header, and entry ABI magic bytes.");
            assert("witness-malformed"@.len() == 17);
            assert("Loaded witness bytes did not match the expected Molecule WitnessArgs layout or ABI magic."@.len() == 89);
            assert("Check witness byte layout, WitnessArgs table header, and entry ABI magic bytes."@.len() == 79);
        },
        CellScriptRuntimeError::WitnessFieldTruncated => {
            reveal_strlit("witness-field-truncated");
            reveal_strlit("A WitnessArgs field offset or length exceeded the loaded witness byte range.");
            reveal_strlit("Check that expected WitnessArgs field offsets plus field lengths stay within loaded witness size.");
            assert("witness-field-truncated"@.len() == 23);
            assert("A WitnessArgs field offset or length exceeded the loaded witness byte range."@.len() == 76);
            assert("Check that expected WitnessArgs field offsets plus field lengths stay within loaded witness size."@.len() == 97);
        },
        CellScriptRuntimeError::CkbSourceViewInvalid => {
            reveal_strlit("ckb-source-view-invalid");
            reveal_strlit("A CKB SourceView value was malformed or used with an incompatible source-specific helper.");
            reveal_strlit("Pass a SourceView produced by the matching source::* helper and keep indexes in range.");
            assert("ckb-source-view-invalid"@.len() == 23);
            assert("A CKB SourceView value was malformed or used with an incompatible source-specific helper."@.len() == 89);
            assert("Pass a SourceView produced by the matching source::* helper and keep indexes in range."@.len() == 86);
        },
        CellScriptRuntimeError::HeaderDepMissing => {
            reveal_strlit("header-dep-missing");
            reveal_strlit("A required HeaderDep source view was absent or could not be bound to the requested header.");
            reveal_strlit("Add the required header dep and bind it to the input/deposit whose DAO data is read.");
            assert("header-dep-missing"@.len() == 18);
            assert("A required HeaderDep source view was absent or could not be bound to the requested header."@.len() == 90);
            assert("Add the required header dep and bind it to the input/deposit whose DAO data is read."@.len() == 84);
        },
        CellScriptRuntimeError::DaoFieldMalformed => {
            reveal_strlit("dao-field-malformed");
            reveal_strlit("A loaded DAO header or cell field did not match the expected encoded layout.");
            reveal_strlit("Check DAO header bytes, accumulated-rate width, and deposit/withdrawal cell data layout.");
            assert("dao-field-malformed"@.len() == 19);
            assert("A loaded DAO header or cell field did not match the expected encoded layout."@.len() == 76);
            assert("Check DAO header bytes, accumulated-rate width, and deposit/withdrawal cell data layout."@.len() == 88);
        },
        CellScriptRuntimeError::ScriptRoleMismatch => {
            reveal_strlit("script-role-mismatch");
            reveal_strlit("The script was used in a lock/type role that violates the declared invariant.");
            reveal_strlit("Check whether the script is deployed and invoked as the expected lock or type script.");
            assert("script-role-mismatch"@.len() == 20);
            assert("The script was used in a lock/type role that violates the declared invariant."@.len() == 77);
            assert("Check whether the script is deployed and invoked as the expected lock or type script."@.len() == 85);
        },
        CellScriptRuntimeError::XudtBindingMismatch => {
            reveal_strlit("xudt-binding-mismatch");
            reveal_strlit("An xUDT type args, owner-mode, or amount binding check failed.");
            reveal_strlit("Check xUDT type args, owner-mode flags, input type hash, and token data layout.");
            assert("xudt-binding-mismatch"@.len() == 21);
            assert("An xUDT type args, owner-mode, or amount binding check failed."@.len() == 62);
            assert("Check xUDT type args, owner-mode flags, input type hash, and token data layout."@.len() == 79);
        },
        CellScriptRuntimeError::AggregateAmountMismatch => {
            reveal_strlit("aggregate-amount-mismatch");
            reveal_strlit("A lowered aggregate/C256 accounting equality or inequality check failed.");
            reveal_strlit("Compare generated aggregate inputs/outputs and inspect overflow or exact-equality assumptions.");
            assert("aggregate-amount-mismatch"@.len() == 25);
            assert("A lowered aggregate/C256 accounting equality or inequality check failed."@.len() == 72);
            assert("Compare generated aggregate inputs/outputs and inspect overflow or exact-equality assumptions."@.len() == 94);
        },
        CellScriptRuntimeError::Bip340PipeCreateFailed => {
            reveal_strlit("bip340-pipe-create-failed");
            reveal_strlit("The BIP340 runtime verifier path failed while creating the IPC pipe.");
            reveal_strlit("Check CKB VM v2 pipe syscall availability and parent script VM version.");
            assert("bip340-pipe-create-failed"@.len() == 25);
            assert("The BIP340 runtime verifier path failed while creating the IPC pipe."@.len() == 68);
            assert("Check CKB VM v2 pipe syscall availability and parent script VM version."@.len() == 71);
        },
        CellScriptRuntimeError::Bip340SpawnFailed => {
            reveal_strlit("bip340-spawn-failed");
            reveal_strlit("The BIP340 runtime verifier path failed while resolving or spawning the verifier CellDep.");
            reveal_strlit("Check verifier CellDep ordering, out_point, hash_type, and spawn source/place wiring.");
            assert("bip340-spawn-failed"@.len() == 19);
            assert("The BIP340 runtime verifier path failed while resolving or spawning the verifier CellDep."@.len() == 89);
            assert("Check verifier CellDep ordering, out_point, hash_type, and spawn source/place wiring."@.len() == 85);
        },
        CellScriptRuntimeError::Bip340MessageWriteFailed => {
            reveal_strlit("bip340-message-write-failed");
            reveal_strlit("The BIP340 runtime verifier path failed while writing the 32-byte message hash.");
            reveal_strlit("Compare the generated 32-byte message hash words with the verifier CLI input.");
            assert("bip340-message-write-failed"@.len() == 27);
            assert("The BIP340 runtime verifier path failed while writing the 32-byte message hash."@.len() == 79);
            assert("Compare the generated 32-byte message hash words with the verifier CLI input."@.len() == 77);
        },
        CellScriptRuntimeError::Bip340PubkeyWriteFailed => {
            reveal_strlit("bip340-pubkey-write-failed");
            reveal_strlit("The BIP340 runtime verifier path failed while writing the 32-byte x-only pubkey.");
            reveal_strlit("Compare the generated 32-byte x-only pubkey words with the verifier CLI input.");
            assert("bip340-pubkey-write-failed"@.len() == 26);
            assert("The BIP340 runtime verifier path failed while writing the 32-byte x-only pubkey."@.len() == 80);
            assert("Compare the generated 32-byte x-only pubkey words with the verifier CLI input."@.len() == 78);
        },
        CellScriptRuntimeError::Bip340SignatureWriteFailed => {
            reveal_strlit("bip340-signature-write-failed");
            reveal_strlit("The BIP340 runtime verifier path failed while writing the 64-byte signature.");
            reveal_strlit("Compare the generated 64-byte signature words with the verifier CLI input.");
            assert("bip340-signature-write-failed"@.len() == 29);
            assert("The BIP340 runtime verifier path failed while writing the 64-byte signature."@.len() == 76);
            assert("Compare the generated 64-byte signature words with the verifier CLI input."@.len() == 74);
        },
        CellScriptRuntimeError::Bip340VerifierReadFailed => {
            reveal_strlit("bip340-verifier-read-failed");
            reveal_strlit("The BIP340 runtime verifier path failed while closing or reading verifier IPC status.");
            reveal_strlit("Check IPC fd close/read/wait wiring between parent and child verifier.");
            assert("bip340-verifier-read-failed"@.len() == 27);
            assert("The BIP340 runtime verifier path failed while closing or reading verifier IPC status."@.len() == 85);
            assert("Check IPC fd close/read/wait wiring between parent and child verifier."@.len() == 70);
        },
        CellScriptRuntimeError::Bip340ChildRejected => {
            reveal_strlit("bip340-child-rejected");
            reveal_strlit("The spawned BIP340 child verifier returned a non-zero verification status.");
            reveal_strlit("Run the exact message, pubkey, and signature tuple through the local verifier CLI.");
            assert("bip340-child-rejected"@.len() == 21);
            assert("The spawned BIP340 child verifier returned a non-zero verification status."@.len() == 74);
            assert("Run the exact message, pubkey, and signature tuple through the local verifier CLI."@.len() == 82);
        },
        CellScriptRuntimeError::FixedU64LeInputUnresolved => {
            reveal_strlit("fixed-u64-le-input-unresolved");
            reveal_strlit("The backend could not materialize a fixed-byte input for a u64 little-endian load.");
            reveal_strlit("Inspect schema field provenance for the fixed-byte scalar source.");
            assert("fixed-u64-le-input-unresolved"@.len() == 29);
            assert("The backend could not materialize a fixed-byte input for a u64 little-endian load."@.len() == 82);
            assert("Inspect schema field provenance for the fixed-byte scalar source."@.len() == 65);
        },
        CellScriptRuntimeError::FixedByteComparisonMaterializationUnresolved => {
            reveal_strlit("fixed-byte-comparison-materialization-unresolved");
            reveal_strlit("The backend could not materialize one side of a fixed-byte comparison.");
            reveal_strlit("Inspect fixed-byte provenance for schema fields, aliases, nested projections, and local aggregates.");
            assert("fixed-byte-comparison-materialization-unresolved"@.len() == 48);
            assert("The backend could not materialize one side of a fixed-byte comparison."@.len() == 70);
            assert("Inspect fixed-byte provenance for schema fields, aliases, nested projections, and local aggregates."@.len() == 99);
        },
        CellScriptRuntimeError::Bip340MessageMaterializationUnresolved => {
            reveal_strlit("bip340-message-materialization-unresolved");
            reveal_strlit("The backend could not materialize the 32-byte BIP340 message hash for verifier IPC.");
            reveal_strlit("Compare signed_intent_hash provenance with the local verifier tuple.");
            assert("bip340-message-materialization-unresolved"@.len() == 41);
            assert("The backend could not materialize the 32-byte BIP340 message hash for verifier IPC."@.len() == 83);
            assert("Compare signed_intent_hash provenance with the local verifier tuple."@.len() == 68);
        },
        CellScriptRuntimeError::Bip340PubkeyMaterializationUnresolved => {
            reveal_strlit("bip340-pubkey-materialization-unresolved");
            reveal_strlit("The backend could not materialize the 32-byte BIP340 x-only pubkey for verifier IPC.");
            reveal_strlit("Inspect the nested witness pubkey field source and copied ABI bytes.");
            assert("bip340-pubkey-materialization-unresolved"@.len() == 40);
            assert("The backend could not materialize the 32-byte BIP340 x-only pubkey for verifier IPC."@.len() == 84);
            assert("Inspect the nested witness pubkey field source and copied ABI bytes."@.len() == 68);
        },
        CellScriptRuntimeError::Bip340SignatureMaterializationUnresolved => {
            reveal_strlit("bip340-signature-materialization-unresolved");
            reveal_strlit("The backend could not materialize the 64-byte BIP340 signature for verifier IPC.");
            reveal_strlit("Inspect the nested witness signature field source and copied ABI bytes.");
            assert("bip340-signature-materialization-unresolved"@.len() == 43);
            assert("The backend could not materialize the 64-byte BIP340 signature for verifier IPC."@.len() == 80);
            assert("Inspect the nested witness signature field source and copied ABI bytes."@.len() == 71);
        },
        CellScriptRuntimeError::PackedHashPreimageMaterializationUnresolved => {
            reveal_strlit("packed-hash-preimage-materialization-unresolved");
            reveal_strlit("The backend could not materialize canonical packed bytes for a packed hash preimage.");
            reveal_strlit("Inspect packed-hash lowering and schema-backed fixed aggregate materialization.");
            assert("packed-hash-preimage-materialization-unresolved"@.len() == 47);
            assert("The backend could not materialize canonical packed bytes for a packed hash preimage."@.len() == 84);
            assert("Inspect packed-hash lowering and schema-backed fixed aggregate materialization."@.len() == 79);
        },
        CellScriptRuntimeError::BoundedCellDepNotFound => {
            reveal_strlit("bounded-cell-dep-not-found");
            reveal_strlit("A bounded CellDep scan did not find the required data hash before reaching the declared scan limit.");
            reveal_strlit("Check the expected data hash, resolved CellDep order, scan limit, and manifest-pinned DepGroup origin.");
            assert("bounded-cell-dep-not-found"@.len() == 26);
            assert("A bounded CellDep scan did not find the required data hash before reaching the declared scan limit."@.len() == 99);
            assert("Check the expected data hash, resolved CellDep order, scan limit, and manifest-pinned DepGroup origin."@.len() == 102);
        },
        CellScriptRuntimeError::MerkleRootMismatch => {
            reveal_strlit("merkle-root-mismatch");
            reveal_strlit("A bounded Merkle proof did not reconstruct the expected root.");
            reveal_strlit("Check leaf byte order, sibling order, depth, leaf index, hash algorithm, and expected root.");
            assert("merkle-root-mismatch"@.len() == 20);
            assert("A bounded Merkle proof did not reconstruct the expected root."@.len() == 61);
            assert("Check leaf byte order, sibling order, depth, leaf index, hash algorithm, and expected root."@.len() == 91);
        },
        CellScriptRuntimeError::ShiftAmountInvalid => {
            reveal_strlit("shift-amount-invalid");
            reveal_strlit("A runtime integer shift amount was greater than or equal to the left operand width.");
            reveal_strlit("Keep runtime shift amounts below the bit width of the shifted integer value.");
            assert("shift-amount-invalid"@.len() == 20);
            assert("A runtime integer shift amount was greater than or equal to the left operand width."@.len() == 83);
            assert("Keep runtime shift amounts below the bit width of the shifted integer value."@.len() == 76);
        },
        CellScriptRuntimeError::SighashAllUnsupported => {
            reveal_strlit("sighash-all-unsupported");
            reveal_strlit("Canonical CKB transaction sighash construction is deferred and cannot produce a digest.");
            reveal_strlit("Use an authenticated standard Lock or an explicit verifier with an independently specified message contract.");
            assert("sighash-all-unsupported"@.len() == 23);
            assert("Canonical CKB transaction sighash construction is deferred and cannot produce a digest."@.len() == 87);
            assert("Use an authenticated standard Lock or an explicit verifier with an independently specified message contract."@.len() == 108);
        },
    }
}

} // verus!
