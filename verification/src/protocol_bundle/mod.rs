//! Artifact-only protocol bundles: the deployed identities of checked artifacts, the claims
//! they make on one transaction skeleton, and the conflicts between those claims.

pub mod admission;
pub mod builder;
pub mod canonical;
pub mod closed;
pub mod compose;
pub mod conflicts;
pub mod deps;
pub mod input;
pub mod order;
pub mod skeleton;
pub mod witness;

use crate::ckb_hash::{ckb_blake2b256, ckb_blake2b256_digest};
use crate::error::{CompileError, Result};
use crate::script_handle::{ExactScriptHandleReceipt, ExactScriptHandleValue};
use crate::text::{chars_of, concat2, concat3, has_prefix, hex_encode, hex_lower, lemma_hex_lower_len, str_eq, str_starts_with, substring_from};
use vstd::prelude::*;
use vstd::utf8::encode_utf8;

verus! {

pub const PROTOCOL_BUNDLE_SCHEMA: &'static str = "cellscript-protocol-bundle-v1";
pub const PROTOCOL_BUNDLE_INPUT_SCHEMA: &'static str = "cellscript-protocol-bundle-input-v1";
pub const PROTOCOL_BUNDLE_REPORT_SCHEMA: &'static str = "cellscript-protocol-bundle-report-v1";
pub const PROTOCOL_BUNDLE_EVIDENCE_SCHEMA: &'static str = "cellscript-protocol-bundle-evidence-v1";
pub const PROTOCOL_BUNDLE_HASH_DOMAIN: &'static str = "cellscript-protocol-bundle-v1";
pub const PROTOCOL_CLOSED_ROLE_SCHEMA: &'static str = "cellscript-protocol-closed-role-v1";

/// The chain a deployment lives on.
#[derive(Debug, Clone, PartialEq, Eq)]
pub struct ProtocolNetworkIdentity {
    pub chain_id: String,
    pub genesis_hash: String,
}

/// The Script slot an artifact is deployed for.
#[derive(Debug, Clone, Copy, PartialEq, Eq, Structural, PartialOrd, Ord)]
pub enum ProtocolScriptRole {
    Lock,
    Type,
    SpawnedVerifier,
}

/// The kind of entry an artifact exposes.
#[derive(Debug, Clone, Copy, PartialEq, Eq, Structural, PartialOrd, Ord)]
pub enum ProtocolEntryKind {
    Action,
    Lock,
    Function,
}

/// The entry an artifact exposes.
#[derive(Debug, Clone, PartialEq, Eq)]
pub struct ProtocolEntryIdentity {
    pub kind: ProtocolEntryKind,
    pub name: String,
}

/// The files that make up one artifact.
#[derive(Debug, Clone, PartialEq, Eq)]
pub struct ProtocolArtifactFiles {
    pub artifact: String,
    pub metadata: String,
    pub lowering_record: String,
    pub source_map: String,
    pub builder_manifest: Option<String>,
}

/// A transaction output reference.
#[derive(Debug, Clone, PartialEq, Eq, PartialOrd, Ord)]
pub struct ProtocolOutPoint {
    pub tx_hash: String,
    pub index: u32,
}

/// How a cell dependency is resolved.
#[derive(Debug, Clone, Copy, PartialEq, Eq, Structural, PartialOrd, Ord)]
pub enum ProtocolDepType {
    Code,
    DepGroup,
}

/// A cell dependency.
#[derive(Debug, Clone, PartialEq, Eq, PartialOrd, Ord)]
pub struct ProtocolCellDep {
    pub out_point: ProtocolOutPoint,
    pub dep_type: ProtocolDepType,
}

/// A CKB Script: code hash, hash type and arguments, as `0x` hexadecimal text.
#[derive(Debug, Clone, PartialEq, Eq, PartialOrd, Ord)]
pub struct ProtocolScriptIdentity {
    pub code_hash: String,
    pub hash_type: String,
    pub args: String,
}

/// Where and as what an artifact is deployed. `artifact_hash` is the CKB default hash of the
/// exact admitted ELF bytes, without a `0x` prefix.
#[derive(Debug, Clone, PartialEq, Eq)]
pub struct ProtocolDeploymentIdentity {
    pub network: ProtocolNetworkIdentity,
    pub artifact_hash: String,
    pub script: ProtocolScriptIdentity,
    pub code_cell_dep: ProtocolCellDep,
}

/// One artifact a bundle is composed of.
#[derive(Debug, Clone, PartialEq, Eq)]
pub struct ProtocolArtifactInput {
    pub id: String,
    pub package_coordinate: String,
    pub lock_node_id: String,
    pub entry: ProtocolEntryIdentity,
    pub script_role: ProtocolScriptRole,
    pub files: ProtocolArtifactFiles,
    pub deployment: ProtocolDeploymentIdentity,
}

/// Whether a claimed cell is a transaction input or output.
#[derive(Debug, Clone, Copy, PartialEq, Eq, Structural, PartialOrd, Ord)]
pub enum ProtocolCellLocation {
    Input,
    Output,
}

/// Whether a cell claim is exclusive or a shared read.
#[derive(Debug, Clone, Copy, PartialEq, Eq, Structural, PartialOrd, Ord)]
pub enum ProtocolRoleOwnership {
    Exclusive,
    SharedRead,
}

/// An artifact's claim on one input or output cell of the transaction skeleton.
#[derive(Debug, Clone, PartialEq, Eq)]
pub struct ProtocolRoleBinding {
    pub artifact: String,
    pub name: String,
    pub location: ProtocolCellLocation,
    pub index: u32,
    pub ownership: ProtocolRoleOwnership,
    pub expected_lock: Option<ProtocolScriptIdentity>,
    pub expected_type: Option<ProtocolScriptIdentity>,
    pub resource_identity: Option<String>,
    pub cell_commitment: Option<String>,
    pub exact_capacity: Option<u64>,
    pub minimum_capacity: Option<u64>,
}

/// A Molecule type and its canonical schema hash from checked compile metadata.
#[derive(Debug, Clone, PartialEq, Eq, PartialOrd, Ord)]
pub struct ProtocolRoleSchemaIdentity {
    pub molecule_type: String,
    pub schema_hash: String,
}

/// Whether a closed role is a cell or a witness field.
#[derive(Debug, Clone, Copy, PartialEq, Eq, Structural, PartialOrd, Ord)]
pub enum ProtocolClosedRoleKind {
    Cell,
    Witness,
}

/// A named claim of one artifact.
#[derive(Debug, Clone, PartialEq, Eq, PartialOrd, Ord)]
pub struct ProtocolPhysicalRoleRef {
    pub artifact: String,
    pub claim: String,
}

/// How the participants of a closed role correspond.
#[derive(Debug, Clone, Copy, PartialEq, Eq, Structural, PartialOrd, Ord)]
pub enum ProtocolRoleCorrespondence {
    ExactPhysicalBinding,
}

/// Where the participants of a closed role live.
#[derive(Debug, Clone, Copy, PartialEq, Eq, Structural, PartialOrd, Ord)]
pub enum ProtocolRoleLocality {
    ClosedForeign,
}

/// Artifact-only declaration that one checked participant owns a typed cell or witness role
/// and other checked participants consume the identical physical value.
#[derive(Debug, Clone, PartialEq, Eq)]
pub struct ProtocolClosedRoleBinding {
    pub schema: String,
    pub role_id: String,
    pub kind: ProtocolClosedRoleKind,
    pub schema_identity: ProtocolRoleSchemaIdentity,
    pub provider: ProtocolPhysicalRoleRef,
    pub consumers: Vec<ProtocolPhysicalRoleRef>,
    pub correspondence: ProtocolRoleCorrespondence,
}

/// A field of `WitnessArgs`.
#[derive(Debug, Clone, Copy, PartialEq, Eq, Structural, PartialOrd, Ord)]
pub enum ProtocolWitnessField {
    Lock,
    InputType,
    OutputType,
}

/// Whether a witness claim writes the field exclusively or only reads it.
#[derive(Debug, Clone, Copy, PartialEq, Eq, Structural, PartialOrd, Ord)]
pub enum ProtocolWitnessOwnership {
    ExclusiveWrite,
    SharedRead,
}

/// An artifact's claim on one `WitnessArgs` field.
#[derive(Debug, Clone, PartialEq, Eq)]
pub struct ProtocolWitnessClaim {
    pub artifact: String,
    pub name: String,
    pub index: u32,
    pub field: ProtocolWitnessField,
    pub ownership: ProtocolWitnessOwnership,
    pub abi: String,
    pub value_commitment: Option<String>,
    pub signing_domain: Option<String>,
}

/// An artifact's claim on one cell dependency position.
#[derive(Debug, Clone, PartialEq, Eq)]
pub struct ProtocolCellDepClaim {
    pub artifact: String,
    pub name: String,
    pub index: u32,
    pub cell_dep: ProtocolCellDep,
}

/// An artifact's claim on one header dependency position.
#[derive(Debug, Clone, PartialEq, Eq)]
pub struct ProtocolHeaderDepClaim {
    pub artifact: String,
    pub name: String,
    pub index: u32,
    pub header_hash: String,
}

/// The transaction policies an artifact may claim.
#[derive(Debug, Clone, Copy, PartialEq, Eq, Structural, PartialOrd, Ord)]
pub enum ProtocolPolicyKind {
    Fee,
    Change,
}

/// Whether a policy claim is exclusive.
#[derive(Debug, Clone, Copy, PartialEq, Eq, Structural, PartialOrd, Ord)]
pub enum ProtocolPolicyOwnership {
    Exclusive,
    Shared,
}

/// An artifact's claim on the fee or change policy.
#[derive(Debug, Clone, PartialEq, Eq)]
pub struct ProtocolPolicyClaim {
    pub artifact: String,
    pub kind: ProtocolPolicyKind,
    pub ownership: ProtocolPolicyOwnership,
    pub policy_hash: String,
}

/// One cell of the transaction skeleton. `out_point` and `since` describe a concrete input;
/// `data` holds the exact cell data bytes.
#[derive(Debug, Clone, PartialEq, Eq)]
pub struct ProtocolCellSlot {
    pub cell_commitment: String,
    pub capacity: u64,
    pub lock: ProtocolScriptIdentity,
    pub type_script: Option<ProtocolScriptIdentity>,
    pub out_point: Option<ProtocolOutPoint>,
    pub since: Option<u64>,
    pub data: Option<String>,
}

/// The `WitnessArgs` of one witness: CKB Blake2b-256 commitments to the exact field bytes, and
/// the bytes themselves where they are known.
#[derive(Debug, Clone, PartialEq, Eq)]
pub struct ProtocolWitnessSlot {
    pub lock: Option<String>,
    pub input_type: Option<String>,
    pub output_type: Option<String>,
    pub lock_bytes: Option<String>,
    pub input_type_bytes: Option<String>,
    pub output_type_bytes: Option<String>,
}

impl Default for ProtocolWitnessSlot {
    fn default() -> (r: Self)
        ensures
            r.lock is None && r.input_type is None && r.output_type is None,
            r.lock_bytes is None && r.input_type_bytes is None && r.output_type_bytes is None,
    {
        ProtocolWitnessSlot {
            lock: None,
            input_type: None,
            output_type: None,
            lock_bytes: None,
            input_type_bytes: None,
            output_type_bytes: None,
        }
    }
}

/// The transaction every artifact of a bundle is composed into. Each piece of builder
/// assumption evidence is kept as its JSON text, by name.
#[derive(Debug, Clone, PartialEq, Eq)]
pub struct ProtocolTransactionSkeleton {
    pub version: u32,
    pub inputs: Vec<ProtocolCellSlot>,
    pub outputs: Vec<ProtocolCellSlot>,
    pub witnesses: Vec<ProtocolWitnessSlot>,
    pub cell_deps: Vec<ProtocolCellDep>,
    pub header_deps: Vec<String>,
    pub fee_policy_hash: String,
    pub change_policy_hash: String,
    pub builder_assumption_evidence: std::collections::BTreeMap<String, String>,
}

/// Everything a bundle knows of one admitted artifact.
#[derive(Debug, Clone, PartialEq, Eq)]
pub struct ProtocolArtifactIdentity {
    pub id: String,
    pub package_coordinate: String,
    pub lock_node_id: String,
    pub entry: ProtocolEntryIdentity,
    pub script_role: ProtocolScriptRole,
    pub deployment: ProtocolDeploymentIdentity,
    pub compiler_version: String,
    pub edition: String,
    pub metadata_schema_version: u32,
    pub artifact_hash: String,
    pub metadata_hash: String,
    pub typed_semantics_hash: String,
    pub lowering_record_hash: String,
    pub source_map_hash: String,
    pub interface_hash: String,
    pub schema_contracts: Vec<ProtocolRoleSchemaIdentity>,
    pub target_profile: String,
    pub target_profile_hash: String,
    pub runtime_abi_hash: String,
    pub exact_handle_receipt: ExactScriptHandleReceipt,
    pub exact_handle: ExactScriptHandleValue,
    pub exact_handle_hash: String,
    pub builder_manifest_hash: Option<String>,
    pub verified_bundle_id: String,
}

/// One resolved participant of a closed role.
#[derive(Debug, Clone, PartialEq, Eq)]
pub struct ProtocolClosedRoleParticipant {
    pub artifact: String,
    pub package_coordinate: String,
    pub entry: ProtocolEntryIdentity,
    pub script_role: ProtocolScriptRole,
    pub claim: String,
    pub interface_hash: String,
    pub artifact_hash: String,
    pub deployment: ProtocolDeploymentIdentity,
    pub exact_handle: ExactScriptHandleValue,
    pub exact_handle_hash: String,
}

/// The physical slot a closed role refers to.
#[derive(Debug, Clone, Copy, PartialEq, Eq, Structural, PartialOrd, Ord)]
pub enum ProtocolClosedRoleSource {
    Cell { location: ProtocolCellLocation, index: u32 },
    Witness { index: u32, field: ProtocolWitnessField },
}

/// A closed role with its participants resolved to admitted artifacts.
#[derive(Debug, Clone, PartialEq, Eq)]
pub struct ResolvedProtocolClosedRoleBinding {
    pub schema: String,
    pub role_id: String,
    pub locality: ProtocolRoleLocality,
    pub kind: ProtocolClosedRoleKind,
    pub schema_identity: ProtocolRoleSchemaIdentity,
    pub source: ProtocolClosedRoleSource,
    pub provider: ProtocolClosedRoleParticipant,
    pub consumers: Vec<ProtocolClosedRoleParticipant>,
    pub correspondence: ProtocolRoleCorrespondence,
}

/// A composed bundle: the admitted artifacts and every claim they make on the transaction
/// skeleton. (The admission evidence of deployment lines is kept beside it.)
#[derive(Debug, Clone, PartialEq, Eq)]
pub struct ResolvedProtocolBundle {
    pub schema: String,
    pub network: ProtocolNetworkIdentity,
    pub artifacts: Vec<ProtocolArtifactIdentity>,
    pub transaction: ProtocolTransactionSkeleton,
    pub roles: Vec<ProtocolRoleBinding>,
    pub closed_roles: Vec<ResolvedProtocolClosedRoleBinding>,
    pub witnesses: Vec<ProtocolWitnessClaim>,
    pub cell_deps: Vec<ProtocolCellDepClaim>,
    pub header_deps: Vec<ProtocolHeaderDepClaim>,
    pub policies: Vec<ProtocolPolicyClaim>,
}

/// One incompatibility between the claims of a bundle: a stable code, a class, the key of the
/// transaction part it concerns, the artifacts involved (sorted, without repeats) and a detail.
#[derive(Debug, Clone, PartialEq, Eq, PartialOrd, Ord)]
pub struct ProtocolBundleConflict {
    pub code: String,
    pub class: String,
    pub key: String,
    pub artifacts: Vec<String>,
    pub detail: String,
}

// ---------------------------------------------------------------------------------------------
// Text checks.

/// A lower-case hexadecimal digit.
pub open spec fn is_lower_hex_char(c: char) -> bool {
    ('0' <= c && c <= '9') || ('a' <= c && c <= 'f')
}

/// Every character is a lower-case hexadecimal digit.
pub open spec fn all_lower_hex(s: Seq<char>) -> bool {
    forall|i: int| 0 <= i < s.len() ==> is_lower_hex_char(#[trigger] s[i])
}

/// Exactly 32 bytes of lower-case hexadecimal, without a prefix.
pub open spec fn is_raw_hash32(s: Seq<char>) -> bool {
    s.len() == 64 && all_lower_hex(s)
}

/// A control character (Unicode general category Cc, std's `char::is_control`).
pub open spec fn is_control(c: char) -> bool {
    (c as u32) <= 0x1f || (0x7f <= (c as u32) && (c as u32) <= 0x9f)
}

/// A name a bundle accepts: not empty, at most 512 bytes of UTF-8, and free of control
/// characters.
pub open spec fn name_ok(s: Seq<char>) -> bool {
    &&& s.len() > 0
    &&& encode_utf8(s).len() <= 512
    &&& forall|i: int| 0 <= i < s.len() ==> !is_control(#[trigger] s[i])
}

/// The first of two outcomes that is an error.
pub open spec fn first_error(a: Option<Seq<char>>, b: Option<Seq<char>>) -> Option<Seq<char>> {
    if a is Some {
        a
    } else {
        b
    }
}

/// The error a name check reports, if any.
pub open spec fn name_error(value: Seq<char>, label: Seq<char>) -> Option<Seq<char>> {
    if name_ok(value) {
        None
    } else {
        Some("ProtocolBundle "@ + label + " must be a non-empty bounded string"@)
    }
}

/// The error a check for a bare 32-byte hash reports, if any.
pub open spec fn raw_hash32_error(value: Seq<char>, label: Seq<char>) -> Option<Seq<char>> {
    if is_raw_hash32(value) {
        None
    } else {
        Some(label + " must be exactly 32 bytes of lowercase hex without 0x"@)
    }
}

/// The error a check for a `0x`-prefixed 32-byte hash reports, if any.
pub open spec fn hash32_error(value: Seq<char>, label: Seq<char>) -> Option<Seq<char>> {
    if !has_prefix(value, "0x"@) {
        Some(label + " must use canonical 0x-prefixed lowercase hex"@)
    } else {
        raw_hash32_error(value.skip(2), label)
    }
}

/// The error a check for `0x`-prefixed bytes reports, if any.
pub open spec fn hex_bytes_error(value: Seq<char>, label: Seq<char>) -> Option<Seq<char>> {
    if !has_prefix(value, "0x"@) {
        Some(label + " must use canonical 0x-prefixed lowercase hex"@)
    } else if value.skip(2).len() % 2 != 0 || !all_lower_hex(value.skip(2)) {
        Some(label + " must contain an even number of lowercase hex digits"@)
    } else {
        None
    }
}

/// A Script hash type CKB knows.
pub open spec fn known_hash_type(t: Seq<char>) -> bool {
    t == "data"@ || t == "data1"@ || t == "data2"@ || t == "type"@
}

/// The error a Script check reports, if any.
pub open spec fn script_error(script: ProtocolScriptIdentity, label: Seq<char>) -> Option<Seq<char>> {
    first_error(
        hash32_error(script.code_hash@, label + " code_hash"@),
        first_error(
            if known_hash_type(script.hash_type@) {
                None
            } else {
                Some(label + " hash_type must be data, data1, data2, or type"@)
            },
            hex_bytes_error(script.args@, label + " args"@),
        ),
    )
}

/// The error a cell dependency check reports, if any.
pub open spec fn cell_dep_error(dep: ProtocolCellDep, label: Seq<char>) -> Option<Seq<char>> {
    hash32_error(dep.out_point.tx_hash@, label + " tx_hash"@)
}

/// The error a network check reports, if any.
pub open spec fn network_error(network: ProtocolNetworkIdentity, label: Seq<char>) -> Option<Seq<char>> {
    first_error(
        name_error(network.chain_id@, label + " chain_id"@),
        hash32_error(network.genesis_hash@, label + " genesis_hash"@),
    )
}

/// The error a deployment check reports, if any.
pub open spec fn deployment_error(d: ProtocolDeploymentIdentity) -> Option<Seq<char>> {
    first_error(
        network_error(d.network, "artifact deployment network"@),
        first_error(
            raw_hash32_error(d.artifact_hash@, "deployment artifact_hash"@),
            first_error(
                script_error(d.script, "deployment script"@),
                cell_dep_error(d.code_cell_dep, "deployment code CellDep"@),
            ),
        ),
    )
}

/// `r` is `Ok` exactly when `error` is none, and otherwise carries that message.
pub open spec fn reports(r: Result<()>, error: Option<Seq<char>>) -> bool {
    match error {
        None => r is Ok,
        Some(m) => r matches Err(e) && e.message@ == m,
    }
}

/// Whether a character is a control character.
pub fn char_is_control(c: char) -> (r: bool)
    ensures
        r == is_control(c),
{
    let v = c as u32;
    v <= 0x1f || (0x7f <= v && v <= 0x9f)
}

/// Whether all of `cs` from position `from` on are lower-case hexadecimal digits.
fn lower_hex_from(cs: &Vec<char>, from: usize) -> (r: bool)
    requires
        from <= cs@.len(),
    ensures
        r == all_lower_hex(cs@.skip(from as int)),
{
    let mut i: usize = from;
    while i < cs.len()
        invariant
            from <= i <= cs@.len(),
            forall|k: int| from <= k < i ==> is_lower_hex_char(#[trigger] cs@[k]),
        decreases cs@.len() - i,
    {
        let c = cs[i];
        if !(('0' <= c && c <= '9') || ('a' <= c && c <= 'f')) {
            assert(cs@.skip(from as int)[i - from] == c);
            return false;
        }
        i += 1;
    }
    assert forall|k: int| 0 <= k < cs@.skip(from as int).len() implies is_lower_hex_char(
        #[trigger] cs@.skip(from as int)[k],
    ) by {
        assert(cs@.skip(from as int)[k] == cs@[k + from]);
    }
    true
}

/// The message for a failed check: the label followed by a fixed description.
fn labelled(label: &str, what: &str) -> (e: CompileError)
    ensures
        e.message@ == label@ + what@,
{
    CompileError::without_span(concat2(label, what).as_str())
}

/// How many bytes UTF-8 spends on a character.
pub open spec fn char_width(c: char) -> nat {
    if (c as u32) <= 0x7f {
        1
    } else if (c as u32) <= 0x7ff {
        2
    } else if (c as u32) <= 0xffff {
        3
    } else {
        4
    }
}

/// How many bytes UTF-8 spends on the characters.
pub open spec fn utf8_len(s: Seq<char>) -> nat
    decreases s.len(),
{
    if s.len() == 0 {
        0
    } else {
        char_width(s[0]) + utf8_len(s.drop_first())
    }
}

/// `utf8_len` is the length of the UTF-8 encoding.
pub proof fn lemma_utf8_len(s: Seq<char>)
    ensures
        encode_utf8(s).len() == utf8_len(s),
    decreases s.len(),
{
    if s.len() > 0 {
        vstd::utf8::char_is_scalar(s[0]);
        lemma_utf8_len(s.drop_first());
    }
}

fn char_width_exec(c: char) -> (r: usize)
    ensures
        r == char_width(c),
{
    let v = c as u32;
    if v <= 0x7f {
        1
    } else if v <= 0x7ff {
        2
    } else if v <= 0xffff {
        3
    } else {
        4
    }
}

/// Checks a name: not empty, at most 512 bytes, no control characters.
pub fn validate_name(value: &str, label: &str) -> (r: Result<()>)
    ensures
        reports(r, name_error(value@, label@)),
{
    let cs = chars_of(value);
    proof {
        lemma_utf8_len(value@);
        assert(cs@.skip(0) =~= cs@);
    }
    if cs.len() == 0 {
        return Err(CompileError::without_span(concat3("ProtocolBundle ", label, " must be a non-empty bounded string").as_str()));
    }
    let mut n: usize = 0;
    let mut i: usize = 0;
    while i < cs.len()
        invariant
            cs@ == value@,
            i <= cs@.len(),
            n <= 512,
            utf8_len(cs@) == n + utf8_len(cs@.skip(i as int)),
            encode_utf8(value@).len() == utf8_len(value@),
            forall|k: int| 0 <= k < i ==> !is_control(#[trigger] cs@[k]),
        decreases cs@.len() - i,
    {
        let c = cs[i];
        if char_is_control(c) {
            return Err(CompileError::without_span(concat3("ProtocolBundle ", label, " must be a non-empty bounded string").as_str()));
        }
        proof {
            assert(cs@.skip(i as int).drop_first() =~= cs@.skip(i + 1));
        }
        n = n + char_width_exec(c);
        if n > 512 {
            return Err(CompileError::without_span(concat3("ProtocolBundle ", label, " must be a non-empty bounded string").as_str()));
        }
        i += 1;
    }
    Ok(())
}

/// Checks a bare 32-byte hash and returns it.
pub fn canonical_raw_hash32(value: &str, label: &str) -> (r: Result<String>)
    ensures
        match raw_hash32_error(value@, label@) {
            None => r matches Ok(s) && s@ == value@,
            Some(m) => r matches Err(e) && e.message@ == m,
        },
{
    let cs = chars_of(value);
    if cs.len() == 64 && lower_hex_from(&cs, 0) {
        proof {
            assert(cs@.skip(0) =~= cs@);
        }
        Ok(value.to_owned())
    } else {
        proof {
            assert(cs@.skip(0) =~= cs@);
        }
        Err(labelled(label, " must be exactly 32 bytes of lowercase hex without 0x"))
    }
}

/// Checks a `0x`-prefixed 32-byte hash and returns it.
pub fn canonical_hash32(value: &str, label: &str) -> (r: Result<String>)
    ensures
        match hash32_error(value@, label@) {
            None => r matches Ok(s) && s@ == value@,
            Some(m) => r matches Err(e) && e.message@ == m,
        },
{
    if !str_starts_with(value, "0x") {
        proof {
            reveal_strlit("0x");
        }
        return Err(labelled(label, " must use canonical 0x-prefixed lowercase hex"));
    }
    proof {
        reveal_strlit("0x");
    }
    let raw = substring_from(value, 2);
    match canonical_raw_hash32(raw.as_str(), label) {
        Ok(_) => Ok(value.to_owned()),
        Err(e) => Err(e),
    }
}

/// Checks `0x`-prefixed bytes: an even number of lower-case hexadecimal digits.
pub fn canonical_hex_bytes(value: &str, label: &str) -> (r: Result<()>)
    ensures
        reports(r, hex_bytes_error(value@, label@)),
{
    if !str_starts_with(value, "0x") {
        proof {
            reveal_strlit("0x");
        }
        return Err(labelled(label, " must use canonical 0x-prefixed lowercase hex"));
    }
    proof {
        reveal_strlit("0x");
    }
    let cs = chars_of(value);
    if (cs.len() - 2) % 2 != 0 || !lower_hex_from(&cs, 2) {
        return Err(labelled(label, " must contain an even number of lowercase hex digits"));
    }
    Ok(())
}

/// Checks a Script: its code hash, hash type and arguments.
pub fn validate_script(script: &ProtocolScriptIdentity, label: &str) -> (r: Result<()>)
    ensures
        reports(r, script_error(*script, label@)),
{
    let code_label = concat2(label, " code_hash");
    if let Err(e) = canonical_hash32(script.code_hash.as_str(), code_label.as_str()) {
        return Err(e);
    }
    let t = script.hash_type.as_str();
    proof {
        reveal_strlit("data");
        reveal_strlit("data1");
        reveal_strlit("data2");
        reveal_strlit("type");
    }
    if !(str_eq(t, "data") || str_eq(t, "data1") || str_eq(t, "data2") || str_eq(t, "type")) {
        return Err(labelled(label, " hash_type must be data, data1, data2, or type"));
    }
    let args_label = concat2(label, " args");
    canonical_hex_bytes(script.args.as_str(), args_label.as_str())
}

/// Checks a cell dependency's transaction hash.
pub fn validate_cell_dep(cell_dep: &ProtocolCellDep, label: &str) -> (r: Result<()>)
    ensures
        reports(r, cell_dep_error(*cell_dep, label@)),
{
    let l = concat2(label, " tx_hash");
    match canonical_hash32(cell_dep.out_point.tx_hash.as_str(), l.as_str()) {
        Ok(_) => Ok(()),
        Err(e) => Err(e),
    }
}

/// The network identity a bundle is composed for: the given chain id and genesis hash, once
/// the genesis hash is checked to be a `0x`-prefixed 32-byte hash.
pub fn normalized_network(network: &ProtocolNetworkIdentity) -> (r: Result<ProtocolNetworkIdentity>)
    ensures
        match hash32_error(network.genesis_hash@, "network genesis_hash"@) {
            None => r matches Ok(n) && n.chain_id@ == network.chain_id@ && n.genesis_hash@ == network.genesis_hash@,
            Some(m) => r matches Err(e) && e.message@ == m,
        },
{
    match canonical_hash32(network.genesis_hash.as_str(), "network genesis_hash") {
        Ok(genesis_hash) => Ok(ProtocolNetworkIdentity { chain_id: network.chain_id.clone(), genesis_hash }),
        Err(e) => Err(e),
    }
}

/// Checks a network: its chain id is a name and its genesis hash a `0x` hash.
pub fn validate_network(network: &ProtocolNetworkIdentity, label: &str) -> (r: Result<()>)
    ensures
        reports(r, network_error(*network, label@)),
{
    let l = concat2(label, " chain_id");
    if let Err(e) = validate_name(network.chain_id.as_str(), l.as_str()) {
        return Err(e);
    }
    let l = concat2(label, " genesis_hash");
    match canonical_hash32(network.genesis_hash.as_str(), l.as_str()) {
        Ok(_) => Ok(()),
        Err(e) => Err(e),
    }
}

/// Checks a deployment: network, artifact hash, Script and code cell dependency, in that order.
pub fn validate_deployment(deployment: &ProtocolDeploymentIdentity) -> (r: Result<()>)
    ensures
        reports(r, deployment_error(*deployment)),
{
    proof {
        reveal_strlit("artifact deployment network");
        reveal_strlit("deployment artifact_hash");
        reveal_strlit("deployment script");
        reveal_strlit("deployment code CellDep");
    }
    if let Err(e) = validate_network(&deployment.network, "artifact deployment network") {
        return Err(e);
    }
    if let Err(e) = canonical_raw_hash32(deployment.artifact_hash.as_str(), "deployment artifact_hash") {
        return Err(e);
    }
    if let Err(e) = validate_script(&deployment.script, "deployment script") {
        return Err(e);
    }
    validate_cell_dep(&deployment.code_cell_dep, "deployment code CellDep")
}

/// The commitment to a serialized ProtocolBundle value: `0x` and the lower-case hexadecimal
/// CKB hash of its JSON bytes.
pub fn protocol_json_commitment(json: &[u8]) -> (r: String)
    ensures
        r@ == "0x"@ + hex_lower(ckb_blake2b256_digest(json@)),
        r@.len() == 66,
{
    proof {
        reveal_strlit("0x");
    }
    let digest = ckb_blake2b256(json);
    proof {
        lemma_hex_lower_len(digest@);
    }
    concat2("0x", hex_encode(&digest).as_str())
}

} // verus!
