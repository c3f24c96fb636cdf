//! The checks a transaction skeleton must pass before claims are composed onto it.

use super::{
    canonical_hash32, canonical_hex_bytes, cell_dep_error, first_error, hash32_error, hex_bytes_error, reports,
    script_error, validate_cell_dep, validate_script, ProtocolArtifactInput, ProtocolCellSlot, ProtocolEntryKind,
    ProtocolScriptRole, ProtocolTransactionSkeleton,
};
use crate::ckb_hash::{ckb_blake2b256, ckb_blake2b256_digest};
use crate::error::{CompileError, Result};
use crate::proof_plan::soundness::{CompileMetadata, EntryProofPlanMetadata};
use crate::script_handle::{hex_decode, hex_decoded};
use crate::text::{concat2, concat3, decimal, decimal_string, hex_encode, hex_lower, str_eq, substring_from};
use vstd::prelude::*;

verus! {

/// How many claims of one kind, and how many skeleton entries, a bundle may hold.
pub const MAX_ROLE_BINDINGS: usize = 4096;
pub const MAX_WITNESS_CLAIMS: usize = 4096;
pub const MAX_DEP_CLAIMS: usize = 4096;

/// The error a count check reports, if any.
pub open spec fn count_error(label: Seq<char>, actual: nat, maximum: nat) -> Option<Seq<char>> {
    if actual > maximum {
        Some("ProtocolBundle "@ + label + " count "@ + decimal(actual) + " exceeds "@ + decimal(maximum))
    } else {
        None
    }
}

/// Checks that a count stays within its maximum.
pub fn bounded_count(label: &str, actual: usize, maximum: usize) -> (r: Result<()>)
    ensures
        reports(r, count_error(label@, actual as nat, maximum as nat)),
{
    if actual > maximum {
        let mut m = concat3("ProtocolBundle ", label, " count ");
        m.append(decimal_string(actual as u128).as_str());
        m.append(" exceeds ");
        m.append(decimal_string(maximum as u128).as_str());
        Err(CompileError::without_span(m.as_str()))
    } else {
        Ok(())
    }
}

/// The error a cell slot check reports, if any.
pub open spec fn cell_slot_error(cell: ProtocolCellSlot, label: Seq<char>) -> Option<Seq<char>> {
    first_error(
        hash32_error(cell.cell_commitment@, label + " cell_commitment"@),
        first_error(
            script_error(cell.lock, label + " lock"@),
            first_error(
                match cell.type_script {
                    Some(t) => script_error(t, label + " type"@),
                    None => None,
                },
                match cell.data {
                    Some(d) => hex_bytes_error(d@, label + " data"@),
                    None => None,
                },
            ),
        ),
    )
}

/// Checks a cell slot: commitment, lock, type and data.
pub fn validate_cell_slot(cell: &ProtocolCellSlot, label: &str) -> (r: Result<()>)
    ensures
        reports(r, cell_slot_error(*cell, label@)),
{
    let l = concat2(label, " cell_commitment");
    if let Err(e) = canonical_hash32(cell.cell_commitment.as_str(), l.as_str()) {
        return Err(e);
    }
    let l = concat2(label, " lock");
    if let Err(e) = validate_script(&cell.lock, l.as_str()) {
        return Err(e);
    }
    if let Some(t) = &cell.type_script {
        let l = concat2(label, " type");
        if let Err(e) = validate_script(t, l.as_str()) {
            return Err(e);
        }
    }
    if let Some(d) = &cell.data {
        let l = concat2(label, " data");
        if let Err(e) = canonical_hex_bytes(d.as_str(), l.as_str()) {
            return Err(e);
        }
    }
    Ok(())
}

/// The label of a witness field: `witness[2].lock`.
pub open spec fn witness_field_label(index: nat, field: Seq<char>) -> Seq<char> {
    "witness["@ + decimal(index) + "]."@ + field
}

/// The error the materialization check of one witness field reports, if any: a malformed
/// commitment or byte string, or bytes whose CKB hash is not the commitment.
pub open spec fn materialization_error(
    index: nat,
    field: Seq<char>,
    commitment: Option<Seq<char>>,
    bytes: Option<Seq<char>>,
) -> Option<Seq<char>> {
    let label = witness_field_label(index, field);
    first_error(
        match commitment {
            Some(c) => hash32_error(c, label),
            None => None,
        },
        match bytes {
            None => None,
            Some(b) => first_error(
                hex_bytes_error(b, label + "_bytes"@),
                match commitment {
                    Some(c) => if "0x"@ + hex_lower(ckb_blake2b256_digest(hex_decoded(b.skip(2)))) != c {
                        Some(label + "_bytes"@ + " does not match its CKB Blake2b-256 commitment"@)
                    } else {
                        None
                    },
                    None => None,
                },
            ),
        },
    )
}

fn opt_view(s: &Option<String>) -> (r: Option<&str>)
    ensures
        match r {
            Some(t) => s matches Some(u) && t@ == u@,
            None => s is None,
        },
{
    match s {
        Some(u) => Some(u.as_str()),
        None => None,
    }
}

/// The view of an optional text.
pub open spec fn opt_text(s: Option<String>) -> Option<Seq<char>> {
    match s {
        Some(u) => Some(u@),
        None => None,
    }
}

/// Checks one field of a witness: its commitment, its bytes, and that the bytes hash to the
/// commitment.
pub fn validate_witness_materialization(index: usize, field: &str, commitment: Option<&str>, bytes: Option<&str>) -> (r: Result<()>)
    ensures
        reports(
            r,
            materialization_error(
                index as nat,
                field@,
                match commitment {
                    Some(c) => Some(c@),
                    None => None,
                },
                match bytes {
                    Some(b) => Some(b@),
                    None => None,
                },
            ),
        ),
{
    proof {
        reveal_strlit("witness[");
        reveal_strlit("].");
        reveal_strlit("_bytes");
        reveal_strlit("0x");
    }
    let mut label = concat3("witness[", decimal_string(index as u128).as_str(), "].");
    label.append(field);
    if let Some(c) = commitment {
        if let Err(e) = canonical_hash32(c, label.as_str()) {
            return Err(e);
        }
    }
    let b = match bytes {
        None => return Ok(()),
        Some(b) => b,
    };
    let bytes_label = concat2(label.as_str(), "_bytes");
    if let Err(e) = canonical_hex_bytes(b, bytes_label.as_str()) {
        return Err(e);
    }
    if let Some(c) = commitment {
        let raw_text = substring_from(b, 2);
        let raw = match hex_decode(raw_text.as_str()) {
            Some(v) => v,
            None => return Err(CompileError::without_span(concat2(bytes_label.as_str(), " could not be decoded").as_str())),
        };
        let digest = ckb_blake2b256(raw.as_slice());
        let actual = concat2("0x", hex_encode(&digest).as_str());
        if !str_eq(actual.as_str(), c) {
            return Err(
                CompileError::without_span(concat2(bytes_label.as_str(), " does not match its CKB Blake2b-256 commitment").as_str()),
            );
        }
    }
    Ok(())
}


/// A label with a position: `input[3]`.
pub open spec fn at_label(prefix: Seq<char>, i: nat) -> Seq<char> {
    prefix + "["@ + decimal(i) + "]"@
}

fn at_label_exec(prefix: &str, i: usize) -> (r: String)
    ensures
        r@ == at_label(prefix@, i as nat),
{
    let mut s = concat3(prefix, "[", decimal_string(i as u128).as_str());
    s.append("]");
    s
}

/// The first error among the first `n` inputs.
pub open spec fn inputs_error(t: ProtocolTransactionSkeleton, n: int) -> Option<Seq<char>>
    decreases n,
{
    if n <= 0 {
        None
    } else {
        let cell = t.inputs@[n - 1];
        let label = at_label("input"@, (n - 1) as nat);
        first_error(
            inputs_error(t, n - 1),
            first_error(
                cell_slot_error(cell, label),
                match cell.out_point {
                    Some(op) => hash32_error(op.tx_hash@, label + ".out_point.tx_hash"@),
                    None => None,
                },
            ),
        )
    }
}

/// The first error among the first `n` outputs.
pub open spec fn outputs_error(t: ProtocolTransactionSkeleton, n: int) -> Option<Seq<char>>
    decreases n,
{
    if n <= 0 {
        None
    } else {
        first_error(outputs_error(t, n - 1), cell_slot_error(t.outputs@[n - 1], at_label("output"@, (n - 1) as nat)))
    }
}

/// The first error among the fields of the first `n` witnesses.
pub open spec fn witnesses_error(t: ProtocolTransactionSkeleton, n: int) -> Option<Seq<char>>
    decreases n,
{
    if n <= 0 {
        None
    } else {
        let w = t.witnesses@[n - 1];
        let i = (n - 1) as nat;
        first_error(
            witnesses_error(t, n - 1),
            first_error(
                materialization_error(i, "lock"@, opt_text(w.lock), opt_text(w.lock_bytes)),
                first_error(
                    materialization_error(i, "input_type"@, opt_text(w.input_type), opt_text(w.input_type_bytes)),
                    materialization_error(i, "output_type"@, opt_text(w.output_type), opt_text(w.output_type_bytes)),
                ),
            ),
        )
    }
}

/// The first error among the first `n` cell dependencies.
pub open spec fn skeleton_cell_deps_error(t: ProtocolTransactionSkeleton, n: int) -> Option<Seq<char>>
    decreases n,
{
    if n <= 0 {
        None
    } else {
        first_error(skeleton_cell_deps_error(t, n - 1), cell_dep_error(t.cell_deps@[n - 1], at_label("cell_deps"@, (n - 1) as nat)))
    }
}

/// The first error among the first `n` header dependencies.
pub open spec fn skeleton_header_deps_error(t: ProtocolTransactionSkeleton, n: int) -> Option<Seq<char>>
    decreases n,
{
    if n <= 0 {
        None
    } else {
        first_error(
            skeleton_header_deps_error(t, n - 1),
            hash32_error(t.header_deps@[n - 1]@, at_label("header_deps"@, (n - 1) as nat)),
        )
    }
}

/// The first check a transaction skeleton fails, if any.
pub open spec fn transaction_error(t: ProtocolTransactionSkeleton) -> Option<Seq<char>> {
    if t.version != 0 {
        Some("ProtocolBundle transaction version must be 0"@)
    } else {
        first_error(
            count_error("transaction inputs"@, t.inputs@.len(), MAX_ROLE_BINDINGS as nat),
            first_error(
                count_error("transaction outputs"@, t.outputs@.len(), MAX_ROLE_BINDINGS as nat),
                first_error(
                    count_error("transaction witnesses"@, t.witnesses@.len(), MAX_WITNESS_CLAIMS as nat),
                    first_error(
                        count_error("transaction CellDeps"@, t.cell_deps@.len(), MAX_DEP_CLAIMS as nat),
                        first_error(
                            count_error("transaction HeaderDeps"@, t.header_deps@.len(), MAX_DEP_CLAIMS as nat),
                            first_error(
                                inputs_error(t, t.inputs@.len() as int),
                                first_error(
                                    outputs_error(t, t.outputs@.len() as int),
                                    first_error(
                                        witnesses_error(t, t.witnesses@.len() as int),
                                        first_error(
                                            skeleton_cell_deps_error(t, t.cell_deps@.len() as int),
                                            first_error(
                                                skeleton_header_deps_error(t, t.header_deps@.len() as int),
                                                first_error(
                                                    hash32_error(t.fee_policy_hash@, "fee_policy_hash"@),
                                                    hash32_error(t.change_policy_hash@, "change_policy_hash"@),
                                                ),
                                            ),
                                        ),
                                    ),
                                ),
                            ),
                        ),
                    ),
                ),
            ),
        )
    }
}

proof fn lemma_first_error_prefix(a: Option<Seq<char>>, rest: Option<Seq<char>>)
    requires
        a is Some,
    ensures
        first_error(a, rest) == a,
{
}

fn check_inputs(t: &ProtocolTransactionSkeleton) -> (r: Result<()>)
    ensures
        reports(r, inputs_error(*t, t.inputs@.len() as int)),
{
    proof {
        reveal_strlit("input");
        reveal_strlit(".out_point.tx_hash");
    }
    let mut i: usize = 0;
    while i < t.inputs.len()
        invariant
            i <= t.inputs@.len(),
            inputs_error(*t, i as int) is None,
        decreases t.inputs@.len() - i,
    {
        let label = at_label_exec("input", i);
        let cell = &t.inputs[i];
        let mut result = validate_cell_slot(cell, label.as_str());
        if result.is_ok() {
            if let Some(op) = &cell.out_point {
                let l = concat2(label.as_str(), ".out_point.tx_hash");
                result = match canonical_hash32(op.tx_hash.as_str(), l.as_str()) {
                    Ok(_) => Ok(()),
                    Err(e) => Err(e),
                };
            }
        }
        if let Err(e) = result {
            proof {
                lemma_inputs_error_stays(*t, i + 1, t.inputs@.len() as int);
            }
            return Err(e);
        }
        i += 1;
    }
    Ok(())
}

proof fn lemma_inputs_error_stays(t: ProtocolTransactionSkeleton, i: int, n: int)
    requires
        0 <= i <= n,
        inputs_error(t, i) is Some,
    ensures
        inputs_error(t, n) == inputs_error(t, i),
    decreases n - i,
{
    if i < n {
        lemma_inputs_error_stays(t, i, n - 1);
    }
}

proof fn lemma_outputs_error_stays(t: ProtocolTransactionSkeleton, i: int, n: int)
    requires
        0 <= i <= n,
        outputs_error(t, i) is Some,
    ensures
        outputs_error(t, n) == outputs_error(t, i),
    decreases n - i,
{
    if i < n {
        lemma_outputs_error_stays(t, i, n - 1);
    }
}

proof fn lemma_witnesses_error_stays(t: ProtocolTransactionSkeleton, i: int, n: int)
    requires
        0 <= i <= n,
        witnesses_error(t, i) is Some,
    ensures
        witnesses_error(t, n) == witnesses_error(t, i),
    decreases n - i,
{
    if i < n {
        lemma_witnesses_error_stays(t, i, n - 1);
    }
}

proof fn lemma_cell_deps_error_stays(t: ProtocolTransactionSkeleton, i: int, n: int)
    requires
        0 <= i <= n,
        skeleton_cell_deps_error(t, i) is Some,
    ensures
        skeleton_cell_deps_error(t, n) == skeleton_cell_deps_error(t, i),
    decreases n - i,
{
    if i < n {
        lemma_cell_deps_error_stays(t, i, n - 1);
    }
}

proof fn lemma_header_deps_error_stays(t: ProtocolTransactionSkeleton, i: int, n: int)
    requires
        0 <= i <= n,
        skeleton_header_deps_error(t, i) is Some,
    ensures
        skeleton_header_deps_error(t, n) == skeleton_header_deps_error(t, i),
    decreases n - i,
{
    if i < n {
        lemma_header_deps_error_stays(t, i, n - 1);
    }
}

fn check_outputs(t: &ProtocolTransactionSkeleton) -> (r: Result<()>)
    ensures
        reports(r, outputs_error(*t, t.outputs@.len() as int)),
{
    proof {
        reveal_strlit("output");
    }
    let mut i: usize = 0;
    while i < t.outputs.len()
        invariant
            i <= t.outputs@.len(),
            outputs_error(*t, i as int) is None,
        decreases t.outputs@.len() - i,
    {
        let label = at_label_exec("output", i);
        if let Err(e) = validate_cell_slot(&t.outputs[i], label.as_str()) {
            proof {
                lemma_outputs_error_stays(*t, i + 1, t.outputs@.len() as int);
            }
            return Err(e);
        }
        i += 1;
    }
    Ok(())
}

fn check_witnesses(t: &ProtocolTransactionSkeleton) -> (r: Result<()>)
    ensures
        reports(r, witnesses_error(*t, t.witnesses@.len() as int)),
{
    proof {
        reveal_strlit("lock");
        reveal_strlit("input_type");
        reveal_strlit("output_type");
    }
    let mut i: usize = 0;
    while i < t.witnesses.len()
        invariant
            i <= t.witnesses@.len(),
            witnesses_error(*t, i as int) is None,
        decreases t.witnesses@.len() - i,
    {
        let w = &t.witnesses[i];
        let mut result = validate_witness_materialization(i, "lock", opt_view(&w.lock), opt_view(&w.lock_bytes));
        if result.is_ok() {
            result = validate_witness_materialization(i, "input_type", opt_view(&w.input_type), opt_view(&w.input_type_bytes));
        }
        if result.is_ok() {
            result = validate_witness_materialization(i, "output_type", opt_view(&w.output_type), opt_view(&w.output_type_bytes));
        }
        if let Err(e) = result {
            proof {
                lemma_witnesses_error_stays(*t, i + 1, t.witnesses@.len() as int);
            }
            return Err(e);
        }
        i += 1;
    }
    Ok(())
}

fn check_deps(t: &ProtocolTransactionSkeleton) -> (r: Result<()>)
    ensures
        reports(
            r,
            first_error(
                skeleton_cell_deps_error(*t, t.cell_deps@.len() as int),
                skeleton_header_deps_error(*t, t.header_deps@.len() as int),
            ),
        ),
{
    proof {
        reveal_strlit("cell_deps");
        reveal_strlit("header_deps");
    }
    let mut i: usize = 0;
    while i < t.cell_deps.len()
        invariant
            i <= t.cell_deps@.len(),
            skeleton_cell_deps_error(*t, i as int) is None,
        decreases t.cell_deps@.len() - i,
    {
        let label = at_label_exec("cell_deps", i);
        if let Err(e) = validate_cell_dep(&t.cell_deps[i], label.as_str()) {
            proof {
                lemma_cell_deps_error_stays(*t, i + 1, t.cell_deps@.len() as int);
            }
            return Err(e);
        }
        i += 1;
    }
    let mut i: usize = 0;
    while i < t.header_deps.len()
        invariant
            i <= t.header_deps@.len(),
            skeleton_cell_deps_error(*t, t.cell_deps@.len() as int) is None,
            skeleton_header_deps_error(*t, i as int) is None,
        decreases t.header_deps@.len() - i,
    {
        let label = at_label_exec("header_deps", i);
        if let Err(e) = canonical_hash32(t.header_deps[i].as_str(), label.as_str()) {
            proof {
                lemma_header_deps_error_stays(*t, i + 1, t.header_deps@.len() as int);
            }
            return Err(e);
        }
        i += 1;
    }
    Ok(())
}

/// Checks a transaction skeleton: version 0, bounded sizes, well-formed cells, witnesses whose
/// bytes hash to their commitments, dependencies and policy hashes.
pub fn validate_transaction(t: &ProtocolTransactionSkeleton) -> (r: Result<()>)
    ensures
        reports(r, transaction_error(*t)),
{
    proof {
        reveal_strlit("transaction inputs");
        reveal_strlit("transaction outputs");
        reveal_strlit("transaction witnesses");
        reveal_strlit("transaction CellDeps");
        reveal_strlit("transaction HeaderDeps");
        reveal_strlit("fee_policy_hash");
        reveal_strlit("change_policy_hash");
    }
    if t.version != 0 {
        return Err(CompileError::without_span("ProtocolBundle transaction version must be 0"));
    }
    if let Err(e) = bounded_count("transaction inputs", t.inputs.len(), MAX_ROLE_BINDINGS) {
        return Err(e);
    }
    if let Err(e) = bounded_count("transaction outputs", t.outputs.len(), MAX_ROLE_BINDINGS) {
        return Err(e);
    }
    if let Err(e) = bounded_count("transaction witnesses", t.witnesses.len(), MAX_WITNESS_CLAIMS) {
        return Err(e);
    }
    if let Err(e) = bounded_count("transaction CellDeps", t.cell_deps.len(), MAX_DEP_CLAIMS) {
        return Err(e);
    }
    if let Err(e) = bounded_count("transaction HeaderDeps", t.header_deps.len(), MAX_DEP_CLAIMS) {
        return Err(e);
    }
    if let Err(e) = check_inputs(t) {
        return Err(e);
    }
    if let Err(e) = check_outputs(t) {
        return Err(e);
    }
    if let Err(e) = check_witnesses(t) {
        return Err(e);
    }
    if let Err(e) = check_deps(t) {
        return Err(e);
    }
    if let Err(e) = canonical_hash32(t.fee_policy_hash.as_str(), "fee_policy_hash") {
        return Err(e);
    }
    match canonical_hash32(t.change_policy_hash.as_str(), "change_policy_hash") {
        Ok(_) => Ok(()),
        Err(e) => Err(e),
    }
}


/// The name `{:?}` gives an entry kind.
pub open spec fn entry_kind_name(k: ProtocolEntryKind) -> Seq<char> {
    match k {
        ProtocolEntryKind::Action => "Action"@,
        ProtocolEntryKind::Lock => "Lock"@,
        ProtocolEntryKind::Function => "Function"@,
    }
}

fn entry_kind_text(k: ProtocolEntryKind) -> (r: &'static str)
    ensures
        r@ == entry_kind_name(k),
{
    match k {
        ProtocolEntryKind::Action => "Action",
        ProtocolEntryKind::Lock => "Lock",
        ProtocolEntryKind::Function => "Function",
    }
}

/// The name `{:?}` gives a Script role.
pub open spec fn script_role_name(r: ProtocolScriptRole) -> Seq<char> {
    match r {
        ProtocolScriptRole::Lock => "Lock"@,
        ProtocolScriptRole::Type => "Type"@,
        ProtocolScriptRole::SpawnedVerifier => "SpawnedVerifier"@,
    }
}

fn script_role_text(r: ProtocolScriptRole) -> (t: &'static str)
    ensures
        t@ == script_role_name(r),
{
    match r {
        ProtocolScriptRole::Lock => "Lock",
        ProtocolScriptRole::Type => "Type",
        ProtocolScriptRole::SpawnedVerifier => "SpawnedVerifier",
    }
}

/// Some entry of `es` is named `name`.
pub open spec fn names_entry(es: Seq<EntryProofPlanMetadata>, name: Seq<char>) -> bool {
    exists|i: int| 0 <= i < es.len() && (#[trigger] es[i]).name@ == name
}

fn has_entry(es: &Vec<EntryProofPlanMetadata>, name: &str) -> (r: bool)
    ensures
        r == names_entry(es@, name@),
{
    let mut i: usize = 0;
    while i < es.len()
        invariant
            i <= es@.len(),
            forall|j: int| 0 <= j < i ==> (#[trigger] es@[j]).name@ != name@,
        decreases es@.len() - i,
    {
        if str_eq(es[i].name.as_str(), name) {
            return true;
        }
        i += 1;
    }
    false
}

/// A Script role can run an entry of a kind: a lock runs a lock, a type runs an action, and a
/// spawned verifier runs any entry.
pub open spec fn role_runs(r: ProtocolScriptRole, k: ProtocolEntryKind) -> bool {
    match (r, k) {
        (ProtocolScriptRole::Lock, ProtocolEntryKind::Lock) => true,
        (ProtocolScriptRole::Type, ProtocolEntryKind::Action) => true,
        (ProtocolScriptRole::SpawnedVerifier, _) => true,
        _ => false,
    }
}

/// The error checking an artifact's entry against its metadata reports, if any.
pub open spec fn entry_error(input: ProtocolArtifactInput, m: CompileMetadata) -> Option<Seq<char>> {
    let name = input.entry.name@;
    let exists = match input.entry.kind {
        ProtocolEntryKind::Action => names_entry(m.actions@, name),
        ProtocolEntryKind::Lock => names_entry(m.locks@, name),
        ProtocolEntryKind::Function => names_entry(m.functions@, name),
    };
    if !exists {
        Some("ProtocolBundle artifact '"@ + input.id@ + "' metadata does not expose "@ + entry_kind_name(input.entry.kind)
            + " entry '"@ + name + "'"@)
    } else if !role_runs(input.script_role, input.entry.kind) {
        Some("ProtocolBundle artifact '"@ + input.id@ + "' Script role "@ + script_role_name(input.script_role)
            + " is incompatible with "@ + entry_kind_name(input.entry.kind) + " entry '"@ + name + "'"@)
    } else {
        None
    }
}

/// Checks that an artifact's metadata exposes its declared entry and that its Script role can
/// run an entry of that kind.
pub fn validate_entry(input: &ProtocolArtifactInput, metadata: &CompileMetadata) -> (r: Result<()>)
    ensures
        reports(r, entry_error(*input, *metadata)),
{
    proof {
        reveal_strlit("ProtocolBundle artifact '");
        reveal_strlit("' metadata does not expose ");
        reveal_strlit(" entry '");
        reveal_strlit("'");
        reveal_strlit("' Script role ");
        reveal_strlit(" is incompatible with ");
    }
    let name = input.entry.name.as_str();
    let exists = match input.entry.kind {
        ProtocolEntryKind::Action => has_entry(&metadata.actions, name),
        ProtocolEntryKind::Lock => has_entry(&metadata.locks, name),
        ProtocolEntryKind::Function => has_entry(&metadata.functions, name),
    };
    let kind = entry_kind_text(input.entry.kind);
    if !exists {
        let mut m = concat3("ProtocolBundle artifact '", input.id.as_str(), "' metadata does not expose ");
        m.append(kind);
        m.append(" entry '");
        m.append(name);
        m.append("'");
        return Err(CompileError::without_span(m.as_str()));
    }
    let compatible = match (input.script_role, input.entry.kind) {
        (ProtocolScriptRole::Lock, ProtocolEntryKind::Lock) => true,
        (ProtocolScriptRole::Type, ProtocolEntryKind::Action) => true,
        (ProtocolScriptRole::SpawnedVerifier, _) => true,
        _ => false,
    };
    if !compatible {
        let mut m = concat3("ProtocolBundle artifact '", input.id.as_str(), "' Script role ");
        m.append(script_role_text(input.script_role));
        m.append(" is incompatible with ");
        m.append(kind);
        m.append(" entry '");
        m.append(name);
        m.append("'");
        return Err(CompileError::without_span(m.as_str()));
    }
    Ok(())
}

} // verus!
