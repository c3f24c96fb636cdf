//! Checking a generated action-builder manifest against the checked metadata of its artifact.
//!
//! The manifest is JSON; `serde_json` parses it and hands back, for a JSON pointer, the string
//! there or the compact JSON text of the value there. What the manifest must hold is decided
//! here: its schema, the metadata fields it repeats, the fixed protocol-bundle contract, the
//! runtime-access provenance, and for an action entry the projection of that action.

use crate::error::{CompileError, Result};
use crate::text::{concat2, concat3, decimal, decimal_string, str_eq};
use vstd::prelude::*;

verus! {

/// The string at JSON pointer `pointer` of the JSON document `bytes`: `None` where `bytes` is
/// not JSON, `Some(None)` where nothing, or something other than a string, stands there.
pub uninterp spec fn json_string_at(bytes: Seq<u8>, pointer: Seq<char>) -> Option<Option<Seq<char>>>;

/// The compact JSON text of the value at JSON pointer `pointer` of the JSON document `bytes`:
/// `None` where `bytes` is not JSON, `Some(None)` where nothing stands there.
pub uninterp spec fn json_text_at(bytes: Seq<u8>, pointer: Seq<char>) -> Option<Option<Seq<char>>>;

/// The length of the array at JSON pointer `pointer` of the JSON document `bytes`: `None`
/// where `bytes` is not JSON, `Some(None)` where no array stands there.
pub uninterp spec fn json_array_len_at(bytes: Seq<u8>, pointer: Seq<char>) -> Option<Option<nat>>;

/// An optional string, by its view.
pub open spec fn opt_text(o: Option<String>) -> Option<Seq<char>> {
    match o {
        Some(s) => Some(s@),
        None => None,
    }
}

/// A twice optional string, by its view.
pub open spec fn opt2_text(o: Option<Option<String>>) -> Option<Option<Seq<char>>> {
    match o {
        Some(inner) => Some(opt_text(inner)),
        None => None,
    }
}

/// `serde_json::from_slice` into a `serde_json::Value`, then `Value::pointer` and
/// `Value::as_str`: the string at `pointer`. The result is a function of the bytes and the
/// pointer alone; nothing more is claimed of it.
#[verifier::external_body]
fn json_string_at_exec(bytes: &[u8], pointer: &str) -> (r: Option<Option<String>>)
    ensures
        opt2_text(r) == json_string_at(bytes@, pointer@),
{
    serde_json::from_slice::<serde_json::Value>(bytes).ok().map(
        |v| v.pointer(pointer).and_then(serde_json::Value::as_str).map(str::to_string),
    )
}

/// `serde_json::from_slice` into a `serde_json::Value`, then `Value::pointer` and the value's
/// compact `Display` rendering: the JSON text at `pointer`. The result is a function of the
/// bytes and the pointer alone; nothing more is claimed of it.
#[verifier::external_body]
fn json_text_at_exec(bytes: &[u8], pointer: &str) -> (r: Option<Option<String>>)
    ensures
        opt2_text(r) == json_text_at(bytes@, pointer@),
{
    serde_json::from_slice::<serde_json::Value>(bytes).ok().map(|v| v.pointer(pointer).map(|x| x.to_string()))
}

/// `serde_json::from_slice` into a `serde_json::Value`, then `Value::pointer` and
/// `Value::as_array`: the length of the array at `pointer`. The result is a function of the
/// bytes and the pointer alone; nothing more is claimed of it.
#[verifier::external_body]
fn json_array_len_at_exec(bytes: &[u8], pointer: &str) -> (r: Option<Option<usize>>)
    ensures
        r matches Some(Some(n)) ==> json_array_len_at(bytes@, pointer@) == Some(Some(n as nat)),
        r matches Some(None) ==> json_array_len_at(bytes@, pointer@) == Some(None::<nat>),
        r is None ==> json_array_len_at(bytes@, pointer@) is None,
{
    serde_json::from_slice::<serde_json::Value>(bytes).ok().map(
        |v| v.pointer(pointer).and_then(serde_json::Value::as_array).map(|a| a.len()),
    )
}

/// What a builder manifest must repeat of its artifact's checked metadata.
pub struct BuilderManifestExpectation {
    /// The string fields, in the order they are checked, each with the string the metadata
    /// gives (`None` where the metadata has none, and the manifest must have none either).
    pub string_fields: Vec<(String, Option<String>)>,
    /// The structural fields, in the order they are checked, each with the compact JSON text
    /// of the metadata's projection.
    pub structural_fields: Vec<(String, String)>,
    /// The name of the artifact's target profile.
    pub target_profile: String,
    /// The runtime-access provenance contract of the metadata.
    pub runtime_access_provenance: String,
    /// The selected entry's name, where it is an action.
    pub selected_action: Option<String>,
    /// The projection of the selected action, each field with its compact JSON text; `None`
    /// where the metadata has no such action.
    pub action_fields: Option<Vec<(String, String)>>,
}

/// The schema a builder manifest declares.
pub open spec fn builder_schema() -> Seq<char> {
    "cellscript-generated-action-builder-v0.23-edition-2026"@
}

/// The compact JSON text of the fixed protocol-bundle contract a manifest carries, its keys in
/// order.
pub open spec fn contract_text(type_hash_profile: bool) -> Seq<char> {
    "{\"artifact_binding_schema\":\"cellscript-protocol-bundle-artifact-binding-v1\",\"closed_role_schema\":\"cellscript-protocol-closed-role-v1\",\"deployment_line_admission_evidence_schema\":\"cellscript-deployment-line-admission-evidence-v1\",\"deployment_line_admission_transition_schema\":\"cellscript-deployment-line-admission-transition-v1\",\"exact_handle_encoding\":\"CSHDLv1-fixed-202\",\"exact_handle_hash_algorithm\":\"ckb-blake2b-256\",\"exact_handle_hash_personalization\":\"ckb-default-hash\",\"exact_handle_receipt_schema\":\"cellscript-exact-script-handle-receipt-v1\",\"exact_handle_value_schema\":\"cellscript-exact-script-handle-value-v1\",\"private_keys\":\"never-in-bundle-or-evidence\",\"report_schema\":\"cellscript-protocol-bundle-report-v1\",\"requires_deployment_line_admission\":"@
        + (if type_hash_profile { "true"@ } else { "false"@ })
        + ",\"runtime_adapter\":\"cellscript-ckb-adapter\",\"schema\":\"cellscript-protocol-bundle-v1\",\"states\":[\"MaterializedProtocolBundleTx\",\"LiveResolvedProtocolBundleTx\",\"LiveDependenciesResolvedProtocolBundleTx\",\"ReadyToSignProtocolBundleTx\",\"SignedProtocolBundleTx\",\"SignedDryRunProtocolBundleTx\",\"TxPoolAcceptedProtocolBundleTx\",\"SubmittedProtocolBundleTx\",\"ConfirmedProtocolBundleTx\"]}"@
}

fn contract_string(type_hash_profile: bool) -> (s: String)
    ensures
        s@ == contract_text(type_hash_profile),
{
    let mut s = "{\"artifact_binding_schema\":\"cellscript-protocol-bundle-artifact-binding-v1\",\"closed_role_schema\":\"cellscript-protocol-closed-role-v1\",\"deployment_line_admission_evidence_schema\":\"cellscript-deployment-line-admission-evidence-v1\",\"deployment_line_admission_transition_schema\":\"cellscript-deployment-line-admission-transition-v1\",\"exact_handle_encoding\":\"CSHDLv1-fixed-202\",\"exact_handle_hash_algorithm\":\"ckb-blake2b-256\",\"exact_handle_hash_personalization\":\"ckb-default-hash\",\"exact_handle_receipt_schema\":\"cellscript-exact-script-handle-receipt-v1\",\"exact_handle_value_schema\":\"cellscript-exact-script-handle-value-v1\",\"private_keys\":\"never-in-bundle-or-evidence\",\"report_schema\":\"cellscript-protocol-bundle-report-v1\",\"requires_deployment_line_admission\":".to_owned();
    s.append(if type_hash_profile { "true" } else { "false" });
    s.append(",\"runtime_adapter\":\"cellscript-ckb-adapter\",\"schema\":\"cellscript-protocol-bundle-v1\",\"states\":[\"MaterializedProtocolBundleTx\",\"LiveResolvedProtocolBundleTx\",\"LiveDependenciesResolvedProtocolBundleTx\",\"ReadyToSignProtocolBundleTx\",\"SignedProtocolBundleTx\",\"SignedDryRunProtocolBundleTx\",\"TxPoolAcceptedProtocolBundleTx\",\"SubmittedProtocolBundleTx\",\"ConfirmedProtocolBundleTx\"]}");
    s
}

/// The pointer of a top-level field.
pub open spec fn field_pointer(prefix: Seq<char>, field: Seq<char>) -> Seq<char> {
    prefix + "/"@ + field
}

/// The first string field, from position `i` on, whose value in the manifest differs from
/// what the metadata gives.
pub open spec fn first_string_mismatch(bytes: Seq<u8>, fields: Seq<(String, Option<String>)>, i: int) -> Option<int>
    decreases fields.len() - i,
{
    if i < 0 || i >= fields.len() {
        None
    } else if json_string_at(bytes, field_pointer(""@, fields[i].0@)) != Some(opt_text(fields[i].1)) {
        Some(i)
    } else {
        first_string_mismatch(bytes, fields, i + 1)
    }
}

/// The first field, from position `i` on, whose JSON text under `prefix` differs from the
/// expected one.
pub open spec fn first_text_mismatch(bytes: Seq<u8>, prefix: Seq<char>, fields: Seq<(Seq<char>, Seq<char>)>, i: int) -> Option<int>
    decreases fields.len() - i,
{
    if i < 0 || i >= fields.len() {
        None
    } else if json_text_at(bytes, field_pointer(prefix, fields[i].0)) != Some(Some(fields[i].1)) {
        Some(i)
    } else {
        first_text_mismatch(bytes, prefix, fields, i + 1)
    }
}

/// Some named texts, by their views.
pub open spec fn pairs_text(v: Seq<(String, String)>) -> Seq<(Seq<char>, Seq<char>)> {
    v.map_values(|p: (String, String)| (p.0@, p.1@))
}

/// The structural fields a manifest is held to: the metadata's projections, then the fixed
/// protocol-bundle contract.
pub open spec fn structural_fields(exp: BuilderManifestExpectation) -> Seq<(Seq<char>, Seq<char>)> {
    pairs_text(exp.structural_fields@).push(
        ("protocol_bundle_contract"@, contract_text(exp.target_profile@ == "ckb-type-hash"@)),
    )
}

/// The first action, from position `i` below `n` on, whose name is `name`.
pub open spec fn first_action_named(bytes: Seq<u8>, name: Seq<char>, n: nat, i: int) -> Option<int>
    decreases n - i,
{
    if i < 0 || i >= n {
        None
    } else if json_string_at(bytes, "/actions/"@ + decimal(i as nat) + "/name"@) == Some(Some(name)) {
        Some(i)
    } else {
        first_action_named(bytes, name, n, i + 1)
    }
}

/// The message of a field that does not match.
pub open spec fn field_message(id: Seq<char>, field: Seq<char>) -> Seq<char> {
    "ProtocolBundle artifact '"@ + id + "' builder manifest field '"@ + field + "' does not match checked metadata"@
}

/// The message checking the selected action's projection fails with (`None` where it passes).
pub open spec fn action_outcome(id: Seq<char>, bytes: Seq<u8>, exp: BuilderManifestExpectation) -> Option<Seq<char>> {
    match exp.selected_action {
        None => None,
        Some(name) => match exp.action_fields {
            None => Some("ProtocolBundle artifact '"@ + id + "' selected action disappeared from metadata"@),
            Some(fields) => {
                let missing = "ProtocolBundle artifact '"@ + id + "' builder manifest does not expose selected action '"@ + name@
                    + "'"@;
                match json_array_len_at(bytes, "/actions"@) {
                    Some(Some(n)) => match first_action_named(bytes, name@, n, 0) {
                        Some(k) => match first_text_mismatch(bytes, "/actions/"@ + decimal(k as nat), pairs_text(fields@), 0) {
                            Some(j) => Some(
                                "ProtocolBundle artifact '"@ + id + "' builder action '"@ + name@ + "' field '"@
                                    + fields@[j].0@ + "' does not match checked metadata"@,
                            ),
                            None => None,
                        },
                        None => Some(missing),
                    },
                    _ => Some(missing),
                }
            },
        },
    }
}

/// The message checking the manifest `bytes` (read from `path`) of artifact `id` fails with
/// (`None` where every check passes): the first failing check's message, in the order schema, string fields, structural fields,
/// runtime-access provenance, selected action.
pub open spec fn builder_manifest_outcome(id: Seq<char>, path: Seq<char>, bytes: Seq<u8>, exp: BuilderManifestExpectation) -> Option<Seq<char>> {
    match json_string_at(bytes, "/schema"@) {
        None => Some("failed to parse ProtocolBundle builder manifest '"@ + path + "'"@),
        Some(schema) => if schema != Some(builder_schema()) {
            Some("ProtocolBundle artifact '"@ + id + "' builder manifest has an unsupported schema"@)
        } else {
            match first_string_mismatch(bytes, exp.string_fields@, 0) {
                Some(i) => Some(field_message(id, exp.string_fields@[i].0@)),
                None => match first_text_mismatch(bytes, ""@, structural_fields(exp), 0) {
                    Some(i) => Some(field_message(id, structural_fields(exp)[i].0)),
                    None => if json_string_at(bytes, "/runtime_contract/runtime_access_provenance"@) != Some(
                        Some(exp.runtime_access_provenance@),
                    ) {
                        Some("ProtocolBundle artifact '"@ + id + "' builder runtime-access provenance does not match checked metadata"@)
                    } else {
                        action_outcome(id, bytes, exp)
                    },
                },
            }
        },
    }
}

fn string_mismatch(bytes: &[u8], fields: &Vec<(String, Option<String>)>) -> (r: Option<usize>)
    ensures
        r matches Some(i) ==> first_string_mismatch(bytes@, fields@, 0) == Some(i as int) && i < fields@.len(),
        r is None ==> first_string_mismatch(bytes@, fields@, 0) is None,
{
    let mut i: usize = 0;
    while i < fields.len()
        invariant
            i <= fields@.len(),
            first_string_mismatch(bytes@, fields@, 0) == first_string_mismatch(bytes@, fields@, i as int),
        decreases fields@.len() - i,
    {
        let pointer = concat3("", "/", fields[i].0.as_str());
        let found = json_string_at_exec(bytes, pointer.as_str());
        let same = match (&found, &fields[i].1) {
            (Some(Some(a)), Some(b)) => str_eq(a.as_str(), b.as_str()),
            (Some(None), None) => true,
            _ => false,
        };
        assert(same == (json_string_at(bytes@, field_pointer(""@, fields@[i as int].0@)) == Some(
            opt_text(fields@[i as int].1),
        )));
        if !same {
            return Some(i);
        }
        i += 1;
    }
    None
}

fn text_mismatch(bytes: &[u8], prefix: &str, fields: &Vec<(String, String)>) -> (r: Option<usize>)
    ensures
        r matches Some(i) ==> first_text_mismatch(bytes@, prefix@, pairs_text(fields@), 0) == Some(i as int) && i < fields@.len(),
        r is None ==> first_text_mismatch(bytes@, prefix@, pairs_text(fields@), 0) is None,
{
    let ghost pf = pairs_text(fields@);
    let mut i: usize = 0;
    while i < fields.len()
        invariant
            i <= fields@.len(),
            pf == pairs_text(fields@),
            first_text_mismatch(bytes@, prefix@, pf, 0) == first_text_mismatch(bytes@, prefix@, pf, i as int),
        decreases fields@.len() - i,
    {
        let pointer = concat3(prefix, "/", fields[i].0.as_str());
        let found = json_text_at_exec(bytes, pointer.as_str());
        let same = match &found {
            Some(Some(a)) => str_eq(a.as_str(), fields[i].1.as_str()),
            _ => false,
        };
        assert(pf[i as int] == (fields@[i as int].0@, fields@[i as int].1@));
        if !same {
            return Some(i);
        }
        i += 1;
    }
    None
}

fn action_named(bytes: &[u8], name: &str, n: usize) -> (r: Option<usize>)
    ensures
        r matches Some(i) ==> first_action_named(bytes@, name@, n as nat, 0) == Some(i as int),
        r is None ==> first_action_named(bytes@, name@, n as nat, 0) is None,
{
    let mut i: usize = 0;
    while i < n
        invariant
            i <= n,
            first_action_named(bytes@, name@, n as nat, 0) == first_action_named(bytes@, name@, n as nat, i as int),
        decreases n - i,
    {
        let idx = decimal_string(i as u128);
        let mut pointer = concat2("/actions/", idx.as_str());
        pointer.append("/name");
        let found = json_string_at_exec(bytes, pointer.as_str());
        let same = match &found {
            Some(Some(a)) => str_eq(a.as_str(), name),
            _ => false,
        };
        if same {
            return Some(i);
        }
        i += 1;
    }
    None
}

fn fail(message: String) -> (r: Result<()>)
    ensures
        r matches Err(e) && e.message@ == message@,
{
    Err(CompileError::without_span(message.as_str()))
}

/// The message a manifest check fails with (`None` where it passes).
pub open spec fn outcome_message(r: Result<()>) -> Option<Seq<char>> {
    match r {
        Ok(()) => None,
        Err(e) => Some(e.message@),
    }
}

/// Checks the selected action's projection in the manifest.
fn check_action(id: &str, bytes: &[u8], exp: &BuilderManifestExpectation) -> (r: Result<()>)
    ensures
        outcome_message(r) == action_outcome(id@, bytes@, *exp),
{
    let name = match &exp.selected_action {
        None => return Ok(()),
        Some(name) => name,
    };
    let fields = match &exp.action_fields {
        None => {
            return fail(concat3("ProtocolBundle artifact '", id, "' selected action disappeared from metadata"));
        },
        Some(fields) => fields,
    };
    let mut missing = concat3("ProtocolBundle artifact '", id, "' builder manifest does not expose selected action '");
    missing.append(name.as_str());
    missing.append("'");
    let n = match json_array_len_at_exec(bytes, "/actions") {
        Some(Some(n)) => n,
        _ => return fail(missing),
    };
    let k = match action_named(bytes, name.as_str(), n) {
        Some(k) => k,
        None => return fail(missing),
    };
    let idx = decimal_string(k as u128);
    let prefix = concat2("/actions/", idx.as_str());
    match text_mismatch(bytes, prefix.as_str(), fields) {
        Some(j) => {
            let mut m = concat3("ProtocolBundle artifact '", id, "' builder action '");
            m.append(name.as_str());
            m.append("' field '");
            m.append(fields[j].0.as_str());
            m.append("' does not match checked metadata");
            assert(pairs_text(fields@)[j as int].0 == fields@[j as int].0@);
            fail(m)
        },
        None => Ok(()),
    }
}

/// Checks the builder manifest `bytes` of artifact `id` (read from `path`) against what its
/// checked metadata gives: the manifest must be JSON of the builder schema, repeat each string
/// and structural field of the metadata, carry the fixed protocol-bundle contract and the
/// metadata's runtime-access provenance, and, for an action entry, expose that action with the
/// metadata's projection of it. The first failing check gives the error.
pub fn check_builder_manifest(id: &str, path: &str, bytes: &[u8], exp: &BuilderManifestExpectation) -> (r: Result<()>)
    ensures
        outcome_message(r) == builder_manifest_outcome(id@, path@, bytes@, *exp),
{
    let schema = match json_string_at_exec(bytes, "/schema") {
        None => return fail(concat3("failed to parse ProtocolBundle builder manifest '", path, "'")),
        Some(schema) => schema,
    };
    let supported = match &schema {
        Some(s) => str_eq(s.as_str(), "cellscript-generated-action-builder-v0.23-edition-2026"),
        None => false,
    };
    if !supported {
        return fail(concat3("ProtocolBundle artifact '", id, "' builder manifest has an unsupported schema"));
    }
    if let Some(i) = string_mismatch(bytes, &exp.string_fields) {
        let mut m = concat3("ProtocolBundle artifact '", id, "' builder manifest field '");
        m.append(exp.string_fields[i].0.as_str());
        m.append("' does not match checked metadata");
        return fail(m);
    }
    let mut structural: Vec<(String, String)> = Vec::new();
    let mut k: usize = 0;
    while k < exp.structural_fields.len()
        invariant
            k <= exp.structural_fields@.len(),
            pairs_text(structural@) == pairs_text(exp.structural_fields@.take(k as int)),
        decreases exp.structural_fields@.len() - k,
    {
        let ghost before = structural@;
        let (f, t) = &exp.structural_fields[k];
        structural.push((f.clone(), t.clone()));
        assert(pairs_text(structural@) =~= pairs_text(before).push((f@, t@)));
        assert(exp.structural_fields@.take(k + 1) =~= exp.structural_fields@.take(k as int).push(exp.structural_fields@[k as int]));
        assert(pairs_text(exp.structural_fields@.take(k + 1)) =~= pairs_text(exp.structural_fields@.take(k as int)).push((f@, t@)));
        k += 1;
    }
    assert(exp.structural_fields@.take(exp.structural_fields@.len() as int) =~= exp.structural_fields@);
    let ghost before = structural@;
    let type_hash = str_eq(exp.target_profile.as_str(), "ckb-type-hash");
    structural.push(("protocol_bundle_contract".to_owned(), contract_string(type_hash)));
    assert(pairs_text(structural@) =~= pairs_text(before).push(
        ("protocol_bundle_contract"@, contract_text(exp.target_profile@ == "ckb-type-hash"@)),
    ));
    assert(pairs_text(structural@) == structural_fields(*exp));
    if let Some(i) = text_mismatch(bytes, "", &structural) {
        let mut m = concat3("ProtocolBundle artifact '", id, "' builder manifest field '");
        m.append(structural[i].0.as_str());
        m.append("' does not match checked metadata");
        assert(structural_fields(*exp)[i as int].0 == structural@[i as int].0@);
        return fail(m);
    }
    let provenance = json_string_at_exec(bytes, "/runtime_contract/runtime_access_provenance");
    let matches = match &provenance {
        Some(Some(p)) => str_eq(p.as_str(), exp.runtime_access_provenance.as_str()),
        _ => false,
    };
    if !matches {
        return fail(
            concat3("ProtocolBundle artifact '", id, "' builder runtime-access provenance does not match checked metadata"),
        );
    }
    check_action(id, bytes, exp)
}

} // verus!
