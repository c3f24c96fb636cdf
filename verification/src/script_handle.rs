//! Canonical exact-artifact Script and verifier handles.
//!
//! A handle is an ordinary fixed-width value. It grants no Cell lifecycle or authorization
//! capability. The full receipt remains audit evidence; the handle commits to that receipt and
//! the complete deployed Script identity.

use crate::ckb_hash::{ckb_blake2b256, ckb_blake2b256_digest};
use crate::error::{CompileError, Result};
use crate::protocol_bundle::{
    all_lower_hex, char_width, deployment_error, first_error, is_control, is_lower_hex_char, is_raw_hash32, lemma_utf8_len, name_ok,
    utf8_len, validate_deployment, ProtocolDeploymentIdentity, ProtocolEntryIdentity, ProtocolScriptIdentity,
    ProtocolScriptRole,
};
use crate::script_handle_contract::exact_script_handle_magic;
pub use crate::script_handle_contract::{EXACT_SCRIPT_HANDLE_BYTES, EXACT_SCRIPT_HANDLE_ENCODING};
use crate::stdlib::scheduler::{append_bytes, le_bytes, push_le_bytes};
use crate::text::{chars_of, concat2, concat3, has_prefix, hex_digit, hex_encode, hex_lower, lemma_hex_lower_len, str_eq, str_starts_with, substring_from};
use vstd::prelude::*;
use vstd::utf8::encode_utf8;

verus! {

pub const EXACT_SCRIPT_HANDLE_RECEIPT_SCHEMA: &'static str = "cellscript-exact-script-handle-receipt-v1";
pub const EXACT_SCRIPT_HANDLE_VALUE_SCHEMA: &'static str = "cellscript-exact-script-handle-value-v1";
pub const EXACT_SCRIPT_HANDLE_RECEIPT_HASH_DOMAIN: &'static str = "cellscript-exact-script-handle-receipt-v1";

/// Whether a handle names a Script or a spawned verifier.
#[derive(Debug, Clone, Copy, PartialEq, Eq, Structural, PartialOrd, Ord)]
pub enum ExactHandleClass {
    Script,
    Verifier,
}

/// How the deployed code is identified.
#[derive(Debug, Clone, Copy, PartialEq, Eq, Structural, PartialOrd, Ord)]
pub enum ExactCodeIdentityPolicy {
    DataHashExactArtifact,
    TypeHashExactCodeCell,
}

/// Which upgrades a handle admits: none.
#[derive(Debug, Clone, Copy, PartialEq, Eq, Structural, PartialOrd, Ord)]
pub enum ExactUpgradePolicy {
    ExactArtifact,
}

/// The audit record a handle commits to.
#[derive(Debug, Clone, PartialEq, Eq)]
pub struct ExactScriptHandleReceipt {
    pub schema: String,
    pub version: u32,
    pub class: ExactHandleClass,
    pub script_role: ProtocolScriptRole,
    pub package_coordinate: String,
    pub lock_node_id: String,
    pub entry: ProtocolEntryIdentity,
    pub interface_hash: String,
    pub typed_semantics_hash: String,
    pub artifact_hash: String,
    pub target_profile_hash: String,
    pub runtime_abi_hash: String,
    pub verified_bundle_id: String,
    pub deployment: ProtocolDeploymentIdentity,
    pub code_identity_policy: ExactCodeIdentityPolicy,
    pub upgrade_policy: ExactUpgradePolicy,
}

/// The canonical runtime value: `encoded` is `0x` and exactly 202 bytes of hexadecimal: magic
/// (8), class (1), role (1), then the receipt, Script, interface, artifact, target-profile and
/// runtime-ABI hashes (6 * 32).
#[derive(Debug, Clone, PartialEq, Eq, PartialOrd, Ord)]
pub struct ExactScriptHandleValue {
    pub schema: String,
    pub version: u32,
    pub encoding: String,
    pub encoded: String,
}

/// What a receipt is built from.
pub struct ExactScriptHandleReceiptInput<'a> {
    pub package_coordinate: &'a str,
    pub lock_node_id: &'a str,
    pub entry: &'a ProtocolEntryIdentity,
    pub script_role: ProtocolScriptRole,
    pub interface_hash: &'a str,
    pub typed_semantics_hash: &'a str,
    pub artifact_hash: &'a str,
    pub target_profile_hash: &'a str,
    pub runtime_abi_hash: &'a str,
    pub verified_bundle_id: &'a str,
    pub deployment: &'a ProtocolDeploymentIdentity,
}

// ---------------------------------------------------------------------------------------------
// Hexadecimal.

/// The value of a lower-case hexadecimal digit.
pub open spec fn hex_nibble(c: char) -> nat {
    if '0' <= c && c <= '9' {
        ((c as u32) - ('0' as u32)) as nat
    } else {
        ((c as u32) - ('a' as u32) + 10) as nat
    }
}

/// The bytes that lower-case hexadecimal text stands for, two digits per byte.
pub open spec fn hex_decoded(s: Seq<char>) -> Seq<u8>
    decreases s.len(),
{
    if s.len() < 2 {
        Seq::empty()
    } else {
        seq![(hex_nibble(s[0]) * 16 + hex_nibble(s[1])) as u8] + hex_decoded(s.skip(2))
    }
}

/// Half as many bytes as digits.
pub proof fn lemma_hex_decoded_len(s: Seq<char>)
    ensures
        hex_decoded(s).len() == s.len() / 2,
    decreases s.len(),
{
    if s.len() >= 2 {
        lemma_hex_decoded_len(s.skip(2));
    }
}

/// Decoding text of even length splits at any even point.
pub proof fn lemma_hex_decoded_append(a: Seq<char>, b: Seq<char>)
    requires
        a.len() % 2 == 0,
    ensures
        hex_decoded(a + b) == hex_decoded(a) + hex_decoded(b),
    decreases a.len(),
{
    if a.len() >= 2 {
        assert((a + b).skip(2) =~= a.skip(2) + b);
        assert((a + b)[0] == a[0] && (a + b)[1] == a[1]);
        lemma_hex_decoded_append(a.skip(2), b);
        assert(hex_decoded(a + b) =~= hex_decoded(a) + hex_decoded(b));
    } else {
        assert(a + b =~= b);
    }
}

/// The two digits a byte is written as read back as that byte.
proof fn lemma_hex_digit_nibble(n: nat)
    requires
        n < 16,
    ensures
        hex_nibble(hex_digit(n)) == n,
        is_lower_hex_char(hex_digit(n)),
{
}

/// Lower-case hexadecimal text decodes back to the bytes it was written from; it is made of
/// lower-case digits, two per byte.
pub proof fn lemma_hex_roundtrip(bytes: Seq<u8>)
    ensures
        hex_decoded(hex_lower(bytes)) == bytes,
        all_lower_hex(hex_lower(bytes)),
        hex_lower(bytes).len() == 2 * bytes.len(),
    decreases bytes.len(),
{
    lemma_hex_lower_len(bytes);
    if bytes.len() > 0 {
        let init = bytes.drop_last();
        let b = bytes.last();
        let pair = seq![hex_digit((b / 16) as nat), hex_digit((b % 16) as nat)];
        lemma_hex_roundtrip(init);
        lemma_hex_lower_len(init);
        lemma_hex_decoded_append(hex_lower(init), pair);
        lemma_hex_digit_nibble((b / 16) as nat);
        lemma_hex_digit_nibble((b % 16) as nat);
        assert(pair.skip(2) =~= Seq::<char>::empty());
        assert(hex_decoded(pair.skip(2)) =~= Seq::<u8>::empty());
        assert(hex_nibble(pair[0]) * 16 + hex_nibble(pair[1]) == b);
        assert(hex_decoded(pair) =~= seq![b]);
        assert(bytes =~= init + seq![b]);
        assert forall|i: int| 0 <= i < hex_lower(bytes).len() implies is_lower_hex_char(#[trigger] hex_lower(bytes)[i]) by {
            if i < hex_lower(init).len() {
                assert(hex_lower(bytes)[i] == hex_lower(init)[i]);
            }
        }
    }
}

/// Two lower-case hexadecimal digits with the same value are the same digit.
proof fn lemma_hex_nibble_injective(c: char, d: char)
    requires
        is_lower_hex_char(c),
        is_lower_hex_char(d),
        hex_nibble(c) == hex_nibble(d),
    ensures
        c == d,
{
    assert((c as u32) == (d as u32));
}

/// Lower-case hexadecimal text of even length is determined by the bytes it decodes to.
pub proof fn lemma_hex_decoded_injective(a: Seq<char>, b: Seq<char>)
    requires
        a.len() == b.len(),
        a.len() % 2 == 0,
        all_lower_hex(a),
        all_lower_hex(b),
        hex_decoded(a) == hex_decoded(b),
    ensures
        a == b,
    decreases a.len(),
{
    if a.len() >= 2 {
        assert(is_lower_hex_char(a[0]) && is_lower_hex_char(a[1]) && is_lower_hex_char(b[0]) && is_lower_hex_char(b[1]));
        let x = hex_nibble(a[0]) * 16 + hex_nibble(a[1]);
        let y = hex_nibble(b[0]) * 16 + hex_nibble(b[1]);
        assert(hex_nibble(a[0]) < 16 && hex_nibble(a[1]) < 16 && hex_nibble(b[0]) < 16 && hex_nibble(b[1]) < 16);
        assert(x < 256 && y < 256);
        assert(hex_decoded(a)[0] == x as u8);
        assert(hex_decoded(b)[0] == y as u8);
        assert(x == y);
        lemma_hex_nibble_injective(a[0], b[0]);
        lemma_hex_nibble_injective(a[1], b[1]);
        assert(hex_decoded(a.skip(2)) =~= hex_decoded(a).skip(1));
        assert(hex_decoded(b.skip(2)) =~= hex_decoded(b).skip(1));
        assert forall|i: int| 0 <= i < a.skip(2).len() implies is_lower_hex_char(#[trigger] a.skip(2)[i]) by {
            assert(a.skip(2)[i] == a[i + 2]);
        }
        assert forall|i: int| 0 <= i < b.skip(2).len() implies is_lower_hex_char(#[trigger] b.skip(2)[i]) by {
            assert(b.skip(2)[i] == b[i + 2]);
        }
        lemma_hex_decoded_injective(a.skip(2), b.skip(2));
        assert forall|i: int| 0 <= i < a.len() implies a[i] == b[i] by {
            if i >= 2 {
                assert(a[i] == a.skip(2)[i - 2] && b[i] == b.skip(2)[i - 2]);
            }
        }
        assert(a =~= b);
    } else {
        assert(a =~= b);
    }
}

/// Decodes an even number of lower-case hexadecimal digits with `hex::decode`, which the
/// crate's source turns into one byte per pair of digits, high digit first, and which succeeds
/// on such text.
#[verifier::external_body]
pub(crate) fn hex_decode(s: &str) -> (r: Option<Vec<u8>>)
    requires
        s@.len() % 2 == 0,
        all_lower_hex(s@),
    ensures
        r is Some,
        r matches Some(v) ==> v@ == hex_decoded(s@),
{
    hex::decode(s).ok()
}

// ---------------------------------------------------------------------------------------------
// Checks with handle messages.

/// The error a handle name check reports, if any.
pub open spec fn handle_name_error(value: Seq<char>, label: Seq<char>) -> Option<Seq<char>> {
    if name_ok(value) {
        None
    } else {
        Some("exact Script handle "@ + label + " must be a non-empty bounded string"@)
    }
}

/// The error a handle check for a bare 32-byte hash reports, if any.
pub open spec fn handle_raw_hash32_error(value: Seq<char>, label: Seq<char>) -> Option<Seq<char>> {
    if is_raw_hash32(value) {
        None
    } else {
        Some("exact Script handle "@ + label + " must be 64 lowercase hexadecimal characters"@)
    }
}

/// The error a handle check for a `0x`-prefixed 32-byte hash reports, if any.
pub open spec fn handle_hash32_error(value: Seq<char>, label: Seq<char>) -> Option<Seq<char>> {
    if !has_prefix(value, "0x"@) {
        Some("exact Script handle "@ + label + " must be 0x-prefixed lowercase hexadecimal"@)
    } else {
        handle_raw_hash32_error(value.skip(2), label)
    }
}

/// The error a handle check for `0x`-prefixed bytes reports, if any.
pub open spec fn handle_hex_bytes_error(value: Seq<char>, label: Seq<char>) -> Option<Seq<char>> {
    if !has_prefix(value, "0x"@) {
        Some("exact Script handle "@ + label + " must be 0x-prefixed"@)
    } else if value.skip(2).len() % 2 != 0 || !all_lower_hex(value.skip(2)) {
        Some("exact Script handle "@ + label + " must be canonical lowercase hex"@)
    } else {
        None
    }
}

/// `r` is `Ok` with `ok` when `error` is none, and otherwise carries that message.
pub open spec fn yields<T>(r: Result<T>, error: Option<Seq<char>>, ok: spec_fn(T) -> bool) -> bool {
    match error {
        None => r matches Ok(v) && ok(v),
        Some(m) => r matches Err(e) && e.message@ == m,
    }
}

fn handle_error(label: &str, what: &str) -> (e: CompileError)
    ensures
        e.message@ == "exact Script handle "@ + label@ + what@,
{
    proof {
        reveal_strlit("exact Script handle ");
    }
    CompileError::without_span(concat3("exact Script handle ", label, what).as_str())
}

fn char_is_control(c: char) -> (r: bool)
    ensures
        r == is_control(c),
{
    crate::protocol_bundle::char_is_control(c)
}

fn char_width_exec(c: char) -> (r: usize)
    ensures
        r == char_width(c),
{
    let v = c as u32;
    if v <= 0x7f {
        1
    } else if v <= 0x7ff {
        2
    } else if v <= 0xffff {
        3
    } else {
        4
    }
}

/// Checks a name: not empty, at most 512 bytes, no control characters.
fn validate_name(value: &str, label: &str) -> (r: Result<()>)
    ensures
        yields(r, handle_name_error(value@, label@), |u: ()| true),
{
    let cs = chars_of(value);
    proof {
        lemma_utf8_len(value@);
        assert(cs@.skip(0) =~= cs@);
    }
    if cs.len() == 0 {
        return Err(handle_error(label, " must be a non-empty bounded string"));
    }
    let mut n: usize = 0;
    let mut i: usize = 0;
    while i < cs.len()
        invariant
            cs@ == value@,
            i <= cs@.len(),
            n <= 512,
            utf8_len(cs@) == n + utf8_len(cs@.skip(i as int)),
            encode_utf8(value@).len() == utf8_len(value@),
            forall|k: int| 0 <= k < i ==> !is_control(#[trigger] cs@[k]),
        decreases cs@.len() - i,
    {
        let c = cs[i];
        if char_is_control(c) {
            return Err(handle_error(label, " must be a non-empty bounded string"));
        }
        proof {
            assert(cs@.skip(i as int).drop_first() =~= cs@.skip(i + 1));
        }
        n = n + char_width_exec(c);
        if n > 512 {
            return Err(handle_error(label, " must be a non-empty bounded string"));
        }
        i += 1;
    }
    Ok(())
}

fn lower_hex_from(cs: &Vec<char>, from: usize) -> (r: bool)
    requires
        from <= cs@.len(),
    ensures
        r == all_lower_hex(cs@.skip(from as int)),
{
    let mut i: usize = from;
    while i < cs.len()
        invariant
            from <= i <= cs@.len(),
            forall|k: int| from <= k < i ==> crate::protocol_bundle::is_lower_hex_char(#[trigger] cs@[k]),
        decreases cs@.len() - i,
    {
        let c = cs[i];
        if !(('0' <= c && c <= '9') || ('a' <= c && c <= 'f')) {
            assert(cs@.skip(from as int)[i - from] == c);
            return false;
        }
        i += 1;
    }
    assert forall|k: int| 0 <= k < cs@.skip(from as int).len() implies crate::protocol_bundle::is_lower_hex_char(
        #[trigger] cs@.skip(from as int)[k],
    ) by {
        assert(cs@.skip(from as int)[k] == cs@[k + from]);
    }
    true
}

fn vec_to_hash(v: Vec<u8>) -> (r: [u8; 32])
    requires
        v@.len() == 32,
    ensures
        r@ == v@,
{
    let mut r = [0u8; 32];
    let mut i: usize = 0;
    while i < 32
        invariant
            v@.len() == 32,
            i <= 32,
            forall|k: int| 0 <= k < i ==> r@[k] == v@[k],
        decreases 32 - i,
    {
        r.set(i, v[i]);
        i += 1;
    }
    assert(r@ =~= v@);
    r
}

/// Checks and decodes a bare 32-byte hash.
fn raw_hash32(value: &str, label: &str) -> (r: Result<[u8; 32]>)
    ensures
        yields(r, handle_raw_hash32_error(value@, label@), |h: [u8; 32]| h@ == hex_decoded(value@)),
{
    let cs = chars_of(value);
    proof {
        assert(cs@.skip(0) =~= cs@);
    }
    if !(cs.len() == 64 && lower_hex_from(&cs, 0)) {
        return Err(handle_error(label, " must be 64 lowercase hexadecimal characters"));
    }
    proof {
        lemma_hex_decoded_len(value@);
    }
    match hex_decode(value) {
        Some(bytes) => Ok(vec_to_hash(bytes)),
        None => Err(handle_error(label, " must contain 32 bytes")),
    }
}

/// Checks and decodes a `0x`-prefixed 32-byte hash.
fn prefixed_hash32(value: &str, label: &str) -> (r: Result<[u8; 32]>)
    ensures
        yields(r, handle_hash32_error(value@, label@), |h: [u8; 32]| h@ == hex_decoded(value@.skip(2))),
{
    proof {
        reveal_strlit("0x");
    }
    if !str_starts_with(value, "0x") {
        return Err(handle_error(label, " must be 0x-prefixed lowercase hexadecimal"));
    }
    let raw = substring_from(value, 2);
    raw_hash32(raw.as_str(), label)
}

/// Checks and decodes `0x`-prefixed bytes.
fn canonical_hex_bytes(value: &str, label: &str) -> (r: Result<Vec<u8>>)
    ensures
        yields(r, handle_hex_bytes_error(value@, label@), |v: Vec<u8>| v@ == hex_decoded(value@.skip(2))),
{
    proof {
        reveal_strlit("0x");
    }
    if !str_starts_with(value, "0x") {
        return Err(handle_error(label, " must be 0x-prefixed"));
    }
    let cs = chars_of(value);
    if (cs.len() - 2) % 2 != 0 || !lower_hex_from(&cs, 2) {
        return Err(handle_error(label, " must be canonical lowercase hex"));
    }
    let raw = substring_from(value, 2);
    match hex_decode(raw.as_str()) {
        Some(bytes) => Ok(bytes),
        None => Err(handle_error(label, " could not be decoded")),
    }
}

// ---------------------------------------------------------------------------------------------
// Script identity hash.

/// The byte CKB gives a Script hash type.
pub open spec fn hash_type_byte(t: Seq<char>) -> Option<u8> {
    if t == "data"@ {
        Some(0u8)
    } else if t == "type"@ {
        Some(1u8)
    } else if t == "data1"@ {
        Some(2u8)
    } else if t == "data2"@ {
        Some(4u8)
    } else {
        None
    }
}

/// A Script serialized as a Molecule table: total size, three field offsets, the 32-byte code
/// hash, the hash type byte, and the arguments as a byte vector.
pub open spec fn script_molecule(code_hash: Seq<u8>, hash_type: u8, args: Seq<u8>) -> Seq<u8> {
    le_bytes(53 + args.len(), 4) + le_bytes(16, 4) + le_bytes(48, 4) + le_bytes(49, 4) + code_hash + seq![hash_type]
        + le_bytes(args.len(), 4) + args
}

/// What `ckb_script_identity_hash` gives a Script: the `0x` hash of its Molecule encoding, or
/// the message of the first check it fails.
pub open spec fn script_identity_hash_outcome(script: ProtocolScriptIdentity) -> core::result::Result<
    Seq<char>,
    Seq<char>,
> {
    let code = script.code_hash@;
    let args = script.args@;
    if let Some(m) = handle_hash32_error(code, "Script code_hash"@) {
        Err(m)
    } else if hash_type_byte(script.hash_type@) is None {
        Err("unsupported CKB Script hash_type '"@ + script.hash_type@ + "'"@)
    } else if let Some(m) = handle_hex_bytes_error(args, "Script args"@) {
        Err(m)
    } else if 53 + hex_decoded(args.skip(2)).len() > u32::MAX {
        Err("CKB Script is too large to serialize"@)
    } else {
        Ok(
            "0x"@ + hex_lower(
                ckb_blake2b256_digest(
                    script_molecule(
                        hex_decoded(code.skip(2)),
                        hash_type_byte(script.hash_type@)->0,
                        hex_decoded(args.skip(2)),
                    ),
                ),
            ),
        )
    }
}

/// `r` is `Ok` with the text `ok`, or `Err` with the message, as `outcome` says.
pub open spec fn text_outcome(r: Result<String>, outcome: core::result::Result<Seq<char>, Seq<char>>) -> bool {
    match outcome {
        Ok(t) => r matches Ok(s) && s@ == t,
        Err(m) => r matches Err(e) && e.message@ == m,
    }
}

/// The CKB Script hash of a Script identity: the CKB default hash of its Molecule encoding,
/// as `0x` hexadecimal.
pub fn ckb_script_identity_hash(script: &ProtocolScriptIdentity) -> (r: Result<String>)
    ensures
        text_outcome(r, script_identity_hash_outcome(*script)),
{
    proof {
        reveal_strlit("Script code_hash");
        reveal_strlit("Script args");
        reveal_strlit("data");
        reveal_strlit("type");
        reveal_strlit("data1");
        reveal_strlit("data2");
        reveal_strlit("0x");
    }
    let code_hash = match prefixed_hash32(script.code_hash.as_str(), "Script code_hash") {
        Ok(h) => h,
        Err(e) => return Err(e),
    };
    let t = script.hash_type.as_str();
    let hash_type: u8 = if str_eq(t, "data") {
        0
    } else if str_eq(t, "type") {
        1
    } else if str_eq(t, "data1") {
        2
    } else if str_eq(t, "data2") {
        4
    } else {
        return Err(CompileError::without_span(concat3("unsupported CKB Script hash_type '", t, "'").as_str()));
    };
    let args = match canonical_hex_bytes(script.args.as_str(), "Script args") {
        Ok(a) => a,
        Err(e) => return Err(e),
    };
    if args.len() > 0xffff_ffff - 53 {
        return Err(CompileError::without_span("CKB Script is too large to serialize"));
    }
    let n = args.len() as u64;
    let mut bytes: Vec<u8> = Vec::new();
    push_le_bytes(&mut bytes, 53 + n, 4);
    push_le_bytes(&mut bytes, 16, 4);
    push_le_bytes(&mut bytes, 48, 4);
    push_le_bytes(&mut bytes, 49, 4);
    append_bytes(&mut bytes, &code_hash);
    bytes.push(hash_type);
    push_le_bytes(&mut bytes, n, 4);
    append_bytes(&mut bytes, args.as_slice());
    let digest = ckb_blake2b256(bytes.as_slice());
    let digits = hex_encode(&digest);
    proof {
        assert(bytes@ =~= script_molecule(code_hash@, hash_type, args@));
    }
    Ok(concat2("0x", digits.as_str()))
}


// ---------------------------------------------------------------------------------------------
// Receipts and values.

/// The class a Script role calls for.
pub open spec fn class_for_role(role: ProtocolScriptRole) -> ExactHandleClass {
    match role {
        ProtocolScriptRole::Lock | ProtocolScriptRole::Type => ExactHandleClass::Script,
        ProtocolScriptRole::SpawnedVerifier => ExactHandleClass::Verifier,
    }
}

/// The code identity policy a Script hash type calls for.
pub open spec fn policy_for_hash_type(t: Seq<char>) -> Option<ExactCodeIdentityPolicy> {
    if t == "data"@ || t == "data1"@ || t == "data2"@ {
        Some(ExactCodeIdentityPolicy::DataHashExactArtifact)
    } else if t == "type"@ {
        Some(ExactCodeIdentityPolicy::TypeHashExactCodeCell)
    } else {
        None
    }
}

/// `code_hash` is `0x` followed by exactly `artifact_hash`.
pub open spec fn code_hash_is_artifact(code_hash: Seq<char>, artifact_hash: Seq<char>) -> bool {
    has_prefix(code_hash, "0x"@) && code_hash.skip(2) == artifact_hash
}

/// The first error among the six hashes a receipt carries, checked in order.
pub open spec fn hash_fields_error(
    interface_hash: Seq<char>,
    typed_semantics_hash: Seq<char>,
    artifact_hash: Seq<char>,
    target_profile_hash: Seq<char>,
    runtime_abi_hash: Seq<char>,
    verified_bundle_id: Seq<char>,
) -> Option<Seq<char>> {
    first_error(
        handle_raw_hash32_error(interface_hash, "interface_hash"@),
        first_error(
            handle_raw_hash32_error(typed_semantics_hash, "typed_semantics_hash"@),
            first_error(
                handle_raw_hash32_error(artifact_hash, "artifact_hash"@),
                first_error(
                    handle_raw_hash32_error(target_profile_hash, "target_profile_hash"@),
                    first_error(
                        handle_raw_hash32_error(runtime_abi_hash, "runtime_abi_hash"@),
                        handle_raw_hash32_error(verified_bundle_id, "verified_bundle_id"@),
                    ),
                ),
            ),
        ),
    )
}

/// The first check a receipt fails, if any.
pub open spec fn receipt_shape_error(r: ExactScriptHandleReceipt) -> Option<Seq<char>> {
    if r.schema@ != EXACT_SCRIPT_HANDLE_RECEIPT_SCHEMA@ || r.version != 1 {
        Some("unsupported exact Script handle receipt schema/version"@)
    } else if r.class != class_for_role(r.script_role) {
        Some("exact Script handle class disagrees with its Script role"@)
    } else if let Some(m) = first_error(
        handle_name_error(r.package_coordinate@, "package coordinate"@),
        first_error(
            handle_name_error(r.lock_node_id@, "Cell.lock node identity"@),
            first_error(handle_name_error(r.entry.name@, "entry name"@), deployment_error(r.deployment)),
        ),
    ) {
        Some(m)
    } else if r.deployment.artifact_hash@ != r.artifact_hash@ {
        Some("exact Script handle receipt has inconsistent artifact hashes"@)
    } else if policy_for_hash_type(r.deployment.script.hash_type@) is None {
        Some("unsupported CKB Script hash_type '"@ + r.deployment.script.hash_type@ + "'"@)
    } else if Some(r.code_identity_policy) != policy_for_hash_type(r.deployment.script.hash_type@) {
        Some("exact Script handle code identity policy disagrees with its deployment hash type"@)
    } else if r.code_identity_policy == ExactCodeIdentityPolicy::DataHashExactArtifact && !code_hash_is_artifact(
        r.deployment.script.code_hash@,
        r.artifact_hash@,
    ) {
        Some("exact data-hash Script handle code hash differs from the checked artifact"@)
    } else {
        hash_fields_error(
            r.interface_hash@,
            r.typed_semantics_hash@,
            r.artifact_hash@,
            r.target_profile_hash@,
            r.runtime_abi_hash@,
            r.verified_bundle_id@,
        )
    }
}

fn is_data_hash_type(t: &str) -> (r: bool)
    ensures
        r == (t@ == "data"@ || t@ == "data1"@ || t@ == "data2"@),
{
    str_eq(t, "data") || str_eq(t, "data1") || str_eq(t, "data2")
}

fn strip_0x_equals(code_hash: &str, artifact_hash: &str) -> (r: bool)
    ensures
        r == code_hash_is_artifact(code_hash@, artifact_hash@),
{
    proof {
        reveal_strlit("0x");
    }
    if !str_starts_with(code_hash, "0x") {
        return false;
    }
    let raw = substring_from(code_hash, 2);
    str_eq(raw.as_str(), artifact_hash)
}

fn validate_hash_fields(
    interface_hash: &str,
    typed_semantics_hash: &str,
    artifact_hash: &str,
    target_profile_hash: &str,
    runtime_abi_hash: &str,
    verified_bundle_id: &str,
) -> (r: Result<()>)
    ensures
        yields(
            r,
            hash_fields_error(
                interface_hash@,
                typed_semantics_hash@,
                artifact_hash@,
                target_profile_hash@,
                runtime_abi_hash@,
                verified_bundle_id@,
            ),
            |u: ()| true,
        ),
{
    if let Err(e) = raw_hash32(interface_hash, "interface_hash") {
        return Err(e);
    }
    if let Err(e) = raw_hash32(typed_semantics_hash, "typed_semantics_hash") {
        return Err(e);
    }
    if let Err(e) = raw_hash32(artifact_hash, "artifact_hash") {
        return Err(e);
    }
    if let Err(e) = raw_hash32(target_profile_hash, "target_profile_hash") {
        return Err(e);
    }
    if let Err(e) = raw_hash32(runtime_abi_hash, "runtime_abi_hash") {
        return Err(e);
    }
    if let Err(e) = raw_hash32(verified_bundle_id, "verified_bundle_id") {
        return Err(e);
    }
    Ok(())
}

/// Checks everything a receipt must satisfy before it is hashed or encoded.
fn validate_receipt_shape(receipt: &ExactScriptHandleReceipt) -> (r: Result<()>)
    ensures
        yields(r, receipt_shape_error(*receipt), |u: ()| true),
{
    proof {
        reveal_strlit("data");
        reveal_strlit("data1");
        reveal_strlit("data2");
        reveal_strlit("type");
    }
    if !str_eq(receipt.schema.as_str(), EXACT_SCRIPT_HANDLE_RECEIPT_SCHEMA) || receipt.version != 1 {
        return Err(CompileError::without_span("unsupported exact Script handle receipt schema/version"));
    }
    let expected_class = match receipt.script_role {
        ProtocolScriptRole::Lock | ProtocolScriptRole::Type => ExactHandleClass::Script,
        ProtocolScriptRole::SpawnedVerifier => ExactHandleClass::Verifier,
    };
    if receipt.class != expected_class {
        return Err(CompileError::without_span("exact Script handle class disagrees with its Script role"));
    }
    if let Err(e) = validate_name(receipt.package_coordinate.as_str(), "package coordinate") {
        return Err(e);
    }
    if let Err(e) = validate_name(receipt.lock_node_id.as_str(), "Cell.lock node identity") {
        return Err(e);
    }
    if let Err(e) = validate_name(receipt.entry.name.as_str(), "entry name") {
        return Err(e);
    }
    if let Err(e) = validate_deployment(&receipt.deployment) {
        return Err(e);
    }
    if !str_eq(receipt.deployment.artifact_hash.as_str(), receipt.artifact_hash.as_str()) {
        return Err(CompileError::without_span("exact Script handle receipt has inconsistent artifact hashes"));
    }
    let t = receipt.deployment.script.hash_type.as_str();
    let expected_policy = if is_data_hash_type(t) {
        ExactCodeIdentityPolicy::DataHashExactArtifact
    } else if str_eq(t, "type") {
        ExactCodeIdentityPolicy::TypeHashExactCodeCell
    } else {
        return Err(CompileError::without_span(concat3("unsupported CKB Script hash_type '", t, "'").as_str()));
    };
    if receipt.code_identity_policy != expected_policy {
        return Err(
            CompileError::without_span("exact Script handle code identity policy disagrees with its deployment hash type"),
        );
    }
    if receipt.code_identity_policy == ExactCodeIdentityPolicy::DataHashExactArtifact && !strip_0x_equals(
        receipt.deployment.script.code_hash.as_str(),
        receipt.artifact_hash.as_str(),
    ) {
        return Err(CompileError::without_span("exact data-hash Script handle code hash differs from the checked artifact"));
    }
    validate_hash_fields(
        receipt.interface_hash.as_str(),
        receipt.typed_semantics_hash.as_str(),
        receipt.artifact_hash.as_str(),
        receipt.target_profile_hash.as_str(),
        receipt.runtime_abi_hash.as_str(),
        receipt.verified_bundle_id.as_str(),
    )
}


/// The byte a handle class is encoded as.
pub open spec fn class_byte(c: ExactHandleClass) -> u8 {
    match c {
        ExactHandleClass::Script => 0u8,
        ExactHandleClass::Verifier => 1u8,
    }
}

/// The byte a Script role is encoded as.
pub open spec fn role_byte(r: ProtocolScriptRole) -> u8 {
    match r {
        ProtocolScriptRole::Lock => 0u8,
        ProtocolScriptRole::Type => 1u8,
        ProtocolScriptRole::SpawnedVerifier => 2u8,
    }
}

/// The 202 bytes of a handle: magic, class, role and six 32-byte hashes.
pub open spec fn handle_layout(
    class: ExactHandleClass,
    role: ProtocolScriptRole,
    receipt_hash: Seq<u8>,
    script_hash: Seq<u8>,
    interface_hash: Seq<u8>,
    artifact_hash: Seq<u8>,
    target_profile_hash: Seq<u8>,
    runtime_abi_hash: Seq<u8>,
) -> Seq<u8> {
    exact_script_handle_magic() + seq![class_byte(class), role_byte(role)] + receipt_hash + script_hash + interface_hash
        + artifact_hash + target_profile_hash + runtime_abi_hash
}

/// What encoding `receipt` gives when its canonical hash is the text `h`: the `0x` text of the
/// handle, or the message of the first check that fails.
pub open spec fn encode_outcome(receipt: ExactScriptHandleReceipt, h: Seq<char>) -> core::result::Result<
    Seq<char>,
    Seq<char>,
> {
    if let Some(m) = receipt_shape_error(receipt) {
        Err(m)
    } else if let Some(m) = handle_raw_hash32_error(h, "receipt hash"@) {
        Err(m)
    } else {
        match script_identity_hash_outcome(receipt.deployment.script) {
            Err(m) => Err(m),
            Ok(sh) => if let Some(m) = handle_hash32_error(sh, "Script hash"@) {
                Err(m)
            } else {
                Ok(
                    "0x"@ + hex_lower(
                        handle_layout(
                            receipt.class,
                            receipt.script_role,
                            hex_decoded(h),
                            hex_decoded(sh.skip(2)),
                            hex_decoded(receipt.interface_hash@),
                            hex_decoded(receipt.artifact_hash@),
                            hex_decoded(receipt.target_profile_hash@),
                            hex_decoded(receipt.runtime_abi_hash@),
                        ),
                    ),
                )
            },
        }
    }
}

/// `v` is a handle value in the current schema whose encoded text is `encoded`.
pub open spec fn value_with(v: ExactScriptHandleValue, encoded: Seq<char>) -> bool {
    &&& v.schema@ == EXACT_SCRIPT_HANDLE_VALUE_SCHEMA@
    &&& v.version == 1
    &&& v.encoding@ == EXACT_SCRIPT_HANDLE_ENCODING@
    &&& v.encoded@ == encoded
}

/// `r` is the value, or the error, that `outcome` describes.
pub open spec fn value_outcome(
    r: Result<ExactScriptHandleValue>,
    outcome: core::result::Result<Seq<char>, Seq<char>>,
) -> bool {
    match outcome {
        Ok(t) => r matches Ok(v) && value_with(v, t),
        Err(m) => r matches Err(e) && e.message@ == m,
    }
}

/// What rebuilding the handle of `receipt` gives, where `receipt_hash` computes the receipt's
/// canonical hash: the receipt's own errors first, then the hasher's error, then the encoding.
pub open spec fn handle_from<H: Fn(&ExactScriptHandleReceipt) -> Result<String>>(
    receipt: ExactScriptHandleReceipt,
    receipt_hash: H,
    r: Result<ExactScriptHandleValue>,
) -> bool {
    match receipt_shape_error(receipt) {
        Some(m) => r matches Err(e) && e.message@ == m,
        None => exists|h: Result<String>|
            #![trigger call_ensures(receipt_hash, (&receipt,), h)]
            call_ensures(receipt_hash, (&receipt,), h) && match h {
                Err(he) => r == Err::<ExactScriptHandleValue, CompileError>(he),
                Ok(hs) => value_outcome(r, encode_outcome(receipt, hs@)),
            },
    }
}

/// Encodes a receipt whose canonical hash is `receipt_hash`.
fn encode_exact_script_handle(receipt: &ExactScriptHandleReceipt, receipt_hash: &str) -> (r: Result<
    ExactScriptHandleValue,
>)
    ensures
        value_outcome(r, encode_outcome(*receipt, receipt_hash@)),
{
    proof {
        reveal_strlit("receipt hash");
        reveal_strlit("Script hash");
        reveal_strlit("0x");
    }
    if let Err(e) = validate_receipt_shape(receipt) {
        return Err(e);
    }
    let receipt_bytes = match raw_hash32(receipt_hash, "receipt hash") {
        Ok(h) => h,
        Err(e) => return Err(e),
    };
    let script_text = match ckb_script_identity_hash(&receipt.deployment.script) {
        Ok(t) => t,
        Err(e) => return Err(e),
    };
    let script_bytes = match prefixed_hash32(script_text.as_str(), "Script hash") {
        Ok(h) => h,
        Err(e) => return Err(e),
    };
    let interface = match raw_hash32(receipt.interface_hash.as_str(), "interface_hash") {
        Ok(h) => h,
        Err(e) => return Err(e),
    };
    let artifact = match raw_hash32(receipt.artifact_hash.as_str(), "artifact_hash") {
        Ok(h) => h,
        Err(e) => return Err(e),
    };
    let target = match raw_hash32(receipt.target_profile_hash.as_str(), "target_profile_hash") {
        Ok(h) => h,
        Err(e) => return Err(e),
    };
    let abi = match raw_hash32(receipt.runtime_abi_hash.as_str(), "runtime_abi_hash") {
        Ok(h) => h,
        Err(e) => return Err(e),
    };
    let mut bytes: Vec<u8> = Vec::new();
    bytes.push(0x43u8);
    bytes.push(0x53u8);
    bytes.push(0x48u8);
    bytes.push(0x44u8);
    bytes.push(0x4cu8);
    bytes.push(0x76u8);
    bytes.push(0x31u8);
    bytes.push(0x00u8);
    let class_value: u8 = match receipt.class {
        ExactHandleClass::Script => crate::script_handle_contract::EXACT_SCRIPT_HANDLE_CLASS_SCRIPT,
        ExactHandleClass::Verifier => crate::script_handle_contract::EXACT_SCRIPT_HANDLE_CLASS_VERIFIER,
    };
    let role_value: u8 = match receipt.script_role {
        ProtocolScriptRole::Lock => crate::script_handle_contract::EXACT_SCRIPT_HANDLE_ROLE_LOCK,
        ProtocolScriptRole::Type => crate::script_handle_contract::EXACT_SCRIPT_HANDLE_ROLE_TYPE,
        ProtocolScriptRole::SpawnedVerifier => crate::script_handle_contract::EXACT_SCRIPT_HANDLE_ROLE_SPAWNED_VERIFIER,
    };
    bytes.push(class_value);
    bytes.push(role_value);
    append_bytes(&mut bytes, &receipt_bytes);
    append_bytes(&mut bytes, &script_bytes);
    append_bytes(&mut bytes, &interface);
    append_bytes(&mut bytes, &artifact);
    append_bytes(&mut bytes, &target);
    append_bytes(&mut bytes, &abi);
    proof {
        assert(bytes@ =~= handle_layout(
            receipt.class,
            receipt.script_role,
            receipt_bytes@,
            script_bytes@,
            interface@,
            artifact@,
            target@,
            abi@,
        ));
    }
    let digits = hex_encode(bytes.as_slice());
    Ok(ExactScriptHandleValue {
        schema: EXACT_SCRIPT_HANDLE_VALUE_SCHEMA.to_owned(),
        version: 1,
        encoding: EXACT_SCRIPT_HANDLE_ENCODING.to_owned(),
        encoded: concat2("0x", digits.as_str()),
    })
}

/// Rebuilds the canonical fixed-width value from an independently retained receipt;
/// `receipt_hash` computes the receipt's canonical hash, and is called only on a receipt that
/// passed its checks.
pub fn exact_script_handle_value_from_receipt<H: Fn(&ExactScriptHandleReceipt) -> Result<String>>(
    receipt: &ExactScriptHandleReceipt,
    receipt_hash: H,
) -> (r: Result<ExactScriptHandleValue>)
    requires
        call_requires(receipt_hash, (receipt,)),
    ensures
        handle_from(*receipt, receipt_hash, r),
{
    if let Err(e) = validate_receipt_shape(receipt) {
        return Err(e);
    }
    let h = receipt_hash(receipt);
    match h {
        Err(e) => {
            proof {
                assert(call_ensures(receipt_hash, (receipt,), h));
            }
            Err(e)
        },
        Ok(text) => {
            let r = encode_exact_script_handle(receipt, text.as_str());
            proof {
                assert(call_ensures(receipt_hash, (receipt,), h));
            }
            r
        },
    }
}

fn same_value(a: &ExactScriptHandleValue, b: &ExactScriptHandleValue) -> (r: bool)
    ensures
        r == (a.schema@ == b.schema@ && a.version == b.version && a.encoding@ == b.encoding@ && a.encoded@
            == b.encoded@),
{
    str_eq(a.schema.as_str(), b.schema.as_str()) && a.version == b.version && str_eq(
        a.encoding.as_str(),
        b.encoding.as_str(),
    ) && str_eq(a.encoded.as_str(), b.encoded.as_str())
}

/// Checks that `value` is exactly the handle `receipt` encodes.
pub fn validate_exact_script_handle<H: Fn(&ExactScriptHandleReceipt) -> Result<String>>(
    receipt: &ExactScriptHandleReceipt,
    value: &ExactScriptHandleValue,
    receipt_hash: H,
) -> (r: Result<()>)
    requires
        call_requires(receipt_hash, (receipt,)),
    ensures
        exists|expected: Result<ExactScriptHandleValue>|
            #![trigger handle_from(*receipt, receipt_hash, expected)]
            handle_from(*receipt, receipt_hash, expected) && match expected {
                Err(e) => r == Err::<(), CompileError>(e),
                Ok(v) => if v.schema@ == value.schema@ && v.version == value.version && v.encoding@
                    == value.encoding@ && v.encoded@ == value.encoded@ {
                    r is Ok
                } else {
                    r matches Err(e) && e.message@
                        == "exact Script handle value does not match its interface/artifact/deployment receipt"@
                },
            },
{
    let expected = exact_script_handle_value_from_receipt(receipt, receipt_hash);
    let ghost g = expected;
    proof {
        assert(handle_from(*receipt, receipt_hash, g));
    }
    match expected {
        Err(e) => Err(e),
        Ok(v) => {
            if same_value(&v, value) {
                Ok(())
            } else {
                Err(
                    CompileError::without_span(
                        "exact Script handle value does not match its interface/artifact/deployment receipt",
                    ),
                )
            }
        },
    }
}


/// What `exact_script_handle_value_hash` gives a value: the CKB default hash of its 202 bytes
/// as bare hexadecimal, or the first error.
pub open spec fn value_hash_outcome(v: ExactScriptHandleValue) -> core::result::Result<Seq<char>, Seq<char>> {
    if v.schema@ != EXACT_SCRIPT_HANDLE_VALUE_SCHEMA@ || v.version != 1 || v.encoding@ != EXACT_SCRIPT_HANDLE_ENCODING@ {
        Err("unsupported exact Script handle value schema/version/encoding"@)
    } else if let Some(m) = handle_hex_bytes_error(v.encoded@, "exact Script handle value"@) {
        Err(m)
    } else if hex_decoded(v.encoded@.skip(2)).len() != 202 {
        Err("exact Script handle value must contain exactly 202 bytes"@)
    } else {
        Ok(hex_lower(ckb_blake2b256_digest(hex_decoded(v.encoded@.skip(2)))))
    }
}

/// Every handle that encoding gives is `0x` followed by the lower-case hexadecimal of exactly
/// 202 bytes (magic, class, role and six 32-byte hashes), and those bytes have a value hash: the
/// CKB hash of exactly them.
pub proof fn lemma_encoded_handle_is_fixed_width(receipt: ExactScriptHandleReceipt, h: Seq<char>, v: ExactScriptHandleValue)
    requires
        match encode_outcome(receipt, h) {
            Ok(t) => value_with(v, t),
            Err(_) => false,
        },
    ensures
        v.encoded@.len() == 2 + 2 * EXACT_SCRIPT_HANDLE_BYTES,
        hex_decoded(v.encoded@.skip(2)).len() == EXACT_SCRIPT_HANDLE_BYTES,
        value_hash_outcome(v) == Ok::<Seq<char>, Seq<char>>(
            hex_lower(ckb_blake2b256_digest(hex_decoded(v.encoded@.skip(2)))),
        ),
{
    reveal_strlit("0x");
    let sh = script_identity_hash_outcome(receipt.deployment.script)->Ok_0;
    let layout = handle_layout(
        receipt.class,
        receipt.script_role,
        hex_decoded(h),
        hex_decoded(sh.skip(2)),
        hex_decoded(receipt.interface_hash@),
        hex_decoded(receipt.artifact_hash@),
        hex_decoded(receipt.target_profile_hash@),
        hex_decoded(receipt.runtime_abi_hash@),
    );
    assert(v.encoded@ == "0x"@ + hex_lower(layout));
    lemma_hex_decoded_len(h);
    lemma_hex_decoded_len(sh.skip(2));
    lemma_hex_decoded_len(receipt.interface_hash@);
    lemma_hex_decoded_len(receipt.artifact_hash@);
    lemma_hex_decoded_len(receipt.target_profile_hash@);
    lemma_hex_decoded_len(receipt.runtime_abi_hash@);
    assert(layout.len() == 202);
    lemma_hex_roundtrip(layout);
    assert(v.encoded@.skip(2) =~= hex_lower(layout));
    assert(v.encoded@.take(2) =~= "0x"@);
}

/// The layout's bytes, field by field: each 32-byte hash at its offset.
proof fn lemma_layout_fields(
    class: ExactHandleClass,
    role: ProtocolScriptRole,
    a: Seq<u8>,
    b: Seq<u8>,
    c: Seq<u8>,
    d: Seq<u8>,
    e: Seq<u8>,
    f: Seq<u8>,
)
    requires
        a.len() == 32 && b.len() == 32 && c.len() == 32 && d.len() == 32 && e.len() == 32 && f.len() == 32,
    ensures
        ({
            let l = handle_layout(class, role, a, b, c, d, e, f);
            &&& l.len() == 202
            &&& l[8] == class_byte(class)
            &&& l[9] == role_byte(role)
            &&& l.subrange(10, 42) == a
            &&& l.subrange(42, 74) == b
            &&& l.subrange(74, 106) == c
            &&& l.subrange(106, 138) == d
            &&& l.subrange(138, 170) == e
            &&& l.subrange(170, 202) == f
        }),
{
    let l = handle_layout(class, role, a, b, c, d, e, f);
    assert(l.subrange(10, 42) =~= a);
    assert(l.subrange(42, 74) =~= b);
    assert(l.subrange(74, 106) =~= c);
    assert(l.subrange(106, 138) =~= d);
    assert(l.subrange(138, 170) =~= e);
    assert(l.subrange(170, 202) =~= f);
}

/// A handle binds every identity axis it carries: two receipts whose handles encode to the same
/// text agree on handle class, Script role, receipt hash, Script identity hash, and interface,
/// artifact, target profile and runtime ABI hashes.
pub proof fn lemma_handle_binds_identity(r1: ExactScriptHandleReceipt, h1: Seq<char>, r2: ExactScriptHandleReceipt, h2: Seq<char>)
    requires
        encode_outcome(r1, h1) is Ok,
        encode_outcome(r1, h1) == encode_outcome(r2, h2),
    ensures
        r1.class == r2.class,
        r1.script_role == r2.script_role,
        h1 == h2,
        script_identity_hash_outcome(r1.deployment.script) == script_identity_hash_outcome(r2.deployment.script),
        r1.interface_hash@ == r2.interface_hash@,
        r1.artifact_hash@ == r2.artifact_hash@,
        r1.target_profile_hash@ == r2.target_profile_hash@,
        r1.runtime_abi_hash@ == r2.runtime_abi_hash@,
{
    reveal_strlit("0x");
    let sh1 = script_identity_hash_outcome(r1.deployment.script)->Ok_0;
    let sh2 = script_identity_hash_outcome(r2.deployment.script)->Ok_0;
    let l1 = handle_layout(
        r1.class,
        r1.script_role,
        hex_decoded(h1),
        hex_decoded(sh1.skip(2)),
        hex_decoded(r1.interface_hash@),
        hex_decoded(r1.artifact_hash@),
        hex_decoded(r1.target_profile_hash@),
        hex_decoded(r1.runtime_abi_hash@),
    );
    let l2 = handle_layout(
        r2.class,
        r2.script_role,
        hex_decoded(h2),
        hex_decoded(sh2.skip(2)),
        hex_decoded(r2.interface_hash@),
        hex_decoded(r2.artifact_hash@),
        hex_decoded(r2.target_profile_hash@),
        hex_decoded(r2.runtime_abi_hash@),
    );
    let t = encode_outcome(r1, h1)->Ok_0;
    assert(t == "0x"@ + hex_lower(l1));
    assert(t == "0x"@ + hex_lower(l2));
    assert(hex_lower(l1) =~= t.skip(2));
    assert(hex_lower(l2) =~= t.skip(2));
    lemma_hex_roundtrip(l1);
    lemma_hex_roundtrip(l2);
    assert(l1 == l2);
    lemma_hex_decoded_len(h1);
    lemma_hex_decoded_len(h2);
    lemma_hex_decoded_len(sh1.skip(2));
    lemma_hex_decoded_len(sh2.skip(2));
    lemma_hex_decoded_len(r1.interface_hash@);
    lemma_hex_decoded_len(r2.interface_hash@);
    lemma_hex_decoded_len(r1.artifact_hash@);
    lemma_hex_decoded_len(r2.artifact_hash@);
    lemma_hex_decoded_len(r1.target_profile_hash@);
    lemma_hex_decoded_len(r2.target_profile_hash@);
    lemma_hex_decoded_len(r1.runtime_abi_hash@);
    lemma_hex_decoded_len(r2.runtime_abi_hash@);
    lemma_layout_fields(
        r1.class,
        r1.script_role,
        hex_decoded(h1),
        hex_decoded(sh1.skip(2)),
        hex_decoded(r1.interface_hash@),
        hex_decoded(r1.artifact_hash@),
        hex_decoded(r1.target_profile_hash@),
        hex_decoded(r1.runtime_abi_hash@),
    );
    lemma_layout_fields(
        r2.class,
        r2.script_role,
        hex_decoded(h2),
        hex_decoded(sh2.skip(2)),
        hex_decoded(r2.interface_hash@),
        hex_decoded(r2.artifact_hash@),
        hex_decoded(r2.target_profile_hash@),
        hex_decoded(r2.runtime_abi_hash@),
    );
    lemma_hex_decoded_injective(h1, h2);
    lemma_hex_decoded_injective(sh1.skip(2), sh2.skip(2));
    lemma_hex_decoded_injective(r1.interface_hash@, r2.interface_hash@);
    lemma_hex_decoded_injective(r1.artifact_hash@, r2.artifact_hash@);
    lemma_hex_decoded_injective(r1.target_profile_hash@, r2.target_profile_hash@);
    lemma_hex_decoded_injective(r1.runtime_abi_hash@, r2.runtime_abi_hash@);
    assert(sh1.take(2) =~= "0x"@ && sh2.take(2) =~= "0x"@);
    assert(sh1 =~= sh1.take(2) + sh1.skip(2));
    assert(sh2 =~= sh2.take(2) + sh2.skip(2));
}

/// The CKB Blake2b-256 commitment to the complete 202-byte value, which the on-chain
/// exact-handle helpers consume: substituting any part of the handle changes it.
pub fn exact_script_handle_value_hash(value: &ExactScriptHandleValue) -> (r: Result<String>)
    ensures
        text_outcome(r, value_hash_outcome(*value)),
{
    if !str_eq(value.schema.as_str(), EXACT_SCRIPT_HANDLE_VALUE_SCHEMA) || value.version != 1 || !str_eq(
        value.encoding.as_str(),
        EXACT_SCRIPT_HANDLE_ENCODING,
    ) {
        return Err(CompileError::without_span("unsupported exact Script handle value schema/version/encoding"));
    }
    proof {
        reveal_strlit("exact Script handle value");
    }
    let bytes = match canonical_hex_bytes(value.encoded.as_str(), "exact Script handle value") {
        Ok(b) => b,
        Err(e) => return Err(e),
    };
    if bytes.len() != EXACT_SCRIPT_HANDLE_BYTES {
        return Err(CompileError::without_span("exact Script handle value must contain exactly 202 bytes"));
    }
    let digest = ckb_blake2b256(bytes.as_slice());
    Ok(hex_encode(&digest))
}

/// The first check a receipt input fails, if any.
pub open spec fn receipt_input_error(input: ExactScriptHandleReceiptInput) -> Option<Seq<char>> {
    if let Some(m) = first_error(
        handle_name_error(input.package_coordinate@, "package coordinate"@),
        first_error(
            handle_name_error(input.lock_node_id@, "Cell.lock node identity"@),
            first_error(
                handle_name_error(input.entry.name@, "entry name"@),
                hash_fields_error(
                    input.interface_hash@,
                    input.typed_semantics_hash@,
                    input.artifact_hash@,
                    input.target_profile_hash@,
                    input.runtime_abi_hash@,
                    input.verified_bundle_id@,
                ),
            ),
        ),
    ) {
        Some(m)
    } else if input.deployment.artifact_hash@ != input.artifact_hash@ {
        Some("exact Script handle deployment artifact hash differs from the checked artifact"@)
    } else if policy_for_hash_type(input.deployment.script.hash_type@) == Some(
        ExactCodeIdentityPolicy::DataHashExactArtifact,
    ) && !code_hash_is_artifact(input.deployment.script.code_hash@, input.artifact_hash@) {
        Some("exact data-hash Script handle code hash differs from the checked artifact"@)
    } else if policy_for_hash_type(input.deployment.script.hash_type@) is None {
        Some("exact Script handle has unsupported Script hash type '"@ + input.deployment.script.hash_type@ + "'"@)
    } else {
        None
    }
}

/// `receipt` records `input` in the current receipt schema.
pub open spec fn receipt_records(receipt: ExactScriptHandleReceipt, input: ExactScriptHandleReceiptInput) -> bool {
    &&& receipt.schema@ == EXACT_SCRIPT_HANDLE_RECEIPT_SCHEMA@
    &&& receipt.version == 1
    &&& receipt.class == class_for_role(input.script_role)
    &&& receipt.script_role == input.script_role
    &&& receipt.package_coordinate@ == input.package_coordinate@
    &&& receipt.lock_node_id@ == input.lock_node_id@
    &&& receipt.entry == *input.entry
    &&& receipt.interface_hash@ == input.interface_hash@
    &&& receipt.typed_semantics_hash@ == input.typed_semantics_hash@
    &&& receipt.artifact_hash@ == input.artifact_hash@
    &&& receipt.target_profile_hash@ == input.target_profile_hash@
    &&& receipt.runtime_abi_hash@ == input.runtime_abi_hash@
    &&& receipt.verified_bundle_id@ == input.verified_bundle_id@
    &&& receipt.deployment == *input.deployment
    &&& Some(receipt.code_identity_policy) == policy_for_hash_type(input.deployment.script.hash_type@)
    &&& receipt.upgrade_policy == ExactUpgradePolicy::ExactArtifact
}

pub(crate) fn copy_entry(e: &ProtocolEntryIdentity) -> (r: ProtocolEntryIdentity)
    ensures
        r == *e,
{
    ProtocolEntryIdentity { kind: e.kind, name: e.name.clone() }
}

pub(crate) fn copy_script(s: &ProtocolScriptIdentity) -> (r: ProtocolScriptIdentity)
    ensures
        r == *s,
{
    ProtocolScriptIdentity { code_hash: s.code_hash.clone(), hash_type: s.hash_type.clone(), args: s.args.clone() }
}

pub(crate) fn copy_deployment(d: &ProtocolDeploymentIdentity) -> (r: ProtocolDeploymentIdentity)
    ensures
        r == *d,
{
    ProtocolDeploymentIdentity {
        network: crate::protocol_bundle::ProtocolNetworkIdentity {
            chain_id: d.network.chain_id.clone(),
            genesis_hash: d.network.genesis_hash.clone(),
        },
        artifact_hash: d.artifact_hash.clone(),
        script: copy_script(&d.script),
        code_cell_dep: crate::protocol_bundle::ProtocolCellDep {
            out_point: crate::protocol_bundle::ProtocolOutPoint {
                tx_hash: d.code_cell_dep.out_point.tx_hash.clone(),
                index: d.code_cell_dep.out_point.index,
            },
            dep_type: d.code_cell_dep.dep_type,
        },
    }
}

/// Checks a receipt input and records it as a receipt.
pub fn exact_script_handle_receipt(input: &ExactScriptHandleReceiptInput) -> (r: Result<ExactScriptHandleReceipt>)
    ensures
        match receipt_input_error(*input) {
            Some(m) => r matches Err(e) && e.message@ == m,
            None => r matches Ok(receipt) && receipt_records(receipt, *input),
        },
{
    proof {
        reveal_strlit("data");
        reveal_strlit("data1");
        reveal_strlit("data2");
        reveal_strlit("type");
    }
    if let Err(e) = validate_name(input.package_coordinate, "package coordinate") {
        return Err(e);
    }
    if let Err(e) = validate_name(input.lock_node_id, "Cell.lock node identity") {
        return Err(e);
    }
    if let Err(e) = validate_name(input.entry.name.as_str(), "entry name") {
        return Err(e);
    }
    if let Err(e) = validate_hash_fields(
        input.interface_hash,
        input.typed_semantics_hash,
        input.artifact_hash,
        input.target_profile_hash,
        input.runtime_abi_hash,
        input.verified_bundle_id,
    ) {
        return Err(e);
    }
    if !str_eq(input.deployment.artifact_hash.as_str(), input.artifact_hash) {
        return Err(
            CompileError::without_span("exact Script handle deployment artifact hash differs from the checked artifact"),
        );
    }
    let class = match input.script_role {
        ProtocolScriptRole::Lock | ProtocolScriptRole::Type => ExactHandleClass::Script,
        ProtocolScriptRole::SpawnedVerifier => ExactHandleClass::Verifier,
    };
    let t = input.deployment.script.hash_type.as_str();
    let code_identity_policy = if is_data_hash_type(t) {
        if !strip_0x_equals(input.deployment.script.code_hash.as_str(), input.artifact_hash) {
            return Err(
                CompileError::without_span("exact data-hash Script handle code hash differs from the checked artifact"),
            );
        }
        ExactCodeIdentityPolicy::DataHashExactArtifact
    } else if str_eq(t, "type") {
        ExactCodeIdentityPolicy::TypeHashExactCodeCell
    } else {
        return Err(
            CompileError::without_span(concat3("exact Script handle has unsupported Script hash type '", t, "'").as_str()),
        );
    };
    Ok(ExactScriptHandleReceipt {
        schema: EXACT_SCRIPT_HANDLE_RECEIPT_SCHEMA.to_owned(),
        version: 1,
        class,
        script_role: input.script_role,
        package_coordinate: input.package_coordinate.to_owned(),
        lock_node_id: input.lock_node_id.to_owned(),
        entry: copy_entry(input.entry),
        interface_hash: input.interface_hash.to_owned(),
        typed_semantics_hash: input.typed_semantics_hash.to_owned(),
        artifact_hash: input.artifact_hash.to_owned(),
        target_profile_hash: input.target_profile_hash.to_owned(),
        runtime_abi_hash: input.runtime_abi_hash.to_owned(),
        verified_bundle_id: input.verified_bundle_id.to_owned(),
        deployment: copy_deployment(input.deployment),
        code_identity_policy,
        upgrade_policy: ExactUpgradePolicy::ExactArtifact,
    })
}

/// Builds the receipt of an exact Script handle and the handle itself; `receipt_hash` computes
/// the canonical hash of the receipt.
pub fn build_exact_script_handle<H: Fn(&ExactScriptHandleReceipt) -> Result<String>>(
    input: ExactScriptHandleReceiptInput,
    receipt_hash: H,
) -> (r: Result<(ExactScriptHandleReceipt, ExactScriptHandleValue)>)
    requires
        forall|receipt: &ExactScriptHandleReceipt| call_requires(receipt_hash, (receipt,)),
    ensures
        match receipt_input_error(input) {
            Some(m) => r matches Err(e) && e.message@ == m,
            None => match r {
                Ok((receipt, value)) => receipt_records(receipt, input) && handle_from(
                    receipt,
                    receipt_hash,
                    Ok(value),
                ),
                Err(e) => exists|receipt: ExactScriptHandleReceipt|
                    receipt_records(receipt, input) && #[trigger] handle_from(receipt, receipt_hash, Err(e)),
            },
        },
{
    let receipt = match exact_script_handle_receipt(&input) {
        Ok(receipt) => receipt,
        Err(e) => return Err(e),
    };
    match exact_script_handle_value_from_receipt(&receipt, receipt_hash) {
        Ok(value) => Ok((receipt, value)),
        Err(e) => Err(e),
    }
}

/// `receipt_hash` gives one and the same outcome each time it hashes `receipt`.
pub open spec fn receipt_hash_fixed_on<H: Fn(&ExactScriptHandleReceipt) -> Result<String>>(
    receipt_hash: H,
    receipt: ExactScriptHandleReceipt,
) -> bool {
    forall|h1: Result<String>, h2: Result<String>|
        #![trigger call_ensures(receipt_hash, (&receipt,), h1), call_ensures(receipt_hash, (&receipt,), h2)]
        call_ensures(receipt_hash, (&receipt,), h1) && call_ensures(receipt_hash, (&receipt,), h2) ==> h1 == h2
}

/// Two values with the same schema, version, encoding and encoded text.
pub open spec fn same_handle_value(a: ExactScriptHandleValue, b: ExactScriptHandleValue) -> bool {
    a.schema@ == b.schema@ && a.version == b.version && a.encoding@ == b.encoding@ && a.encoded@ == b.encoded@
}

/// Rebuilding the handle of a receipt whose hash gives one outcome has one answer: two
/// rebuilds both succeed with the same value, or both fail.
pub proof fn lemma_handle_from_is_fixed<H: Fn(&ExactScriptHandleReceipt) -> Result<String>>(
    receipt: ExactScriptHandleReceipt,
    receipt_hash: H,
    r1: Result<ExactScriptHandleValue>,
    r2: Result<ExactScriptHandleValue>,
)
    requires
        handle_from(receipt, receipt_hash, r1),
        handle_from(receipt, receipt_hash, r2),
        receipt_hash_fixed_on(receipt_hash, receipt),
    ensures
        r1 is Ok <==> r2 is Ok,
        (r1, r2) matches (Ok(v1), Ok(v2)) ==> same_handle_value(v1, v2),
{
    if receipt_shape_error(receipt) is None {
        let h1 = choose|h: Result<String>|
            #![trigger call_ensures(receipt_hash, (&receipt,), h)]
            call_ensures(receipt_hash, (&receipt,), h) && match h {
                Err(he) => r1 == Err::<ExactScriptHandleValue, CompileError>(he),
                Ok(hs) => value_outcome(r1, encode_outcome(receipt, hs@)),
            };
        let h2 = choose|h: Result<String>|
            #![trigger call_ensures(receipt_hash, (&receipt,), h)]
            call_ensures(receipt_hash, (&receipt,), h) && match h {
                Err(he) => r2 == Err::<ExactScriptHandleValue, CompileError>(he),
                Ok(hs) => value_outcome(r2, encode_outcome(receipt, hs@)),
            };
        assert(h1 == h2);
    }
}

/// A value can be rebuilt from the receipt it was built with: when the receipt's hash gives one
/// outcome, rebuilding gives back a value with the same schema, version, encoding and text.
pub proof fn lemma_value_rebuilt_from_receipt<H: Fn(&ExactScriptHandleReceipt) -> Result<String>>(
    receipt: ExactScriptHandleReceipt,
    value: ExactScriptHandleValue,
    receipt_hash: H,
    r: Result<ExactScriptHandleValue>,
)
    requires
        handle_from(receipt, receipt_hash, Ok(value)),
        handle_from(receipt, receipt_hash, r),
        receipt_hash_fixed_on(receipt_hash, receipt),
    ensures
        r matches Ok(v) && same_handle_value(v, value),
{
    lemma_handle_from_is_fixed(receipt, receipt_hash, Ok(value), r);
}

/// A value that building a handle returned validates against the receipt returned with it: when
/// the receipt's hash gives one outcome, whatever validation reports is `Ok`.
pub proof fn lemma_built_handle_validates<H: Fn(&ExactScriptHandleReceipt) -> Result<String>>(
    receipt: ExactScriptHandleReceipt,
    value: ExactScriptHandleValue,
    receipt_hash: H,
    r: Result<()>,
)
    requires
        handle_from(receipt, receipt_hash, Ok(value)),
        receipt_hash_fixed_on(receipt_hash, receipt),
        exists|expected: Result<ExactScriptHandleValue>|
            #![trigger handle_from(receipt, receipt_hash, expected)]
            handle_from(receipt, receipt_hash, expected) && match expected {
                Err(e) => r == Err::<(), CompileError>(e),
                Ok(v) => if v.schema@ == value.schema@ && v.version == value.version && v.encoding@
                    == value.encoding@ && v.encoded@ == value.encoded@ {
                    r is Ok
                } else {
                    r matches Err(e) && e.message@
                        == "exact Script handle value does not match its interface/artifact/deployment receipt"@
                },
            },
    ensures
        r is Ok,
{
    let expected = choose|expected: Result<ExactScriptHandleValue>|
        #![trigger handle_from(receipt, receipt_hash, expected)]
        handle_from(receipt, receipt_hash, expected) && match expected {
            Err(e) => r == Err::<(), CompileError>(e),
            Ok(v) => if v.schema@ == value.schema@ && v.version == value.version && v.encoding@
                == value.encoding@ && v.encoded@ == value.encoded@ {
                r is Ok
            } else {
                r matches Err(e) && e.message@
                    == "exact Script handle value does not match its interface/artifact/deployment receipt"@
            },
        };
    lemma_handle_from_is_fixed(receipt, receipt_hash, Ok(value), expected);
}

} // verus!
