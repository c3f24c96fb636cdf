//! CKB's default hash: BLAKE2b with a 32-byte digest and the `ckb-default-hash` personalization.
//!
//! The digest is computed by `blake2b-ref`, the pure-Rust reference BLAKE2b implementation, set
//! to CKB's personalization; this crate holds no hashing code of its own.

use vstd::prelude::*;

verus! {

/// The CKB default hash of `data`.
pub uninterp spec fn ckb_blake2b256_digest(data: Seq<u8>) -> Seq<u8>;

/// Hashes `data` with `blake2b_ref::Blake2bBuilder` set to a 32-byte digest and the
/// `ckb-default-hash` personalization, then `update` and `finalize`. The contract names the
/// digest and claims only that it depends on the bytes of `data` alone.
#[verifier::external_body]
pub(crate) fn ckb_blake2b256(data: &[u8]) -> (r: [u8; 32])
    ensures
        r@ == ckb_blake2b256_digest(data@),
{
    let mut digest = [0u8; 32];
    let mut hasher = blake2b_ref::Blake2bBuilder::new(32).personal(b"ckb-default-hash").build();
    hasher.update(data);
    hasher.finalize(&mut digest);
    digest
}

} // verus!
