//! The fixed layout of an exact Script handle.

use vstd::prelude::*;

verus! {

pub const EXACT_SCRIPT_HANDLE_TYPE: &'static str = "ExactScriptHandle";
pub const EXACT_SCRIPT_HANDLE_ENCODING: &'static str = "CSHDLv1-fixed-202";
pub const EXACT_SCRIPT_HANDLE_BYTES: usize = 202;

pub const EXACT_SCRIPT_HANDLE_CLASS_OFFSET: usize = 8;
pub const EXACT_SCRIPT_HANDLE_ROLE_OFFSET: usize = 9;
pub const EXACT_SCRIPT_HANDLE_RECEIPT_HASH_OFFSET: usize = 10;
pub const EXACT_SCRIPT_HANDLE_SCRIPT_HASH_OFFSET: usize = 42;
pub const EXACT_SCRIPT_HANDLE_INTERFACE_HASH_OFFSET: usize = 74;
pub const EXACT_SCRIPT_HANDLE_ARTIFACT_HASH_OFFSET: usize = 106;
pub const EXACT_SCRIPT_HANDLE_TARGET_PROFILE_HASH_OFFSET: usize = 138;
pub const EXACT_SCRIPT_HANDLE_RUNTIME_ABI_HASH_OFFSET: usize = 170;

pub const EXACT_SCRIPT_HANDLE_HASH_BYTES: usize = 32;
pub const EXACT_SCRIPT_HANDLE_CLASS_SCRIPT: u8 = 0;
pub const EXACT_SCRIPT_HANDLE_CLASS_VERIFIER: u8 = 1;
pub const EXACT_SCRIPT_HANDLE_ROLE_LOCK: u8 = 0;
pub const EXACT_SCRIPT_HANDLE_ROLE_TYPE: u8 = 1;
pub const EXACT_SCRIPT_HANDLE_ROLE_SPAWNED_VERIFIER: u8 = 2;

/// The eight magic bytes a handle starts with: `CSHDLv1` and a zero byte.
pub open spec fn exact_script_handle_magic() -> Seq<u8> {
    seq![0x43u8, 0x53u8, 0x48u8, 0x44u8, 0x4cu8, 0x76u8, 0x31u8, 0x00u8]
}

} // verus!
