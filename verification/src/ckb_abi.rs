//! Numbers of the CKB VM interface: syscalls, sources and loadable fields.

use vstd::prelude::*;

verus! {

/// A compilation target and the runtime policy that comes with it.
#[derive(Debug, Clone, Copy, PartialEq, Eq, Structural)]
pub enum TargetProfile {
    Ckb,
}

/// Syscall `load_script`.
pub const SYSCALL_LOAD_SCRIPT: u64 = 2052;
/// Syscall `load_tx_hash`.
pub const SYSCALL_LOAD_TX_HASH: u64 = 2061;
/// Syscall `load_script_hash`.
pub const SYSCALL_LOAD_SCRIPT_HASH: u64 = 2062;
/// Syscall `load_cell`.
pub const SYSCALL_LOAD_CELL: u64 = 2071;
/// Syscall `load_header`.
pub const SYSCALL_LOAD_HEADER: u64 = 2072;
/// Syscall `load_input`.
pub const SYSCALL_LOAD_INPUT: u64 = 2073;
/// Syscall `load_witness`.
pub const SYSCALL_LOAD_WITNESS: u64 = 2074;
/// Syscall `load_cell_by_field`.
pub const SYSCALL_LOAD_CELL_BY_FIELD: u64 = 2081;
/// Syscall `load_header_by_field`.
pub const SYSCALL_LOAD_HEADER_BY_FIELD: u64 = 2082;
/// Syscall `load_input_by_field`.
pub const SYSCALL_LOAD_INPUT_BY_FIELD: u64 = 2083;
/// Syscall `load_cell_data`.
pub const SYSCALL_LOAD_CELL_DATA: u64 = 2092;
/// Syscall `current_cycles`.
pub const SYSCALL_CURRENT_CYCLES: u64 = 2042;
/// Syscall `debug`.
pub const SYSCALL_DEBUG: u64 = 2177;

/// Source `HeaderDep`.
pub const SOURCE_HEADER_DEP: u64 = 4;
/// Source `GroupInput`: the group flag over `Input`.
pub const SOURCE_GROUP_INPUT: u64 = 0x0100000000000001;

/// Header field: epoch number.
pub const HEADER_FIELD_EPOCH_NUMBER: u64 = 0;
/// Header field: block number at which the epoch started.
pub const HEADER_FIELD_EPOCH_START_BLOCK_NUMBER: u64 = 1;
/// Header field: epoch length.
pub const HEADER_FIELD_EPOCH_LENGTH: u64 = 2;

/// Input field: `since`.
pub const INPUT_FIELD_SINCE: u64 = 1;

} // verus!
