//! The standard library: the functions a CellScript program may call, their RISC-V assembly,
//! and the scheduler metadata record.

pub mod collections;
pub mod routine;
pub mod scheduler;

pub use scheduler::{SchedulerAccess, SchedulerMetadata};

use crate::ckb_abi::{
    TargetProfile, HEADER_FIELD_EPOCH_LENGTH, HEADER_FIELD_EPOCH_NUMBER, HEADER_FIELD_EPOCH_START_BLOCK_NUMBER,
    INPUT_FIELD_SINCE, SOURCE_GROUP_INPUT, SOURCE_HEADER_DEP, SYSCALL_CURRENT_CYCLES, SYSCALL_DEBUG,
    SYSCALL_LOAD_CELL, SYSCALL_LOAD_CELL_BY_FIELD, SYSCALL_LOAD_CELL_DATA, SYSCALL_LOAD_HEADER,
    SYSCALL_LOAD_HEADER_BY_FIELD, SYSCALL_LOAD_INPUT, SYSCALL_LOAD_INPUT_BY_FIELD, SYSCALL_LOAD_SCRIPT,
    SYSCALL_LOAD_SCRIPT_HASH, SYSCALL_LOAD_TX_HASH, SYSCALL_LOAD_WITNESS,
};
use crate::ir::IrType;
use crate::runtime_errors::CellScriptRuntimeError;
use crate::text::{decimal, push_decimal, str_eq};
use vstd::prelude::*;
use vstd::string::StringExecFns;

verus! {

/// The standard library.
pub struct StdLib;

/// The signature of one standard-library function.
#[derive(Debug)]
pub struct StdFunction {
    pub name: String,
    pub params: Vec<(String, IrType)>,
    pub return_type: Option<IrType>,
}

/// How many entries the standard library table holds.
pub const STD_FUNCTION_COUNT: usize = 109;

/// The name at position `i` of the standard library table.
pub open spec fn std_function_name(i: int) -> Seq<char> {
    if i == 0 {
        "syscall_load_tx_hash"@
    } else if i == 1 {
        "syscall_load_script_hash"@
    } else if i == 2 {
        "syscall_load_cell"@
    } else if i == 3 {
        "syscall_load_header"@
    } else if i == 4 {
        "syscall_load_input"@
    } else if i == 5 {
        "syscall_load_script"@
    } else if i == 6 {
        "syscall_load_cell_by_field"@
    } else if i == 7 {
        "syscall_load_cell_data"@
    } else if i == 8 {
        "syscall_load_witness"@
    } else if i == 9 {
        "syscall_current_cycles"@
    } else if i == 10 {
        "syscall_debug_print"@
    } else if i == 11 {
        "math_min"@
    } else if i == 12 {
        "math_max"@
    } else if i == 13 {
        "math_isqrt"@
    } else if i == 14 {
        "math_abs_diff"@
    } else if i == 15 {
        "c256_require_product_lte"@
    } else if i == 16 {
        "c256_require_product_eq"@
    } else if i == 17 {
        "c256_require_sum2_products_lte"@
    } else if i == 18 {
        "c256_require_sum2_products_eq"@
    } else if i == 19 {
        "env_current_timepoint"@
    } else if i == 20 {
        "ckb_header_epoch_number"@
    } else if i == 21 {
        "ckb_header_epoch_start_block_number"@
    } else if i == 22 {
        "ckb_header_epoch_length"@
    } else if i == 23 {
        "ckb_input_since"@
    } else if i == 24 {
        "ckb_since_epoch_absolute"@
    } else if i == 25 {
        "ckb_since_epoch_relative"@
    } else if i == 26 {
        "ckb_since_absolute_epoch"@
    } else if i == 27 {
        "ckb_since_relative_epoch"@
    } else if i == 28 {
        "ckb_since_absolute_block"@
    } else if i == 29 {
        "ckb_since_relative_block"@
    } else if i == 30 {
        "ckb_since_absolute_timestamp"@
    } else if i == 31 {
        "ckb_since_relative_timestamp"@
    } else if i == 32 {
        "ckb_since_decode"@
    } else if i == 33 {
        "ckb_since_from_raw_checked"@
    } else if i == 34 {
        "ckb_since_as_absolute_block"@
    } else if i == 35 {
        "ckb_since_as_relative_block"@
    } else if i == 36 {
        "ckb_since_as_absolute_epoch"@
    } else if i == 37 {
        "ckb_since_as_relative_epoch"@
    } else if i == 38 {
        "ckb_since_as_absolute_timestamp"@
    } else if i == 39 {
        "ckb_since_as_relative_timestamp"@
    } else if i == 40 {
        "ckb_since_is_relative"@
    } else if i == 41 {
        "ckb_since_is_disabled"@
    } else if i == 42 {
        "ckb_since_metric"@
    } else if i == 43 {
        "ckb_since_value"@
    } else if i == 44 {
        "ckb_epoch_duration"@
    } else if i == 45 {
        "ckb_epoch_add"@
    } else if i == 46 {
        "ckb_epoch_sub"@
    } else if i == 47 {
        "ckb_epoch_duration_to_u64"@
    } else if i == 48 {
        "ckb_timestamp_millis_to_u64"@
    } else if i == 49 {
        "ckb_current_role"@
    } else if i == 50 {
        "ckb_cell_capacity"@
    } else if i == 51 {
        "ckb_cell_occupied_capacity"@
    } else if i == 52 {
        "ckb_cell_unoccupied_capacity"@
    } else if i == 53 {
        "ckb_cell_data_u64_le"@
    } else if i == 54 {
        "ckb_cell_data_u32_le"@
    } else if i == 55 {
        "ckb_current_script_hash"@
    } else if i == 56 {
        "ckb_cell_lock_hash_low"@
    } else if i == 57 {
        "ckb_cell_type_hash_low"@
    } else if i == 58 {
        "ckb_cell_lock_hash"@
    } else if i == 59 {
        "ckb_cell_type_hash"@
    } else if i == 60 {
        "ckb_cell_lock_code_hash"@
    } else if i == 61 {
        "ckb_cell_type_code_hash"@
    } else if i == 62 {
        "ckb_cell_lock_hash_type"@
    } else if i == 63 {
        "ckb_cell_type_hash_type"@
    } else if i == 64 {
        "ckb_cell_lock_args_empty"@
    } else if i == 65 {
        "ckb_cell_type_args_empty"@
    } else if i == 66 {
        "ckb_cell_lock_args_hash"@
    } else if i == 67 {
        "ckb_cell_type_args_hash"@
    } else if i == 68 {
        "ckb_input_out_point_index"@
    } else if i == 69 {
        "ckb_input_out_point_tx_hash_low"@
    } else if i == 70 {
        "ckb_input_out_point_tx_hash"@
    } else if i == 71 {
        "ckb_require_cell_lock_hash"@
    } else if i == 72 {
        "ckb_require_cell_type_hash"@
    } else if i == 73 {
        "ckb_require_current_script_args_empty"@
    } else if i == 74 {
        "ckb_require_cell_lock_args_empty"@
    } else if i == 75 {
        "ckb_require_cell_type_args_empty"@
    } else if i == 76 {
        "ckb_require_cell_lock_args_hash"@
    } else if i == 77 {
        "ckb_require_cell_type_args_hash"@
    } else if i == 78 {
        "ckb_require_cell_lock_args_prefix_hash"@
    } else if i == 79 {
        "ckb_require_cell_type_args_prefix_hash"@
    } else if i == 80 {
        "ckb_require_cell_lock_args_suffix_hash"@
    } else if i == 81 {
        "ckb_require_cell_type_args_suffix_hash"@
    } else if i == 82 {
        "ckb_require_cell_lock_script_hash_type"@
    } else if i == 83 {
        "ckb_require_cell_type_script_hash_type"@
    } else if i == 84 {
        "ckb_require_input_out_point_tx_hash"@
    } else if i == 85 {
        "ckb_require_input_out_point"@
    } else if i == 86 {
        "ckb_require_metapoint_relative"@
    } else if i == 87 {
        "ckb_require_lock_type_metapoint_pairs"@
    } else if i == 88 {
        "ckb_require_type_lock_metapoint_pairs"@
    } else if i == 89 {
        "ckb_require_lock_type_metapoint_pairs_from_i32_data"@
    } else if i == 90 {
        "ckb_require_type_lock_metapoint_pairs_from_i32_data"@
    } else if i == 91 {
        "ckb_require_lock_type_metapoint_pairs_from_i32_data_filtered"@
    } else if i == 92 {
        "ckb_require_type_lock_metapoint_pairs_from_i32_data_filtered"@
    } else if i == 93 {
        "ckb_require_lock_match_master_out_point_pairs_from_data"@
    } else if i == 94 {
        "dao_accumulated_rate"@
    } else if i == 95 {
        "dao_input_accumulated_rate"@
    } else if i == 96 {
        "dao_has_dao_type"@
    } else if i == 97 {
        "dao_is_deposit_data"@
    } else if i == 98 {
        "dao_is_withdrawal_request_data"@
    } else if i == 99 {
        "dao_require_header_dep_for_input"@
    } else if i == 100 {
        "dao_require_input_since_at_least"@
    } else if i == 101 {
        "dao_require_input_relative_epoch_since_at_least"@
    } else if i == 102 {
        "xudt_amount_low"@
    } else if i == 103 {
        "xudt_require_owner_mode_type_args"@
    } else if i == 104 {
        "xudt_require_owner_mode_type_args_current_script"@
    } else if i == 105 {
        "xudt_require_group_amount_conserved"@
    } else if i == 106 {
        "xudt_require_group_amount_minted"@
    } else if i == 107 {
        "xudt_require_group_amount_burned"@
    } else if i == 108 {
        "env_remaining_cycles"@
    } else {
        Seq::empty()
    }
}

/// The parameters and result type at position `i` of the standard library table.
pub open spec fn std_function_signature(i: int, f: StdFunction) -> bool {
    if i == 0 {
        f.params@.len() == 0 && (f.return_type matches Some(x1) && (x1 is Hash))
    } else if i == 1 {
        f.params@.len() == 0 && (f.return_type matches Some(x2) && (x2 is Hash))
    } else if i == 2 {
        f.params@.len() == 3 && f.params@[0].0@ == "index"@ && (f.params@[0].1 is U64) && f.params@[1].0@ == "source"@ && (f.params@[1].1 is U64) && f.params@[2].0@ == "field"@ && (f.params@[2].1 is U64) && (f.return_type matches Some(x3) && (x3 is U64))
    } else if i == 3 {
        f.params@.len() == 5 && f.params@[0].0@ == "buffer"@ && (f.params@[0].1 is U64) && f.params@[1].0@ == "size"@ && (f.params@[1].1 is U64) && f.params@[2].0@ == "offset"@ && (f.params@[2].1 is U64) && f.params@[3].0@ == "index"@ && (f.params@[3].1 is U64) && f.params@[4].0@ == "source"@ && (f.params@[4].1 is U64) && (f.return_type matches Some(x4) && (x4 is U64))
    } else if i == 4 {
        f.params@.len() == 3 && f.params@[0].0@ == "index"@ && (f.params@[0].1 is U64) && f.params@[1].0@ == "source"@ && (f.params@[1].1 is U64) && f.params@[2].0@ == "field"@ && (f.params@[2].1 is U64) && (f.return_type matches Some(x5) && (x5 is U64))
    } else if i == 5 {
        f.params@.len() == 3 && f.params@[0].0@ == "buffer"@ && (f.params@[0].1 is U64) && f.params@[1].0@ == "size"@ && (f.params@[1].1 is U64) && f.params@[2].0@ == "offset"@ && (f.params@[2].1 is U64) && (f.return_type matches Some(x6) && (x6 is U64))
    } else if i == 6 {
        f.params@.len() == 6 && f.params@[0].0@ == "buffer"@ && (f.params@[0].1 is U64) && f.params@[1].0@ == "size"@ && (f.params@[1].1 is U64) && f.params@[2].0@ == "offset"@ && (f.params@[2].1 is U64) && f.params@[3].0@ == "index"@ && (f.params@[3].1 is U64) && f.params@[4].0@ == "source"@ && (f.params@[4].1 is U64) && f.params@[5].0@ == "field"@ && (f.params@[5].1 is U64) && (f.return_type matches Some(x7) && (x7 is U64))
    } else if i == 7 {
        f.params@.len() == 5 && f.params@[0].0@ == "buffer"@ && (f.params@[0].1 is U64) && f.params@[1].0@ == "size"@ && (f.params@[1].1 is U64) && f.params@[2].0@ == "offset"@ && (f.params@[2].1 is U64) && f.params@[3].0@ == "index"@ && (f.params@[3].1 is U64) && f.params@[4].0@ == "source"@ && (f.params@[4].1 is U64) && (f.return_type matches Some(x8) && (x8 is U64))
    } else if i == 8 {
        f.params@.len() == 2 && f.params@[0].0@ == "index"@ && (f.params@[0].1 is U64) && f.params@[1].0@ == "source"@ && (f.params@[1].1 is U64) && (f.return_type matches Some(x9) && (x9 is U64))
    } else if i == 9 {
        f.params@.len() == 0 && (f.return_type matches Some(x10) && (x10 is U64))
    } else if i == 10 {
        f.params@.len() == 1 && f.params@[0].0@ == "msg"@ && (f.params@[0].1 matches IrType::Array(x11, x12) && x12 == 0 && (*x11 is U8)) && f.return_type is None
    } else if i == 11 {
        f.params@.len() == 2 && f.params@[0].0@ == "a"@ && (f.params@[0].1 is U64) && f.params@[1].0@ == "b"@ && (f.params@[1].1 is U64) && (f.return_type matches Some(x13) && (x13 is U64))
    } else if i == 12 {
        f.params@.len() == 2 && f.params@[0].0@ == "a"@ && (f.params@[0].1 is U64) && f.params@[1].0@ == "b"@ && (f.params@[1].1 is U64) && (f.return_type matches Some(x14) && (x14 is U64))
    } else if i == 13 {
        f.params@.len() == 1 && f.params@[0].0@ == "n"@ && (f.params@[0].1 is U64) && (f.return_type matches Some(x15) && (x15 is U64))
    } else if i == 14 {
        f.params@.len() == 2 && f.params@[0].0@ == "a"@ && (f.params@[0].1 is U64) && f.params@[1].0@ == "b"@ && (f.params@[1].1 is U64) && (f.return_type matches Some(x16) && (x16 is U64))
    } else if i == 15 {
        f.params@.len() == 4 && f.params@[0].0@ == "left_amount"@ && (f.params@[0].1 is U128) && f.params@[1].0@ == "left_multiplier"@ && (f.params@[1].1 is U128) && f.params@[2].0@ == "right_amount"@ && (f.params@[2].1 is U128) && f.params@[3].0@ == "right_multiplier"@ && (f.params@[3].1 is U128) && f.return_type is None
    } else if i == 16 {
        f.params@.len() == 4 && f.params@[0].0@ == "left_amount"@ && (f.params@[0].1 is U128) && f.params@[1].0@ == "left_multiplier"@ && (f.params@[1].1 is U128) && f.params@[2].0@ == "right_amount"@ && (f.params@[2].1 is U128) && f.params@[3].0@ == "right_multiplier"@ && (f.params@[3].1 is U128) && f.return_type is None
    } else if i == 17 {
        f.params@.len() == 8 && f.params@[0].0@ == "left_amount_a"@ && (f.params@[0].1 is U128) && f.params@[1].0@ == "left_multiplier_a"@ && (f.params@[1].1 is U128) && f.params@[2].0@ == "left_amount_b"@ && (f.params@[2].1 is U128) && f.params@[3].0@ == "left_multiplier_b"@ && (f.params@[3].1 is U128) && f.params@[4].0@ == "right_amount_a"@ && (f.params@[4].1 is U128) && f.params@[5].0@ == "right_multiplier_a"@ && (f.params@[5].1 is U128) && f.params@[6].0@ == "right_amount_b"@ && (f.params@[6].1 is U128) && f.params@[7].0@ == "right_multiplier_b"@ && (f.params@[7].1 is U128) && f.return_type is None
    } else if i == 18 {
        f.params@.len() == 8 && f.params@[0].0@ == "left_amount_a"@ && (f.params@[0].1 is U128) && f.params@[1].0@ == "left_multiplier_a"@ && (f.params@[1].1 is U128) && f.params@[2].0@ == "left_amount_b"@ && (f.params@[2].1 is U128) && f.params@[3].0@ == "left_multiplier_b"@ && (f.params@[3].1 is U128) && f.params@[4].0@ == "right_amount_a"@ && (f.params@[4].1 is U128) && f.params@[5].0@ == "right_multiplier_a"@ && (f.params@[5].1 is U128) && f.params@[6].0@ == "right_amount_b"@ && (f.params@[6].1 is U128) && f.params@[7].0@ == "right_multiplier_b"@ && (f.params@[7].1 is U128) && f.return_type is None
    } else if i == 19 {
        f.params@.len() == 0 && (f.return_type matches Some(x17) && (x17 is U64))
    } else if i == 20 {
        f.params@.len() == 0 && (f.return_type matches Some(x18) && (x18 is U64))
    } else if i == 21 {
        f.params@.len() == 0 && (f.return_type matches Some(x19) && (x19 is U64))
    } else if i == 22 {
        f.params@.len() == 0 && (f.return_type matches Some(x20) && (x20 is U64))
    } else if i == 23 {
        f.params@.len() == 0 && (f.return_type matches Some(x21) && (x21 is U64))
    } else if i == 24 {
        f.params@.len() == 3 && f.params@[0].0@ == "number"@ && (f.params@[0].1 is U64) && f.params@[1].0@ == "index"@ && (f.params@[1].1 is U64) && f.params@[2].0@ == "length"@ && (f.params@[2].1 is U64) && (f.return_type matches Some(x22) && (x22 is U64))
    } else if i == 25 {
        f.params@.len() == 3 && f.params@[0].0@ == "number"@ && (f.params@[0].1 is U64) && f.params@[1].0@ == "index"@ && (f.params@[1].1 is U64) && f.params@[2].0@ == "length"@ && (f.params@[2].1 is U64) && (f.return_type matches Some(x23) && (x23 is U64))
    } else if i == 26 {
        f.params@.len() == 3 && f.params@[0].0@ == "number"@ && (f.params@[0].1 is U64) && f.params@[1].0@ == "index"@ && (f.params@[1].1 is U64) && f.params@[2].0@ == "length"@ && (f.params@[2].1 is U64) && (f.return_type matches Some(x24) && (x24 matches IrType::Named(x25) && x25@ == "AbsoluteEpochSince"@))
    } else if i == 27 {
        f.params@.len() == 3 && f.params@[0].0@ == "number"@ && (f.params@[0].1 is U64) && f.params@[1].0@ == "index"@ && (f.params@[1].1 is U64) && f.params@[2].0@ == "length"@ && (f.params@[2].1 is U64) && (f.return_type matches Some(x26) && (x26 matches IrType::Named(x27) && x27@ == "RelativeEpochSince"@))
    } else if i == 28 {
        f.params@.len() == 1 && f.params@[0].0@ == "value"@ && (f.params@[0].1 is U64) && (f.return_type matches Some(x28) && (x28 matches IrType::Named(x29) && x29@ == "AbsoluteBlockSince"@))
    } else if i == 29 {
        f.params@.len() == 1 && f.params@[0].0@ == "value"@ && (f.params@[0].1 is U64) && (f.return_type matches Some(x30) && (x30 matches IrType::Named(x31) && x31@ == "RelativeBlockSince"@))
    } else if i == 30 {
        f.params@.len() == 1 && f.params@[0].0@ == "seconds"@ && (f.params@[0].1 is U64) && (f.return_type matches Some(x32) && (x32 matches IrType::Named(x33) && x33@ == "AbsoluteTimestampSince"@))
    } else if i == 31 {
        f.params@.len() == 1 && f.params@[0].0@ == "seconds"@ && (f.params@[0].1 is U64) && (f.return_type matches Some(x34) && (x34 matches IrType::Named(x35) && x35@ == "RelativeTimestampSince"@))
    } else if i == 32 {
        f.params@.len() == 1 && f.params@[0].0@ == "encoded"@ && (f.params@[0].1 matches IrType::Named(x36) && x36@ == "EncodedSince"@) && (f.return_type matches Some(x37) && (x37 matches IrType::Named(x38) && x38@ == "DecodedSince"@))
    } else if i == 33 {
        f.params@.len() == 1 && f.params@[0].0@ == "raw"@ && (f.params@[0].1 is U64) && (f.return_type matches Some(x39) && (x39 matches IrType::Named(x40) && x40@ == "DecodedSince"@))
    } else if i == 34 {
        f.params@.len() == 1 && f.params@[0].0@ == "decoded"@ && (f.params@[0].1 matches IrType::Named(x41) && x41@ == "DecodedSince"@) && (f.return_type matches Some(x42) && (x42 matches IrType::Named(x43) && x43@ == "AbsoluteBlockSince"@))
    } else if i == 35 {
        f.params@.len() == 1 && f.params@[0].0@ == "decoded"@ && (f.params@[0].1 matches IrType::Named(x44) && x44@ == "DecodedSince"@) && (f.return_type matches Some(x45) && (x45 matches IrType::Named(x46) && x46@ == "RelativeBlockSince"@))
    } else if i == 36 {
        f.params@.len() == 1 && f.params@[0].0@ == "decoded"@ && (f.params@[0].1 matches IrType::Named(x47) && x47@ == "DecodedSince"@) && (f.return_type matches Some(x48) && (x48 matches IrType::Named(x49) && x49@ == "AbsoluteEpochSince"@))
    } else if i == 37 {
        f.params@.len() == 1 && f.params@[0].0@ == "decoded"@ && (f.params@[0].1 matches IrType::Named(x50) && x50@ == "DecodedSince"@) && (f.return_type matches Some(x51) && (x51 matches IrType::Named(x52) && x52@ == "RelativeEpochSince"@))
    } else if i == 38 {
        f.params@.len() == 1 && f.params@[0].0@ == "decoded"@ && (f.params@[0].1 matches IrType::Named(x53) && x53@ == "DecodedSince"@) && (f.return_type matches Some(x54) && (x54 matches IrType::Named(x55) && x55@ == "AbsoluteTimestampSince"@))
    } else if i == 39 {
        f.params@.len() == 1 && f.params@[0].0@ == "decoded"@ && (f.params@[0].1 matches IrType::Named(x56) && x56@ == "DecodedSince"@) && (f.return_type matches Some(x57) && (x57 matches IrType::Named(x58) && x58@ == "RelativeTimestampSince"@))
    } else if i == 40 {
        f.params@.len() == 1 && f.params@[0].0@ == "decoded"@ && (f.params@[0].1 matches IrType::Named(x59) && x59@ == "DecodedSince"@) && (f.return_type matches Some(x60) && (x60 is Bool))
    } else if i == 41 {
        f.params@.len() == 1 && f.params@[0].0@ == "decoded"@ && (f.params@[0].1 matches IrType::Named(x61) && x61@ == "DecodedSince"@) && (f.return_type matches Some(x62) && (x62 is Bool))
    } else if i == 42 {
        f.params@.len() == 1 && f.params@[0].0@ == "decoded"@ && (f.params@[0].1 matches IrType::Named(x63) && x63@ == "DecodedSince"@) && (f.return_type matches Some(x64) && (x64 is U64))
    } else if i == 43 {
        f.params@.len() == 1 && f.params@[0].0@ == "decoded"@ && (f.params@[0].1 matches IrType::Named(x65) && x65@ == "DecodedSince"@) && (f.return_type matches Some(x66) && (x66 is U64))
    } else if i == 44 {
        f.params@.len() == 1 && f.params@[0].0@ == "value"@ && (f.params@[0].1 is U64) && (f.return_type matches Some(x67) && (x67 matches IrType::Named(x68) && x68@ == "EpochDuration"@))
    } else if i == 45 {
        f.params@.len() == 2 && f.params@[0].0@ == "epoch"@ && (f.params@[0].1 matches IrType::Named(x69) && x69@ == "EpochNumber"@) && f.params@[1].0@ == "duration"@ && (f.params@[1].1 matches IrType::Named(x70) && x70@ == "EpochDuration"@) && (f.return_type matches Some(x71) && (x71 matches IrType::Named(x72) && x72@ == "EpochNumber"@))
    } else if i == 46 {
        f.params@.len() == 2 && f.params@[0].0@ == "epoch"@ && (f.params@[0].1 matches IrType::Named(x73) && x73@ == "EpochNumber"@) && f.params@[1].0@ == "duration"@ && (f.params@[1].1 matches IrType::Named(x74) && x74@ == "EpochDuration"@) && (f.return_type matches Some(x75) && (x75 matches IrType::Named(x76) && x76@ == "EpochNumber"@))
    } else if i == 47 {
        f.params@.len() == 1 && f.params@[0].0@ == "duration"@ && (f.params@[0].1 matches IrType::Named(x77) && x77@ == "EpochDuration"@) && (f.return_type matches Some(x78) && (x78 is U64))
    } else if i == 48 {
        f.params@.len() == 1 && f.params@[0].0@ == "timestamp"@ && (f.params@[0].1 matches IrType::Named(x79) && x79@ == "TimestampMillis"@) && (f.return_type matches Some(x80) && (x80 is U64))
    } else if i == 49 {
        f.params@.len() == 0 && (f.return_type matches Some(x81) && (x81 is U64))
    } else if i == 50 {
        f.params@.len() == 1 && f.params@[0].0@ == "source_view"@ && (f.params@[0].1 is U64) && (f.return_type matches Some(x82) && (x82 is U64))
    } else if i == 51 {
        f.params@.len() == 1 && f.params@[0].0@ == "source_view"@ && (f.params@[0].1 is U64) && (f.return_type matches Some(x83) && (x83 is U64))
    } else if i == 52 {
        f.params@.len() == 1 && f.params@[0].0@ == "source_view"@ && (f.params@[0].1 is U64) && (f.return_type matches Some(x84) && (x84 is U64))
    } else if i == 53 {
        f.params@.len() == 2 && f.params@[0].0@ == "source_view"@ && (f.params@[0].1 is U64) && f.params@[1].0@ == "offset"@ && (f.params@[1].1 is U64) && (f.return_type matches Some(x85) && (x85 is U64))
    } else if i == 54 {
        f.params@.len() == 2 && f.params@[0].0@ == "source_view"@ && (f.params@[0].1 is U64) && f.params@[1].0@ == "offset"@ && (f.params@[1].1 is U64) && (f.return_type matches Some(x86) && (x86 is U64))
    } else if i == 55 {
        f.params@.len() == 0 && (f.return_type matches Some(x87) && (x87 is Hash))
    } else if i == 56 {
        f.params@.len() == 1 && f.params@[0].0@ == "source_view"@ && (f.params@[0].1 is U64) && (f.return_type matches Some(x88) && (x88 is U64))
    } else if i == 57 {
        f.params@.len() == 1 && f.params@[0].0@ == "source_view"@ && (f.params@[0].1 is U64) && (f.return_type matches Some(x89) && (x89 is U64))
    } else if i == 58 {
        f.params@.len() == 1 && f.params@[0].0@ == "source_view"@ && (f.params@[0].1 is U64) && (f.return_type matches Some(x90) && (x90 is Hash))
    } else if i == 59 {
        f.params@.len() == 1 && f.params@[0].0@ == "source_view"@ && (f.params@[0].1 is U64) && (f.return_type matches Some(x91) && (x91 is Hash))
    } else if i == 60 {
        f.params@.len() == 1 && f.params@[0].0@ == "source_view"@ && (f.params@[0].1 is U64) && (f.return_type matches Some(x92) && (x92 is Hash))
    } else if i == 61 {
        f.params@.len() == 1 && f.params@[0].0@ == "source_view"@ && (f.params@[0].1 is U64) && (f.return_type matches Some(x93) && (x93 is Hash))
    } else if i == 62 {
        f.params@.len() == 1 && f.params@[0].0@ == "source_view"@ && (f.params@[0].1 is U64) && (f.return_type matches Some(x94) && (x94 is U64))
    } else if i == 63 {
        f.params@.len() == 1 && f.params@[0].0@ == "source_view"@ && (f.params@[0].1 is U64) && (f.return_type matches Some(x95) && (x95 is U64))
    } else if i == 64 {
        f.params@.len() == 1 && f.params@[0].0@ == "source_view"@ && (f.params@[0].1 is U64) && (f.return_type matches Some(x96) && (x96 is Bool))
    } else if i == 65 {
        f.params@.len() == 1 && f.params@[0].0@ == "source_view"@ && (f.params@[0].1 is U64) && (f.return_type matches Some(x97) && (x97 is Bool))
    } else if i == 66 {
        f.params@.len() == 1 && f.params@[0].0@ == "source_view"@ && (f.params@[0].1 is U64) && (f.return_type matches Some(x98) && (x98 is Hash))
    } else if i == 67 {
        f.params@.len() == 1 && f.params@[0].0@ == "source_view"@ && (f.params@[0].1 is U64) && (f.return_type matches Some(x99) && (x99 is Hash))
    } else if i == 68 {
        f.params@.len() == 1 && f.params@[0].0@ == "source_view"@ && (f.params@[0].1 is U64) && (f.return_type matches Some(x100) && (x100 is U64))
    } else if i == 69 {
        f.params@.len() == 1 && f.params@[0].0@ == "source_view"@ && (f.params@[0].1 is U64) && (f.return_type matches Some(x101) && (x101 is U64))
    } else if i == 70 {
        f.params@.len() == 1 && f.params@[0].0@ == "source_view"@ && (f.params@[0].1 is U64) && (f.return_type matches Some(x102) && (x102 is Hash))
    } else if i == 71 {
        f.params@.len() == 2 && f.params@[0].0@ == "source_view"@ && (f.params@[0].1 is U64) && f.params@[1].0@ == "expected_hash"@ && (f.params@[1].1 is Hash) && f.return_type is None
    } else if i == 72 {
        f.params@.len() == 2 && f.params@[0].0@ == "source_view"@ && (f.params@[0].1 is U64) && f.params@[1].0@ == "expected_hash"@ && (f.params@[1].1 is Hash) && f.return_type is None
    } else if i == 73 {
        f.params@.len() == 0 && f.return_type is None
    } else if i == 74 {
        f.params@.len() == 1 && f.params@[0].0@ == "source_view"@ && (f.params@[0].1 is U64) && f.return_type is None
    } else if i == 75 {
        f.params@.len() == 1 && f.params@[0].0@ == "source_view"@ && (f.params@[0].1 is U64) && f.return_type is None
    } else if i == 76 {
        f.params@.len() == 2 && f.params@[0].0@ == "source_view"@ && (f.params@[0].1 is U64) && f.params@[1].0@ == "expected_args_hash"@ && (f.params@[1].1 is Hash) && f.return_type is None
    } else if i == 77 {
        f.params@.len() == 2 && f.params@[0].0@ == "source_view"@ && (f.params@[0].1 is U64) && f.params@[1].0@ == "expected_args_hash"@ && (f.params@[1].1 is Hash) && f.return_type is None
    } else if i == 78 {
        f.params@.len() == 2 && f.params@[0].0@ == "source_view"@ && (f.params@[0].1 is U64) && f.params@[1].0@ == "expected_args_hash"@ && (f.params@[1].1 is Hash) && f.return_type is None
    } else if i == 79 {
        f.params@.len() == 2 && f.params@[0].0@ == "source_view"@ && (f.params@[0].1 is U64) && f.params@[1].0@ == "expected_args_hash"@ && (f.params@[1].1 is Hash) && f.return_type is None
    } else if i == 80 {
        f.params@.len() == 2 && f.params@[0].0@ == "source_view"@ && (f.params@[0].1 is U64) && f.params@[1].0@ == "expected_args_hash"@ && (f.params@[1].1 is Hash) && f.return_type is None
    } else if i == 81 {
        f.params@.len() == 2 && f.params@[0].0@ == "source_view"@ && (f.params@[0].1 is U64) && f.params@[1].0@ == "expected_args_hash"@ && (f.params@[1].1 is Hash) && f.return_type is None
    } else if i == 82 {
        f.params@.len() == 3 && f.params@[0].0@ == "source_view"@ && (f.params@[0].1 is U64) && f.params@[1].0@ == "expected_code_hash"@ && (f.params@[1].1 is Hash) && f.params@[2].0@ == "expected_hash_type"@ && (f.params@[2].1 is U64) && f.return_type is None
    } else if i == 83 {
        f.params@.len() == 3 && f.params@[0].0@ == "source_view"@ && (f.params@[0].1 is U64) && f.params@[1].0@ == "expected_code_hash"@ && (f.params@[1].1 is Hash) && f.params@[2].0@ == "expected_hash_type"@ && (f.params@[2].1 is U64) && f.return_type is None
    } else if i == 84 {
        f.params@.len() == 2 && f.params@[0].0@ == "source_view"@ && (f.params@[0].1 is U64) && f.params@[1].0@ == "expected_hash"@ && (f.params@[1].1 is Hash) && f.return_type is None
    } else if i == 85 {
        f.params@.len() == 3 && f.params@[0].0@ == "source_view"@ && (f.params@[0].1 is U64) && f.params@[1].0@ == "expected_hash"@ && (f.params@[1].1 is Hash) && f.params@[2].0@ == "expected_index"@ && (f.params@[2].1 is U64) && f.return_type is None
    } else if i == 86 {
        f.params@.len() == 3 && f.params@[0].0@ == "base_view"@ && (f.params@[0].1 is U64) && f.params@[1].0@ == "related_view"@ && (f.params@[1].1 is U64) && f.params@[2].0@ == "relative_distance"@ && (f.params@[2].1 is I32) && f.return_type is None
    } else if i == 87 {
        f.params@.len() == 2 && f.params@[0].0@ == "source_view"@ && (f.params@[0].1 is U64) && f.params@[1].0@ == "relative_distance"@ && (f.params@[1].1 is I32) && f.return_type is None
    } else if i == 88 {
        f.params@.len() == 2 && f.params@[0].0@ == "source_view"@ && (f.params@[0].1 is U64) && f.params@[1].0@ == "relative_distance"@ && (f.params@[1].1 is I32) && f.return_type is None
    } else if i == 89 {
        f.params@.len() == 2 && f.params@[0].0@ == "source_view"@ && (f.params@[0].1 is U64) && f.params@[1].0@ == "distance_offset"@ && (f.params@[1].1 is U64) && f.return_type is None
    } else if i == 90 {
        f.params@.len() == 2 && f.params@[0].0@ == "source_view"@ && (f.params@[0].1 is U64) && f.params@[1].0@ == "distance_offset"@ && (f.params@[1].1 is U64) && f.return_type is None
    } else if i == 91 {
        f.params@.len() == 4 && f.params@[0].0@ == "source_view"@ && (f.params@[0].1 is U64) && f.params@[1].0@ == "distance_offset"@ && (f.params@[1].1 is U64) && f.params@[2].0@ == "expected_related_type_hash"@ && (f.params@[2].1 is Hash) && f.params@[3].0@ == "related_data_rule"@ && (f.params@[3].1 is U64) && f.return_type is None
    } else if i == 92 {
        f.params@.len() == 4 && f.params@[0].0@ == "source_view"@ && (f.params@[0].1 is U64) && f.params@[1].0@ == "distance_offset"@ && (f.params@[1].1 is U64) && f.params@[2].0@ == "expected_related_type_hash"@ && (f.params@[2].1 is Hash) && f.params@[3].0@ == "related_data_rule"@ && (f.params@[3].1 is U64) && f.return_type is None
    } else if i == 93 {
        f.params@.len() == 5 && f.params@[0].0@ == "input_source_view"@ && (f.params@[0].1 is U64) && f.params@[1].0@ == "output_source_view"@ && (f.params@[1].1 is U64) && f.params@[2].0@ == "action_offset"@ && (f.params@[2].1 is U64) && f.params@[3].0@ == "tx_hash_offset"@ && (f.params@[3].1 is U64) && f.params@[4].0@ == "index_offset"@ && (f.params@[4].1 is U64) && f.return_type is None
    } else if i == 94 {
        f.params@.len() == 1 && f.params@[0].0@ == "header_view"@ && (f.params@[0].1 is U64) && (f.return_type matches Some(x103) && (x103 is U64))
    } else if i == 95 {
        f.params@.len() == 1 && f.params@[0].0@ == "input_view"@ && (f.params@[0].1 is U64) && (f.return_type matches Some(x104) && (x104 is U64))
    } else if i == 96 {
        f.params@.len() == 1 && f.params@[0].0@ == "source_view"@ && (f.params@[0].1 is U64) && (f.return_type matches Some(x105) && (x105 is Bool))
    } else if i == 97 {
        f.params@.len() == 1 && f.params@[0].0@ == "source_view"@ && (f.params@[0].1 is U64) && (f.return_type matches Some(x106) && (x106 is Bool))
    } else if i == 98 {
        f.params@.len() == 1 && f.params@[0].0@ == "source_view"@ && (f.params@[0].1 is U64) && (f.return_type matches Some(x107) && (x107 is Bool))
    } else if i == 99 {
        f.params@.len() == 2 && f.params@[0].0@ == "input_view"@ && (f.params@[0].1 is U64) && f.params@[1].0@ == "header_view"@ && (f.params@[1].1 is U64) && f.return_type is None
    } else if i == 100 {
        f.params@.len() == 2 && f.params@[0].0@ == "input_view"@ && (f.params@[0].1 is U64) && f.params@[1].0@ == "required_since"@ && (f.params@[1].1 is U64) && f.return_type is None
    } else if i == 101 {
        f.params@.len() == 4 && f.params@[0].0@ == "input_view"@ && (f.params@[0].1 is U64) && f.params@[1].0@ == "number"@ && (f.params@[1].1 is U64) && f.params@[2].0@ == "index"@ && (f.params@[2].1 is U64) && f.params@[3].0@ == "length"@ && (f.params@[3].1 is U64) && f.return_type is None
    } else if i == 102 {
        f.params@.len() == 1 && f.params@[0].0@ == "source_view"@ && (f.params@[0].1 is U64) && (f.return_type matches Some(x108) && (x108 is U64))
    } else if i == 103 {
        f.params@.len() == 3 && f.params@[0].0@ == "source_view"@ && (f.params@[0].1 is U64) && f.params@[1].0@ == "owner_hash"@ && (f.params@[1].1 is Hash) && f.params@[2].0@ == "flags"@ && (f.params@[2].1 is U64) && f.return_type is None
    } else if i == 104 {
        f.params@.len() == 2 && f.params@[0].0@ == "source_view"@ && (f.params@[0].1 is U64) && f.params@[1].0@ == "flags"@ && (f.params@[1].1 is U64) && f.return_type is None
    } else if i == 105 {
        f.params@.len() == 0 && f.return_type is None
    } else if i == 106 {
        f.params@.len() == 1 && f.params@[0].0@ == "delta"@ && (f.params@[0].1 is U128) && f.return_type is None
    } else if i == 107 {
        f.params@.len() == 1 && f.params@[0].0@ == "delta"@ && (f.params@[0].1 is U128) && f.return_type is None
    } else if i == 108 {
        f.params@.len() == 0 && (f.return_type matches Some(x109) && (x109 is U64))
    } else {
        false
    }
}

/// Position `i` of the standard library table holds `f`.
pub open spec fn std_function_entry(i: int, f: StdFunction) -> bool {
    f.name@ == std_function_name(i) && std_function_signature(i, f)
}

fn std_function_part_0(i: usize) -> (f: StdFunction)
    requires
        0 <= i < 16,
    ensures
        std_function_entry(i as int, f),
{
    match i {
        0 => {
            let params: Vec<(String, IrType)> = Vec::new();
            StdFunction { name: "syscall_load_tx_hash".to_owned(), params, return_type: Some(IrType::Hash) }
        },
        1 => {
            let params: Vec<(String, IrType)> = Vec::new();
            StdFunction { name: "syscall_load_script_hash".to_owned(), params, return_type: Some(IrType::Hash) }
        },
        2 => {
            let mut params: Vec<(String, IrType)> = Vec::new();
            params.push(("index".to_owned(), IrType::U64));
            params.push(("source".to_owned(), IrType::U64));
            params.push(("field".to_owned(), IrType::U64));
            StdFunction { name: "syscall_load_cell".to_owned(), params, return_type: Some(IrType::U64) }
        },
        3 => {
            let mut params: Vec<(String, IrType)> = Vec::new();
            params.push(("buffer".to_owned(), IrType::U64));
            params.push(("size".to_owned(), IrType::U64));
            params.push(("offset".to_owned(), IrType::U64));
            params.push(("index".to_owned(), IrType::U64));
            params.push(("source".to_owned(), IrType::U64));
            StdFunction { name: "syscall_load_header".to_owned(), params, return_type: Some(IrType::U64) }
        },
        4 => {
            let mut params: Vec<(String, IrType)> = Vec::new();
            params.push(("index".to_owned(), IrType::U64));
            params.push(("source".to_owned(), IrType::U64));
            params.push(("field".to_owned(), IrType::U64));
            StdFunction { name: "syscall_load_input".to_owned(), params, return_type: Some(IrType::U64) }
        },
        5 => {
            let mut params: Vec<(String, IrType)> = Vec::new();
            params.push(("buffer".to_owned(), IrType::U64));
            params.push(("size".to_owned(), IrType::U64));
            params.push(("offset".to_owned(), IrType::U64));
            StdFunction { name: "syscall_load_script".to_owned(), params, return_type: Some(IrType::U64) }
        },
        6 => {
            let mut params: Vec<(String, IrType)> = Vec::new();
            params.push(("buffer".to_owned(), IrType::U64));
            params.push(("size".to_owned(), IrType::U64));
            params.push(("offset".to_owned(), IrType::U64));
            params.push(("index".to_owned(), IrType::U64));
            params.push(("source".to_owned(), IrType::U64));
            params.push(("field".to_owned(), IrType::U64));
            StdFunction { name: "syscall_load_cell_by_field".to_owned(), params, return_type: Some(IrType::U64) }
        },
        7 => {
            let mut params: Vec<(String, IrType)> = Vec::new();
            params.push(("buffer".to_owned(), IrType::U64));
            params.push(("size".to_owned(), IrType::U64));
            params.push(("offset".to_owned(), IrType::U64));
            params.push(("index".to_owned(), IrType::U64));
            params.push(("source".to_owned(), IrType::U64));
            StdFunction { name: "syscall_load_cell_data".to_owned(), params, return_type: Some(IrType::U64) }
        },
        8 => {
            let mut params: Vec<(String, IrType)> = Vec::new();
            params.push(("index".to_owned(), IrType::U64));
            params.push(("source".to_owned(), IrType::U64));
            StdFunction { name: "syscall_load_witness".to_owned(), params, return_type: Some(IrType::U64) }
        },
        9 => {
            let params: Vec<(String, IrType)> = Vec::new();
            StdFunction { name: "syscall_current_cycles".to_owned(), params, return_type: Some(IrType::U64) }
        },
        10 => {
            let mut params: Vec<(String, IrType)> = Vec::new();
            params.push(("msg".to_owned(), IrType::Array(Box::new(IrType::U8), 0)));
            StdFunction { name: "syscall_debug_print".to_owned(), params, return_type: None }
        },
        11 => {
            let mut params: Vec<(String, IrType)> = Vec::new();
            params.push(("a".to_owned(), IrType::U64));
            params.push(("b".to_owned(), IrType::U64));
            StdFunction { name: "math_min".to_owned(), params, return_type: Some(IrType::U64) }
        },
        12 => {
            let mut params: Vec<(String, IrType)> = Vec::new();
            params.push(("a".to_owned(), IrType::U64));
            params.push(("b".to_owned(), IrType::U64));
            StdFunction { name: "math_max".to_owned(), params, return_type: Some(IrType::U64) }
        },
        13 => {
            let mut params: Vec<(String, IrType)> = Vec::new();
            params.push(("n".to_owned(), IrType::U64));
            StdFunction { name: "math_isqrt".to_owned(), params, return_type: Some(IrType::U64) }
        },
        14 => {
            let mut params: Vec<(String, IrType)> = Vec::new();
            params.push(("a".to_owned(), IrType::U64));
            params.push(("b".to_owned(), IrType::U64));
            StdFunction { name: "math_abs_diff".to_owned(), params, return_type: Some(IrType::U64) }
        },
        _ => {
            let mut params: Vec<(String, IrType)> = Vec::new();
            params.push(("left_amount".to_owned(), IrType::U128));
            params.push(("left_multiplier".to_owned(), IrType::U128));
            params.push(("right_amount".to_owned(), IrType::U128));
            params.push(("right_multiplier".to_owned(), IrType::U128));
            StdFunction { name: "c256_require_product_lte".to_owned(), params, return_type: None }
        },
    }
}

fn std_function_part_1(i: usize) -> (f: StdFunction)
    requires
        16 <= i < 32,
    ensures
        std_function_entry(i as int, f),
{
    match i {
        16 => {
            let mut params: Vec<(String, IrType)> = Vec::new();
            params.push(("left_amount".to_owned(), IrType::U128));
            params.push(("left_multiplier".to_owned(), IrType::U128));
            params.push(("right_amount".to_owned(), IrType::U128));
            params.push(("right_multiplier".to_owned(), IrType::U128));
            StdFunction { name: "c256_require_product_eq".to_owned(), params, return_type: None }
        },
        17 => {
            let mut params: Vec<(String, IrType)> = Vec::new();
            params.push(("left_amount_a".to_owned(), IrType::U128));
            params.push(("left_multiplier_a".to_owned(), IrType::U128));
            params.push(("left_amount_b".to_owned(), IrType::U128));
            params.push(("left_multiplier_b".to_owned(), IrType::U128));
            params.push(("right_amount_a".to_owned(), IrType::U128));
            params.push(("right_multiplier_a".to_owned(), IrType::U128));
            params.push(("right_amount_b".to_owned(), IrType::U128));
            params.push(("right_multiplier_b".to_owned(), IrType::U128));
            StdFunction { name: "c256_require_sum2_products_lte".to_owned(), params, return_type: None }
        },
        18 => {
            let mut params: Vec<(String, IrType)> = Vec::new();
            params.push(("left_amount_a".to_owned(), IrType::U128));
            params.push(("left_multiplier_a".to_owned(), IrType::U128));
            params.push(("left_amount_b".to_owned(), IrType::U128));
            params.push(("left_multiplier_b".to_owned(), IrType::U128));
            params.push(("right_amount_a".to_owned(), IrType::U128));
            params.push(("right_multiplier_a".to_owned(), IrType::U128));
            params.push(("right_amount_b".to_owned(), IrType::U128));
            params.push(("right_multiplier_b".to_owned(), IrType::U128));
            StdFunction { name: "c256_require_sum2_products_eq".to_owned(), params, return_type: None }
        },
        19 => {
            let params: Vec<(String, IrType)> = Vec::new();
            StdFunction { name: "env_current_timepoint".to_owned(), params, return_type: Some(IrType::U64) }
        },
        20 => {
            let params: Vec<(String, IrType)> = Vec::new();
            StdFunction { name: "ckb_header_epoch_number".to_owned(), params, return_type: Some(IrType::U64) }
        },
        21 => {
            let params: Vec<(String, IrType)> = Vec::new();
            StdFunction { name: "ckb_header_epoch_start_block_number".to_owned(), params, return_type: Some(IrType::U64) }
        },
        22 => {
            let params: Vec<(String, IrType)> = Vec::new();
            StdFunction { name: "ckb_header_epoch_length".to_owned(), params, return_type: Some(IrType::U64) }
        },
        23 => {
            let params: Vec<(String, IrType)> = Vec::new();
            StdFunction { name: "ckb_input_since".to_owned(), params, return_type: Some(IrType::U64) }
        },
        24 => {
            let mut params: Vec<(String, IrType)> = Vec::new();
            params.push(("number".to_owned(), IrType::U64));
            params.push(("index".to_owned(), IrType::U64));
            params.push(("length".to_owned(), IrType::U64));
            StdFunction { name: "ckb_since_epoch_absolute".to_owned(), params, return_type: Some(IrType::U64) }
        },
        25 => {
            let mut params: Vec<(String, IrType)> = Vec::new();
            params.push(("number".to_owned(), IrType::U64));
            params.push(("index".to_owned(), IrType::U64));
            params.push(("length".to_owned(), IrType::U64));
            StdFunction { name: "ckb_since_epoch_relative".to_owned(), params, return_type: Some(IrType::U64) }
        },
        26 => {
            let mut params: Vec<(String, IrType)> = Vec::new();
            params.push(("number".to_owned(), IrType::U64));
            params.push(("index".to_owned(), IrType::U64));
            params.push(("length".to_owned(), IrType::U64));
            StdFunction { name: "ckb_since_absolute_epoch".to_owned(), params, return_type: Some(IrType::Named("AbsoluteEpochSince".to_owned())) }
        },
        27 => {
            let mut params: Vec<(String, IrType)> = Vec::new();
            params.push(("number".to_owned(), IrType::U64));
            params.push(("index".to_owned(), IrType::U64));
            params.push(("length".to_owned(), IrType::U64));
            StdFunction { name: "ckb_since_relative_epoch".to_owned(), params, return_type: Some(IrType::Named("RelativeEpochSince".to_owned())) }
        },
        28 => {
            let mut params: Vec<(String, IrType)> = Vec::new();
            params.push(("value".to_owned(), IrType::U64));
            StdFunction { name: "ckb_since_absolute_block".to_owned(), params, return_type: Some(IrType::Named("AbsoluteBlockSince".to_owned())) }
        },
        29 => {
            let mut params: Vec<(String, IrType)> = Vec::new();
            params.push(("value".to_owned(), IrType::U64));
            StdFunction { name: "ckb_since_relative_block".to_owned(), params, return_type: Some(IrType::Named("RelativeBlockSince".to_owned())) }
        },
        30 => {
            let mut params: Vec<(String, IrType)> = Vec::new();
            params.push(("seconds".to_owned(), IrType::U64));
            StdFunction { name: "ckb_since_absolute_timestamp".to_owned(), params, return_type: Some(IrType::Named("AbsoluteTimestampSince".to_owned())) }
        },
        _ => {
            let mut params: Vec<(String, IrType)> = Vec::new();
            params.push(("seconds".to_owned(), IrType::U64));
            StdFunction { name: "ckb_since_relative_timestamp".to_owned(), params, return_type: Some(IrType::Named("RelativeTimestampSince".to_owned())) }
        },
    }
}

fn std_function_part_2(i: usize) -> (f: StdFunction)
    requires
        32 <= i < 48,
    ensures
        std_function_entry(i as int, f),
{
    match i {
        32 => {
            let mut params: Vec<(String, IrType)> = Vec::new();
            params.push(("encoded".to_owned(), IrType::Named("EncodedSince".to_owned())));
            StdFunction { name: "ckb_since_decode".to_owned(), params, return_type: Some(IrType::Named("DecodedSince".to_owned())) }
        },
        33 => {
            let mut params: Vec<(String, IrType)> = Vec::new();
            params.push(("raw".to_owned(), IrType::U64));
            StdFunction { name: "ckb_since_from_raw_checked".to_owned(), params, return_type: Some(IrType::Named("DecodedSince".to_owned())) }
        },
        34 => {
            let mut params: Vec<(String, IrType)> = Vec::new();
            params.push(("decoded".to_owned(), IrType::Named("DecodedSince".to_owned())));
            StdFunction { name: "ckb_since_as_absolute_block".to_owned(), params, return_type: Some(IrType::Named("AbsoluteBlockSince".to_owned())) }
        },
        35 => {
            let mut params: Vec<(String, IrType)> = Vec::new();
            params.push(("decoded".to_owned(), IrType::Named("DecodedSince".to_owned())));
            StdFunction { name: "ckb_since_as_relative_block".to_owned(), params, return_type: Some(IrType::Named("RelativeBlockSince".to_owned())) }
        },
        36 => {
            let mut params: Vec<(String, IrType)> = Vec::new();
            params.push(("decoded".to_owned(), IrType::Named("DecodedSince".to_owned())));
            StdFunction { name: "ckb_since_as_absolute_epoch".to_owned(), params, return_type: Some(IrType::Named("AbsoluteEpochSince".to_owned())) }
        },
        37 => {
            let mut params: Vec<(String, IrType)> = Vec::new();
            params.push(("decoded".to_owned(), IrType::Named("DecodedSince".to_owned())));
            StdFunction { name: "ckb_since_as_relative_epoch".to_owned(), params, return_type: Some(IrType::Named("RelativeEpochSince".to_owned())) }
        },
        38 => {
            let mut params: Vec<(String, IrType)> = Vec::new();
            params.push(("decoded".to_owned(), IrType::Named("DecodedSince".to_owned())));
            StdFunction { name: "ckb_since_as_absolute_timestamp".to_owned(), params, return_type: Some(IrType::Named("AbsoluteTimestampSince".to_owned())) }
        },
        39 => {
            let mut params: Vec<(String, IrType)> = Vec::new();
            params.push(("decoded".to_owned(), IrType::Named("DecodedSince".to_owned())));
            StdFunction { name: "ckb_since_as_relative_timestamp".to_owned(), params, return_type: Some(IrType::Named("RelativeTimestampSince".to_owned())) }
        },
        40 => {
            let mut params: Vec<(String, IrType)> = Vec::new();
            params.push(("decoded".to_owned(), IrType::Named("DecodedSince".to_owned())));
            StdFunction { name: "ckb_since_is_relative".to_owned(), params, return_type: Some(IrType::Bool) }
        },
        41 => {
            let mut params: Vec<(String, IrType)> = Vec::new();
            params.push(("decoded".to_owned(), IrType::Named("DecodedSince".to_owned())));
            StdFunction { name: "ckb_since_is_disabled".to_owned(), params, return_type: Some(IrType::Bool) }
        },
        42 => {
            let mut params: Vec<(String, IrType)> = Vec::new();
            params.push(("decoded".to_owned(), IrType::Named("DecodedSince".to_owned())));
            StdFunction { name: "ckb_since_metric".to_owned(), params, return_type: Some(IrType::U64) }
        },
        43 => {
            let mut params: Vec<(String, IrType)> = Vec::new();
            params.push(("decoded".to_owned(), IrType::Named("DecodedSince".to_owned())));
            StdFunction { name: "ckb_since_value".to_owned(), params, return_type: Some(IrType::U64) }
        },
        44 => {
            let mut params: Vec<(String, IrType)> = Vec::new();
            params.push(("value".to_owned(), IrType::U64));
            StdFunction { name: "ckb_epoch_duration".to_owned(), params, return_type: Some(IrType::Named("EpochDuration".to_owned())) }
        },
        45 => {
            let mut params: Vec<(String, IrType)> = Vec::new();
            params.push(("epoch".to_owned(), IrType::Named("EpochNumber".to_owned())));
            params.push(("duration".to_owned(), IrType::Named("EpochDuration".to_owned())));
            StdFunction { name: "ckb_epoch_add".to_owned(), params, return_type: Some(IrType::Named("EpochNumber".to_owned())) }
        },
        46 => {
            let mut params: Vec<(String, IrType)> = Vec::new();
            params.push(("epoch".to_owned(), IrType::Named("EpochNumber".to_owned())));
            params.push(("duration".to_owned(), IrType::Named("EpochDuration".to_owned())));
            StdFunction { name: "ckb_epoch_sub".to_owned(), params, return_type: Some(IrType::Named("EpochNumber".to_owned())) }
        },
        _ => {
            let mut params: Vec<(String, IrType)> = Vec::new();
            params.push(("duration".to_owned(), IrType::Named("EpochDuration".to_owned())));
            StdFunction { name: "ckb_epoch_duration_to_u64".to_owned(), params, return_type: Some(IrType::U64) }
        },
    }
}

fn std_function_part_3(i: usize) -> (f: StdFunction)
    requires
        48 <= i < 64,
    ensures
        std_function_entry(i as int, f),
{
    match i {
        48 => {
            let mut params: Vec<(String, IrType)> = Vec::new();
            params.push(("timestamp".to_owned(), IrType::Named("TimestampMillis".to_owned())));
            StdFunction { name: "ckb_timestamp_millis_to_u64".to_owned(), params, return_type: Some(IrType::U64) }
        },
        49 => {
            let params: Vec<(String, IrType)> = Vec::new();
            StdFunction { name: "ckb_current_role".to_owned(), params, return_type: Some(IrType::U64) }
        },
        50 => {
            let mut params: Vec<(String, IrType)> = Vec::new();
            params.push(("source_view".to_owned(), IrType::U64));
            StdFunction { name: "ckb_cell_capacity".to_owned(), params, return_type: Some(IrType::U64) }
        },
        51 => {
            let mut params: Vec<(String, IrType)> = Vec::new();
            params.push(("source_view".to_owned(), IrType::U64));
            StdFunction { name: "ckb_cell_occupied_capacity".to_owned(), params, return_type: Some(IrType::U64) }
        },
        52 => {
            let mut params: Vec<(String, IrType)> = Vec::new();
            params.push(("source_view".to_owned(), IrType::U64));
            StdFunction { name: "ckb_cell_unoccupied_capacity".to_owned(), params, return_type: Some(IrType::U64) }
        },
        53 => {
            let mut params: Vec<(String, IrType)> = Vec::new();
            params.push(("source_view".to_owned(), IrType::U64));
            params.push(("offset".to_owned(), IrType::U64));
            StdFunction { name: "ckb_cell_data_u64_le".to_owned(), params, return_type: Some(IrType::U64) }
        },
        54 => {
            let mut params: Vec<(String, IrType)> = Vec::new();
            params.push(("source_view".to_owned(), IrType::U64));
            params.push(("offset".to_owned(), IrType::U64));
            StdFunction { name: "ckb_cell_data_u32_le".to_owned(), params, return_type: Some(IrType::U64) }
        },
        55 => {
            let params: Vec<(String, IrType)> = Vec::new();
            StdFunction { name: "ckb_current_script_hash".to_owned(), params, return_type: Some(IrType::Hash) }
        },
        56 => {
            let mut params: Vec<(String, IrType)> = Vec::new();
            params.push(("source_view".to_owned(), IrType::U64));
            StdFunction { name: "ckb_cell_lock_hash_low".to_owned(), params, return_type: Some(IrType::U64) }
        },
        57 => {
            let mut params: Vec<(String, IrType)> = Vec::new();
            params.push(("source_view".to_owned(), IrType::U64));
            StdFunction { name: "ckb_cell_type_hash_low".to_owned(), params, return_type: Some(IrType::U64) }
        },
        58 => {
            let mut params: Vec<(String, IrType)> = Vec::new();
            params.push(("source_view".to_owned(), IrType::U64));
            StdFunction { name: "ckb_cell_lock_hash".to_owned(), params, return_type: Some(IrType::Hash) }
        },
        59 => {
            let mut params: Vec<(String, IrType)> = Vec::new();
            params.push(("source_view".to_owned(), IrType::U64));
            StdFunction { name: "ckb_cell_type_hash".to_owned(), params, return_type: Some(IrType::Hash) }
        },
        60 => {
            let mut params: Vec<(String, IrType)> = Vec::new();
            params.push(("source_view".to_owned(), IrType::U64));
            StdFunction { name: "ckb_cell_lock_code_hash".to_owned(), params, return_type: Some(IrType::Hash) }
        },
        61 => {
            let mut params: Vec<(String, IrType)> = Vec::new();
            params.push(("source_view".to_owned(), IrType::U64));
            StdFunction { name: "ckb_cell_type_code_hash".to_owned(), params, return_type: Some(IrType::Hash) }
        },
        62 => {
            let mut params: Vec<(String, IrType)> = Vec::new();
            params.push(("source_view".to_owned(), IrType::U64));
            StdFunction { name: "ckb_cell_lock_hash_type".to_owned(), params, return_type: Some(IrType::U64) }
        },
        _ => {
            let mut params: Vec<(String, IrType)> = Vec::new();
            params.push(("source_view".to_owned(), IrType::U64));
            StdFunction { name: "ckb_cell_type_hash_type".to_owned(), params, return_type: Some(IrType::U64) }
        },
    }
}

fn std_function_part_4(i: usize) -> (f: StdFunction)
    requires
        64 <= i < 80,
    ensures
        std_function_entry(i as int, f),
{
    match i {
        64 => {
            let mut params: Vec<(String, IrType)> = Vec::new();
            params.push(("source_view".to_owned(), IrType::U64));
            StdFunction { name: "ckb_cell_lock_args_empty".to_owned(), params, return_type: Some(IrType::Bool) }
        },
        65 => {
            let mut params: Vec<(String, IrType)> = Vec::new();
            params.push(("source_view".to_owned(), IrType::U64));
            StdFunction { name: "ckb_cell_type_args_empty".to_owned(), params, return_type: Some(IrType::Bool) }
        },
        66 => {
            let mut params: Vec<(String, IrType)> = Vec::new();
            params.push(("source_view".to_owned(), IrType::U64));
            StdFunction { name: "ckb_cell_lock_args_hash".to_owned(), params, return_type: Some(IrType::Hash) }
        },
        67 => {
            let mut params: Vec<(String, IrType)> = Vec::new();
            params.push(("source_view".to_owned(), IrType::U64));
            StdFunction { name: "ckb_cell_type_args_hash".to_owned(), params, return_type: Some(IrType::Hash) }
        },
        68 => {
            let mut params: Vec<(String, IrType)> = Vec::new();
            params.push(("source_view".to_owned(), IrType::U64));
            StdFunction { name: "ckb_input_out_point_index".to_owned(), params, return_type: Some(IrType::U64) }
        },
        69 => {
            let mut params: Vec<(String, IrType)> = Vec::new();
            params.push(("source_view".to_owned(), IrType::U64));
            StdFunction { name: "ckb_input_out_point_tx_hash_low".to_owned(), params, return_type: Some(IrType::U64) }
        },
        70 => {
            let mut params: Vec<(String, IrType)> = Vec::new();
            params.push(("source_view".to_owned(), IrType::U64));
            StdFunction { name: "ckb_input_out_point_tx_hash".to_owned(), params, return_type: Some(IrType::Hash) }
        },
        71 => {
            let mut params: Vec<(String, IrType)> = Vec::new();
            params.push(("source_view".to_owned(), IrType::U64));
            params.push(("expected_hash".to_owned(), IrType::Hash));
            StdFunction { name: "ckb_require_cell_lock_hash".to_owned(), params, return_type: None }
        },
        72 => {
            let mut params: Vec<(String, IrType)> = Vec::new();
            params.push(("source_view".to_owned(), IrType::U64));
            params.push(("expected_hash".to_owned(), IrType::Hash));
            StdFunction { name: "ckb_require_cell_type_hash".to_owned(), params, return_type: None }
        },
        73 => {
            let params: Vec<(String, IrType)> = Vec::new();
            StdFunction { name: "ckb_require_current_script_args_empty".to_owned(), params, return_type: None }
        },
        74 => {
            let mut params: Vec<(String, IrType)> = Vec::new();
            params.push(("source_view".to_owned(), IrType::U64));
            StdFunction { name: "ckb_require_cell_lock_args_empty".to_owned(), params, return_type: None }
        },
        75 => {
            let mut params: Vec<(String, IrType)> = Vec::new();
            params.push(("source_view".to_owned(), IrType::U64));
            StdFunction { name: "ckb_require_cell_type_args_empty".to_owned(), params, return_type: None }
        },
        76 => {
            let mut params: Vec<(String, IrType)> = Vec::new();
            params.push(("source_view".to_owned(), IrType::U64));
            params.push(("expected_args_hash".to_owned(), IrType::Hash));
            StdFunction { name: "ckb_require_cell_lock_args_hash".to_owned(), params, return_type: None }
        },
        77 => {
            let mut params: Vec<(String, IrType)> = Vec::new();
            params.push(("source_view".to_owned(), IrType::U64));
            params.push(("expected_args_hash".to_owned(), IrType::Hash));
            StdFunction { name: "ckb_require_cell_type_args_hash".to_owned(), params, return_type: None }
        },
        78 => {
            let mut params: Vec<(String, IrType)> = Vec::new();
            params.push(("source_view".to_owned(), IrType::U64));
            params.push(("expected_args_hash".to_owned(), IrType::Hash));
            StdFunction { name: "ckb_require_cell_lock_args_prefix_hash".to_owned(), params, return_type: None }
        },
        _ => {
            let mut params: Vec<(String, IrType)> = Vec::new();
            params.push(("source_view".to_owned(), IrType::U64));
            params.push(("expected_args_hash".to_owned(), IrType::Hash));
            StdFunction { name: "ckb_require_cell_type_args_prefix_hash".to_owned(), params, return_type: None }
        },
    }
}

fn std_function_part_5(i: usize) -> (f: StdFunction)
    requires
        80 <= i < 96,
    ensures
        std_function_entry(i as int, f),
{
    match i {
        80 => {
            let mut params: Vec<(String, IrType)> = Vec::new();
            params.push(("source_view".to_owned(), IrType::U64));
            params.push(("expected_args_hash".to_owned(), IrType::Hash));
            StdFunction { name: "ckb_require_cell_lock_args_suffix_hash".to_owned(), params, return_type: None }
        },
        81 => {
            let mut params: Vec<(String, IrType)> = Vec::new();
            params.push(("source_view".to_owned(), IrType::U64));
            params.push(("expected_args_hash".to_owned(), IrType::Hash));
            StdFunction { name: "ckb_require_cell_type_args_suffix_hash".to_owned(), params, return_type: None }
        },
        82 => {
            let mut params: Vec<(String, IrType)> = Vec::new();
            params.push(("source_view".to_owned(), IrType::U64));
            params.push(("expected_code_hash".to_owned(), IrType::Hash));
            params.push(("expected_hash_type".to_owned(), IrType::U64));
            StdFunction { name: "ckb_require_cell_lock_script_hash_type".to_owned(), params, return_type: None }
        },
        83 => {
            let mut params: Vec<(String, IrType)> = Vec::new();
            params.push(("source_view".to_owned(), IrType::U64));
            params.push(("expected_code_hash".to_owned(), IrType::Hash));
            params.push(("expected_hash_type".to_owned(), IrType::U64));
            StdFunction { name: "ckb_require_cell_type_script_hash_type".to_owned(), params, return_type: None }
        },
        84 => {
            let mut params: Vec<(String, IrType)> = Vec::new();
            params.push(("source_view".to_owned(), IrType::U64));
            params.push(("expected_hash".to_owned(), IrType::Hash));
            StdFunction { name: "ckb_require_input_out_point_tx_hash".to_owned(), params, return_type: None }
        },
        85 => {
            let mut params: Vec<(String, IrType)> = Vec::new();
            params.push(("source_view".to_owned(), IrType::U64));
            params.push(("expected_hash".to_owned(), IrType::Hash));
            params.push(("expected_index".to_owned(), IrType::U64));
            StdFunction { name: "ckb_require_input_out_point".to_owned(), params, return_type: None }
        },
        86 => {
            let mut params: Vec<(String, IrType)> = Vec::new();
            params.push(("base_view".to_owned(), IrType::U64));
            params.push(("related_view".to_owned(), IrType::U64));
            params.push(("relative_distance".to_owned(), IrType::I32));
            StdFunction { name: "ckb_require_metapoint_relative".to_owned(), params, return_type: None }
        },
        87 => {
            let mut params: Vec<(String, IrType)> = Vec::new();
            params.push(("source_view".to_owned(), IrType::U64));
            params.push(("relative_distance".to_owned(), IrType::I32));
            StdFunction { name: "ckb_require_lock_type_metapoint_pairs".to_owned(), params, return_type: None }
        },
        88 => {
            let mut params: Vec<(String, IrType)> = Vec::new();
            params.push(("source_view".to_owned(), IrType::U64));
            params.push(("relative_distance".to_owned(), IrType::I32));
            StdFunction { name: "ckb_require_type_lock_metapoint_pairs".to_owned(), params, return_type: None }
        },
        89 => {
            let mut params: Vec<(String, IrType)> = Vec::new();
            params.push(("source_view".to_owned(), IrType::U64));
            params.push(("distance_offset".to_owned(), IrType::U64));
            StdFunction { name: "ckb_require_lock_type_metapoint_pairs_from_i32_data".to_owned(), params, return_type: None }
        },
        90 => {
            let mut params: Vec<(String, IrType)> = Vec::new();
            params.push(("source_view".to_owned(), IrType::U64));
            params.push(("distance_offset".to_owned(), IrType::U64));
            StdFunction { name: "ckb_require_type_lock_metapoint_pairs_from_i32_data".to_owned(), params, return_type: None }
        },
        91 => {
            let mut params: Vec<(String, IrType)> = Vec::new();
            params.push(("source_view".to_owned(), IrType::U64));
            params.push(("distance_offset".to_owned(), IrType::U64));
            params.push(("expected_related_type_hash".to_owned(), IrType::Hash));
            params.push(("related_data_rule".to_owned(), IrType::U64));
            StdFunction { name: "ckb_require_lock_type_metapoint_pairs_from_i32_data_filtered".to_owned(), params, return_type: None }
        },
        92 => {
            let mut params: Vec<(String, IrType)> = Vec::new();
            params.push(("source_view".to_owned(), IrType::U64));
            params.push(("distance_offset".to_owned(), IrType::U64));
            params.push(("expected_related_type_hash".to_owned(), IrType::Hash));
            params.push(("related_data_rule".to_owned(), IrType::U64));
            StdFunction { name: "ckb_require_type_lock_metapoint_pairs_from_i32_data_filtered".to_owned(), params, return_type: None }
        },
        93 => {
            let mut params: Vec<(String, IrType)> = Vec::new();
            params.push(("input_source_view".to_owned(), IrType::U64));
            params.push(("output_source_view".to_owned(), IrType::U64));
            params.push(("action_offset".to_owned(), IrType::U64));
            params.push(("tx_hash_offset".to_owned(), IrType::U64));
            params.push(("index_offset".to_owned(), IrType::U64));
            StdFunction { name: "ckb_require_lock_match_master_out_point_pairs_from_data".to_owned(), params, return_type: None }
        },
        94 => {
            let mut params: Vec<(String, IrType)> = Vec::new();
            params.push(("header_view".to_owned(), IrType::U64));
            StdFunction { name: "dao_accumulated_rate".to_owned(), params, return_type: Some(IrType::U64) }
        },
        _ => {
            let mut params: Vec<(String, IrType)> = Vec::new();
            params.push(("input_view".to_owned(), IrType::U64));
            StdFunction { name: "dao_input_accumulated_rate".to_owned(), params, return_type: Some(IrType::U64) }
        },
    }
}

fn std_function_part_6(i: usize) -> (f: StdFunction)
    requires
        96 <= i < 109,
    ensures
        std_function_entry(i as int, f),
{
    match i {
        96 => {
            let mut params: Vec<(String, IrType)> = Vec::new();
            params.push(("source_view".to_owned(), IrType::U64));
            StdFunction { name: "dao_has_dao_type".to_owned(), params, return_type: Some(IrType::Bool) }
        },
        97 => {
            let mut params: Vec<(String, IrType)> = Vec::new();
            params.push(("source_view".to_owned(), IrType::U64));
            StdFunction { name: "dao_is_deposit_data".to_owned(), params, return_type: Some(IrType::Bool) }
        },
        98 => {
            let mut params: Vec<(String, IrType)> = Vec::new();
            params.push(("source_view".to_owned(), IrType::U64));
            StdFunction { name: "dao_is_withdrawal_request_data".to_owned(), params, return_type: Some(IrType::Bool) }
        },
        99 => {
            let mut params: Vec<(String, IrType)> = Vec::new();
            params.push(("input_view".to_owned(), IrType::U64));
            params.push(("header_view".to_owned(), IrType::U64));
            StdFunction { name: "dao_require_header_dep_for_input".to_owned(), params, return_type: None }
        },
        100 => {
            let mut params: Vec<(String, IrType)> = Vec::new();
            params.push(("input_view".to_owned(), IrType::U64));
            params.push(("required_since".to_owned(), IrType::U64));
            StdFunction { name: "dao_require_input_since_at_least".to_owned(), params, return_type: None }
        },
        101 => {
            let mut params: Vec<(String, IrType)> = Vec::new();
            params.push(("input_view".to_owned(), IrType::U64));
            params.push(("number".to_owned(), IrType::U64));
            params.push(("index".to_owned(), IrType::U64));
            params.push(("length".to_owned(), IrType::U64));
            StdFunction { name: "dao_require_input_relative_epoch_since_at_least".to_owned(), params, return_type: None }
        },
        102 => {
            let mut params: Vec<(String, IrType)> = Vec::new();
            params.push(("source_view".to_owned(), IrType::U64));
            StdFunction { name: "xudt_amount_low".to_owned(), params, return_type: Some(IrType::U64) }
        },
        103 => {
            let mut params: Vec<(String, IrType)> = Vec::new();
            params.push(("source_view".to_owned(), IrType::U64));
            params.push(("owner_hash".to_owned(), IrType::Hash));
            params.push(("flags".to_owned(), IrType::U64));
            StdFunction { name: "xudt_require_owner_mode_type_args".to_owned(), params, return_type: None }
        },
        104 => {
            let mut params: Vec<(String, IrType)> = Vec::new();
            params.push(("source_view".to_owned(), IrType::U64));
            params.push(("flags".to_owned(), IrType::U64));
            StdFunction { name: "xudt_require_owner_mode_type_args_current_script".to_owned(), params, return_type: None }
        },
        105 => {
            let params: Vec<(String, IrType)> = Vec::new();
            StdFunction { name: "xudt_require_group_amount_conserved".to_owned(), params, return_type: None }
        },
        106 => {
            let mut params: Vec<(String, IrType)> = Vec::new();
            params.push(("delta".to_owned(), IrType::U128));
            StdFunction { name: "xudt_require_group_amount_minted".to_owned(), params, return_type: None }
        },
        107 => {
            let mut params: Vec<(String, IrType)> = Vec::new();
            params.push(("delta".to_owned(), IrType::U128));
            StdFunction { name: "xudt_require_group_amount_burned".to_owned(), params, return_type: None }
        },
        _ => {
            let params: Vec<(String, IrType)> = Vec::new();
            StdFunction { name: "env_remaining_cycles".to_owned(), params, return_type: Some(IrType::U64) }
        },
    }
}

/// The entry at position `i` of the standard library table.
fn std_function_at(i: usize) -> (f: StdFunction)
    requires
        i < STD_FUNCTION_COUNT,
    ensures
        std_function_entry(i as int, f),
{
    if i < 16 {
        std_function_part_0(i)
    } else if i < 32 {
        std_function_part_1(i)
    } else if i < 48 {
        std_function_part_2(i)
    } else if i < 64 {
        std_function_part_3(i)
    } else if i < 80 {
        std_function_part_4(i)
    } else if i < 96 {
        std_function_part_5(i)
    } else {
        std_function_part_6(i)
    }
}


/// Whether some entry of the standard-library table is named `name`.
pub open spec fn is_std_name(name: Seq<char>) -> bool {
    exists|i: int| 0 <= i < STD_FUNCTION_COUNT && #[trigger] std_function_name(i) == name
}

/// `prefix` followed by `n` in decimal.
fn push_number(out: &mut String, n: u64)
    ensures
        final(out)@ == old(out)@ + decimal(n as nat),
{
    push_decimal(out, n as u128);
}

/// The head of a syscall stub: comment, symbol, frame set-up and syscall number.
pub open spec fn stub_head_text(prefix: Seq<char>, name: Seq<char>, number: u64) -> Seq<char> {
    prefix + "# Syscall: "@ + name + " ("@ + decimal(number as nat) + ")\n"@ + ".global __syscall_"@ + name + "\n"@
        + "__syscall_"@ + name + ":\n"@ + "    addi sp, sp, -16\n"@ + "    sd ra, 8(sp)\n"@ + "    li a7, "@
        + decimal(number as nat) + "\n"@
}

/// The optional comment line of a syscall stub that names its argument registers.
pub open spec fn stub_args_text(prefix: Seq<char>, args: Option<Seq<char>>) -> Seq<char> {
    match args {
        Some(a) => prefix + "    # "@ + a + "\n"@,
        None => prefix,
    }
}

/// The tail of a syscall stub: the call itself and the frame tear-down.
pub open spec fn stub_tail_text(prefix: Seq<char>) -> Seq<char> {
    prefix + "    ecall\n"@ + "    ld ra, 8(sp)\n"@ + "    addi sp, sp, 16\n"@ + "    ret\n\n"@
}

/// A whole syscall stub, appended to `prefix`.
pub open spec fn syscall_stub_text(prefix: Seq<char>, name: Seq<char>, number: u64, args: Option<Seq<char>>) -> Seq<
    char,
> {
    stub_tail_text(stub_args_text(stub_head_text(prefix, name, number), args))
}

fn push_syscall_stub(out: &mut String, name: &str, number: u64, args: Option<&str>)
    ensures
        final(out)@ == syscall_stub_text(old(out)@, name@, number, match args {
            Some(a) => Some(a@),
            None => None,
        }),
{
    out.append("# Syscall: ");
    out.append(name);
    out.append(" (");
    push_number(out, number);
    out.append(")\n");
    out.append(".global __syscall_");
    out.append(name);
    out.append("\n");
    out.append("__syscall_");
    out.append(name);
    out.append(":\n");
    out.append("    addi sp, sp, -16\n");
    out.append("    sd ra, 8(sp)\n");
    out.append("    li a7, ");
    push_number(out, number);
    out.append("\n");
    if let Some(a) = args {
        out.append("    # ");
        out.append(a);
        out.append("\n");
    }
    out.append("    ecall\n");
    out.append("    ld ra, 8(sp)\n");
    out.append("    addi sp, sp, 16\n");
    out.append("    ret\n\n");
}

/// The syscall `load_script` uses under a target profile.
pub open spec fn load_script_syscall(profile: TargetProfile) -> u64 {
    match profile {
        TargetProfile::Ckb => SYSCALL_LOAD_SCRIPT,
    }
}

/// Every syscall stub, appended to `prefix`.
pub open spec fn syscalls_text(prefix: Seq<char>, profile: TargetProfile) -> Seq<char> {
    let p = syscall_stub_text(prefix, "load_tx_hash"@, SYSCALL_LOAD_TX_HASH, None);
    let p = syscall_stub_text(p, "load_script_hash"@, SYSCALL_LOAD_SCRIPT_HASH, None);
    let p = syscall_stub_text(p, "load_cell"@, SYSCALL_LOAD_CELL, Some("a0 = index, a1 = source, a2 = field"@));
    let p = syscall_stub_text(
        p,
        "load_header"@,
        SYSCALL_LOAD_HEADER,
        Some("a0 = buffer, a1 = size pointer, a2 = offset, a3 = index, a4 = source"@),
    );
    let p = syscall_stub_text(p, "load_input"@, SYSCALL_LOAD_INPUT, Some("a0 = index, a1 = source, a2 = field"@));
    let p = syscall_stub_text(p, "load_witness"@, SYSCALL_LOAD_WITNESS, Some("a0 = index, a1 = source"@));
    let p = syscall_stub_text(
        p,
        "load_script"@,
        load_script_syscall(profile),
        Some("a0 = buffer, a1 = size pointer, a2 = offset"@),
    );
    let p = syscall_stub_text(
        p,
        "load_cell_by_field"@,
        SYSCALL_LOAD_CELL_BY_FIELD,
        Some("a0 = buffer, a1 = size pointer, a2 = offset, a3 = index, a4 = source, a5 = field"@),
    );
    let p = syscall_stub_text(
        p,
        "load_cell_data"@,
        SYSCALL_LOAD_CELL_DATA,
        Some("a0 = buffer, a1 = size pointer, a2 = offset, a3 = index, a4 = source"@),
    );
    let p = syscall_stub_text(p, "current_cycles"@, SYSCALL_CURRENT_CYCLES, None);
    syscall_stub_text(p, "debug_print"@, SYSCALL_DEBUG, Some("a0 = msg pointer, a1 = msg length"@))
}

/// The arithmetic helpers, appended to `prefix`.
pub open spec fn math_text(prefix: Seq<char>) -> Seq<char> {
    prefix
        + "# Math: min\n"@
        + ".global __math_min\n"@
        + "__math_min:\n"@
        + "    # a0 = a, a1 = b\n"@
        + "    blt a0, a1, .Lmin_ret_a\n"@
        + "    mv a0, a1\n"@
        + ".Lmin_ret_a:\n"@
        + "    ret\n\n"@
        + "# Math: max\n"@
        + ".global __math_max\n"@
        + "__math_max:\n"@
        + "    # a0 = a, a1 = b\n"@
        + "    bgt a0, a1, .Lmax_ret_a\n"@
        + "    mv a0, a1\n"@
        + ".Lmax_ret_a:\n"@
        + "    ret\n\n"@
        + "# Math: isqrt (integer square root)\n"@
        + ".global __math_isqrt\n"@
        + "__math_isqrt:\n"@
        + "    addi sp, sp, -32\n"@
        + "    sd ra, 24(sp)\n"@
        + "    sd s0, 16(sp)\n"@
        + "    sd s1, 8(sp)\n"@
        + "    # a0 = n\n"@
        + "    beqz a0, .Lisqrt_ret\n"@
        + "    mv s0, a0          # x = n\n"@
        + "    srli s1, a0, 1\n"@
        + "    addi s1, s1, 1     # y = (x + 1) / 2\n"@
        + ".Lisqrt_loop:\n"@
        + "    bge s1, s0, .Lisqrt_ret\n"@
        + "    mv s0, s1          # x = y\n"@
        + "    div t0, a0, s0\n"@
        + "    add s1, s0, t0\n"@
        + "    srli s1, s1, 1     # y = (x + n/x) / 2\n"@
        + "    j .Lisqrt_loop\n"@
        + ".Lisqrt_ret:\n"@
        + "    mv a0, s0\n"@
        + "    ld ra, 24(sp)\n"@
        + "    ld s0, 16(sp)\n"@
        + "    ld s1, 8(sp)\n"@
        + "    addi sp, sp, 32\n"@
        + "    ret\n\n"@
        + "# Math: abs_diff\n"@
        + ".global __math_abs_diff\n"@
        + "__math_abs_diff:\n"@
        + "    # a0 = a, a1 = b\n"@
        + "    sub t0, a0, a1\n"@
        + "    bgez t0, .Labs_diff_ret\n"@
        + "    neg t0, t0\n"@
        + ".Labs_diff_ret:\n"@
        + "    mv a0, t0\n"@
        + "    ret\n\n"@
}

/// The `current_timepoint` helper: the CKB epoch number, read from a header dep.
pub open spec fn current_timepoint_text(prefix: Seq<char>) -> Seq<char> {
    prefix + "# Env: current_timepoint (CKB epoch number, not Unix timestamp)\n"@
        + ".global __env_current_timepoint\n"@ + "__env_current_timepoint:\n"@ + "    addi sp, sp, -16\n"@
        + "    sd ra, 8(sp)\n"@ + "    # Load CKB epoch number from header dep\n"@ + "    li a7, "@ + decimal(
        SYSCALL_LOAD_HEADER_BY_FIELD as nat,
    ) + "  # LOAD_HEADER_BY_FIELD\n"@ + "    li a0, 0     # header index\n"@ + "    li a1, "@ + decimal(
        HEADER_FIELD_EPOCH_NUMBER as nat,
    ) + "     # field = epoch number\n"@ + "    ecall\n"@ + "    ld ra, 8(sp)\n"@ + "    addi sp, sp, 16\n"@
        + "    ret\n\n"@
}

/// The body of a helper that the target profile rejects: it returns the runtime error code.
pub open spec fn rejected_helper_text(prefix: Seq<char>) -> Seq<char> {
    prefix + "    # rejected outside ckb target-profile policy\n"@ + "    # cellscript runtime error "@ + decimal(
        CellScriptRuntimeError::ConsumeInvalidOperand.spec_code() as nat,
    ) + " "@ + CellScriptRuntimeError::ConsumeInvalidOperand.spec_name() + "\n"@ + "    li a0, "@ + decimal(
        CellScriptRuntimeError::ConsumeInvalidOperand.spec_code() as nat,
    ) + "\n"@ + "    ret\n\n"@
}

/// A helper that loads one epoch field of header dep 0, appended to `prefix`.
pub open spec fn epoch_helper_text(
    prefix: Seq<char>,
    symbol: Seq<char>,
    field_name: Seq<char>,
    field_id: u64,
    enabled: bool,
) -> Seq<char> {
    let p = prefix + "# Env: "@ + field_name + "\n"@ + ".global "@ + symbol + "\n"@ + symbol + ":\n"@;
    if !enabled {
        rejected_helper_text(p)
    } else {
        p + "    addi sp, sp, -32\n"@ + "    sd ra, 24(sp)\n"@ + "    # Load from CKB header dep\n"@ + "    li t0, 8\n"@
            + "    sd t0, 8(sp)\n"@ + "    addi a0, sp, 16\n"@ + "    addi a1, sp, 8\n"@ + "    li a2, 0     # offset\n"@
            + "    li a3, 0     # header index\n"@ + "    li a4, "@ + decimal(SOURCE_HEADER_DEP as nat)
            + "     # Source::HeaderDep\n"@ + "    li a5, "@ + decimal(field_id as nat) + "     # field = "@ + field_name
            + "\n"@ + "    li a7, "@ + decimal(SYSCALL_LOAD_HEADER_BY_FIELD as nat) + "  # LOAD_HEADER_BY_FIELD\n"@
            + "    ecall\n"@ + "    ld a0, 16(sp)\n"@ + "    ld ra, 24(sp)\n"@ + "    addi sp, sp, 32\n"@ + "    ret\n\n"@
    }
}

/// The helper that loads the `since` field of the first group input, appended to `prefix`.
pub open spec fn input_since_text(prefix: Seq<char>, enabled: bool) -> Seq<char> {
    let p = prefix + "# Env: ckb_input_since\n"@ + ".global __ckb_input_since\n"@ + "__ckb_input_since:\n"@;
    if !enabled {
        rejected_helper_text(p)
    } else {
        p + "    addi sp, sp, -32\n"@ + "    sd ra, 24(sp)\n"@ + "    # Load CKB input since from current script group\n"@
            + "    li t0, 8\n"@ + "    sd t0, 8(sp)\n"@ + "    addi a0, sp, 16\n"@ + "    addi a1, sp, 8\n"@
            + "    li a2, 0     # offset\n"@ + "    li a3, 0     # group input index\n"@ + "    li a4, "@ + decimal(
            SOURCE_GROUP_INPUT as nat,
        ) + "  # Source::GroupInput\n"@ + "    li a5, "@ + decimal(INPUT_FIELD_SINCE as nat) + "     # field = Since\n"@
            + "    li a7, "@ + decimal(SYSCALL_LOAD_INPUT_BY_FIELD as nat) + "  # LOAD_INPUT_BY_FIELD\n"@ + "    ecall\n"@
            + "    ld a0, 16(sp)\n"@ + "    ld ra, 24(sp)\n"@ + "    addi sp, sp, 32\n"@ + "    ret\n\n"@
    }
}

/// The `remaining_cycles` helper: a fixed cycle budget minus the cycles used so far.
pub open spec fn remaining_cycles_text(prefix: Seq<char>) -> Seq<char> {
    prefix + "# Env: remaining_cycles\n"@ + ".global __env_remaining_cycles\n"@ + "__env_remaining_cycles:\n"@
        + "    addi sp, sp, -16\n"@ + "    sd ra, 8(sp)\n"@ + "    li a7, "@ + decimal(SYSCALL_CURRENT_CYCLES as nat)
        + "  # CURRENT_CYCLES\n"@ + "    ecall\n"@ + "    # a0 = current cycles\n"@ + "    li t0, 10000000  # max cycles\n"@
        + "    sub a0, t0, a0   # remaining\n"@ + "    ld ra, 8(sp)\n"@ + "    addi sp, sp, 16\n"@ + "    ret\n\n"@
}

/// Every environment helper, appended to `prefix`.
pub open spec fn env_text(prefix: Seq<char>, profile: TargetProfile) -> Seq<char> {
    let enabled = profile == TargetProfile::Ckb;
    let p = current_timepoint_text(prefix);
    let p = epoch_helper_text(p, "__ckb_header_epoch_number"@, "ckb_epoch_number"@, HEADER_FIELD_EPOCH_NUMBER, enabled);
    let p = epoch_helper_text(
        p,
        "__ckb_header_epoch_start_block_number"@,
        "ckb_epoch_start_block_number"@,
        HEADER_FIELD_EPOCH_START_BLOCK_NUMBER,
        enabled,
    );
    let p = epoch_helper_text(p, "__ckb_header_epoch_length"@, "ckb_epoch_length"@, HEADER_FIELD_EPOCH_LENGTH, enabled);
    let p = input_since_text(p, enabled);
    remaining_cycles_text(p)
}

/// The whole standard-library assembly listing for a target profile.
pub open spec fn stdlib_assembly(profile: TargetProfile) -> Seq<char> {
    env_text(math_text(syscalls_text("# CellScript Standard Library\n\n"@ + ".section .text\n\n"@, profile)), profile)
}

fn push_math(out: &mut String)
    ensures
        final(out)@ == math_text(old(out)@),
{
    out.append("# Math: min\n");
    out.append(".global __math_min\n");
    out.append("__math_min:\n");
    out.append("    # a0 = a, a1 = b\n");
    out.append("    blt a0, a1, .Lmin_ret_a\n");
    out.append("    mv a0, a1\n");
    out.append(".Lmin_ret_a:\n");
    out.append("    ret\n\n");
    out.append("# Math: max\n");
    out.append(".global __math_max\n");
    out.append("__math_max:\n");
    out.append("    # a0 = a, a1 = b\n");
    out.append("    bgt a0, a1, .Lmax_ret_a\n");
    out.append("    mv a0, a1\n");
    out.append(".Lmax_ret_a:\n");
    out.append("    ret\n\n");
    out.append("# Math: isqrt (integer square root)\n");
    out.append(".global __math_isqrt\n");
    out.append("__math_isqrt:\n");
    out.append("    addi sp, sp, -32\n");
    out.append("    sd ra, 24(sp)\n");
    out.append("    sd s0, 16(sp)\n");
    out.append("    sd s1, 8(sp)\n");
    out.append("    # a0 = n\n");
    out.append("    beqz a0, .Lisqrt_ret\n");
    out.append("    mv s0, a0          # x = n\n");
    out.append("    srli s1, a0, 1\n");
    out.append("    addi s1, s1, 1     # y = (x + 1) / 2\n");
    out.append(".Lisqrt_loop:\n");
    out.append("    bge s1, s0, .Lisqrt_ret\n");
    out.append("    mv s0, s1          # x = y\n");
    out.append("    div t0, a0, s0\n");
    out.append("    add s1, s0, t0\n");
    out.append("    srli s1, s1, 1     # y = (x + n/x) / 2\n");
    out.append("    j .Lisqrt_loop\n");
    out.append(".Lisqrt_ret:\n");
    out.append("    mv a0, s0\n");
    out.append("    ld ra, 24(sp)\n");
    out.append("    ld s0, 16(sp)\n");
    out.append("    ld s1, 8(sp)\n");
    out.append("    addi sp, sp, 32\n");
    out.append("    ret\n\n");
    out.append("# Math: abs_diff\n");
    out.append(".global __math_abs_diff\n");
    out.append("__math_abs_diff:\n");
    out.append("    # a0 = a, a1 = b\n");
    out.append("    sub t0, a0, a1\n");
    out.append("    bgez t0, .Labs_diff_ret\n");
    out.append("    neg t0, t0\n");
    out.append(".Labs_diff_ret:\n");
    out.append("    mv a0, t0\n");
    out.append("    ret\n\n");
}

fn push_syscalls(out: &mut String, profile: TargetProfile)
    ensures
        final(out)@ == syscalls_text(old(out)@, profile),
{
    push_syscall_stub(out, "load_tx_hash", SYSCALL_LOAD_TX_HASH, None);
    push_syscall_stub(out, "load_script_hash", SYSCALL_LOAD_SCRIPT_HASH, None);
    push_syscall_stub(out, "load_cell", SYSCALL_LOAD_CELL, Some("a0 = index, a1 = source, a2 = field"));
    push_syscall_stub(
        out,
        "load_header",
        SYSCALL_LOAD_HEADER,
        Some("a0 = buffer, a1 = size pointer, a2 = offset, a3 = index, a4 = source"),
    );
    push_syscall_stub(out, "load_input", SYSCALL_LOAD_INPUT, Some("a0 = index, a1 = source, a2 = field"));
    push_syscall_stub(out, "load_witness", SYSCALL_LOAD_WITNESS, Some("a0 = index, a1 = source"));
    let load_script = match profile {
        TargetProfile::Ckb => SYSCALL_LOAD_SCRIPT,
    };
    push_syscall_stub(out, "load_script", load_script, Some("a0 = buffer, a1 = size pointer, a2 = offset"));
    push_syscall_stub(
        out,
        "load_cell_by_field",
        SYSCALL_LOAD_CELL_BY_FIELD,
        Some("a0 = buffer, a1 = size pointer, a2 = offset, a3 = index, a4 = source, a5 = field"),
    );
    push_syscall_stub(
        out,
        "load_cell_data",
        SYSCALL_LOAD_CELL_DATA,
        Some("a0 = buffer, a1 = size pointer, a2 = offset, a3 = index, a4 = source"),
    );
    push_syscall_stub(out, "current_cycles", SYSCALL_CURRENT_CYCLES, None);
    push_syscall_stub(out, "debug_print", SYSCALL_DEBUG, Some("a0 = msg pointer, a1 = msg length"));
}

fn push_rejected_helper(out: &mut String)
    ensures
        final(out)@ == rejected_helper_text(old(out)@),
{
    let error = CellScriptRuntimeError::ConsumeInvalidOperand;
    out.append("    # rejected outside ckb target-profile policy\n");
    out.append("    # cellscript runtime error ");
    push_number(out, error.code());
    out.append(" ");
    out.append(error.name());
    out.append("\n");
    out.append("    li a0, ");
    push_number(out, error.code());
    out.append("\n");
    out.append("    ret\n\n");
}

fn push_current_timepoint(out: &mut String)
    ensures
        final(out)@ == current_timepoint_text(old(out)@),
{
    out.append("# Env: current_timepoint (CKB epoch number, not Unix timestamp)\n");
    out.append(".global __env_current_timepoint\n");
    out.append("__env_current_timepoint:\n");
    out.append("    addi sp, sp, -16\n");
    out.append("    sd ra, 8(sp)\n");
    out.append("    # Load CKB epoch number from header dep\n");
    out.append("    li a7, ");
    push_number(out, SYSCALL_LOAD_HEADER_BY_FIELD);
    out.append("  # LOAD_HEADER_BY_FIELD\n");
    out.append("    li a0, 0     # header index\n");
    out.append("    li a1, ");
    push_number(out, HEADER_FIELD_EPOCH_NUMBER);
    out.append("     # field = epoch number\n");
    out.append("    ecall\n");
    out.append("    ld ra, 8(sp)\n");
    out.append("    addi sp, sp, 16\n");
    out.append("    ret\n\n");
}

fn push_ckb_header_epoch_helper(out: &mut String, symbol: &str, field_name: &str, field_id: u64, enabled: bool)
    ensures
        final(out)@ == epoch_helper_text(old(out)@, symbol@, field_name@, field_id, enabled),
{
    out.append("# Env: ");
    out.append(field_name);
    out.append("\n");
    out.append(".global ");
    out.append(symbol);
    out.append("\n");
    out.append(symbol);
    out.append(":\n");
    if !enabled {
        push_rejected_helper(out);
        return;
    }
    out.append("    addi sp, sp, -32\n");
    out.append("    sd ra, 24(sp)\n");
    out.append("    # Load from CKB header dep\n");
    out.append("    li t0, 8\n");
    out.append("    sd t0, 8(sp)\n");
    out.append("    addi a0, sp, 16\n");
    out.append("    addi a1, sp, 8\n");
    out.append("    li a2, 0     # offset\n");
    out.append("    li a3, 0     # header index\n");
    out.append("    li a4, ");
    push_number(out, SOURCE_HEADER_DEP);
    out.append("     # Source::HeaderDep\n");
    out.append("    li a5, ");
    push_number(out, field_id);
    out.append("     # field = ");
    out.append(field_name);
    out.append("\n");
    out.append("    li a7, ");
    push_number(out, SYSCALL_LOAD_HEADER_BY_FIELD);
    out.append("  # LOAD_HEADER_BY_FIELD\n");
    out.append("    ecall\n");
    out.append("    ld a0, 16(sp)\n");
    out.append("    ld ra, 24(sp)\n");
    out.append("    addi sp, sp, 32\n");
    out.append("    ret\n\n");
}

fn push_ckb_input_since_helper(out: &mut String, enabled: bool)
    ensures
        final(out)@ == input_since_text(old(out)@, enabled),
{
    out.append("# Env: ckb_input_since\n");
    out.append(".global __ckb_input_since\n");
    out.append("__ckb_input_since:\n");
    if !enabled {
        push_rejected_helper(out);
        return;
    }
    out.append("    addi sp, sp, -32\n");
    out.append("    sd ra, 24(sp)\n");
    out.append("    # Load CKB input since from current script group\n");
    out.append("    li t0, 8\n");
    out.append("    sd t0, 8(sp)\n");
    out.append("    addi a0, sp, 16\n");
    out.append("    addi a1, sp, 8\n");
    out.append("    li a2, 0     # offset\n");
    out.append("    li a3, 0     # group input index\n");
    out.append("    li a4, ");
    push_number(out, SOURCE_GROUP_INPUT);
    out.append("  # Source::GroupInput\n");
    out.append("    li a5, ");
    push_number(out, INPUT_FIELD_SINCE);
    out.append("     # field = Since\n");
    out.append("    li a7, ");
    push_number(out, SYSCALL_LOAD_INPUT_BY_FIELD);
    out.append("  # LOAD_INPUT_BY_FIELD\n");
    out.append("    ecall\n");
    out.append("    ld a0, 16(sp)\n");
    out.append("    ld ra, 24(sp)\n");
    out.append("    addi sp, sp, 32\n");
    out.append("    ret\n\n");
}

fn push_remaining_cycles(out: &mut String)
    ensures
        final(out)@ == remaining_cycles_text(old(out)@),
{
    out.append("# Env: remaining_cycles\n");
    out.append(".global __env_remaining_cycles\n");
    out.append("__env_remaining_cycles:\n");
    out.append("    addi sp, sp, -16\n");
    out.append("    sd ra, 8(sp)\n");
    out.append("    li a7, ");
    push_number(out, SYSCALL_CURRENT_CYCLES);
    out.append("  # CURRENT_CYCLES\n");
    out.append("    ecall\n");
    out.append("    # a0 = current cycles\n");
    out.append("    li t0, 10000000  # max cycles\n");
    out.append("    sub a0, t0, a0   # remaining\n");
    out.append("    ld ra, 8(sp)\n");
    out.append("    addi sp, sp, 16\n");
    out.append("    ret\n\n");
}

fn push_env(out: &mut String, profile: TargetProfile)
    ensures
        final(out)@ == env_text(old(out)@, profile),
{
    let enabled = profile == TargetProfile::Ckb;
    push_current_timepoint(out);
    push_ckb_header_epoch_helper(out, "__ckb_header_epoch_number", "ckb_epoch_number", HEADER_FIELD_EPOCH_NUMBER, enabled);
    push_ckb_header_epoch_helper(
        out,
        "__ckb_header_epoch_start_block_number",
        "ckb_epoch_start_block_number",
        HEADER_FIELD_EPOCH_START_BLOCK_NUMBER,
        enabled,
    );
    push_ckb_header_epoch_helper(out, "__ckb_header_epoch_length", "ckb_epoch_length", HEADER_FIELD_EPOCH_LENGTH, enabled);
    push_ckb_input_since_helper(out, enabled);
    push_remaining_cycles(out);
}

impl StdLib {
    /// The signatures of all standard-library functions, in table order.
    pub fn functions() -> (r: Vec<StdFunction>)
        ensures
            r@.len() == STD_FUNCTION_COUNT,
            forall|i: int| 0 <= i < r@.len() ==> std_function_entry(i, #[trigger] r@[i]),
    {
        let mut v: Vec<StdFunction> = Vec::new();
        let mut i: usize = 0;
        while i < STD_FUNCTION_COUNT
            invariant
                i <= STD_FUNCTION_COUNT,
                v@.len() == i,
                forall|j: int| 0 <= j < v@.len() ==> std_function_entry(j, #[trigger] v@[j]),
            decreases STD_FUNCTION_COUNT - i,
        {
            v.push(std_function_at(i));
            i += 1;
        }
        v
    }

    /// Whether `name` is a standard-library function.
    pub fn is_std_function(name: &str) -> (r: bool)
        ensures
            r == is_std_name(name@),
    {
        let functions = Self::functions();
        let mut i: usize = 0;
        while i < functions.len()
            invariant
                functions@.len() == STD_FUNCTION_COUNT,
                forall|j: int| 0 <= j < functions@.len() ==> std_function_entry(j, #[trigger] functions@[j]),
                i <= functions@.len(),
                forall|j: int| 0 <= j < i ==> #[trigger] std_function_name(j) != name@,
            decreases functions@.len() - i,
        {
            if str_eq(functions[i].name.as_str(), name) {
                assert(std_function_entry(i as int, functions@[i as int]));
                return true;
            }
            assert(std_function_entry(i as int, functions@[i as int]));
            i += 1;
        }
        false
    }

    /// The signature of the standard-library function named `name`.
    pub fn get_function(name: &str) -> (r: Option<StdFunction>)
        ensures
            r is Some <==> is_std_name(name@),
            r matches Some(f) ==> exists|i: int|
                0 <= i < STD_FUNCTION_COUNT && std_function_entry(i, f) && #[trigger] std_function_name(i) == name@,
    {
        let mut functions = Self::functions();
        let mut i: usize = 0;
        while i < functions.len()
            invariant
                functions@.len() == STD_FUNCTION_COUNT,
                forall|j: int| 0 <= j < functions@.len() ==> std_function_entry(j, #[trigger] functions@[j]),
                i <= functions@.len(),
                forall|j: int| 0 <= j < i ==> #[trigger] std_function_name(j) != name@,
            decreases functions@.len() - i,
        {
            if str_eq(functions[i].name.as_str(), name) {
                assert(std_function_entry(i as int, functions@[i as int]));
                let f = functions.swap_remove(i);
                return Some(f);
            }
            assert(std_function_entry(i as int, functions@[i as int]));
            i += 1;
        }
        None
    }

    /// The standard-library assembly for the default CKB profile.
    pub fn generate_assembly() -> (r: String)
        ensures
            r@ == stdlib_assembly(TargetProfile::Ckb),
    {
        Self::generate_assembly_for_target_profile(TargetProfile::Ckb)
    }

    /// The standard-library assembly for a target profile: syscall stubs, arithmetic helpers
    /// and environment helpers.
    pub fn generate_assembly_for_target_profile(target_profile: TargetProfile) -> (r: String)
        ensures
            r@ == stdlib_assembly(target_profile),
    {
        let mut out = String::new();
        out.append("# CellScript Standard Library\n\n");
        out.append(".section .text\n\n");
        proof {
            assert(Seq::<char>::empty() + "# CellScript Standard Library\n\n"@ =~= "# CellScript Standard Library\n\n"@);
        }
        push_syscalls(&mut out, target_profile);
        push_math(&mut out);
        push_env(&mut out, target_profile);
        out
    }
}

} // verus!
