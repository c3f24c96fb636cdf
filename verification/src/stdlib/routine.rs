//! What the generated arithmetic routines compute, read from their instructions.

use crate::ckb_abi::{TargetProfile, HEADER_FIELD_EPOCH_LENGTH, HEADER_FIELD_EPOCH_NUMBER, HEADER_FIELD_EPOCH_START_BLOCK_NUMBER};
use crate::stdlib::{
    current_timepoint_text, env_text, epoch_helper_text, input_since_text, math_text, rejected_helper_text,
    remaining_cycles_text, stdlib_assembly, syscalls_text,
};
use vstd::prelude::*;

verus! {

/// `x` followed by `y` keeps `x` at its start.
proof fn lemma_concat_keeps(x: Seq<char>, y: Seq<char>)
    ensures
        x.is_prefix_of(x + y),
{
    assert((x + y).subrange(0, x.len() as int) =~= x);
}

/// A text that keeps `x` at its start, extended, still does.
proof fn lemma_prefix_extends(x: Seq<char>, y: Seq<char>, z: Seq<char>)
    requires
        x.is_prefix_of(y),
    ensures
        x.is_prefix_of(y + z),
{
    assert((y + z).subrange(0, x.len() as int) =~= y.subrange(0, x.len() as int));
}

/// Prefix is transitive.
proof fn lemma_prefix_trans(x: Seq<char>, y: Seq<char>, z: Seq<char>)
    requires
        x.is_prefix_of(y),
        y.is_prefix_of(z),
    ensures
        x.is_prefix_of(z),
{
    assert(z.subrange(0, x.len() as int) =~= y.subrange(0, x.len() as int));
}

proof fn lemma_timepoint_keeps(prefix: Seq<char>)
    ensures
        prefix.is_prefix_of(current_timepoint_text(prefix)),
{
    assert(current_timepoint_text(prefix).subrange(0, prefix.len() as int) =~= prefix);
}

proof fn lemma_rejected_keeps(prefix: Seq<char>)
    ensures
        prefix.is_prefix_of(rejected_helper_text(prefix)),
{
    assert(rejected_helper_text(prefix).subrange(0, prefix.len() as int) =~= prefix);
}

proof fn lemma_epoch_keeps(prefix: Seq<char>, symbol: Seq<char>, field_name: Seq<char>, field_id: u64, enabled: bool)
    ensures
        prefix.is_prefix_of(epoch_helper_text(prefix, symbol, field_name, field_id, enabled)),
{
    let p = prefix + "# Env: "@ + field_name + "\n"@ + ".global "@ + symbol + "\n"@ + symbol + ":\n"@;
    assert(p.subrange(0, prefix.len() as int) =~= prefix);
    lemma_rejected_keeps(p);
    let t = epoch_helper_text(prefix, symbol, field_name, field_id, enabled);
    assert(t.subrange(0, p.len() as int) =~= p);
    lemma_prefix_trans(prefix, p, t);
}

proof fn lemma_since_keeps(prefix: Seq<char>, enabled: bool)
    ensures
        prefix.is_prefix_of(input_since_text(prefix, enabled)),
{
    let p = prefix + "# Env: ckb_input_since\n"@ + ".global __ckb_input_since\n"@ + "__ckb_input_since:\n"@;
    assert(p.subrange(0, prefix.len() as int) =~= prefix);
    lemma_rejected_keeps(p);
    let t = input_since_text(prefix, enabled);
    assert(t.subrange(0, p.len() as int) =~= p);
    lemma_prefix_trans(prefix, p, t);
}

proof fn lemma_cycles_keeps(prefix: Seq<char>)
    ensures
        prefix.is_prefix_of(remaining_cycles_text(prefix)),
{
    assert(remaining_cycles_text(prefix).subrange(0, prefix.len() as int) =~= prefix);
}

/// The environment helpers keep what came before them at the start of the listing.
proof fn lemma_env_keeps(prefix: Seq<char>, profile: TargetProfile)
    ensures
        prefix.is_prefix_of(env_text(prefix, profile)),
{
    let enabled = profile == TargetProfile::Ckb;
    let p0 = current_timepoint_text(prefix);
    lemma_timepoint_keeps(prefix);
    let p1 = epoch_helper_text(p0, "__ckb_header_epoch_number"@, "ckb_epoch_number"@, HEADER_FIELD_EPOCH_NUMBER, enabled);
    lemma_epoch_keeps(p0, "__ckb_header_epoch_number"@, "ckb_epoch_number"@, HEADER_FIELD_EPOCH_NUMBER, enabled);
    lemma_prefix_trans(prefix, p0, p1);
    let p2 = epoch_helper_text(
        p1,
        "__ckb_header_epoch_start_block_number"@,
        "ckb_epoch_start_block_number"@,
        HEADER_FIELD_EPOCH_START_BLOCK_NUMBER,
        enabled,
    );
    lemma_epoch_keeps(
        p1,
        "__ckb_header_epoch_start_block_number"@,
        "ckb_epoch_start_block_number"@,
        HEADER_FIELD_EPOCH_START_BLOCK_NUMBER,
        enabled,
    );
    lemma_prefix_trans(prefix, p1, p2);
    let p3 = epoch_helper_text(p2, "__ckb_header_epoch_length"@, "ckb_epoch_length"@, HEADER_FIELD_EPOCH_LENGTH, enabled);
    lemma_epoch_keeps(p2, "__ckb_header_epoch_length"@, "ckb_epoch_length"@, HEADER_FIELD_EPOCH_LENGTH, enabled);
    lemma_prefix_trans(prefix, p2, p3);
    let p4 = input_since_text(p3, enabled);
    lemma_since_keeps(p3, enabled);
    lemma_prefix_trans(prefix, p3, p4);
    lemma_cycles_keeps(p4);
    lemma_prefix_trans(prefix, p4, remaining_cycles_text(p4));
    assert(remaining_cycles_text(p4) == env_text(prefix, profile));
}


/// A window of `text`, starting at `i`, spells `piece`.
pub open spec fn occurs_at(text: Seq<char>, i: int, piece: Seq<char>) -> bool {
    &&& 0 <= i
    &&& i + piece.len() <= text.len()
    &&& text.subrange(i, i + piece.len()) == piece
}

/// The value of a 64-bit register read as a two's-complement integer, as the signed branches
/// read it.
pub open spec fn signed_value(x: u64) -> int {
    if x < 0x8000_0000_0000_0000 {
        x as int
    } else {
        x as int - 0x1_0000_0000_0000_0000
    }
}

/// Whether the RISC-V conditional branch `branch rs1, rs2, label` is taken, for the branch
/// instructions of the base integer set and the assembler's swapped-operand forms; `None` for
/// any other mnemonic.
pub open spec fn branch_taken(branch: Seq<char>, rs1: u64, rs2: u64) -> Option<bool> {
    if branch == "blt"@ {
        Some(signed_value(rs1) < signed_value(rs2))
    } else if branch == "bgt"@ {
        Some(signed_value(rs1) > signed_value(rs2))
    } else if branch == "bge"@ {
        Some(signed_value(rs1) >= signed_value(rs2))
    } else if branch == "ble"@ {
        Some(signed_value(rs1) <= signed_value(rs2))
    } else if branch == "bltu"@ {
        Some(rs1 < rs2)
    } else if branch == "bgtu"@ {
        Some(rs1 > rs2)
    } else if branch == "bgeu"@ {
        Some(rs1 >= rs2)
    } else if branch == "bleu"@ {
        Some(rs1 <= rs2)
    } else if branch == "beq"@ {
        Some(rs1 == rs2)
    } else if branch == "bne"@ {
        Some(rs1 != rs2)
    } else {
        None
    }
}

/// The text of a two-way select routine named `symbol`: with `a0 = a` and `a1 = b`, it jumps to
/// `label`, keeping `a0`, when `branch` is taken on `a0, a1`, and otherwise moves `a1` into
/// `a0`; then it returns.
pub open spec fn select_routine(symbol: Seq<char>, branch: Seq<char>, label: Seq<char>) -> Seq<char> {
    ".global "@ + symbol + "\n"@ + symbol + ":\n"@ + "    # a0 = a, a1 = b\n"@ + "    "@ + branch + " a0, a1, "@ + label
        + "\n"@ + "    mv a0, a1\n"@ + label + ":\n"@ + "    ret\n"@
}

/// What a select routine with `branch` leaves in `a0` when called with `a0 = a` and `a1 = b`.
pub open spec fn select_result(branch: Seq<char>, a: u64, b: u64) -> Option<u64> {
    match branch_taken(branch, a, b) {
        Some(taken) => Some(if taken { a } else { b }),
        None => None,
    }
}

/// A window inside a prefix of a text is the same window of the text.
proof fn lemma_window_in_prefix(x: Seq<char>, y: Seq<char>, i: int, piece: Seq<char>)
    requires
        x.is_prefix_of(y),
        occurs_at(x, i, piece),
    ensures
        occurs_at(y, i, piece),
{
    assert(y.subrange(i, i + piece.len()) =~= x.subrange(i, i + piece.len()));
}

/// The lines of the min helper, as the arithmetic text spells them.
pub open spec fn min_lines() -> Seq<char> {
    ".global __math_min\n"@ + "__math_min:\n"@ + "    # a0 = a, a1 = b\n"@ + "    blt a0, a1, .Lmin_ret_a\n"@ + "    mv a0, a1\n"@
        + ".Lmin_ret_a:\n"@ + "    ret\n\n"@
}

/// The lines of the max helper, as the arithmetic text spells them.
pub open spec fn max_lines() -> Seq<char> {
    ".global __math_max\n"@ + "__math_max:\n"@ + "    # a0 = a, a1 = b\n"@ + "    bgt a0, a1, .Lmax_ret_a\n"@ + "    mv a0, a1\n"@
        + ".Lmax_ret_a:\n"@ + "    ret\n\n"@
}

#[verifier::spinoff_prover]
#[verifier::rlimit(60)]
proof fn lemma_min_lines()
    ensures
        min_lines() == select_routine("__math_min"@, "blt"@, ".Lmin_ret_a"@) + "\n"@,
{
    reveal_strlit(".global __math_min\n");
    reveal_strlit("__math_min:\n");
    reveal_strlit("    # a0 = a, a1 = b\n");
    reveal_strlit("    blt a0, a1, .Lmin_ret_a\n");
    reveal_strlit("    mv a0, a1\n");
    reveal_strlit(".Lmin_ret_a:\n");
    reveal_strlit("    ret\n\n");
    reveal_strlit(".global ");
    reveal_strlit("\n");
    reveal_strlit(":\n");
    reveal_strlit("    ");
    reveal_strlit(" a0, a1, ");
    reveal_strlit("    ret\n");
    reveal_strlit("__math_min");
    reveal_strlit("blt");
    reveal_strlit(".Lmin_ret_a");
    assert(min_lines() =~= select_routine("__math_min"@, "blt"@, ".Lmin_ret_a"@) + "\n"@);
}

#[verifier::spinoff_prover]
#[verifier::rlimit(60)]
proof fn lemma_max_lines()
    ensures
        max_lines() == select_routine("__math_max"@, "bgt"@, ".Lmax_ret_a"@) + "\n"@,
{
    reveal_strlit(".global __math_max\n");
    reveal_strlit("__math_max:\n");
    reveal_strlit("    # a0 = a, a1 = b\n");
    reveal_strlit("    bgt a0, a1, .Lmax_ret_a\n");
    reveal_strlit("    mv a0, a1\n");
    reveal_strlit(".Lmax_ret_a:\n");
    reveal_strlit("    ret\n\n");
    reveal_strlit(".global ");
    reveal_strlit("\n");
    reveal_strlit(":\n");
    reveal_strlit("    ");
    reveal_strlit(" a0, a1, ");
    reveal_strlit("    ret\n");
    reveal_strlit("__math_max");
    reveal_strlit("bgt");
    reveal_strlit(".Lmax_ret_a");
    assert(max_lines() =~= select_routine("__math_max"@, "bgt"@, ".Lmax_ret_a"@) + "\n"@);
}

/// The arithmetic text begins with the min and max helpers.
#[verifier::spinoff_prover]
#[verifier::rlimit(60)]
proof fn lemma_math_head(prefix: Seq<char>)
    ensures
        (prefix + "# Math: min\n"@ + min_lines() + "# Math: max\n"@ + max_lines()).is_prefix_of(math_text(prefix)),
{
    let a = prefix + "# Math: min\n"@ + ".global __math_min\n"@ + "__math_min:\n"@ + "    # a0 = a, a1 = b\n"@
        + "    blt a0, a1, .Lmin_ret_a\n"@ + "    mv a0, a1\n"@ + ".Lmin_ret_a:\n"@ + "    ret\n\n"@ + "# Math: max\n"@
        + ".global __math_max\n"@ + "__math_max:\n"@ + "    # a0 = a, a1 = b\n"@ + "    bgt a0, a1, .Lmax_ret_a\n"@
        + "    mv a0, a1\n"@ + ".Lmax_ret_a:\n"@ + "    ret\n\n"@;
    assert(math_text(prefix).subrange(0, a.len() as int) =~= a);
    assert(a =~= prefix + "# Math: min\n"@ + min_lines() + "# Math: max\n"@ + max_lines());
}

/// The min and max helpers stand in the arithmetic text as select routines.
#[verifier::spinoff_prover]
#[verifier::rlimit(60)]
proof fn lemma_math_selects(prefix: Seq<char>)
    ensures
        occurs_at(math_text(prefix), (prefix.len() + "# Math: min\n"@.len()) as int, select_routine("__math_min"@, "blt"@, ".Lmin_ret_a"@)),
        occurs_at(
            math_text(prefix),
            (prefix.len() + "# Math: min\n"@.len() + select_routine("__math_min"@, "blt"@, ".Lmin_ret_a"@).len() + 1
                + "# Math: max\n"@.len()) as int,
            select_routine("__math_max"@, "bgt"@, ".Lmax_ret_a"@),
        ),
{
    let min = select_routine("__math_min"@, "blt"@, ".Lmin_ret_a"@);
    let max = select_routine("__math_max"@, "bgt"@, ".Lmax_ret_a"@);
    lemma_min_lines();
    lemma_max_lines();
    lemma_math_head(prefix);
    let head = prefix + "# Math: min\n"@;
    let upto_max = head + min_lines() + "# Math: max\n"@ + max_lines();
    let i = head.len() as int;
    assert(upto_max.subrange(i, i + min.len()) =~= min);
    reveal_strlit("\n");
    let before_max = head + min_lines() + "# Math: max\n"@;
    let j = i + min.len() + 1 + "# Math: max\n"@.len();
    assert(before_max.len() == j);
    assert(max_lines().subrange(0, max.len() as int) =~= max);
    assert(upto_max.subrange(j, j + max.len()) =~= max);
    lemma_window_in_prefix(upto_max, math_text(prefix), i, min);
    lemma_window_in_prefix(upto_max, math_text(prefix), j, max);
}


/// A `blt` select returns the smaller of its arguments and a `bgt` select the larger, both
/// compared as two's-complement values.
proof fn lemma_select_min_max(a: u64, b: u64)
    ensures
        select_result("blt"@, a, b) == Some(if signed_value(a) <= signed_value(b) { a } else { b }),
        select_result("bgt"@, a, b) == Some(if signed_value(a) >= signed_value(b) { a } else { b }),
{
    reveal_strlit("blt");
    reveal_strlit("bgt");
    assert("bgt"@[1] != "blt"@[1]);
}

/// In the standard-library listing of every target profile, `__math_min` is a select routine
/// that leaves in `a0` the smaller of its two arguments, and `__math_max` one that leaves the
/// larger, comparing them as the two's-complement values its branch reads.
#[verifier::spinoff_prover]
#[verifier::rlimit(60)]
pub proof fn lemma_min_max_routines(profile: TargetProfile)
    ensures
        exists|i: int, branch: Seq<char>, label: Seq<char>|
            #[trigger] occurs_at(stdlib_assembly(profile), i, select_routine("__math_min"@, branch, label)) && forall|a: u64, b: u64|
                #[trigger] select_result(branch, a, b) == Some(if signed_value(a) <= signed_value(b) { a } else { b }),
        exists|i: int, branch: Seq<char>, label: Seq<char>|
            #[trigger] occurs_at(stdlib_assembly(profile), i, select_routine("__math_max"@, branch, label)) && forall|a: u64, b: u64|
                #[trigger] select_result(branch, a, b) == Some(if signed_value(a) >= signed_value(b) { a } else { b }),
{
    let start = syscalls_text("# CellScript Standard Library\n\n"@ + ".section .text\n\n"@, profile);
    let math = math_text(start);
    let min = select_routine("__math_min"@, "blt"@, ".Lmin_ret_a"@);
    let max = select_routine("__math_max"@, "bgt"@, ".Lmax_ret_a"@);
    let i = (start.len() + "# Math: min\n"@.len()) as int;
    let j = (start.len() + "# Math: min\n"@.len() + min.len() + 1 + "# Math: max\n"@.len()) as int;
    lemma_math_selects(start);
    lemma_env_keeps(math, profile);
    assert(stdlib_assembly(profile) == env_text(math, profile));
    lemma_window_in_prefix(math, stdlib_assembly(profile), i, min);
    lemma_window_in_prefix(math, stdlib_assembly(profile), j, max);
    assert forall|a: u64, b: u64|
        #[trigger] select_result("blt"@, a, b) == Some(if signed_value(a) <= signed_value(b) { a } else { b }) by {
        lemma_select_min_max(a, b);
    }
    assert forall|a: u64, b: u64|
        #[trigger] select_result("bgt"@, a, b) == Some(if signed_value(a) >= signed_value(b) { a } else { b }) by {
        lemma_select_min_max(a, b);
    }
    assert(occurs_at(stdlib_assembly(profile), i, select_routine("__math_min"@, "blt"@, ".Lmin_ret_a"@)));
    assert(occurs_at(stdlib_assembly(profile), j, select_routine("__math_max"@, "bgt"@, ".Lmax_ret_a"@)));
}


/// Whether the RISC-V compare-with-zero branch `branch rs, label` is taken; `None` for any other
/// mnemonic.
pub open spec fn zero_branch_taken(branch: Seq<char>, rs: u64) -> Option<bool> {
    if branch == "bgez"@ {
        Some(signed_value(rs) >= 0)
    } else if branch == "bltz"@ {
        Some(signed_value(rs) < 0)
    } else if branch == "bgtz"@ {
        Some(signed_value(rs) > 0)
    } else if branch == "blez"@ {
        Some(signed_value(rs) <= 0)
    } else if branch == "beqz"@ {
        Some(rs == 0)
    } else if branch == "bnez"@ {
        Some(rs != 0)
    } else {
        None
    }
}

/// What the register-register instruction `op rd, rs1, rs2` writes to `rd`, for the wrapping
/// additive instructions; `None` for any other mnemonic.
pub open spec fn arith_result(op: Seq<char>, rs1: u64, rs2: u64) -> Option<u64> {
    if op == "sub"@ {
        Some(((rs1 as int - rs2 as int + 0x1_0000_0000_0000_0000) % 0x1_0000_0000_0000_0000) as u64)
    } else if op == "add"@ {
        Some(((rs1 as int + rs2 as int) % 0x1_0000_0000_0000_0000) as u64)
    } else {
        None
    }
}

/// What `neg rd, rs` writes to `rd`: the two's-complement negation.
pub open spec fn negated(x: u64) -> u64 {
    ((0x1_0000_0000_0000_0000 - x as int) % 0x1_0000_0000_0000_0000) as u64
}

/// The text of a difference routine named `symbol`: with `a0 = a` and `a1 = b`, it computes
/// `op t0, a0, a1`, negates `t0` unless `branch` is taken on it, and returns `t0` in `a0`.
pub open spec fn difference_routine(symbol: Seq<char>, op: Seq<char>, branch: Seq<char>, label: Seq<char>) -> Seq<char> {
    ".global "@ + symbol + "\n"@ + symbol + ":\n"@ + "    # a0 = a, a1 = b\n"@ + "    "@ + op + " t0, a0, a1\n"@ + "    "@
        + branch + " t0, "@ + label + "\n"@ + "    neg t0, t0\n"@ + label + ":\n"@ + "    mv a0, t0\n"@ + "    ret\n"@
}

/// What a difference routine leaves in `a0` when called with `a0 = a` and `a1 = b`.
pub open spec fn difference_result(op: Seq<char>, branch: Seq<char>, a: u64, b: u64) -> Option<u64> {
    match arith_result(op, a, b) {
        Some(t) => match zero_branch_taken(branch, t) {
            Some(taken) => Some(if taken { t } else { negated(t) }),
            None => None,
        },
        None => None,
    }
}

/// The lines of the abs_diff helper, as the arithmetic text spells them.
pub open spec fn abs_diff_lines() -> Seq<char> {
    ".global __math_abs_diff\n"@ + "__math_abs_diff:\n"@ + "    # a0 = a, a1 = b\n"@ + "    sub t0, a0, a1\n"@
        + "    bgez t0, .Labs_diff_ret\n"@ + "    neg t0, t0\n"@ + ".Labs_diff_ret:\n"@ + "    mv a0, t0\n"@ + "    ret\n\n"@
}

#[verifier::spinoff_prover]
#[verifier::rlimit(60)]
proof fn lemma_abs_diff_lines()
    ensures
        abs_diff_lines() == difference_routine("__math_abs_diff"@, "sub"@, "bgez"@, ".Labs_diff_ret"@) + "\n"@,
{
    reveal_strlit(".global __math_abs_diff\n");
    reveal_strlit("__math_abs_diff:\n");
    reveal_strlit("    # a0 = a, a1 = b\n");
    reveal_strlit("    sub t0, a0, a1\n");
    reveal_strlit("    bgez t0, .Labs_diff_ret\n");
    reveal_strlit("    neg t0, t0\n");
    reveal_strlit(".Labs_diff_ret:\n");
    reveal_strlit("    mv a0, t0\n");
    reveal_strlit("    ret\n\n");
    reveal_strlit(".global ");
    reveal_strlit("\n");
    reveal_strlit(":\n");
    reveal_strlit("    ");
    reveal_strlit(" t0, a0, a1\n");
    reveal_strlit(" t0, ");
    reveal_strlit("    ret\n");
    reveal_strlit("__math_abs_diff");
    reveal_strlit("sub");
    reveal_strlit("bgez");
    reveal_strlit(".Labs_diff_ret");
    assert(abs_diff_lines() =~= difference_routine("__math_abs_diff"@, "sub"@, "bgez"@, ".Labs_diff_ret"@) + "\n"@);
}

/// The arithmetic text ends with the abs_diff helper.
#[verifier::spinoff_prover]
#[verifier::rlimit(60)]
proof fn lemma_math_tail(prefix: Seq<char>)
    ensures
        math_text(prefix).len() >= abs_diff_lines().len() + "# Math: abs_diff\n"@.len(),
        math_text(prefix).subrange(math_text(prefix).len() - abs_diff_lines().len(), math_text(prefix).len() as int)
            == abs_diff_lines(),
{
    let whole = math_text(prefix);
    let n = abs_diff_lines().len();
    assert(whole.subrange(whole.len() - n, whole.len() as int) =~= abs_diff_lines());
}

/// A `sub`/`bgez` difference routine returns how far apart its arguments are, whenever they are
/// less than 2^63 apart.
#[verifier::spinoff_prover]
#[verifier::rlimit(60)]
proof fn lemma_difference_abs(a: u64, b: u64)
    requires
        -0x8000_0000_0000_0000 < (a as int - b as int) < 0x8000_0000_0000_0000,
    ensures
        difference_result("sub"@, "bgez"@, a, b) == Some(
            (if a >= b {
                a - b
            } else {
                b - a
            }) as u64,
        ),
{
    reveal_strlit("sub");
    reveal_strlit("bgez");
}

/// In the standard-library listing of every target profile, `__math_abs_diff` is a difference
/// routine that leaves in `a0` the distance between its two arguments, for any two arguments
/// less than 2^63 apart.
#[verifier::spinoff_prover]
#[verifier::rlimit(60)]
pub proof fn lemma_abs_diff_routine(profile: TargetProfile)
    ensures
        exists|i: int, op: Seq<char>, branch: Seq<char>, label: Seq<char>|
            #[trigger] occurs_at(stdlib_assembly(profile), i, difference_routine("__math_abs_diff"@, op, branch, label)) && forall|
                a: u64,
                b: u64,
            |
                -0x8000_0000_0000_0000 < (a as int - b as int) < 0x8000_0000_0000_0000 ==> #[trigger] difference_result(op, branch, a, b)
                    == Some(
                    (if a >= b {
                        a - b
                    } else {
                        b - a
                    }) as u64,
                ),
{
    let start = syscalls_text("# CellScript Standard Library\n\n"@ + ".section .text\n\n"@, profile);
    let math = math_text(start);
    let routine = difference_routine("__math_abs_diff"@, "sub"@, "bgez"@, ".Labs_diff_ret"@);
    lemma_abs_diff_lines();
    lemma_math_tail(start);
    let i = math.len() - abs_diff_lines().len();
    assert(math.subrange(i, i + routine.len()) =~= abs_diff_lines().subrange(0, routine.len() as int));
    assert(abs_diff_lines().subrange(0, routine.len() as int) =~= routine);
    lemma_env_keeps(math, profile);
    assert(stdlib_assembly(profile) == env_text(math, profile));
    lemma_window_in_prefix(math, stdlib_assembly(profile), i, routine);
    assert forall|a: u64, b: u64|
        -0x8000_0000_0000_0000 < (a as int - b as int) < 0x8000_0000_0000_0000 implies #[trigger] difference_result(
            "sub"@,
            "bgez"@,
            a,
            b,
        ) == Some(
        (if a >= b {
            a - b
        } else {
            b - a
        }) as u64,
    ) by {
        lemma_difference_abs(a, b);
    }
    assert(occurs_at(stdlib_assembly(profile), i, routine));
}

} // verus!
