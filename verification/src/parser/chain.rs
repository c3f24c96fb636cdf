//! The grammar of binary operator chains: operands joined by binary operators, grouped by
//! precedence and, within one precedence, from the left.

use crate::ast::{BinaryExpr, BinaryOp, Expr};
use crate::lexer::token::{Token, TokenKind};
use super::{ends_operand, literal_expr};
use vstd::prelude::*;

verus! {

/// The precedence of a binary operator token, lowest binding first (`||` is 0, `*` `/` `%` are
/// 9); -1 for a token that is no binary operator. Shifts, made of two tokens, take precedence 7
/// and have no single token.
pub open spec fn binop_level(k: TokenKind) -> int {
    match k {
        TokenKind::Or => 0,
        TokenKind::And => 1,
        TokenKind::Pipe => 2,
        TokenKind::Caret => 3,
        TokenKind::Ampersand => 4,
        TokenKind::EqEq | TokenKind::NotEq => 5,
        TokenKind::Lt | TokenKind::Le | TokenKind::Gt | TokenKind::Ge => 6,
        TokenKind::Plus | TokenKind::Minus => 8,
        TokenKind::Star | TokenKind::Slash | TokenKind::Percent => 9,
        _ => -1,
    }
}

/// The operator a binary operator token names.
pub open spec fn binop_of(k: TokenKind) -> BinaryOp {
    match k {
        TokenKind::Or => BinaryOp::Or,
        TokenKind::And => BinaryOp::And,
        TokenKind::Pipe => BinaryOp::BitOr,
        TokenKind::Caret => BinaryOp::BitXor,
        TokenKind::Ampersand => BinaryOp::BitAnd,
        TokenKind::EqEq => BinaryOp::Eq,
        TokenKind::NotEq => BinaryOp::Ne,
        TokenKind::Lt => BinaryOp::Lt,
        TokenKind::Le => BinaryOp::Le,
        TokenKind::Gt => BinaryOp::Gt,
        TokenKind::Ge => BinaryOp::Ge,
        TokenKind::Plus => BinaryOp::Add,
        TokenKind::Minus => BinaryOp::Sub,
        TokenKind::Star => BinaryOp::Mul,
        TokenKind::Slash => BinaryOp::Div,
        _ => BinaryOp::Mod,
    }
}

/// From token `i` on: literal operands joined by binary operator tokens, the last operand
/// followed by a token that ends an operand.
pub open spec fn flat_chain(t: Seq<Token>, i: int) -> bool
    decreases t.len() - i,
{
    &&& 0 <= i
    &&& i + 1 < t.len()
    &&& literal_expr(t[i].kind) is Some
    &&& (ends_operand(t[i + 1].kind) || (binop_level(t[i + 1].kind) >= 0 && flat_chain(t, i + 2)))
}

/// The last operand, from operand `i` on, reached through operators of precedence `lvl` or
/// higher: where an expression of precedence `lvl` starting at `i` ends.
pub open spec fn chain_extent(t: Seq<Token>, lvl: int, i: int) -> int
    decreases t.len() - i,
{
    if 0 <= i && i + 2 < t.len() && binop_level(t[i + 1].kind) >= 0 && binop_level(t[i + 1].kind) >= lvl {
        chain_extent(t, lvl, i + 2)
    } else {
        i
    }
}

/// The last operator of precedence exactly `lvl` between operands `i` and `j`.
pub open spec fn last_op(t: Seq<Token>, lvl: int, i: int, j: int) -> Option<int>
    decreases j - i,
{
    if j <= i + 1 {
        None
    } else if binop_level(t[j - 1].kind) == lvl {
        Some(j - 1)
    } else {
        last_op(t, lvl, i, j - 2)
    }
}

/// Where the node of an operator at `o` of precedence `lvl` is placed: at the operator for the
/// logical and bitwise operators, at the right operand for the others.
pub open spec fn op_span(t: Seq<Token>, lvl: int, o: int) -> crate::error::Span {
    if lvl <= 4 {
        t[o].span
    } else {
        t[o + 1].span
    }
}

/// The expression of precedence `lvl` over operands `i` to `j` of a chain: split at the last
/// operator of precedence `lvl`, the left side again of precedence `lvl`, the right side of the
/// next precedence; with no such operator, the expression of the next precedence.
pub open spec fn chain_tree(t: Seq<Token>, lvl: int, i: int, j: int) -> Expr
    decreases j - i, 10 - lvl,
{
    if lvl >= 10 || j <= i {
        literal_expr(t[i].kind)->0
    } else {
        match last_op(t, lvl, i, j) {
            Some(o) => if i < o && o < j {
                Expr::Binary(
                    BinaryExpr {
                        op: binop_of(t[o].kind),
                        left: Box::new(chain_tree(t, lvl, i, o - 1)),
                        right: Box::new(chain_tree(t, lvl + 1, o + 1, j)),
                        span: op_span(t, lvl, o),
                    },
                )
            } else {
                literal_expr(t[i].kind)->0
            },
            None => chain_tree(t, lvl + 1, i, j),
        }
    }
}

/// Every operator between operands `i` and `j` has precedence above `lvl`.
pub open spec fn ops_above(t: Seq<Token>, lvl: int, i: int, j: int) -> bool
    decreases j - i,
{
    j <= i + 1 || (binop_level(t[i + 1].kind) > lvl && ops_above(t, lvl, i + 2, j))
}

proof fn lemma_extent(t: Seq<Token>, lvl: int, i: int)
    requires
        flat_chain(t, i),
    ensures
        chain_extent(t, lvl, i) >= i,
        (chain_extent(t, lvl, i) - i) % 2 == 0,
        flat_chain(t, chain_extent(t, lvl, i)),
        binop_level(t[chain_extent(t, lvl, i) + 1].kind) < lvl || ends_operand(
            t[chain_extent(t, lvl, i) + 1].kind,
        ),
        ops_above(t, lvl - 1, i, chain_extent(t, lvl, i)),
    decreases t.len() - i,
{
    if i + 2 < t.len() && binop_level(t[i + 1].kind) >= 0 && binop_level(t[i + 1].kind) >= lvl {
        if ends_operand(t[i + 1].kind) {
            assert(binop_level(t[i + 1].kind) == -1);
        }
        lemma_extent(t, lvl, i + 2);
    } else if !ends_operand(t[i + 1].kind) {
        assert(binop_level(t[i + 1].kind) >= 0);
        assert(flat_chain(t, i + 2));
    }
}

proof fn lemma_ops_above_weaken(t: Seq<Token>, l1: int, l2: int, i: int, j: int)
    requires
        ops_above(t, l1, i, j),
        l2 <= l1,
    ensures
        ops_above(t, l2, i, j),
    decreases j - i,
{
    if j > i + 1 {
        lemma_ops_above_weaken(t, l1, l2, i + 2, j);
    }
}

proof fn lemma_extent_through(t: Seq<Token>, lvl: int, a: int, c: int)
    requires
        0 <= lvl,
        flat_chain(t, a),
        a <= c,
        ops_above(t, lvl - 1, a, c),
        (c - a) % 2 == 0,
    ensures
        chain_extent(t, lvl, a) == chain_extent(t, lvl, c),
        flat_chain(t, c),
    decreases c - a,
{
    if a < c {
        assert(binop_level(t[a + 1].kind) >= lvl);
        assert(!ends_operand(t[a + 1].kind));
        assert(flat_chain(t, a + 2));
        lemma_extent_through(t, lvl, a + 2, c);
    }
}

proof fn lemma_ops_above_right(t: Seq<Token>, lvl: int, i: int, j: int)
    requires
        ops_above(t, lvl, i, j),
        j >= i + 2,
        (j - i) % 2 == 0,
    ensures
        binop_level(t[j - 1].kind) > lvl,
        ops_above(t, lvl, i, j - 2),
    decreases j - i,
{
    if j > i + 2 {
        lemma_ops_above_right(t, lvl, i + 2, j);
    }
}

proof fn lemma_no_last_op(t: Seq<Token>, lvl: int, i: int, j: int)
    requires
        ops_above(t, lvl, i, j),
        (j - i) % 2 == 0,
    ensures
        last_op(t, lvl, i, j) is None,
    decreases j - i,
{
    if j > i {
        lemma_ops_above_right(t, lvl, i, j);
        lemma_no_last_op(t, lvl, i, j - 2);
    }
}

proof fn lemma_last_op_at(t: Seq<Token>, lvl: int, i: int, o: int, j: int)
    requires
        ops_above(t, lvl, o + 1, j),
        binop_level(t[o].kind) == lvl,
        i < o < j,
        (j - o - 1) % 2 == 0,
    ensures
        last_op(t, lvl, i, j) == Some(o),
    decreases j - i,
{
    if j - 1 != o {
        lemma_ops_above_right(t, lvl, o + 1, j);
        lemma_last_op_at(t, lvl, i, o, j - 2);
    }
}

/// The first operand of an expression of precedence `lvl`: the expression of the next
/// precedence that starts there is one of precedence `lvl` too, and ends where that one
/// continues.
pub proof fn lemma_level_start(t: Seq<Token>, lvl: int, a: int)
    requires
        flat_chain(t, a),
        0 <= lvl < 10,
    ensures
        ({
            let b = chain_extent(t, lvl + 1, a);
            &&& b >= a
            &&& (b - a) % 2 == 0
            &&& flat_chain(t, b)
            &&& binop_level(t[b + 1].kind) <= lvl
            &&& chain_tree(t, lvl, a, b) == chain_tree(t, lvl + 1, a, b)
            &&& chain_extent(t, lvl, a) == chain_extent(t, lvl, b)
        }),
{
    let b = chain_extent(t, lvl + 1, a);
    lemma_extent(t, lvl + 1, a);
    lemma_no_last_op(t, lvl, a, b);
    lemma_ops_above_weaken(t, lvl, lvl - 1, a, b);
    lemma_extent_through(t, lvl, a, b);
}

/// One more operator of precedence `lvl` after the operands `a0` to `b`: the expression grows
/// by a node of that operator whose right side is the expression of the next precedence.
pub proof fn lemma_level_step(t: Seq<Token>, lvl: int, a0: int, b: int)
    requires
        flat_chain(t, b),
        binop_level(t[b + 1].kind) == lvl,
        0 <= lvl < 10,
        a0 <= b,
        (b - a0) % 2 == 0,
        chain_extent(t, lvl, a0) == chain_extent(t, lvl, b),
    ensures
        flat_chain(t, b + 2),
        ({
            let c = chain_extent(t, lvl + 1, b + 2);
            &&& c >= b + 2
            &&& (c - a0) % 2 == 0
            &&& flat_chain(t, c)
            &&& binop_level(t[c + 1].kind) <= lvl
            &&& chain_tree(t, lvl, a0, c) == Expr::Binary(
                BinaryExpr {
                    op: binop_of(t[b + 1].kind),
                    left: Box::new(chain_tree(t, lvl, a0, b)),
                    right: Box::new(chain_tree(t, lvl + 1, b + 2, c)),
                    span: op_span(t, lvl, b + 1),
                },
            )
            &&& chain_extent(t, lvl, a0) == chain_extent(t, lvl, c)
        }),
{
    assert(!ends_operand(t[b + 1].kind));
    assert(flat_chain(t, b + 2));
    let c = chain_extent(t, lvl + 1, b + 2);
    lemma_extent(t, lvl + 1, b + 2);
    lemma_last_op_at(t, lvl, a0, b + 1, c);
    lemma_ops_above_weaken(t, lvl, lvl - 1, b + 2, c);
    lemma_extent_through(t, lvl, b + 2, c);
    assert(chain_extent(t, lvl, b) == chain_extent(t, lvl, b + 2));
}

/// An expression of precedence `lvl` ends at an operand followed by no operator of that
/// precedence or higher.
pub proof fn lemma_level_stop(t: Seq<Token>, lvl: int, a0: int, b: int)
    requires
        flat_chain(t, b),
        binop_level(t[b + 1].kind) < lvl,
        chain_extent(t, lvl, a0) == chain_extent(t, lvl, b),
    ensures
        chain_extent(t, lvl, a0) == b,
{
}

/// An expression of the lowest precedence ends at the last operand of its chain, which the
/// token that ends the operand follows.
pub proof fn lemma_level_stop_end(t: Seq<Token>, a: int)
    requires
        flat_chain(t, a),
    ensures
        chain_extent(t, 0, a) >= a,
        ends_operand(t[chain_extent(t, 0, a) + 1].kind),
        flat_chain(t, chain_extent(t, 0, a)),
{
    lemma_extent(t, 0, a);
}

/// An operand followed by an operator or the end of its chain is an expression of the highest
/// precedence by itself.
pub proof fn lemma_operand(t: Seq<Token>, a: int)
    requires
        flat_chain(t, a),
    ensures
        chain_extent(t, 10, a) == a,
        chain_tree(t, 10, a, a) == literal_expr(t[a].kind)->0,
        binop_level(t[a + 1].kind) >= 0 || ends_operand(t[a + 1].kind),
{
}

/// Every token of a chain, up to the last operand of its lowest-precedence expression, is an
/// operand literal or a binary operator.
pub proof fn lemma_chain_no_eof(t: Seq<Token>, i: int)
    requires
        flat_chain(t, i),
    ensures
        chain_extent(t, 0, i) >= i,
        chain_extent(t, 0, i) + 1 < t.len(),
        forall|k: int| i <= k <= chain_extent(t, 0, i) ==> literal_expr((#[trigger] t[k]).kind) is Some || binop_level(t[k].kind) >= 0,
    decreases t.len() - i,
{
    if i + 2 < t.len() && binop_level(t[i + 1].kind) >= 0 {
        assert(!ends_operand(t[i + 1].kind));
        assert(flat_chain(t, i + 2));
        lemma_chain_no_eof(t, i + 2);
    } else if !ends_operand(t[i + 1].kind) {
        assert(flat_chain(t, i + 2));
    }
}

proof fn lemma_last_op_agree(t: Seq<Token>, v: Seq<Token>, lvl: int, i: int, j: int)
    requires
        0 <= i,
        forall|k: int| 0 <= k < j ==> (#[trigger] v[k]).kind == t[k].kind,
    ensures
        last_op(v, lvl, i, j) == last_op(t, lvl, i, j),
    decreases j - i,
{
    if j > i + 1 {
        assert(v[j - 1].kind == t[j - 1].kind);
        lemma_last_op_agree(t, v, lvl, i, j - 2);
    }
}

proof fn lemma_tree_agree(t: Seq<Token>, v: Seq<Token>, lvl: int, i: int, j: int)
    requires
        0 <= i <= j,
        forall|k: int| 0 <= k <= j ==> (#[trigger] v[k]).kind == t[k].kind && v[k].span == t[k].span,
    ensures
        chain_tree(v, lvl, i, j) == chain_tree(t, lvl, i, j),
    decreases j - i, 10 - lvl,
{
    if lvl >= 10 || j <= i {
        assert(v[i].kind == t[i].kind);
    } else {
        lemma_last_op_agree(t, v, lvl, i, j);
        match last_op(t, lvl, i, j) {
            Some(o) => if i < o && o < j {
                assert(v[o].kind == t[o].kind && v[o].span == t[o].span);
                assert(v[o + 1].span == t[o + 1].span);
                lemma_tree_agree(t, v, lvl, i, o - 1);
                lemma_tree_agree(t, v, lvl + 1, o + 1, j);
            } else {
                assert(v[i].kind == t[i].kind);
            },
            None => {
                lemma_tree_agree(t, v, lvl + 1, i, j);
            },
        }
    }
}

proof fn lemma_flat_agree(t: Seq<Token>, v: Seq<Token>, i: int, e: int)
    requires
        flat_chain(t, i),
        chain_extent(t, 0, i) + 1 == e,
        e < v.len(),
        forall|k: int| 0 <= k < e ==> (#[trigger] v[k]).kind == t[k].kind,
        v[e].kind == t[e].kind,
    ensures
        flat_chain(v, i),
        chain_extent(v, 0, i) == chain_extent(t, 0, i),
    decreases t.len() - i,
{
    lemma_chain_no_eof(t, i);
    assert(v[i].kind == t[i].kind);
    if ends_operand(t[i + 1].kind) {
        assert(binop_level(t[i + 1].kind) == -1);
        assert(v[i + 1].kind == t[i + 1].kind);
    } else {
        assert(flat_chain(t, i + 2));
        lemma_chain_no_eof(t, i + 2);
        assert(chain_extent(t, 0, i) == chain_extent(t, 0, i + 2));
        assert(v[i + 1].kind == t[i + 1].kind);
        lemma_flat_agree(t, v, i + 2, e);
    }
}

/// A sequence that agrees with a chain on the kinds and places of its tokens, up to the token
/// after its last operand, holds the same chain and the same expression.
pub proof fn lemma_chain_agree(t: Seq<Token>, v: Seq<Token>, i: int, e: int)
    requires
        flat_chain(t, i),
        chain_extent(t, 0, i) + 1 == e,
        e < v.len(),
        forall|k: int| 0 <= k < e ==> (#[trigger] v[k]).kind == t[k].kind && v[k].span == t[k].span,
        v[e].kind == t[e].kind,
    ensures
        flat_chain(v, i),
        chain_extent(v, 0, i) == chain_extent(t, 0, i),
        chain_tree(v, 0, i, e - 1) == chain_tree(t, 0, i, e - 1),
{
    lemma_flat_agree(t, v, i, e);
    lemma_chain_no_eof(t, i);
    lemma_tree_agree(t, v, 0, i, e - 1);
}

proof fn lemma_two_operand_tree(t: Seq<Token>, lvl: int, i: int)
    requires
        0 <= lvl <= binop_level(t[i + 1].kind),
    ensures
        chain_tree(t, lvl, i, i + 2) == Expr::Binary(
            BinaryExpr {
                op: binop_of(t[i + 1].kind),
                left: Box::new(literal_expr(t[i].kind)->0),
                right: Box::new(literal_expr(t[i + 2].kind)->0),
                span: op_span(t, binop_level(t[i + 1].kind), i + 1),
            },
        ),
    decreases binop_level(t[i + 1].kind) - lvl,
{
    if lvl < binop_level(t[i + 1].kind) {
        assert(last_op(t, lvl, i, i) is None);
        assert(last_op(t, lvl, i, i + 2) is None);
        lemma_two_operand_tree(t, lvl + 1, i);
    } else {
        assert(last_op(t, lvl, i, i + 2) == Some(i + 1));
        assert(chain_tree(t, lvl, i, i) == literal_expr(t[i].kind)->0);
        assert(chain_tree(t, lvl + 1, i + 2, i + 2) == literal_expr(t[i + 2].kind)->0);
    }
}

/// Two literal operands joined by one binary operator token form a single node: the operator
/// the token spells (`||` is Or, `&&` And, `|` BitOr, `^` BitXor, `&` BitAnd, `==` Eq, `!=` Ne,
/// `<` Lt, `<=` Le, `>` Gt, `>=` Ge, `+` Add, `-` Sub, `*` Mul, `/` Div, `%` Mod), the first
/// operand on the left and the second on the right.
pub proof fn lemma_binary_operator_meaning(t: Seq<Token>, i: int)
    requires
        flat_chain(t, i),
        binop_level(t[i + 1].kind) >= 0,
        ends_operand(t[i + 3].kind),
    ensures
        chain_extent(t, 0, i) == i + 2,
        chain_tree(t, 0, i, i + 2) matches Expr::Binary(b) && {
            &&& *b.left == literal_expr(t[i].kind)->0
            &&& *b.right == literal_expr(t[i + 2].kind)->0
            &&& t[i + 1].kind is Or ==> b.op == BinaryOp::Or
            &&& t[i + 1].kind is And ==> b.op == BinaryOp::And
            &&& t[i + 1].kind is Pipe ==> b.op == BinaryOp::BitOr
            &&& t[i + 1].kind is Caret ==> b.op == BinaryOp::BitXor
            &&& t[i + 1].kind is Ampersand ==> b.op == BinaryOp::BitAnd
            &&& t[i + 1].kind is EqEq ==> b.op == BinaryOp::Eq
            &&& t[i + 1].kind is NotEq ==> b.op == BinaryOp::Ne
            &&& t[i + 1].kind is Lt ==> b.op == BinaryOp::Lt
            &&& t[i + 1].kind is Le ==> b.op == BinaryOp::Le
            &&& t[i + 1].kind is Gt ==> b.op == BinaryOp::Gt
            &&& t[i + 1].kind is Ge ==> b.op == BinaryOp::Ge
            &&& t[i + 1].kind is Plus ==> b.op == BinaryOp::Add
            &&& t[i + 1].kind is Minus ==> b.op == BinaryOp::Sub
            &&& t[i + 1].kind is Star ==> b.op == BinaryOp::Mul
            &&& t[i + 1].kind is Slash ==> b.op == BinaryOp::Div
            &&& t[i + 1].kind is Percent ==> b.op == BinaryOp::Mod
        },
{
    assert(!ends_operand(t[i + 1].kind));
    assert(flat_chain(t, i + 2));
    assert(binop_level(t[i + 3].kind) == -1);
    assert(chain_extent(t, 0, i + 2) == i + 2);
    lemma_two_operand_tree(t, 0, i);
}

proof fn lemma_three_operand_tree(t: Seq<Token>, lvl: int, i: int)
    requires
        0 <= lvl <= binop_level(t[i + 1].kind),
        lvl <= binop_level(t[i + 3].kind),
    ensures
        binop_level(t[i + 1].kind) < binop_level(t[i + 3].kind) ==> chain_tree(t, lvl, i, i + 4) == Expr::Binary(
            BinaryExpr {
                op: binop_of(t[i + 1].kind),
                left: Box::new(literal_expr(t[i].kind)->0),
                right: Box::new(chain_tree(t, binop_level(t[i + 1].kind) + 1, i + 2, i + 4)),
                span: op_span(t, binop_level(t[i + 1].kind), i + 1),
            },
        ),
        binop_level(t[i + 1].kind) >= binop_level(t[i + 3].kind) ==> chain_tree(t, lvl, i, i + 4) == Expr::Binary(
            BinaryExpr {
                op: binop_of(t[i + 3].kind),
                left: Box::new(chain_tree(t, binop_level(t[i + 3].kind), i, i + 2)),
                right: Box::new(literal_expr(t[i + 4].kind)->0),
                span: op_span(t, binop_level(t[i + 3].kind), i + 3),
            },
        ),
    decreases 10 - lvl,
{
    let l1 = binop_level(t[i + 1].kind);
    let l2 = binop_level(t[i + 3].kind);
    if lvl < l1 && lvl < l2 {
        assert(last_op(t, lvl, i, i) is None);
        assert(last_op(t, lvl, i, i + 2) is None);
        assert(last_op(t, lvl, i, i + 4) is None);
        lemma_three_operand_tree(t, lvl + 1, i);
    } else if lvl == l1 && l1 < l2 {
        assert(last_op(t, lvl, i, i + 4) == Some(i + 1));
        assert(chain_tree(t, lvl, i, i) == literal_expr(t[i].kind)->0);
    } else {
        assert(lvl == l2);
        assert(last_op(t, lvl, i, i + 4) == Some(i + 3));
        assert(chain_tree(t, lvl + 1, i + 4, i + 4) == literal_expr(t[i + 4].kind)->0);
    }
}

/// Three literal operands joined by two binary operators: the operator that binds tighter
/// takes its two neighbours first; of two operators that bind alike the first one does, so
/// operators of one precedence group from the left. `a op1 b op2 c` is `a op1 (b op2 c)` when
/// `op2` binds tighter, and `(a op1 b) op2 c` otherwise.
pub proof fn lemma_precedence_and_left_grouping(t: Seq<Token>, i: int)
    requires
        binop_level(t[i + 1].kind) >= 0,
        binop_level(t[i + 3].kind) >= 0,
    ensures
        binop_level(t[i + 1].kind) < binop_level(t[i + 3].kind) ==> (chain_tree(t, 0, i, i + 4) matches Expr::Binary(b)
            && b.op == binop_of(t[i + 1].kind) && *b.left == literal_expr(t[i].kind)->0 && *b.right == Expr::Binary(
            BinaryExpr {
                op: binop_of(t[i + 3].kind),
                left: Box::new(literal_expr(t[i + 2].kind)->0),
                right: Box::new(literal_expr(t[i + 4].kind)->0),
                span: op_span(t, binop_level(t[i + 3].kind), i + 3),
            },
        )),
        binop_level(t[i + 1].kind) >= binop_level(t[i + 3].kind) ==> (chain_tree(t, 0, i, i + 4) matches Expr::Binary(b)
            && b.op == binop_of(t[i + 3].kind) && *b.right == literal_expr(t[i + 4].kind)->0 && *b.left == Expr::Binary(
            BinaryExpr {
                op: binop_of(t[i + 1].kind),
                left: Box::new(literal_expr(t[i].kind)->0),
                right: Box::new(literal_expr(t[i + 2].kind)->0),
                span: op_span(t, binop_level(t[i + 1].kind), i + 1),
            },
        )),
{
    lemma_three_operand_tree(t, 0, i);
    let l1 = binop_level(t[i + 1].kind);
    let l2 = binop_level(t[i + 3].kind);
    if l1 < l2 {
        lemma_two_operand_tree(t, l1 + 1, i + 2);
    } else {
        lemma_two_operand_tree(t, l2, i);
    }
}

/// The binding strength of the operators, weakest first: `||`, `&&`, `|`, `^`, `&`, then the
/// equality operators, the ordering comparisons, `+` and `-`, and `*`, `/` and `%`; operators
/// in one of these groups bind alike.
pub proof fn lemma_operator_strength()
    ensures
        binop_level(TokenKind::Or) < binop_level(TokenKind::And),
        binop_level(TokenKind::And) < binop_level(TokenKind::Pipe),
        binop_level(TokenKind::Pipe) < binop_level(TokenKind::Caret),
        binop_level(TokenKind::Caret) < binop_level(TokenKind::Ampersand),
        binop_level(TokenKind::Ampersand) < binop_level(TokenKind::EqEq),
        binop_level(TokenKind::EqEq) == binop_level(TokenKind::NotEq),
        binop_level(TokenKind::NotEq) < binop_level(TokenKind::Lt),
        binop_level(TokenKind::Lt) == binop_level(TokenKind::Le),
        binop_level(TokenKind::Le) == binop_level(TokenKind::Gt),
        binop_level(TokenKind::Gt) == binop_level(TokenKind::Ge),
        binop_level(TokenKind::Ge) < binop_level(TokenKind::Plus),
        binop_level(TokenKind::Plus) == binop_level(TokenKind::Minus),
        binop_level(TokenKind::Minus) < binop_level(TokenKind::Star),
        binop_level(TokenKind::Star) == binop_level(TokenKind::Slash),
        binop_level(TokenKind::Slash) == binop_level(TokenKind::Percent),
        binop_level(TokenKind::Or) >= 0,
{
}

} // verus!
