//! Recursive-descent parser from tokens to a module syntax tree.

use crate::ast::{Module, Visibility, Item, UseStmt, UseImport, TypeIdentity, Capability, ValueAbility, EffectClass, SchedulerHint, TypeParam, IdentityPolicy, HashTypeDecl, CapacityFloorDecl, Field, ValidityBlock, ResourceDef, SharedDef, ReceiptDef, StructDef, StateFieldPath, StateTransition, FlowDef, ConstDef, EnumVariant, EnumDef, SourceView, AggregateTarget, AggregateRelation, AggregateInvariantKind, AggregateInvariant, BoundedQuantifierKind, BoundedQuantifier, InvariantDef, Type, ParamSource, Param, ActionOutput, ActionStateEdge, ActionDef, FnDef, LockDef, BindingPattern, Stmt, LetStmt, ReturnStmt, IfStmt, ForStmt, WhileStmt, LoopControlStmt, BorrowStmt, BinaryOp, UnaryOp, AssignOp, DestructionPolicy, BinaryExpr, UnaryExpr, CallExpr, FieldAccessExpr, IndexExpr, CreateExpr, CreateUniqueExpr, ReplaceUniqueExpr, ConsumeExpr, DestroyExpr, ReadRefExpr, ClaimExpr, SettleExpr, AssertExpr, RequireExpr, RequireBlockExpr, PreserveExpr, StdlibCallExpr, IfExpr, CastExpr, RangeExpr, StructInitExpr, MatchPattern, MatchArm, MatchExpr, AssignExpr, ReplaceFieldTreatment, ReplaceDataTreatment, ReplaceLockTreatment, ReplaceCapacityTreatment, ReplaceIdentityTreatment, ReplaceRelation, Expr};
use crate::error::{CompileError, Result, Span};
use crate::lexer::token::{Token, TokenKind};
use crate::lexer::well_terminated;
use crate::text::{chars_of, concat2, concat3, decimal_string, str_eq};
use chain::{binop_level, chain_extent, chain_tree, flat_chain, lemma_level_start, lemma_level_step, lemma_chain_agree, lemma_chain_no_eof, lemma_level_stop, lemma_level_stop_end, lemma_operand};
use vstd::prelude::*;
use vstd::string::StringExecFns;

mod chain;
mod entry;
mod invariant_decl;

pub use entry::{param_well_formed, params_well_formed};
pub use invariant_decl::{aggregate_well_formed, quantifier_well_formed, target_well_formed};

verus! {

/// How deep expressions, types, unary chains, statements and `if` chains may nest.
pub const MAX_PARSE_RECURSION_DEPTH: usize = 32;

/// Entry-body grammar is selected by a frontend, not inferred from source keywords.
#[derive(Debug, Clone, Copy, PartialEq, Eq, Structural)]
pub enum EntryBodyGrammar {
    VerificationSection,
    ConstraintBlock,
}

pub struct Parser<'a> {
    tokens: &'a [Token],
    position: usize,
    recover: bool,
    diagnostics: Vec<CompileError>,
    expression_depth: usize,
    type_depth: usize,
    unary_depth: usize,
    statement_depth: usize,
    if_depth: usize,
    entry_body_grammar: EntryBodyGrammar,
}

struct PendingAttrs {
    type_id: Option<TypeIdentity>,
    capabilities: Option<Vec<Capability>>,
    effect: Option<EffectClass>,
    scheduler_hint: Option<SchedulerHint>,
}

struct TypePolicyDecls {
    default_hash_type: Option<HashTypeDecl>,
    capacity_floor: Option<CapacityFloorDecl>,
    identity: Option<IdentityPolicy>,
}

/// Whether a character is a control character (Unicode category Cc).
pub open spec fn is_control_char(c: char) -> bool {
    (c as u32) < 0x20 || (0x7f <= (c as u32) && (c as u32) <= 0x9f)
}

fn control_char(c: char) -> (r: bool)
    ensures
        r == is_control_char(c),
{
    let code: u32 = c as u32;
    code < 0x20 || (0x7f <= code && code <= 0x9f)
}

/// Whether a string holds a control character.
fn has_control_char(s: &str) -> (r: bool)
    ensures
        r == exists|i: int| 0 <= i < s@.len() && is_control_char(#[trigger] s@[i]),
{
    let cs = chars_of(s);
    let mut i: usize = 0;
    while i < cs.len()
        invariant
            cs@ == s@,
            i <= cs@.len(),
            forall|j: int| 0 <= j < i ==> !is_control_char(#[trigger] cs@[j]),
        decreases cs@.len() - i,
    {
        if control_char(cs[i]) {
            return true;
        }
        i += 1;
    }
    false
}

/// The character rendering of a token kind in diagnostics, payload included where it helps.
pub open spec fn describe_kind(kind: TokenKind) -> Seq<char> {
    match kind {
        TokenKind::Identifier(name) => "identifier '"@ + name@ + "'"@,
        TokenKind::Integer(n) => "integer "@ + crate::text::decimal(n as nat),
        _ => kind.spec_spelling(),
    }
}

fn describe(kind: &TokenKind) -> (s: String)
    ensures
        s@ == describe_kind(*kind),
{
    match kind {
        TokenKind::Identifier(name) => concat3("identifier '", name.as_str(), "'"),
        TokenKind::Integer(n) => {
            let digits = decimal_string(*n);
            concat2("integer ", digits.as_str())
        },
        _ => kind.spelling().to_owned(),
    }
}

impl<'a> Parser<'a> {
    /// The parser's shape: a well-terminated token list, a cursor on a token, depths within the limit.
    pub closed spec fn wf(&self) -> bool {
        &&& well_terminated(self.tokens@)
        &&& self.position < self.tokens@.len()
        &&& self.expression_depth <= MAX_PARSE_RECURSION_DEPTH
        &&& self.type_depth <= MAX_PARSE_RECURSION_DEPTH
        &&& self.unary_depth <= MAX_PARSE_RECURSION_DEPTH
        &&& self.statement_depth <= MAX_PARSE_RECURSION_DEPTH
        &&& self.if_depth <= MAX_PARSE_RECURSION_DEPTH
    }

    /// Everything but the cursor and the collected diagnostics is as in `o`.
    pub closed spec fn frame(&self, o: &Self) -> bool {
        &&& self.tokens@ == o.tokens@
        &&& self.recover == o.recover
        &&& self.entry_body_grammar == o.entry_body_grammar
        &&& self.expression_depth == o.expression_depth
        &&& self.type_depth == o.type_depth
        &&& self.unary_depth == o.unary_depth
        &&& self.statement_depth == o.statement_depth
        &&& self.if_depth == o.if_depth
    }

    /// A step of parsing from `o`: same frame, still well formed, cursor not moved back,
    /// diagnostics only added, and only by a recovering parser.
    pub closed spec fn kept(&self, o: &Self) -> bool {
        &&& self.frame(o)
        &&& self.wf()
        &&& self.position >= o.position
        &&& o.diagnostics@.len() <= self.diagnostics@.len()
        &&& !self.recover ==> self.diagnostics@ == o.diagnostics@
    }

    /// The cursor, as an index into the token list.
    pub closed spec fn pos(&self) -> int {
        self.position as int
    }

    /// The token list.
    pub closed spec fn toks(&self) -> Seq<Token> {
        self.tokens@
    }

    /// The diagnostics collected so far.
    pub closed spec fn diags(&self) -> Seq<CompileError> {
        self.diagnostics@
    }

    /// Whether the parser records errors and resynchronizes instead of stopping.
    pub closed spec fn recovering(&self) -> bool {
        self.recover
    }

    /// The kind of the token under the cursor.
    pub closed spec fn cur_kind(&self) -> TokenKind {
        self.tokens@[self.position as int].kind
    }

    /// The cursor is at a literal that ends an operand, and a unary expression may still be
    /// opened.
    pub closed spec fn at_simple_literal(&self) -> bool {
        &&& self.at_literal_operand()
        &&& self.unary_depth < MAX_PARSE_RECURSION_DEPTH
    }

    /// The cursor is at a literal that ends an operand: the next token closes a list, group or
    /// block, or ends the input.
    pub closed spec fn at_literal_operand(&self) -> bool {
        &&& literal_expr(self.cur_kind()) is Some
        &&& ends_operand(self.tokens@[self.position + 1].kind)
    }

    /// The cursor is at a prefix operator, followed by a literal that ends an operand.
    pub closed spec fn at_prefixed_literal(&self) -> bool {
        &&& prefix_operator(self.cur_kind()) is Some
        &&& literal_at(self.tokens@, self.position + 1)
    }

    /// The prefix operator at the cursor.
    pub closed spec fn prefix_op(&self) -> UnaryOp {
        prefix_operator(self.cur_kind())->0
    }

    /// The expression the literal after the cursor stands for.
    pub closed spec fn next_literal(&self) -> Expr {
        literal_expr(self.tokens@[self.position + 1].kind)->0
    }

    /// The expression the literal at the cursor stands for.
    pub closed spec fn simple_literal(&self) -> Expr {
        literal_expr(self.cur_kind())->0
    }

    /// The cursor is at a literal followed by `+` or `-`, and a unary expression may still be
    /// opened.
    pub closed spec fn at_literal_before_sign(&self) -> bool {
        &&& self.at_literal_then_sign()
        &&& self.unary_depth < MAX_PARSE_RECURSION_DEPTH
    }

    /// The cursor is at a literal followed by `+` or `-`.
    pub closed spec fn at_literal_then_sign(&self) -> bool {
        &&& literal_expr(self.cur_kind()) is Some
        &&& (self.tokens@[self.position + 1].kind is Plus || self.tokens@[self.position + 1].kind is Minus)
    }

    /// The cursor is at `a + b` or `a - b` with literals `a` and `b`, followed by a token that
    /// ends the operand, and a unary expression may still be opened.
    pub closed spec fn at_literal_sum(&self) -> bool {
        &&& self.at_literal_before_sign()
        &&& literal_at(self.tokens@, self.position + 2)
    }

    /// `e` is the sum or difference at the cursor: the operator the sign names, the literal
    /// before it on the left, the literal after it on the right.
    pub closed spec fn is_literal_sum(&self, e: Expr) -> bool {
        &&& e matches Expr::Binary(b)
        &&& b.op == (if self.tokens@[self.position + 1].kind is Plus { BinaryOp::Add } else { BinaryOp::Sub })
        &&& *b.left == self.simple_literal()
        &&& *b.right == literal_expr(self.tokens@[self.position + 2].kind)->0
    }

    /// The cursor is at a literal followed by a binary operator.
    pub closed spec fn at_literal_then_op(&self) -> bool {
        &&& literal_expr(self.cur_kind()) is Some
        &&& binop_level(self.tokens@[self.position + 1].kind) >= 0
    }

    /// From the cursor on: literal operands joined by binary operators, the last one followed by
    /// a token that ends an operand, where a unary expression may still be opened.
    pub closed spec fn chain_ready(&self) -> bool {
        &&& flat_chain(self.tokens@, self.position as int)
        &&& self.unary_depth < MAX_PARSE_RECURSION_DEPTH
    }

    /// The last operand of the expression of precedence `lvl` that starts at the cursor.
    pub closed spec fn chain_end(&self, lvl: int) -> int {
        chain_extent(self.tokens@, lvl, self.position as int)
    }

    /// The expression of precedence `lvl` that starts at the cursor.
    pub closed spec fn chain_result(&self, lvl: int) -> Expr {
        chain_tree(self.tokens@, lvl, self.position as int, self.chain_end(lvl))
    }

    /// Midway through an expression of precedence `lvl` begun at `o`'s cursor: `left` is the
    /// expression over the operands read so far, the operand before the cursor is where that
    /// expression continues from, and the token at the cursor binds no tighter than `lvl`.
    spec fn chain_state(&self, o: &Self, lvl: int, left: Expr) -> bool {
        let t = self.tokens@;
        let b = self.position - 1;
        &&& b >= o.position
        &&& (b - o.position) % 2 == 0
        &&& flat_chain(t, b)
        &&& binop_level(t[self.position as int].kind) <= lvl
        &&& left == chain_tree(t, lvl, o.position as int, b)
        &&& chain_extent(t, lvl, o.position as int) == chain_extent(t, lvl, b)
        &&& self.unary_depth < MAX_PARSE_RECURSION_DEPTH
        &&& self.diagnostics@ == o.diagnostics@
    }

    /// How much nesting is left before a depth limit is hit, summed over all limits.
    pub closed spec fn budget(&self) -> nat {
        ((MAX_PARSE_RECURSION_DEPTH - self.expression_depth) + (MAX_PARSE_RECURSION_DEPTH - self.type_depth)
            + (MAX_PARSE_RECURSION_DEPTH - self.unary_depth) + (MAX_PARSE_RECURSION_DEPTH - self.statement_depth)
            + (MAX_PARSE_RECURSION_DEPTH - self.if_depth)) as nat
    }

    /// How many tokens lie at or after the cursor.
    pub closed spec fn remaining(&self) -> nat {
        (self.tokens@.len() - self.position) as nat
    }

    /// `count` opening brackets `(` stand at and after the cursor.
    pub closed spec fn opens_groups(&self, count: int) -> bool {
        &&& self.position + count <= self.tokens@.len()
        &&& forall|j: int| self.position <= j < self.position + count ==> #[trigger] self.tokens@[j].kind is LParen
    }

    /// The cursor opens more nested groups than the expression depth limit leaves room for, and
    /// unary nesting is no deeper than expression nesting.
    pub closed spec fn groups_too_deep(&self) -> bool {
        &&& self.opens_groups(MAX_PARSE_RECURSION_DEPTH - self.expression_depth + 1)
        &&& self.unary_depth <= self.expression_depth
    }

    /// As `groups_too_deep`, inside an expression whose depth is counted already: unary nesting
    /// shallower than expression nesting (`strict`), or no deeper.
    spec fn groups_too_deep_within(&self, strict: bool) -> bool {
        &&& self.expression_depth >= 1
        &&& self.opens_groups(MAX_PARSE_RECURSION_DEPTH - self.expression_depth + 2)
        &&& if strict {
            self.unary_depth < self.expression_depth
        } else {
            self.unary_depth <= self.expression_depth
        }
    }

    /// No expression, type, unary, statement or `if` nesting is open.
    pub closed spec fn at_top(&self) -> bool {
        &&& self.expression_depth == 0
        &&& self.type_depth == 0
        &&& self.unary_depth == 0
        &&& self.statement_depth == 0
        &&& self.if_depth == 0
    }

    /// At the cursor: `return`, then more nested groups `(` than the expression depth limit
    /// leaves room for, with unary nesting no deeper than expression nesting.
    pub closed spec fn returns_too_deep(&self) -> bool {
        &&& self.cur_kind() is Return
        &&& groups_at(self.tokens@, self.position + 1, MAX_PARSE_RECURSION_DEPTH - self.expression_depth + 1)
        &&& self.unary_depth <= self.expression_depth
    }

    /// At the cursor: `preserve output from input {` with an empty block, where an expression
    /// may still be opened.
    pub closed spec fn preserve_empty_at_cursor(&self) -> bool {
        &&& empty_preserve_at(self.tokens@, self.position as int)
        &&& self.expression_depth < MAX_PARSE_RECURSION_DEPTH
        &&& self.unary_depth < MAX_PARSE_RECURSION_DEPTH
    }

    /// At the cursor: an empty `preserve` block, inside an expression whose depth is counted
    /// already, where a unary expression may still be opened (`unary_room`).
    spec fn preserve_empty_within(&self, unary_room: bool) -> bool {
        &&& empty_preserve_at(self.tokens@, self.position as int)
        &&& unary_room ==> self.unary_depth < MAX_PARSE_RECURSION_DEPTH
    }

    /// The error the statement at the cursor draws, for the shapes whose failure is stated:
    /// its message, and its code where it has one.
    pub closed spec fn stmt_fails(&self) -> Option<(Seq<char>, Option<Seq<char>>)> {
        if self.statement_depth >= MAX_PARSE_RECURSION_DEPTH {
            None
        } else if self.returns_too_deep() {
            Some(("expression nesting exceeds the parser limit of 32"@, None))
        } else if self.preserve_empty_at_cursor() {
            Some(("preserve block is empty — at least one field name is required"@, Some("E1001"@)))
        } else {
            None
        }
    }

    /// A parser at the first token, stopping at the first error.
    pub fn new(tokens: &'a [Token]) -> (p: Self)
        requires
            well_terminated(tokens@),
        ensures
            p.wf(),
            p.pos() == 0,
            p.toks() == tokens@,
            !p.recovering(),
            p.diags().len() == 0,
            p.at_top(),
    {
        Parser {
            tokens,
            position: 0,
            recover: false,
            diagnostics: Vec::new(),
            expression_depth: 0,
            type_depth: 0,
            unary_depth: 0,
            statement_depth: 0,
            if_depth: 0,
            entry_body_grammar: EntryBodyGrammar::VerificationSection,
        }
    }

    /// A parser at the first token that records errors and resynchronizes.
    pub fn new_recovering(tokens: &'a [Token]) -> (p: Self)
        requires
            well_terminated(tokens@),
        ensures
            p.wf(),
            p.pos() == 0,
            p.toks() == tokens@,
            p.recovering(),
            p.diags().len() == 0,
            p.at_top(),
    {
        Parser {
            tokens,
            position: 0,
            recover: true,
            diagnostics: Vec::new(),
            expression_depth: 0,
            type_depth: 0,
            unary_depth: 0,
            statement_depth: 0,
            if_depth: 0,
            entry_body_grammar: EntryBodyGrammar::VerificationSection,
        }
    }

    fn current(&self) -> (t: &'a Token)
        requires
            self.wf(),
        ensures
            *t == self.tokens@[self.position as int],
    {
        &self.tokens[self.position]
    }

    fn peek(&self, offset: usize) -> (t: &'a Token)
        requires
            self.wf(),
            offset <= 2,
        ensures
            self.position + offset < self.tokens@.len() ==> *t == self.tokens@[self.position + offset],
            self.position + offset >= self.tokens@.len() ==> *t == self.tokens@.last(),
    {
        let last = self.tokens.len() - 1;
        let index = if offset < last - self.position { self.position + offset } else { last };
        &self.tokens[index]
    }

    fn at_eof(&self) -> (r: bool)
        requires
            self.wf(),
        ensures
            r == (self.cur_kind() is Eof),
            r == (self.position == self.tokens@.len() - 1),
    {
        self.position == self.tokens.len() - 1
    }

    fn advance(&mut self)
        requires
            old(self).wf(),
        ensures
            final(self).frame(old(self)),
            final(self).wf(),
            final(self).diagnostics == old(self).diagnostics,
            !(old(self).cur_kind() is Eof) ==> final(self).position == old(self).position + 1,
            old(self).cur_kind() is Eof ==> final(self).position == old(self).position,
    {
        if self.position < self.tokens.len() - 1 {
            self.position += 1;
        }
    }

    fn check(&self, kind: &TokenKind) -> (r: bool)
        requires
            self.wf(),
        ensures
            r == (self.cur_kind().spec_tag() == kind.spec_tag()),
    {
        self.current().kind.tag() == kind.tag()
    }

    fn error_here(&self, message: &str) -> (e: CompileError)
        requires
            self.wf(),
        ensures
            e.message@ == message@,
            e.span == self.tokens@[self.position as int].span,
            e.code is None,
    {
        CompileError::at(message, self.current().span)
    }

    fn expect(&mut self, kind: TokenKind) -> (r: Result<()>)
        requires
            old(self).wf(),
            !(kind is Eof),
        ensures
            final(self).kept(old(self)),
            final(self).diagnostics == old(self).diagnostics,
            r is Ok <==> old(self).cur_kind().spec_tag() == kind.spec_tag(),
            r is Ok ==> final(self).position == old(self).position + 1,
            r is Err ==> final(self).position == old(self).position,
            r matches Err(e) ==> e.message@ == "expected "@ + kind.spec_spelling() + ", found "@ + describe_kind(
                old(self).cur_kind(),
            ),
    {
        if self.check(&kind) {
            self.advance();
            Ok(())
        } else {
            let mut message = concat2("expected ", kind.spelling());
            message.append(", found ");
            let found = describe(&self.current().kind);
            message.append(found.as_str());
            Err(CompileError::new(message, self.current().span))
        }
    }

    fn skip_newlines(&mut self)
        requires
            old(self).wf(),
        ensures
            final(self).kept(old(self)),
            final(self).diagnostics == old(self).diagnostics,
            !(final(self).cur_kind() is Newline),
            old(self).position < final(self).position ==> old(self).cur_kind() is Newline,
            forall|j: int| old(self).position <= j < final(self).position ==> #[trigger] final(self).tokens@[j].kind is Newline,
    {
        while self.check(&TokenKind::Newline)
            invariant
                self.kept(old(self)),
                self.diagnostics == old(self).diagnostics,
                old(self).position < self.position ==> old(self).cur_kind() is Newline,
                forall|j: int| old(self).position <= j < self.position ==> #[trigger] self.tokens@[j].kind is Newline,
            decreases self.tokens@.len() - self.position,
        {
            self.advance();
        }
    }

    fn consume_optional_semi(&mut self)
        requires
            old(self).wf(),
        ensures
            final(self).kept(old(self)),
            final(self).diagnostics == old(self).diagnostics,
            !(old(self).cur_kind() is Semi) ==> final(self).position == old(self).position,
            old(self).cur_kind() is Semi ==> final(self).position == old(self).position + 1,
    {
        if self.check(&TokenKind::Semi) {
            self.advance();
        }
    }

    fn record_diagnostic(&mut self, error: CompileError)
        ensures
            final(self).diagnostics@ == old(self).diagnostics@.push(error),
            final(self).position == old(self).position,
            final(self).frame(old(self)),
    {
        self.diagnostics.push(error);
    }
}

/// The source word a token can stand for where a name is expected.
pub open spec fn ident_like(kind: TokenKind) -> Option<Seq<char>> {
    match kind {
        TokenKind::Identifier(name) => Some(name@),
        TokenKind::Module => Some("module"@),
        TokenKind::Use => Some("use"@),
        TokenKind::Resource => Some("resource"@),
        TokenKind::Shared => Some("shared"@),
        TokenKind::Receipt => Some("receipt"@),
        TokenKind::Struct => Some("struct"@),
        TokenKind::Const => Some("const"@),
        TokenKind::Enum => Some("enum"@),
        TokenKind::Invariant => Some("invariant"@),
        TokenKind::Action => Some("action"@),
        TokenKind::Lock => Some("lock"@),
        TokenKind::Transition => Some("transition"@),
        TokenKind::Verification => Some("verification"@),
        TokenKind::Has => Some("has"@),
        TokenKind::Store => Some("store"@),
        TokenKind::Destroy => Some("destroy"@),
        TokenKind::DestroyKw => Some("destroy"@),
        TokenKind::Launch => Some("launch"@),
        TokenKind::Assert => Some("assert"@),
        TokenKind::Preserve => Some("preserve"@),
        TokenKind::Address => Some("Address"@),
        TokenKind::Hash => Some("Hash"@),
        TokenKind::Env => Some("env"@),
        TokenKind::Std => Some("std"@),
        TokenKind::Self_ => Some("self"@),
        _ => None,
    }
}

/// The last `::`-separated segment of a path.
pub open spec fn last_segment(s: Seq<char>) -> Seq<char>
    decreases s.len(),
{
    if s.len() < 2 {
        s
    } else if s[s.len() - 2] == ':' && s[s.len() - 1] == ':' {
        Seq::empty()
    } else {
        last_segment(s.drop_last()).push(s.last())
    }
}

/// A path whose last segment starts with an ASCII capital and has no underscore reads as a type name.
pub open spec fn type_name_like(s: Seq<char>) -> bool {
    let seg = last_segment(s);
    &&& seg.len() > 0
    &&& 'A' <= seg[0] && seg[0] <= 'Z'
    &&& !crate::text::has_char(seg, '_')
}

/// The canonical spelling of a CKB hash type name, if it is one.
pub open spec fn spec_normalize_hash_type(value: Seq<char>) -> Option<Seq<char>> {
    if value == "Data"@ || value == "data"@ {
        Some("data"@)
    } else if value == "Data1"@ || value == "data1"@ {
        Some("data1"@)
    } else if value == "Data2"@ || value == "data2"@ {
        Some("data2"@)
    } else if value == "Type"@ || value == "type"@ {
        Some("type"@)
    } else {
        None
    }
}

fn normalize_hash_type_decl(value: &str) -> (r: Option<String>)
    ensures
        r is Some <==> spec_normalize_hash_type(value@) is Some,
        r matches Some(v) ==> Some(v@) == spec_normalize_hash_type(value@),
{
    if str_eq(value, "Data") || str_eq(value, "data") {
        Some("data".to_owned())
    } else if str_eq(value, "Data1") || str_eq(value, "data1") {
        Some("data1".to_owned())
    } else if str_eq(value, "Data2") || str_eq(value, "data2") {
        Some("data2".to_owned())
    } else if str_eq(value, "Type") || str_eq(value, "type") {
        Some("type".to_owned())
    } else {
        None
    }
}

/// Attribute capabilities followed by the inline ones not already named.
pub open spec fn spec_merge_capabilities(attr: Seq<Capability>, inline: Seq<Capability>) -> Seq<Capability>
    decreases inline.len(),
{
    if inline.len() == 0 {
        attr
    } else {
        let merged = spec_merge_capabilities(attr, inline.drop_last());
        if merged.contains(inline.last()) {
            merged
        } else {
            merged.push(inline.last())
        }
    }
}

fn merge_capabilities(attr_capabilities: Option<Vec<Capability>>, inline_capabilities: Vec<Capability>) -> (r: Vec<Capability>)
    ensures
        r@ == spec_merge_capabilities(
            match attr_capabilities {
                Some(v) => v@,
                None => Seq::empty(),
            },
            inline_capabilities@,
        ),
{
    let mut merged = match attr_capabilities {
        Some(v) => v,
        None => Vec::new(),
    };
    let ghost attr = merged@;
    let mut i: usize = 0;
    while i < inline_capabilities.len()
        invariant
            i <= inline_capabilities@.len(),
            merged@ == spec_merge_capabilities(attr, inline_capabilities@.subrange(0, i as int)),
        decreases inline_capabilities@.len() - i,
    {
        let capability = inline_capabilities[i];
        let mut found = false;
        let mut j: usize = 0;
        while j < merged.len()
            invariant
                j <= merged@.len(),
                found == exists|k: int| 0 <= k < j && merged@[k] == capability,
            decreases merged@.len() - j,
        {
            if merged[j] == capability {
                found = true;
            }
            j += 1;
        }
        proof {
            let prefix = inline_capabilities@.subrange(0, i as int + 1);
            assert(prefix.drop_last() =~= inline_capabilities@.subrange(0, i as int));
            assert(prefix.last() == capability);
            assert(found == merged@.contains(capability));
        }
        if !found {
            merged.push(capability);
        }
        i += 1;
    }
    assert(inline_capabilities@.subrange(0, inline_capabilities@.len() as int) =~= inline_capabilities@);
    merged
}

#[verifier::rlimit(40)]
fn looks_like_type_name(name: &str) -> (r: bool)
    ensures
        r == type_name_like(name@),
{
    let cs = chars_of(name);
    let n = cs.len();
    let mut j = n;
    assert(cs@.subrange(0, n as int) =~= cs@);
    assert(last_segment(cs@) =~= last_segment(cs@.subrange(0, n as int)) + cs@.subrange(n as int, n as int));
    while j >= 2 && !(cs[j - 2] == ':' && cs[j - 1] == ':')
        invariant
            cs@ == name@,
            n == cs@.len(),
            j <= n,
            last_segment(cs@) == last_segment(cs@.subrange(0, j as int)) + cs@.subrange(j as int, n as int),
        decreases j,
    {
        proof {
            let pre = cs@.subrange(0, j as int);
            assert(pre.drop_last() =~= cs@.subrange(0, j - 1));
            assert(pre.last() == cs@[j - 1]);
            assert(cs@.subrange(j - 1, n as int) =~= seq![cs@[j - 1]] + cs@.subrange(j as int, n as int));
            assert(last_segment(pre) == last_segment(cs@.subrange(0, j - 1)).push(cs@[j - 1]));
            assert(last_segment(cs@.subrange(0, j - 1)).push(cs@[j - 1]) + cs@.subrange(j as int, n as int)
                =~= last_segment(cs@.subrange(0, j - 1)) + cs@.subrange(j - 1, n as int));
        }
        j -= 1;
    }
    proof {
        let pre = cs@.subrange(0, j as int);
        if j < 2 {
            assert(last_segment(pre) == pre);
            assert(pre + cs@.subrange(j as int, n as int) =~= cs@.subrange(j as int, n as int) || true);
        }
    }
    let start: usize = if j < 2 { 0 } else { j };
    proof {
        let pre = cs@.subrange(0, j as int);
        if j < 2 {
            assert(last_segment(pre) == pre);
            assert(pre + cs@.subrange(j as int, n as int) =~= cs@.subrange(0, n as int));
        } else {
            assert(last_segment(pre) =~= Seq::<char>::empty());
            assert(Seq::<char>::empty() + cs@.subrange(j as int, n as int) =~= cs@.subrange(j as int, n as int));
        }
        assert(last_segment(cs@) =~= cs@.subrange(start as int, n as int));
    }
    if start >= n {
        return false;
    }
    let first = cs[start];
    assert(last_segment(name@)[0] == first);
    if !('A' <= first && first <= 'Z') {
        return false;
    }
    let mut k = start;
    while k < n
        invariant
            start <= k <= n,
            n == cs@.len(),
            cs@ == name@,
            last_segment(name@) == cs@.subrange(start as int, n as int),
            forall|m: int| start <= m < k ==> cs@[m] != '_',
        decreases n - k,
    {
        if cs[k] == '_' {
            proof {
                let seg = cs@.subrange(start as int, n as int);
                assert(seg[k - start] == '_');
            }
            return false;
        }
        k += 1;
    }
    proof {
        let seg = cs@.subrange(start as int, n as int);
        assert forall|m: int| 0 <= m < seg.len() implies seg[m] != '_' by {
            assert(seg[m] == cs@[start + m]);
        }
    }
    true
}

fn aggregate_scope_from_targets(left: &AggregateTarget, right: Option<&AggregateTarget>) -> (r: Option<String>)
    ensures
        r is Some <==> (left.source.spec_aggregate_scope() is Some && match right {
            Some(rt) => rt.source.spec_aggregate_scope() == left.source.spec_aggregate_scope(),
            None => true,
        }),
        r matches Some(s) ==> Some(s@) == left.source.spec_aggregate_scope(),
{
    let left_scope = match left.source.aggregate_scope() {
        Some(s) => s,
        None => return None,
    };
    if let Some(right) = right {
        let right_scope = match right.source.aggregate_scope() {
            Some(s) => s,
            None => return None,
        };
        if !str_eq(left_scope, right_scope) {
            return None;
        }
    }
    Some(left_scope.to_owned())
}

impl<'a> Parser<'a> {
    fn token_ident_like_name(kind: &TokenKind) -> (r: Option<String>)
        ensures
            r is Some <==> ident_like(*kind) is Some,
            r matches Some(n) ==> Some(n@) == ident_like(*kind),
    {
        match kind {
            TokenKind::Identifier(name) => Some(name.clone()),
            TokenKind::Module => Some("module".to_owned()),
            TokenKind::Use => Some("use".to_owned()),
            TokenKind::Resource => Some("resource".to_owned()),
            TokenKind::Shared => Some("shared".to_owned()),
            TokenKind::Receipt => Some("receipt".to_owned()),
            TokenKind::Struct => Some("struct".to_owned()),
            TokenKind::Const => Some("const".to_owned()),
            TokenKind::Enum => Some("enum".to_owned()),
            TokenKind::Invariant => Some("invariant".to_owned()),
            TokenKind::Action => Some("action".to_owned()),
            TokenKind::Lock => Some("lock".to_owned()),
            TokenKind::Transition => Some("transition".to_owned()),
            TokenKind::Verification => Some("verification".to_owned()),
            TokenKind::Has => Some("has".to_owned()),
            TokenKind::Store => Some("store".to_owned()),
            TokenKind::Destroy | TokenKind::DestroyKw => Some("destroy".to_owned()),
            TokenKind::Launch => Some("launch".to_owned()),
            TokenKind::Assert => Some("assert".to_owned()),
            TokenKind::Preserve => Some("preserve".to_owned()),
            TokenKind::Address => Some("Address".to_owned()),
            TokenKind::Hash => Some("Hash".to_owned()),
            TokenKind::Env => Some("env".to_owned()),
            TokenKind::Std => Some("std".to_owned()),
            TokenKind::Self_ => Some("self".to_owned()),
            _ => None,
        }
    }

    fn ident_like_name(&self) -> (r: Option<String>)
        requires
            self.wf(),
        ensures
            r is Some <==> ident_like(self.cur_kind()) is Some,
            r matches Some(n) ==> Some(n@) == ident_like(self.cur_kind()),
    {
        Self::token_ident_like_name(&self.current().kind)
    }

    fn current_identifier(&self) -> (r: Option<String>)
        requires
            self.wf(),
        ensures
            r is Some <==> self.cur_kind() is Identifier,
            r matches Some(n) ==> self.cur_kind() == TokenKind::Identifier(n),
    {
        match &self.current().kind {
            TokenKind::Identifier(name) => Some(name.clone()),
            _ => None,
        }
    }

    /// Whether the current token is an identifier spelling `word`.
    fn at_word(&self, word: &str) -> (r: bool)
        requires
            self.wf(),
        ensures
            r == (self.cur_kind() matches TokenKind::Identifier(n) && n@ == word@),
    {
        match &self.current().kind {
            TokenKind::Identifier(name) => str_eq(name.as_str(), word),
            _ => false,
        }
    }

    /// Whether the current token's source text is `word`.
    fn text_is(&self, word: &str) -> (r: bool)
        requires
            self.wf(),
        ensures
            r == (self.tokens@[self.position as int].text@ == word@),
    {
        str_eq(self.current().text.as_str(), word)
    }

    fn parse_name(&mut self) -> (r: Result<String>)
        requires
            old(self).wf(),
        ensures
            final(self).kept(old(self)),
            final(self).diagnostics == old(self).diagnostics,
            r is Ok <==> ident_like(old(self).cur_kind()) is Some,
            r matches Ok(n) ==> Some(n@) == ident_like(old(self).cur_kind()),
            r is Ok ==> final(self).position == old(self).position + 1,
            r is Err ==> final(self).position == old(self).position,
            r matches Err(e) ==> e.message@ == "expected identifier"@,
    {
        match self.ident_like_name() {
            Some(name) => {
                self.advance();
                Ok(name)
            },
            None => Err(self.error_here("expected identifier")),
        }
    }

    fn parse_name_path(&mut self) -> (r: Result<String>)
        requires
            old(self).wf(),
        ensures
            final(self).kept(old(self)),
            final(self).diagnostics == old(self).diagnostics,
            r is Ok <==> ident_like(old(self).cur_kind()) is Some,
            r is Ok ==> final(self).position > old(self).position,
            r is Err ==> final(self).position == old(self).position,
            !(old(self).tokens@[old(self).position + 1].kind is ColonColon) && ident_like(old(self).cur_kind()) is Some
                ==> (r matches Ok(x) && Some(x@) == ident_like(old(self).cur_kind()) && final(self).position == old(
                self,
            ).position + 1),
    {
        let mut name = self.parse_name()?;
        let ghost first = name@;
        while self.check(&TokenKind::ColonColon) && Self::token_ident_like_name(&self.peek(1).kind).is_some()
            invariant
                self.kept(old(self)),
                self.diagnostics == old(self).diagnostics,
                self.position > old(self).position,
                !(old(self).tokens@[old(self).position + 1].kind is ColonColon) ==> self.position == old(self).position
                    + 1 && name@ == first,
            decreases self.tokens@.len() - self.position,
        {
            self.advance();
            let segment = match self.ident_like_name() {
                Some(s) => s,
                None => {
                    return Err(self.error_here("expected path segment"));
                },
            };
            name.append("::");
            name.append(segment.as_str());
            self.advance();
        }
        Ok(name)
    }

    fn parse_verification_marker(&mut self) -> (r: Result<()>)
        requires
            old(self).wf(),
        ensures
            final(self).kept(old(self)),
            old(self).cur_kind() is Verification ==> r is Ok && final(self).position == skip_breaks(old(self).tokens@, old(self).position + 1),
            final(self).diagnostics == old(self).diagnostics,
            old(self).cur_kind() is Verification && !(old(self).tokens@[old(self).position + 1].kind is Newline) ==> r is Ok && final(self).position == old(
                self).position + 1,
            !(old(self).cur_kind() is Verification) && old(self).entry_body_grammar == EntryBodyGrammar::VerificationSection
                ==> r is Err,
    {
        if self.check(&TokenKind::Verification) || self.entry_body_grammar == EntryBodyGrammar::VerificationSection {
            self.expect(TokenKind::Verification)?;
        }
        let ghost after_marker = self.position as int;
        self.skip_newlines();
        proof {
            if old(self).cur_kind() is Verification {
                lemma_skip_breaks(self.tokens@, after_marker, self.position as int);
            }
        }
        Ok(())
    }

    fn is_item_start(&self) -> (r: bool)
        requires
            self.wf(),
        ensures
            r == starts_item(self.cur_kind()),
            r ==> !(self.cur_kind() is Eof),
    {
        match &self.current().kind {
            TokenKind::Pound | TokenKind::Use | TokenKind::Resource | TokenKind::Shared | TokenKind::Receipt
            | TokenKind::Struct | TokenKind::Invariant | TokenKind::Const | TokenKind::Enum | TokenKind::Action
            | TokenKind::Fn | TokenKind::Lock => true,
            TokenKind::Identifier(name) => str_eq(name.as_str(), "flow"),
            _ => false,
        }
    }

    /// Skips past a broken item to the start of the next one.
    fn synchronize_item(&mut self, start_position: usize)
        requires
            old(self).wf(),
            start_position <= old(self).position,
        ensures
            final(self).kept(old(self)),
            final(self).diagnostics == old(self).diagnostics,
            final(self).position > start_position || final(self).cur_kind() is Eof,
    {
        if self.position == start_position && !self.check(&TokenKind::Eof) {
            self.advance();
        }
        let mut brace_depth: usize = 0;
        while !self.check(&TokenKind::Eof)
            invariant
                self.kept(old(self)),
                self.diagnostics == old(self).diagnostics,
                self.position > start_position || self.cur_kind() is Eof,
            decreases self.tokens@.len() - self.position,
        {
            match &self.current().kind {
                TokenKind::LBrace => {
                    brace_depth = if brace_depth < usize::MAX { brace_depth + 1 } else { brace_depth };
                    self.advance();
                },
                TokenKind::RBrace => {
                    brace_depth = if brace_depth > 0 { brace_depth - 1 } else { 0 };
                    self.advance();
                    if brace_depth == 0 {
                        self.skip_newlines();
                        if self.is_item_start() {
                            break;
                        }
                    }
                },
                TokenKind::Newline if brace_depth == 0 => {
                    self.advance();
                    self.skip_newlines();
                    if self.is_item_start() {
                        break;
                    }
                },
                TokenKind::Semi if brace_depth == 0 => {
                    self.advance();
                    self.skip_newlines();
                    if self.is_item_start() {
                        break;
                    }
                },
                _ => {
                    if brace_depth == 0 && self.position != start_position && self.is_item_start() {
                        break;
                    }
                    self.advance();
                },
            }
        }
    }

    /// Skips past a broken statement to the start of the next one.
    fn synchronize_stmt(&mut self, start_position: usize)
        requires
            old(self).wf(),
            start_position <= old(self).position,
        ensures
            final(self).kept(old(self)),
            final(self).diagnostics == old(self).diagnostics,
            final(self).position > start_position || final(self).cur_kind() is Eof,
    {
        if self.position == start_position && !self.check(&TokenKind::Eof) {
            self.advance();
        }
        let mut paren_depth: usize = 0;
        let mut bracket_depth: usize = 0;
        let mut brace_depth: usize = 0;
        while !self.check(&TokenKind::Eof)
            invariant
                self.kept(old(self)),
                self.diagnostics == old(self).diagnostics,
                self.position > start_position || self.cur_kind() is Eof,
            decreases self.tokens@.len() - self.position,
        {
            let at_top = paren_depth == 0 && bracket_depth == 0 && brace_depth == 0;
            match &self.current().kind {
                TokenKind::LParen => {
                    paren_depth = if paren_depth < usize::MAX { paren_depth + 1 } else { paren_depth };
                    self.advance();
                },
                TokenKind::RParen => {
                    paren_depth = if paren_depth > 0 { paren_depth - 1 } else { 0 };
                    self.advance();
                },
                TokenKind::LBracket => {
                    bracket_depth = if bracket_depth < usize::MAX { bracket_depth + 1 } else { bracket_depth };
                    self.advance();
                },
                TokenKind::RBracket => {
                    bracket_depth = if bracket_depth > 0 { bracket_depth - 1 } else { 0 };
                    self.advance();
                },
                TokenKind::LBrace => {
                    brace_depth = if brace_depth < usize::MAX { brace_depth + 1 } else { brace_depth };
                    self.advance();
                },
                TokenKind::RBrace => {
                    if at_top {
                        break;
                    }
                    brace_depth = if brace_depth > 0 { brace_depth - 1 } else { 0 };
                    self.advance();
                },
                TokenKind::Newline if at_top => {
                    self.advance();
                    self.skip_newlines();
                    break;
                },
                TokenKind::Semi if at_top => {
                    self.advance();
                    self.skip_newlines();
                    break;
                },
                _ => {
                    self.advance();
                },
            }
        }
    }
}

/// How a type is written in source.
pub open spec fn spec_render_type(ty: Type) -> Seq<char>
    decreases ty, 0int,
{
    match ty {
        Type::U8 => "u8"@,
        Type::U16 => "u16"@,
        Type::U32 => "u32"@,
        Type::I32 => "i32"@,
        Type::U64 => "u64"@,
        Type::U128 => "u128"@,
        Type::Bool => "bool"@,
        Type::Unit => "()"@,
        Type::Address => "Address"@,
        Type::Hash => "Hash"@,
        Type::Array(elem, size) => "["@ + spec_render_type(*elem) + "; "@ + crate::text::decimal(size as nat) + "]"@,
        Type::Tuple(types) => {
            proof {
                assert(decreases_to!(types => types@));
            }
            "("@ + spec_render_types(types@, types@.len() as int) + ")"@
        },
        Type::Named(name) => name@,
        Type::Ref(inner) => "&"@ + spec_render_type(*inner),
        Type::MutRef(inner) => "&mut "@ + spec_render_type(*inner),
    }
}

/// The first `k` types of `types`, rendered and joined by `", "`.
pub open spec fn spec_render_types(types: Seq<Type>, k: int) -> Seq<char>
    decreases types, k,
{
    if k <= 0 || k > types.len() {
        Seq::empty()
    } else if k == 1 {
        spec_render_type(types[0])
    } else {
        spec_render_types(types, k - 1) + ", "@ + spec_render_type(types[k - 1])
    }
}

fn render_type(ty: &Type) -> (s: String)
    ensures
        s@ == spec_render_type(*ty),
    decreases ty,
{
    match ty {
        Type::U8 => "u8".to_owned(),
        Type::U16 => "u16".to_owned(),
        Type::U32 => "u32".to_owned(),
        Type::I32 => "i32".to_owned(),
        Type::U64 => "u64".to_owned(),
        Type::U128 => "u128".to_owned(),
        Type::Bool => "bool".to_owned(),
        Type::Unit => "()".to_owned(),
        Type::Address => "Address".to_owned(),
        Type::Hash => "Hash".to_owned(),
        Type::Array(elem, size) => {
            let inner = render_type(elem);
            let mut s = concat2("[", inner.as_str());
            s.append("; ");
            let digits = decimal_string(*size as u128);
            s.append(digits.as_str());
            s.append("]");
            s
        },
        Type::Tuple(types) => {
            let joined = render_types(types);
            concat3("(", joined.as_str(), ")")
        },
        Type::Named(name) => name.clone(),
        Type::Ref(inner) => {
            let r = render_type(inner);
            concat2("&", r.as_str())
        },
        Type::MutRef(inner) => {
            let r = render_type(inner);
            concat2("&mut ", r.as_str())
        },
    }
}

fn render_types(types: &Vec<Type>) -> (s: String)
    ensures
        s@ == spec_render_types(types@, types@.len() as int),
    decreases types,
{
    let mut s = String::new();
    let mut i: usize = 0;
    while i < types.len()
        invariant
            i <= types@.len(),
            s@ == spec_render_types(types@, i as int),
        decreases types@.len() - i,
    {
        if i > 0 {
            s.append(", ");
        }
        proof {
            assert(decreases_to!(types => types@));
            assert(decreases_to!(types@ => types@[i as int]));
        }
        let r = render_type(&types[i]);
        s.append(r.as_str());
        i += 1;
    }
    s
}

impl<'a> Parser<'a> {
    fn parse_type(&mut self) -> (r: Result<Type>)
        requires
            old(self).wf(),
        ensures
            final(self).kept(old(self)),
            final(self).diagnostics == old(self).diagnostics,
            r is Ok ==> final(self).position > old(self).position,
            old(self).type_depth >= MAX_PARSE_RECURSION_DEPTH ==> (r matches Err(e) && e.message@
                == "type nesting exceeds the parser limit of 32"@),
            old(self).type_depth < MAX_PARSE_RECURSION_DEPTH ==> (primitive_type(old(self).cur_kind()) matches Some(t)
                ==> r == Ok::<Type, CompileError>(t) && final(self).position == old(self).position + 1),
            !starts_type(old(self).cur_kind()) ==> r is Err,
        decreases old(self).budget(), old(self).remaining(), 1nat,
    {
        if self.type_depth >= MAX_PARSE_RECURSION_DEPTH {
            return Err(self.error_here("type nesting exceeds the parser limit of 32"));
        }
        self.type_depth += 1;
        let result = self.parse_type_inner();
        self.type_depth -= 1;
        result
    }

    fn parse_type_inner(&mut self) -> (r: Result<Type>)
        requires
            old(self).wf(),
        ensures
            final(self).kept(old(self)),
            final(self).diagnostics == old(self).diagnostics,
            r is Ok ==> final(self).position > old(self).position,
            primitive_type(old(self).cur_kind()) matches Some(t) ==> r == Ok::<Type, CompileError>(t)
                && final(self).position == old(self).position + 1,
            !starts_type(old(self).cur_kind()) ==> r is Err,
        decreases old(self).budget(), old(self).remaining(), 0nat,
    {
        let ty = match &self.current().kind {
            TokenKind::U8 => {
                self.advance();
                Type::U8
            },
            TokenKind::U16 => {
                self.advance();
                Type::U16
            },
            TokenKind::U32 => {
                self.advance();
                Type::U32
            },
            TokenKind::I32 => {
                self.advance();
                Type::I32
            },
            TokenKind::U64 => {
                self.advance();
                Type::U64
            },
            TokenKind::U128 => {
                self.advance();
                Type::U128
            },
            TokenKind::Bool => {
                self.advance();
                Type::Bool
            },
            TokenKind::Address => {
                self.advance();
                Type::Address
            },
            TokenKind::Hash => {
                self.advance();
                Type::Hash
            },
            TokenKind::Identifier(_) | TokenKind::Launch => {
                let mut name = self.parse_name_path()?;
                if self.check(&TokenKind::Lt) {
                    self.advance();
                    let mut args: Vec<Type> = Vec::new();
                    while !self.check(&TokenKind::Gt) && !self.check(&TokenKind::Eof)
                        invariant
                            primitive_type(old(self).cur_kind()) is None,
                            self.kept(old(self)),
                            self.diagnostics == old(self).diagnostics,
                            self.position > old(self).position,
                        decreases self.tokens@.len() - self.position,
                    {
                        if let TokenKind::Integer(value) = &self.current().kind {
                            args.push(Type::Named(decimal_string(*value)));
                            self.advance();
                        } else {
                            args.push(self.parse_type()?);
                        }
                        if self.check(&TokenKind::Comma) {
                            self.advance();
                        } else {
                            break;
                        }
                    }
                    self.expect(TokenKind::Gt)?;
                    let rendered = render_types(&args);
                    name.append("<");
                    name.append(rendered.as_str());
                    name.append(">");
                }
                Type::Named(name)
            },
            TokenKind::LBracket => {
                self.advance();
                let elem_ty = self.parse_type()?;
                self.expect(TokenKind::Semi)?;
                let size: usize = match &self.current().kind {
                    TokenKind::Integer(n) => {
                        if *n > usize::MAX as u128 {
                            return Err(self.error_here("array size exceeds the supported platform range"));
                        }
                        let size = *n as usize;
                        self.advance();
                        size
                    },
                    _ => {
                        return Err(self.error_here("expected array size"));
                    },
                };
                self.expect(TokenKind::RBracket)?;
                Type::Array(Box::new(elem_ty), size)
            },
            TokenKind::LParen => {
                self.advance();
                let mut elems: Vec<Type> = Vec::new();
                while !self.check(&TokenKind::RParen) && !self.check(&TokenKind::Eof)
                    invariant
                        primitive_type(old(self).cur_kind()) is None,
                        self.kept(old(self)),
                        self.diagnostics == old(self).diagnostics,
                        self.position > old(self).position,
                    decreases self.tokens@.len() - self.position,
                {
                    elems.push(self.parse_type()?);
                    if self.check(&TokenKind::Comma) {
                        self.advance();
                    } else {
                        break;
                    }
                }
                self.expect(TokenKind::RParen)?;
                Type::Tuple(elems)
            },
            TokenKind::Ampersand => {
                self.advance();
                if self.check(&TokenKind::Mut) {
                    self.advance();
                    Type::MutRef(Box::new(self.parse_type()?))
                } else {
                    Type::Ref(Box::new(self.parse_type()?))
                }
            },
            TokenKind::ReadRef => {
                return Err(
                    self.error_here(
                        "`read_ref` is not a type qualifier; use `read name: T` for action/lock parameters or `read_ref<T>()` as an expression",
                    ),
                );
            },
            _ => {
                let found = describe(&self.current().kind);
                return Err(CompileError::new(concat2("expected type, found ", found.as_str()), self.current().span));
            },
        };
        Ok(ty)
    }

    fn parse_type_list(&mut self, end: TokenKind) -> (r: Result<Vec<Type>>)
        requires
            old(self).wf(),
        ensures
            final(self).kept(old(self)),
            final(self).diagnostics == old(self).diagnostics,
            !(old(self).cur_kind() is Newline) && (old(self).cur_kind().spec_tag() == end.spec_tag() || old(
                self,
            ).cur_kind() is Eof) ==> (r matches Ok(v) && v@.len() == 0 && final(self).position == old(self).position),
    {
        let mut items: Vec<Type> = Vec::new();
        self.skip_newlines();
        while !self.check(&end) && !self.check(&TokenKind::Eof)
            invariant
                self.kept(old(self)),
                self.diagnostics == old(self).diagnostics,
                !(old(self).cur_kind() is Newline) && (old(self).cur_kind().spec_tag() == end.spec_tag() || old(
                    self,
                ).cur_kind() is Eof) ==> items@.len() == 0 && self.position == old(self).position,
            decreases self.tokens@.len() - self.position,
        {
            items.push(self.parse_type()?);
            self.skip_newlines();
            if self.check(&TokenKind::Comma) {
                self.advance();
                self.skip_newlines();
            } else {
                break;
            }
        }
        Ok(items)
    }

    fn parse_binding_pattern(&mut self) -> (r: Result<BindingPattern>)
        requires
            old(self).wf(),
        ensures
            final(self).kept(old(self)),
            final(self).diagnostics == old(self).diagnostics,
            r is Ok ==> final(self).position > old(self).position,
            old(self).cur_kind() is Underscore ==> r == Ok::<BindingPattern, CompileError>(BindingPattern::Wildcard)
                && final(self).position == old(self).position + 1,
            !(old(self).cur_kind() is Newline) && !(old(self).cur_kind() is Underscore) && !(old(self).cur_kind() is LParen)
                && ident_like(old(self).cur_kind()) is Some ==> (r matches Ok(BindingPattern::Name(n)) && Some(n@)
                == ident_like(old(self).cur_kind()) && final(self).position == old(self).position + 1),
        decreases old(self).remaining(),
    {
        self.skip_newlines();
        match &self.current().kind {
            TokenKind::Underscore => {
                self.advance();
                Ok(BindingPattern::Wildcard)
            },
            TokenKind::LParen => {
                self.advance();
                self.skip_newlines();
                let mut items: Vec<BindingPattern> = Vec::new();
                while !self.check(&TokenKind::RParen) && !self.check(&TokenKind::Eof)
                    invariant
                        old(self).cur_kind() is Newline || old(self).cur_kind() is LParen,
                        self.kept(old(self)),
                        self.diagnostics == old(self).diagnostics,
                        self.position > old(self).position,
                    decreases self.tokens@.len() - self.position,
                {
                    items.push(self.parse_binding_pattern()?);
                    self.skip_newlines();
                    if self.check(&TokenKind::Comma) {
                        self.advance();
                        self.skip_newlines();
                    } else {
                        break;
                    }
                }
                self.expect(TokenKind::RParen)?;
                Ok(BindingPattern::Tuple(items))
            },
            _ => Ok(BindingPattern::Name(self.parse_name()?)),
        }
    }

    fn parse_attrs(&mut self) -> (r: Result<PendingAttrs>)
        requires
            old(self).wf(),
        ensures
            final(self).kept(old(self)),
            final(self).diagnostics == old(self).diagnostics,
            !(old(self).cur_kind() is Newline) && !(old(self).cur_kind() is Pound) ==> (r matches Ok(a) && a.type_id
                is None && a.capabilities is None && a.effect is None && a.scheduler_hint is None && final(self).position
                == old(self).position),
    {
        let mut attrs = PendingAttrs { type_id: None, capabilities: None, effect: None, scheduler_hint: None };
        loop
            invariant
                self.kept(old(self)),
                self.diagnostics == old(self).diagnostics,
                !(old(self).cur_kind() is Newline) && !(old(self).cur_kind() is Pound) ==> attrs.type_id is None
                    && attrs.capabilities is None && attrs.effect is None && attrs.scheduler_hint is None
                    && self.position == old(self).position,
            decreases self.tokens@.len() - self.position,
        {
            self.skip_newlines();
            if !self.check(&TokenKind::Pound) {
                break;
            }
            assert(!(!(old(self).cur_kind() is Newline) && !(old(self).cur_kind() is Pound)));
            self.advance();
            let ghost mark = self.position;
            self.expect(TokenKind::LBracket)?;
            let attr_name = self.parse_name_path()?;
            self.expect(TokenKind::LParen)?;
            if str_eq(attr_name.as_str(), "capability") {
                let mut caps: Vec<Capability> = Vec::new();
                while !self.check(&TokenKind::RParen) && !self.check(&TokenKind::Eof)
                    invariant
                        self.kept(old(self)),
                        self.diagnostics == old(self).diagnostics,
                        self.position >= mark,
                        !(!(old(self).cur_kind() is Newline) && !(old(self).cur_kind() is Pound)),
                    decreases self.tokens@.len() - self.position,
                {
                    let capability = match Capability::from_source_name(self.current().text.as_str()) {
                        Some(c) => c,
                        None => {
                            return Err(self.error_here("expected canonical capability name"));
                        },
                    };
                    caps.push(capability);
                    self.advance();
                    if self.check(&TokenKind::Comma) {
                        self.advance();
                    } else {
                        break;
                    }
                }
                attrs.capabilities = Some(caps);
            } else if str_eq(attr_name.as_str(), "type_id") {
                if attrs.type_id.is_some() {
                    return Err(self.error_here("duplicate type_id attribute"));
                }
                let span = self.current().span;
                let value = match &self.current().kind {
                    TokenKind::String(value) => {
                        let value = value.clone();
                        self.advance();
                        value
                    },
                    _ => {
                        return Err(self.error_here("expected string literal type_id"));
                    },
                };
                if value.as_str().is_empty() {
                    return Err(CompileError::at("type_id must not be empty", span));
                }
                if has_control_char(value.as_str()) {
                    return Err(CompileError::at("type_id must not contain control characters", span));
                }
                attrs.type_id = Some(TypeIdentity { value, span });
            } else if str_eq(attr_name.as_str(), "effect") {
                let mut has_mutating = false;
                let mut has_creating = false;
                let mut has_destroying = false;
                let mut has_read_only = false;
                while !self.check(&TokenKind::RParen) && !self.check(&TokenKind::Eof)
                    invariant
                        self.kept(old(self)),
                        self.diagnostics == old(self).diagnostics,
                        self.position >= mark,
                        !(!(old(self).cur_kind() is Newline) && !(old(self).cur_kind() is Pound)),
                    decreases self.tokens@.len() - self.position,
                {
                    let effect_name = self.parse_name()?;
                    let e = effect_name.as_str();
                    if str_eq(e, "Pure") || str_eq(e, "pure") {
                    } else if str_eq(e, "ReadOnly") || str_eq(e, "readonly") || str_eq(e, "read_only") {
                        has_read_only = true;
                    } else if str_eq(e, "Mutating") || str_eq(e, "mutating") {
                        has_mutating = true;
                    } else if str_eq(e, "Creating") || str_eq(e, "creating") {
                        has_creating = true;
                    } else if str_eq(e, "Destroying") || str_eq(e, "destroying") {
                        has_destroying = true;
                    } else {
                        return Err(self.error_here("expected effect class"));
                    }
                    if self.check(&TokenKind::Comma) {
                        self.advance();
                        self.skip_newlines();
                    } else {
                        break;
                    }
                }
                attrs.effect = Some(
                    if has_mutating || (has_creating && has_destroying) {
                        EffectClass::Mutating
                    } else if has_creating {
                        EffectClass::Creating
                    } else if has_destroying {
                        EffectClass::Destroying
                    } else if has_read_only {
                        EffectClass::ReadOnly
                    } else {
                        EffectClass::Pure
                    },
                );
            } else if str_eq(attr_name.as_str(), "scheduler_hint") {
                let mut parallelizable = true;
                let mut estimated_cycles: u64 = 1000;
                while !self.check(&TokenKind::RParen) && !self.check(&TokenKind::Eof)
                    invariant
                        self.kept(old(self)),
                        self.diagnostics == old(self).diagnostics,
                        self.position >= mark,
                        !(!(old(self).cur_kind() is Newline) && !(old(self).cur_kind() is Pound)),
                    decreases self.tokens@.len() - self.position,
                {
                    let hint_name = self.parse_name()?;
                    let h = hint_name.as_str();
                    if str_eq(h, "parallel") {
                        parallelizable = true;
                    } else if str_eq(h, "sequential") {
                        parallelizable = false;
                    } else if str_eq(h, "estimated_cycles") {
                        self.expect(TokenKind::Eq)?;
                        estimated_cycles = match &self.current().kind {
                            TokenKind::Integer(n) => {
                                if *n > u64::MAX as u128 {
                                    return Err(self.error_here("estimated_cycles must fit in u64"));
                                }
                                let value = *n as u64;
                                self.advance();
                                value
                            },
                            _ => {
                                return Err(self.error_here("expected integer estimated_cycles"));
                            },
                        };
                    }
                    if self.check(&TokenKind::Comma) {
                        self.advance();
                        self.skip_newlines();
                    } else {
                        break;
                    }
                }
                attrs.scheduler_hint = Some(SchedulerHint { parallelizable, estimated_cycles });
            } else {
                let message = concat3("unknown attribute '", attr_name.as_str(), "'");
                return Err(CompileError::new(message, self.current().span));
            }
            self.expect(TokenKind::RParen)?;
            self.expect(TokenKind::RBracket)?;
            self.skip_newlines();
        }
        Ok(attrs)
    }

    fn parse_visibility(&mut self) -> (r: Result<Visibility>)
        requires
            old(self).wf(),
        ensures
            final(self).kept(old(self)),
            final(self).diagnostics == old(self).diagnostics,
            r matches Ok(Visibility::LegacyPublic) ==> final(self).position == old(self).position,
            old(self).cur_kind() is Private ==> r == Ok::<Visibility, CompileError>(Visibility::Private)
                && final(self).position == old(self).position + 1,
            !(old(self).cur_kind() is Private) && !(old(self).cur_kind() is Public) ==> r == Ok::<Visibility, CompileError>(
                Visibility::LegacyPublic,
            ) && final(self).position == old(self).position,
            old(self).cur_kind() is Public && !(old(self).tokens@[old(self).position + 1].kind is LParen) ==> r == Ok::<
                Visibility,
                CompileError,
            >(Visibility::Public) && final(self).position == old(self).position + 1,
            old(self).cur_kind() is Public && old(self).tokens@[old(self).position + 1].kind is LParen ==> (r is Ok <==> (
            old(self).tokens@[old(self).position + 2].text@ == "package"@ && !(old(self).tokens@[old(self).position
                + 2].kind is Eof) && old(self).tokens@[old(self).position + 3].kind is RParen)),
            r is Ok && old(self).cur_kind() is Public && old(self).tokens@[old(self).position + 1].kind is LParen ==> r
                == Ok::<Visibility, CompileError>(Visibility::Package) && final(self).position == old(self).position + 4,
    {
        if self.check(&TokenKind::Private) {
            self.advance();
            return Ok(Visibility::Private);
        }
        if !self.check(&TokenKind::Public) {
            return Ok(Visibility::LegacyPublic);
        }
        let span = self.current().span;
        self.advance();
        if !self.check(&TokenKind::LParen) {
            return Ok(Visibility::Public);
        }
        self.advance();
        if !self.text_is("package") {
            return Err(self.error_here("expected 'package' in public(package)"));
        }
        self.advance();
        if self.expect(TokenKind::RParen).is_err() {
            return Err(CompileError::at("expected ')' after public(package)", span));
        }
        Ok(Visibility::Package)
    }

    fn reject_type_id_attr(&self, attrs: &PendingAttrs) -> (r: Result<()>)
        ensures
            r is Ok <==> attrs.type_id is None,
    {
        if let Some(type_id) = &attrs.type_id {
            Err(
                CompileError::at(
                    "#[type_id] can only be applied to resource, shared, receipt, or struct definitions",
                    type_id.span,
                ),
            )
        } else {
            Ok(())
        }
    }

    fn reject_all_attrs(&self, item_kind: &str, attrs: &PendingAttrs) -> (r: Result<()>)
        requires
            self.wf(),
        ensures
            r is Ok <==> (attrs.type_id is None && attrs.capabilities is None && attrs.effect is None
                && attrs.scheduler_hint is None),
    {
        if attrs.type_id.is_some() || attrs.capabilities.is_some() || attrs.effect.is_some()
            || attrs.scheduler_hint.is_some() {
            let message = concat3("attributes cannot be applied to ", item_kind, " definitions");
            Err(CompileError::new(message, self.current().span))
        } else {
            Ok(())
        }
    }

    fn parse_type_params(&mut self) -> (r: Result<Vec<TypeParam>>)
        requires
            old(self).wf(),
        ensures
            final(self).kept(old(self)),
            final(self).diagnostics == old(self).diagnostics,
            !(old(self).cur_kind() is Lt) ==> (r matches Ok(v) && v@.len() == 0 && final(self).position
                == old(self).position),
    {
        if !self.check(&TokenKind::Lt) {
            return Ok(Vec::new());
        }
        self.advance();
        let mut params: Vec<TypeParam> = Vec::new();
        while !self.check(&TokenKind::Gt) && !self.check(&TokenKind::Eof)
            invariant
                self.kept(old(self)),
                self.diagnostics == old(self).diagnostics,
                old(self).cur_kind() is Lt,
            decreases self.tokens@.len() - self.position,
        {
            let ghost mark = self.position;
            let start = self.current().span;
            let phantom = self.text_is("phantom");
            if phantom {
                self.advance();
            }
            let name = self.parse_name()?;
            let mut constraints: Vec<ValueAbility> = Vec::new();
            if self.check(&TokenKind::Colon) {
                self.advance();
                loop
                    invariant
                        self.kept(old(self)),
                        self.diagnostics == old(self).diagnostics,
                        old(self).cur_kind() is Lt,
                        self.position > mark,
                    decreases self.tokens@.len() - self.position,
                {
                    let ability = match ValueAbility::from_source_name(self.current().text.as_str()) {
                        Some(a) => a,
                        None => {
                            return Err(
                                self.error_here(
                                    "expected value constraint: copy, drop, store, fixed, serializable, non_linear, or cell",
                                ),
                            );
                        },
                    };
                    if contains_ability(&constraints, ability) {
                        let mut message = concat3("duplicate '", ability.as_str(), "' constraint on type parameter '");
                        message.append(name.as_str());
                        message.append("'");
                        return Err(CompileError::new(message, self.current().span));
                    }
                    constraints.push(ability);
                    if self.check(&TokenKind::Eof) {
                        break;
                    }
                    self.advance();
                    if self.check(&TokenKind::Plus) {
                        self.advance();
                    } else {
                        break;
                    }
                }
            }
            params.push(TypeParam { name, constraints, phantom, span: start });
            if self.check(&TokenKind::Comma) {
                self.advance();
            } else {
                break;
            }
        }
        self.expect(TokenKind::Gt)?;
        Ok(params)
    }

    fn reject_generic_type_params(&self, name_of_type: &str) -> (r: Result<()>)
        requires
            self.wf(),
        ensures
            r is Ok <==> !(self.cur_kind() is Lt),
    {
        if self.check(&TokenKind::Lt) {
            let mut message = concat3("Cell-backed type '", name_of_type, "' cannot declare generic parameters; ");
            message.append("use concrete resource/shared/receipt schemas and generic non-Cell value types");
            Err(CompileError::new(message, self.current().span))
        } else {
            Ok(())
        }
    }

    fn parse_value_abilities(&mut self) -> (r: Result<Vec<ValueAbility>>)
        requires
            old(self).wf(),
        ensures
            final(self).kept(old(self)),
            final(self).diagnostics == old(self).diagnostics,
            r matches Ok(v) ==> forall|i: int, j: int| 0 <= i < j < v@.len() ==> v@[i] != v@[j],
            !(old(self).cur_kind() is Has) ==> (r matches Ok(v) && v@.len() == 0 && final(self).position == old(self).position),
            old(self).cur_kind() is Has && ValueAbility::spec_from_source_name(old(self).tokens@[old(self).position
                + 1].text@) is None ==> r is Err,
    {
        if !self.check(&TokenKind::Has) {
            return Ok(Vec::new());
        }
        self.advance();
        let mut abilities: Vec<ValueAbility> = Vec::new();
        loop
            invariant
                old(self).cur_kind() is Has,
                abilities@.len() == 0 ==> self.position == old(self).position + 1,
                abilities@.len() > 0 ==> ValueAbility::spec_from_source_name(old(self).tokens@[old(self).position + 1].text@) is Some,
                self.tokens@ == old(self).tokens@,
                self.kept(old(self)),
                self.diagnostics == old(self).diagnostics,
                forall|i: int, j: int| 0 <= i < j < abilities@.len() ==> abilities@[i] != abilities@[j],
            ensures
                abilities@.len() > 0,
                abilities@.len() > 0 ==> ValueAbility::spec_from_source_name(old(self).tokens@[old(self).position + 1].text@) is Some,
            decreases self.tokens@.len() - self.position,
        {
            let ability = match ValueAbility::from_source_name(self.current().text.as_str()) {
                Some(a) => a,
                None => {
                    return Err(
                        self.error_here(
                            "expected value ability: copy, drop, store, fixed, serializable, non_linear, or cell",
                        ),
                    );
                },
            };
            if contains_ability(&abilities, ability) {
                let message = concat3("duplicate '", ability.as_str(), "' value ability");
                return Err(CompileError::new(message, self.current().span));
            }
            abilities.push(ability);
            if self.check(&TokenKind::Eof) {
                break;
            }
            self.advance();
            if self.check(&TokenKind::Comma) {
                self.advance();
            } else {
                break;
            }
        }
        Ok(abilities)
    }

    fn parse_capabilities(&mut self) -> (r: Result<Vec<Capability>>)
        requires
            old(self).wf(),
        ensures
            final(self).kept(old(self)),
            final(self).diagnostics == old(self).diagnostics,
            r is Ok,
            old(self).cur_kind() is Has ==> (r matches Ok(v) && v@ == capability_list(
                old(self).tokens@,
                old(self).position + 1,
            )),
            !(old(self).cur_kind() is Has) ==> (r matches Ok(v) && v@.len() == 0 && final(self).position == old(
                self,
            ).position),
    {
        let mut caps: Vec<Capability> = Vec::new();
        if self.check(&TokenKind::Has) {
            self.advance();
            proof {
                assert(caps@ + capability_list(self.tokens@, self.position as int) =~= capability_list(
                    self.tokens@,
                    self.position as int,
                ));
            }
            loop
                invariant_except_break
                    caps@ + capability_list(self.tokens@, self.position as int) == capability_list(
                        old(self).tokens@,
                        old(self).position + 1,
                    ),
                invariant
                    self.kept(old(self)),
                    self.diagnostics == old(self).diagnostics,
                    old(self).cur_kind() is Has,
                ensures
                    self.kept(old(self)),
                    self.diagnostics == old(self).diagnostics,
                    caps@ == capability_list(old(self).tokens@, old(self).position + 1),
                decreases self.tokens@.len() - self.position,
            {
                let ghost at = self.position as int;
                let capability = match Capability::from_source_name(self.current().text.as_str()) {
                    Some(c) => c,
                    None => {
                        assert(caps@ =~= caps@ + capability_list(self.tokens@, at));
                        break;
                    },
                };
                let ghost before = caps@;
                caps.push(capability);
                if self.check(&TokenKind::Eof) {
                    assert(caps@ =~= before + capability_list(self.tokens@, at));
                    break;
                }
                self.advance();
                if self.check(&TokenKind::Comma) {
                    self.advance();
                    assert(capability_list(self.tokens@, at) == seq![capability] + capability_list(
                        self.tokens@,
                        at + 2,
                    ));
                    assert(caps@ + capability_list(self.tokens@, self.position as int) =~= before
                        + capability_list(self.tokens@, at));
                } else {
                    assert(caps@ =~= before + capability_list(self.tokens@, at));
                    break;
                }
            }
        }
        Ok(caps)
    }
}

/// The capabilities named from token `i` on: a capability name, then more after a comma.
pub open spec fn capability_list(t: Seq<Token>, i: int) -> Seq<Capability>
    decreases t.len() - i,
{
    if i < 0 || i >= t.len() {
        Seq::empty()
    } else {
        match Capability::spec_from_source_name(t[i].text@) {
            None => Seq::empty(),
            Some(c) => if t[i].kind is Eof || i + 1 >= t.len() || !(t[i + 1].kind is Comma) {
                seq![c]
            } else {
                seq![c] + capability_list(t, i + 2)
            },
        }
    }
}

/// Whether a token opens a type policy declaration.
pub open spec fn starts_policy_decl(k: TokenKind) -> bool {
    match k {
        TokenKind::Identifier(n) => n@ == "with_default_hash_type"@ || n@ == "with_capacity_floor"@ || n@
            == "identity"@,
        _ => false,
    }
}

/// The expression a literal token stands for.
pub open spec fn literal_expr(k: TokenKind) -> Option<Expr> {
    match k {
        TokenKind::Integer(n) => Some(Expr::Integer(n)),
        TokenKind::True => Some(Expr::Bool(true)),
        TokenKind::False => Some(Expr::Bool(false)),
        TokenKind::String(t) => Some(Expr::String(t)),
        _ => None,
    }
}

/// The unary operator a prefix token stands for: `-` negates, `!` is logical not, `&` takes a
/// reference and `*` dereferences.
pub open spec fn prefix_operator(k: TokenKind) -> Option<UnaryOp> {
    match k {
        TokenKind::Minus => Some(UnaryOp::Neg),
        TokenKind::Not => Some(UnaryOp::Not),
        TokenKind::Ampersand => Some(UnaryOp::Ref),
        TokenKind::Star => Some(UnaryOp::Deref),
        _ => None,
    }
}

/// A token that closes an operand: the end of the input, a closing bracket, a comma, a
/// semicolon or an opening brace.
pub open spec fn ends_operand(k: TokenKind) -> bool {
    k is Eof || k is RParen || k is RBrace || k is RBracket || k is Comma || k is Semi || k is LBrace
}

/// Token `i` is a literal, and the token after it ends the operand.
pub open spec fn literal_at(t: Seq<Token>, i: int) -> bool {
    &&& 0 <= i < t.len() - 1
    &&& literal_expr(t[i].kind) is Some
    &&& ends_operand(t[i + 1].kind)
}

/// The primitive type a keyword token names.
pub open spec fn primitive_type(k: TokenKind) -> Option<Type> {
    match k {
        TokenKind::U8 => Some(Type::U8),
        TokenKind::U16 => Some(Type::U16),
        TokenKind::U32 => Some(Type::U32),
        TokenKind::I32 => Some(Type::I32),
        TokenKind::U64 => Some(Type::U64),
        TokenKind::U128 => Some(Type::U128),
        TokenKind::Bool => Some(Type::Bool),
        TokenKind::Address => Some(Type::Address),
        TokenKind::Hash => Some(Type::Hash),
        _ => None,
    }
}

/// Whether a token can open a type: a primitive type, a name, an array, a tuple or a
/// reference.
pub open spec fn starts_type(k: TokenKind) -> bool {
    primitive_type(k) is Some || k is Identifier || k is Launch || k is LBracket || k is LParen || k is Ampersand
}

/// The identity policy a bare word names; nothing for `field`, which takes an argument, and for
/// any other word.
pub open spec fn identity_word(w: Seq<char>) -> Option<IdentityPolicy> {
    if w == "ckb_type_id"@ {
        Some(IdentityPolicy::CkbTypeId)
    } else if w == "field"@ {
        None
    } else if w == "script_args"@ {
        Some(IdentityPolicy::ScriptArgs)
    } else if w == "singleton_type"@ {
        Some(IdentityPolicy::SingletonType)
    } else if w == "none"@ {
        Some(IdentityPolicy::NoIdentity)
    } else {
        None
    }
}

/// Whether a word names an identity policy.
pub open spec fn is_identity_word(w: Seq<char>) -> bool {
    identity_word(w) is Some || w == "field"@
}

fn contains_ability(v: &Vec<ValueAbility>, a: ValueAbility) -> (r: bool)
    ensures
        r == v@.contains(a),
{
    let mut i: usize = 0;
    while i < v.len()
        invariant
            i <= v@.len(),
            forall|j: int| 0 <= j < i ==> v@[j] != a,
        decreases v@.len() - i,
    {
        if v[i] == a {
            return true;
        }
        i += 1;
    }
    false
}

/// Whether a string holds `::`.
fn contains_double_colon(s: &str) -> (r: bool)
    ensures
        r == exists|i: int| 0 <= i < s@.len() - 1 && s@[i] == ':' && #[trigger] s@[i + 1] == ':',
{
    let cs = chars_of(s);
    let mut i: usize = 0;
    while cs.len() > 0 && i < cs.len() - 1
        invariant
            cs@ == s@,
            forall|j: int| 0 <= j < i && j < s@.len() - 1 ==> !(s@[j] == ':' && #[trigger] s@[j + 1] == ':'),
        decreases cs@.len() - i,
    {
        if cs[i] == ':' && cs[i + 1] == ':' {
            return true;
        }
        i += 1;
    }
    false
}

fn contains_string(v: &Vec<String>, s: &String) -> (r: bool)
    ensures
        r == exists|i: int| 0 <= i < v@.len() && #[trigger] v@[i]@ == s@,
{
    let mut i: usize = 0;
    while i < v.len()
        invariant
            i <= v@.len(),
            forall|j: int| 0 <= j < i ==> #[trigger] v@[j]@ != s@,
        decreases v@.len() - i,
    {
        if v[i] == *s {
            return true;
        }
        i += 1;
    }
    false
}

impl<'a> Parser<'a> {
    fn previous_non_newline(&self) -> (t: &'a Token)
        requires
            self.wf(),
    {
        let mut index = if self.position > 0 { self.position - 1 } else { 0 };
        while index > 0 && self.tokens[index].kind.tag() == TokenKind::Newline.tag()
            invariant
                index < self.tokens@.len(),
            decreases index,
        {
            index -= 1;
        }
        &self.tokens[index]
    }

    fn check_next(&self, kind: &TokenKind) -> (r: bool)
        requires
            self.wf(),
        ensures
            self.position + 1 < self.tokens@.len() ==> r == (self.tokens@[self.position + 1].kind.spec_tag()
                == kind.spec_tag()),
    {
        self.peek(1).kind.tag() == kind.tag()
    }

    /// Whether `<` at the cursor opens type arguments that are followed by `follower`.
    fn generic_arguments_followed_by(&self, follower: &TokenKind) -> (r: bool)
        requires
            self.wf(),
        ensures
            r ==> self.cur_kind() is Lt,
            self.cur_kind() is Lt && self.tokens@[self.position + 1].kind is Gt && !(self.tokens@[self.position
                + 2].kind is Newline) ==> (r <==> self.tokens@[self.position + 2].kind.spec_tag() == follower.spec_tag()),
    {
        if !self.check(&TokenKind::Lt) || self.position >= self.tokens.len() - 1 {
            return false;
        }
        let mut probe = Parser {
            tokens: self.tokens,
            position: self.position + 1,
            recover: false,
            diagnostics: Vec::new(),
            expression_depth: 0,
            type_depth: self.type_depth,
            unary_depth: 0,
            statement_depth: 0,
            if_depth: 0,
            entry_body_grammar: EntryBodyGrammar::VerificationSection,
        };
        while !probe.check(&TokenKind::Gt) && !probe.check(&TokenKind::Eof)
            invariant
                probe.wf(),
                probe.tokens@ == self.tokens@,
                self.wf(),
                self.tokens@[self.position + 1].kind is Gt ==> probe.position == self.position + 1,
            decreases probe.tokens@.len() - probe.position,
        {
            let ghost before = probe.position;
            match probe.parse_type() {
                Ok(_) => {},
                Err(_) => {
                    return false;
                },
            }
            if probe.check(&TokenKind::Comma) {
                probe.advance();
            } else {
                break;
            }
        }
        if !probe.check(&TokenKind::Gt) {
            return false;
        }
        probe.advance();
        probe.skip_newlines();
        probe.check(follower)
    }

    fn supports_generic_call(&self, expr: &Expr) -> (r: bool)
        requires
            self.wf(),
        ensures
            r ==> self.cur_kind() is Lt,
            !(*expr is Identifier) ==> !r,
    {
        match expr {
            Expr::Identifier(_) => self.generic_arguments_followed_by(&TokenKind::LParen),
            _ => false,
        }
    }

    fn parse_block(&mut self) -> (r: Result<Vec<Stmt>>)
        requires
            old(self).wf(),
        ensures
            final(self).kept(old(self)),
            r is Ok ==> final(self).position > old(self).position,
            !(old(self).cur_kind() is LBrace) ==> r is Err,
            old(self).cur_kind() is LBrace && old(self).tokens@[old(self).position + 1].kind is RBrace ==> (r matches Ok(
                v,
            ) && v@.len() == 0 && final(self).position == old(self).position + 2),
        decreases old(self).budget(), old(self).remaining(), 30nat,
    {
        self.expect(TokenKind::LBrace)?;
        self.skip_newlines();
        let mut stmts: Vec<Stmt> = Vec::new();
        while !self.check(&TokenKind::RBrace) && !self.check(&TokenKind::Eof)
            invariant
                self.kept(old(self)),
                self.position > old(self).position,
                old(self).cur_kind() is LBrace && old(self).tokens@[old(self).position + 1].kind is RBrace
                    ==> self.position == old(self).position + 1 && stmts@.len() == 0,
            decreases self.tokens@.len() - self.position,
        {
            if let Some(stmt) = self.parse_stmt_recovering()? {
                stmts.push(stmt);
            }
            self.skip_newlines();
        }
        self.expect(TokenKind::RBrace)?;
        Ok(stmts)
    }

    fn parse_stmt_recovering(&mut self) -> (r: Result<Option<Stmt>>)
        requires
            old(self).wf(),
        ensures
            final(self).kept(old(self)),
            !old(self).recovering() ==> (old(self).stmt_fails() matches Some((m, c)) ==> (r matches Err(e) && e.message@ == m && code_text(e.code) == c)),
            r is Ok ==> (final(self).position > old(self).position || old(self).cur_kind() is Eof),
        decreases old(self).budget(), old(self).remaining(), 70nat,
    {
        let start_position = self.position;
        match self.parse_stmt() {
            Ok(stmt) => Ok(Some(stmt)),
            Err(error) => {
                if self.recover {
                    self.record_diagnostic(error);
                    self.synchronize_stmt(start_position);
                    Ok(None)
                } else {
                    Err(error)
                }
            },
        }
    }

    fn parse_stmt(&mut self) -> (r: Result<Stmt>)
        requires
            old(self).wf(),
        ensures
            final(self).kept(old(self)),
            old(self).stmt_fails() matches Some((m, c)) ==> (r matches Err(e) && e.message@ == m && code_text(e.code) == c),
            r is Ok ==> final(self).position > old(self).position,
        decreases old(self).budget(), old(self).remaining(), 69nat,
    {
        if self.statement_depth >= MAX_PARSE_RECURSION_DEPTH {
            return Err(self.error_here("statement nesting exceeds the parser limit of 32"));
        }
        self.statement_depth += 1;
        let result = self.parse_stmt_inner();
        self.statement_depth -= 1;
        result
    }

    fn parse_stmt_inner(&mut self) -> (r: Result<Stmt>)
        requires
            old(self).wf(),
        ensures
            final(self).kept(old(self)),
            old(self).preserve_empty_at_cursor() ==> (r matches Err(e) && e.message@ == "preserve block is empty — at least one field name is required"@ && (e.code matches Some(c) && c@ == "E1001"@)),
            old(self).returns_too_deep() ==> (r matches Err(e) && e.message@ == "expression nesting exceeds the parser limit of 32"@ && e.code is None),
            r is Ok ==> final(self).position > old(self).position,
            old(self).at_simple_literal() && old(self).expression_depth < MAX_PARSE_RECURSION_DEPTH ==> r == Ok::<
                Stmt,
                CompileError,
            >(Stmt::Expr(old(self).simple_literal())),
            old(self).cur_kind() is Return && ({
                let k = old(self).tokens@[old(self).position + 1].kind;
                k is Newline || k is RBrace || k is Eof
            }) ==> (r matches Ok(Stmt::Return(ret)) && ret.value is None),
            old(self).cur_kind() is Break && ident_like(old(self).tokens@[old(self).position + 1].kind) is None ==> (
            r matches Ok(Stmt::Break(c)) && c.label is None),
            old(self).cur_kind() is Continue && ident_like(old(self).tokens@[old(self).position + 1].kind) is None
                ==> (r matches Ok(Stmt::Continue(c)) && c.label is None),
        decreases old(self).budget(), old(self).remaining(), 68nat,
    {
        let stmt = match &self.current().kind {
            TokenKind::Let => Stmt::Let(self.parse_let()?),
            TokenKind::Return => Stmt::Return(self.parse_return()?),
            TokenKind::If => Stmt::If(self.parse_if()?),
            TokenKind::For => Stmt::For(self.parse_for()?),
            TokenKind::While => Stmt::While(self.parse_while()?),
            TokenKind::Break => Stmt::Break(self.parse_loop_control(TokenKind::Break)?),
            TokenKind::Continue => Stmt::Continue(self.parse_loop_control(TokenKind::Continue)?),
            TokenKind::Label => self.parse_labeled_loop()?,
            TokenKind::Borrow => Stmt::Borrow(self.parse_borrow()?),
            _ => {
                if self.is_replace_relation_ahead() {
                    Stmt::Expr(self.parse_replace_relation()?)
                } else {
                    let expr = self.parse_expr()?;
                    Stmt::Expr(expr)
                }
            },
        };
        self.consume_optional_semi();
        Ok(stmt)
    }

    /// `replace x -> y {` is recognised only in constraint-block entry bodies.
    fn is_replace_relation_ahead(&self) -> (r: bool)
        requires
            self.wf(),
        ensures
            r ==> self.cur_kind() is Identifier,
    {
        self.entry_body_grammar == EntryBodyGrammar::ConstraintBlock && self.at_word("replace")
            && self.check_next(&TokenKind::Identifier(String::new()))
            && self.peek(2).kind.tag() == TokenKind::Arrow.tag()
    }

    fn expect_identifier(&mut self, what: &str) -> (r: Result<String>)
        requires
            old(self).wf(),
        ensures
            final(self).kept(old(self)),
            final(self).diagnostics == old(self).diagnostics,
            r is Ok <==> old(self).cur_kind() is Identifier,
            r matches Ok(n) ==> old(self).cur_kind() == TokenKind::Identifier(n),
            r is Ok ==> final(self).position == old(self).position + 1,
    {
        if let TokenKind::Identifier(name) = &self.current().kind {
            let name = name.clone();
            self.advance();
            Ok(name)
        } else {
            let mut message = concat3("expected ", what, ", found `");
            let found = describe(&self.current().kind);
            message.append(found.as_str());
            message.append("`");
            Err(CompileError::new(message, self.current().span))
        }
    }

    fn expect_identifier_keyword(&mut self, keyword: &str, spelling: &str) -> (r: Result<()>)
        requires
            old(self).wf(),
        ensures
            final(self).kept(old(self)),
            final(self).diagnostics == old(self).diagnostics,
            r is Ok <==> (old(self).cur_kind() matches TokenKind::Identifier(n) && n@ == keyword@),
            r is Ok ==> final(self).position == old(self).position + 1,
    {
        if self.at_word(keyword) {
            self.advance();
            Ok(())
        } else {
            Err(CompileError::new(concat2("expected ", spelling), self.current().span))
        }
    }

    fn parse_replace_relation(&mut self) -> (r: Result<Expr>)
        requires
            old(self).wf(),
            old(self).cur_kind() is Identifier,
        ensures
            final(self).kept(old(self)),
            r is Ok ==> final(self).position > old(self).position,
            r matches Ok(e) ==> e is ReplaceRelation,
        decreases old(self).budget(), old(self).remaining(), 67nat,
    {
        let start_span = self.current().span;
        self.advance();
        let before = self.expect_identifier("relation predecessor")?;
        self.expect(TokenKind::Arrow)?;
        let after = self.expect_identifier("relation successor")?;
        let mut data: Option<ReplaceDataTreatment> = None;
        let mut lock: Option<ReplaceLockTreatment> = None;
        let mut capacity: Option<ReplaceCapacityTreatment> = None;
        let mut identity: Option<ReplaceIdentityTreatment> = None;
        self.skip_newlines();
        self.expect(TokenKind::LBrace)?;
        loop
            invariant
                self.kept(old(self)),
                self.position > old(self).position,
            decreases self.tokens@.len() - self.position,
        {
            self.skip_newlines();
            if self.check(&TokenKind::RBrace) || self.check(&TokenKind::Eof) {
                break;
            }
            let keyword = match &self.current().kind {
                TokenKind::Identifier(name) => name.clone(),
                TokenKind::Lock => "lock".to_owned(),
                _ => {
                    return Err(self.error_here("expected a `data`, `lock`, `capacity` or `identity` treatment"));
                },
            };
            self.advance();
            let k = keyword.as_str();
            if str_eq(k, "data") {
                if data.is_some() {
                    return Err(self.error_here("duplicate `data` treatment"));
                }
                data = Some(self.parse_replace_data_treatment()?);
            } else if str_eq(k, "lock") {
                if lock.is_some() {
                    return Err(self.error_here("duplicate `lock` treatment"));
                }
                lock = Some(self.parse_replace_lock_treatment()?);
            } else if str_eq(k, "capacity") {
                if capacity.is_some() {
                    return Err(self.error_here("duplicate `capacity` treatment"));
                }
                self.expect(TokenKind::Eq)?;
                self.expect_identifier_keyword("same", "`capacity = same`")?;
                capacity = Some(ReplaceCapacityTreatment::Same);
            } else if str_eq(k, "identity") {
                if identity.is_some() {
                    return Err(self.error_here("duplicate `identity` treatment"));
                }
                self.expect(TokenKind::Eq)?;
                self.expect_identifier_keyword("same", "`identity = same`")?;
                identity = Some(ReplaceIdentityTreatment::Same);
            } else {
                let mut message = concat3("unknown relation treatment `", k, "`; ");
                message.append("expected `data`, `lock`, `capacity` or `identity`");
                return Err(CompileError::new(message, self.current().span));
            }
            self.consume_optional_semi();
        }
        self.skip_newlines();
        self.expect(TokenKind::RBrace)?;
        let mut missing = String::new();
        let mut any_missing = false;
        let names: [(&str, bool); 4] = [
            ("data", data.is_none()),
            ("lock", lock.is_none()),
            ("capacity", capacity.is_none()),
            ("identity", identity.is_none()),
        ];
        let mut i: usize = 0;
        while i < 4
            decreases 4 - i,
        {
            let (name, is_missing) = names[i];
            if is_missing {
                if any_missing {
                    missing.append(", ");
                }
                missing.append(name);
                any_missing = true;
            }
            i += 1;
        }
        match (data, lock, capacity, identity) {
            (Some(data), Some(lock), Some(capacity), Some(identity)) => {
                Ok(Expr::ReplaceRelation(ReplaceRelation { before, after, data, lock, capacity, identity, span: start_span }))
            },
            _ => {
                let message = concat2(
                    "replace relation must state every treatment explicitly; missing ",
                    missing.as_str(),
                );
                Err(CompileError::new(message, start_span))
            },
        }
    }

    fn parse_replace_data_treatment(&mut self) -> (r: Result<ReplaceDataTreatment>)
        requires
            old(self).wf(),
        ensures
            final(self).kept(old(self)),
            r is Ok ==> final(self).position > old(self).position,
            old(self).cur_kind() is Eq && ident_like(old(self).tokens@[old(self).position + 1].kind) == Some("same"@) && old(self).tokens@[old(self).position + 1].kind is Identifier && ident_like(old(self).tokens@[old(self).position + 2].kind) == Some("except"@) && old(self).tokens@[old(self).position + 2].kind is Identifier && old(self).tokens@[old(self).position + 3].kind is LBrace && old(self).tokens@[old(self).position + 4].kind is RBrace ==> (r matches Ok(ReplaceDataTreatment::SameExcept(v)) && v@.len() == 0 && final(self).position == old(self).position + 5),
            old(self).cur_kind() is LBrace && old(self).tokens@[old(self).position + 1].kind is RBrace ==> (r matches Ok(ReplaceDataTreatment::Fields(v)) && v@.len() == 0 && final(self).position == old(self).position + 2),
        decreases old(self).budget(), old(self).remaining(), 20nat,
    {
        if self.check(&TokenKind::Eq) {
            self.advance();
            self.expect_identifier_keyword("same", "`data = same except { ... }`")?;
            self.expect_identifier_keyword("except", "`data = same except { ... }`")?;
            self.skip_newlines();
            self.expect(TokenKind::LBrace)?;
            let mut assigned: Vec<(String, Expr)> = Vec::new();
            loop
                invariant
                    old(self).cur_kind() is Eq,
                    old(self).cur_kind() is Eq && ident_like(old(self).tokens@[old(self).position + 1].kind) == Some("same"@) && old(self).tokens@[old(self).position + 1].kind is Identifier && ident_like(old(self).tokens@[old(self).position + 2].kind) == Some("except"@) && old(self).tokens@[old(self).position + 2].kind is Identifier && old(self).tokens@[old(self).position + 3].kind is LBrace && old(self).tokens@[old(self).position + 4].kind is RBrace ==> self.position == old(self).position + 4 && assigned@.len() == 0,
                    self.kept(old(self)),
                    self.position > old(self).position,
                decreases self.tokens@.len() - self.position,
            {
                self.skip_newlines();
                if self.check(&TokenKind::RBrace) || self.check(&TokenKind::Eof) {
                    break;
                }
                let field = self.expect_identifier("`same except` field")?;
                let mut dup = false;
                let mut j: usize = 0;
                while j < assigned.len()
                    invariant
                        old(self).cur_kind() is Eq,
                        j <= assigned@.len(),
                    decreases assigned@.len() - j,
                {
                    if assigned[j].0 == field {
                        dup = true;
                    }
                    j += 1;
                }
                if dup {
                    let message = concat3("duplicate `same except` field `", field.as_str(), "`");
                    return Err(CompileError::new(message, self.current().span));
                }
                self.expect(TokenKind::Eq)?;
                let value = self.parse_expr()?;
                assigned.push((field, value));
                self.consume_optional_semi();
            }
            self.skip_newlines();
            self.expect(TokenKind::RBrace)?;
            return Ok(ReplaceDataTreatment::SameExcept(assigned));
        }
        self.skip_newlines();
        self.expect(TokenKind::LBrace)?;
        let mut treatments: Vec<ReplaceFieldTreatment> = Vec::new();
        loop
            invariant
                !(old(self).cur_kind() is Eq),
                old(self).cur_kind() is LBrace && old(self).tokens@[old(self).position + 1].kind is RBrace ==> self.position == old(self).position + 1 && treatments@.len() == 0,
                self.kept(old(self)),
                self.position > old(self).position,
            decreases self.tokens@.len() - self.position,
        {
            self.skip_newlines();
            if self.check(&TokenKind::RBrace) || self.check(&TokenKind::Eof) {
                break;
            }
            if self.at_word("same") && self.check_next(&TokenKind::LBrace) {
                self.advance();
                let ghost mark = self.position;
                self.expect(TokenKind::LBrace)?;
                let mut fields: Vec<ReplaceFieldTreatment> = Vec::new();
                let mut seen: Vec<String> = Vec::new();
                loop
                    invariant
                        !(old(self).cur_kind() is Eq),
                        !(old(self).cur_kind() is LBrace && old(self).tokens@[old(self).position + 1].kind is RBrace),
                        self.kept(old(self)),
                        self.position > mark,
                        mark > old(self).position,
                    decreases self.tokens@.len() - self.position,
                {
                    self.skip_newlines();
                    if self.check(&TokenKind::RBrace) || self.check(&TokenKind::Eof) {
                        break;
                    }
                    let field = self.expect_identifier("`same` field")?;
                    if contains_string(&seen, &field) {
                        let message = concat3("duplicate `same` field `", field.as_str(), "`");
                        return Err(CompileError::new(message, self.current().span));
                    }
                    seen.push(field.clone());
                    fields.push(ReplaceFieldTreatment::Same(field));
                    self.consume_optional_semi();
                }
                self.skip_newlines();
                self.expect(TokenKind::RBrace)?;
                treatments.append(&mut fields);
            } else {
                let field = self.expect_identifier("relation data field")?;
                self.expect(TokenKind::Eq)?;
                if self.at_word("same") {
                    self.advance();
                    treatments.push(ReplaceFieldTreatment::Same(field));
                } else {
                    let value = self.parse_expr()?;
                    treatments.push(ReplaceFieldTreatment::Assign(field, value));
                }
                self.consume_optional_semi();
            }
        }
        self.skip_newlines();
        self.expect(TokenKind::RBrace)?;
        Ok(ReplaceDataTreatment::Fields(treatments))
    }

    fn parse_replace_lock_treatment(&mut self) -> (r: Result<ReplaceLockTreatment>)
        requires
            old(self).wf(),
        ensures
            final(self).kept(old(self)),
            r is Ok ==> final(self).position > old(self).position,
            !(old(self).cur_kind() is Eq) ==> r is Err,
            old(self).cur_kind() is Eq && (old(self).tokens@[old(self).position + 1].kind matches TokenKind::Identifier(w) && w@ == "same"@) ==> r == Ok::<
                ReplaceLockTreatment,
                CompileError,
            >(ReplaceLockTreatment::Same) && final(self).position == old(self).position + 2,
            old(self).cur_kind() is Eq && !(old(self).tokens@[old(self).position + 1].kind is Identifier) ==> r is Err,
        decreases old(self).budget(), old(self).remaining(), 20nat,
    {
        self.expect(TokenKind::Eq)?;
        if self.at_word("same") {
            self.advance();
            return Ok(ReplaceLockTreatment::Same);
        }
        if self.at_word("exact") && self.check_next(&TokenKind::LParen) {
            self.advance();
            self.expect(TokenKind::LParen)?;
            let lock = self.parse_expr()?;
            self.expect(TokenKind::RParen)?;
            return Ok(ReplaceLockTreatment::Exact(Box::new(lock)));
        }
        if self.at_word("exact_hash") && self.check_next(&TokenKind::LParen) {
            self.advance();
            self.expect(TokenKind::LParen)?;
            let lock = self.parse_expr()?;
            self.expect(TokenKind::RParen)?;
            return Ok(ReplaceLockTreatment::ExactHash(Box::new(lock)));
        }
        Err(self.error_here("expected `lock = same`, `lock = exact(address)` or `lock = exact_hash(script_hash)`"))
    }

    fn parse_let(&mut self) -> (r: Result<LetStmt>)
        requires
            old(self).wf(),
        ensures
            final(self).kept(old(self)),
            r is Ok ==> final(self).position > old(self).position,
            !(old(self).cur_kind() is Let) ==> r is Err,
            old(self).expression_depth < MAX_PARSE_RECURSION_DEPTH && old(self).unary_depth < MAX_PARSE_RECURSION_DEPTH && old(self).cur_kind() is Let
                && old(self).tokens@[old(self).position + 1].kind is Underscore && old(self).tokens@[old(self).position
                + 2].kind is Eq && literal_at(old(self).tokens@, old(self).position + 3) ==> (r matches Ok(l) && l.pattern
                == BindingPattern::Wildcard && l.ty is None && !l.is_mut && l.value == literal_expr(old(self).tokens@[old(
                self).position + 3].kind)->0 && final(self).position == old(self).position + 4),
        decreases old(self).budget(), old(self).remaining(), 67nat,
    {
        let start_span = self.current().span;
        self.expect(TokenKind::Let)?;
        let is_mut = if self.check(&TokenKind::Mut) {
            self.advance();
            true
        } else {
            false
        };
        let pattern = self.parse_binding_pattern()?;
        let ty = if self.check(&TokenKind::Colon) {
            self.advance();
            Some(self.parse_type()?)
        } else {
            None
        };
        self.expect(TokenKind::Eq)?;
        let value = self.parse_expr()?;
        let end_span = self.current().span;
        Ok(LetStmt { pattern, ty, value, is_mut, span: Span::new(start_span.start, end_span.end, start_span.line, start_span.column) })
    }

    fn parse_return(&mut self) -> (r: Result<ReturnStmt>)
        requires
            old(self).wf(),
        ensures
            final(self).kept(old(self)),
            old(self).returns_too_deep() ==> (r matches Err(e) && e.message@ == "expression nesting exceeds the parser limit of 32"@ && e.code is None),
            r is Ok ==> final(self).position > old(self).position,
            !(old(self).cur_kind() is Return) ==> r is Err,
            old(self).cur_kind() is Return && ({
                let k = old(self).tokens@[old(self).position + 1].kind;
                k is Newline || k is RBrace || k is Eof
            }) ==> (r matches Ok(ret) && ret.value is None && final(self).position == old(self).position + 1),
        decreases old(self).budget(), old(self).remaining(), 67nat,
    {
        let start_span = self.current().span;
        self.expect(TokenKind::Return)?;
        let value = if self.check(&TokenKind::Newline) || self.check(&TokenKind::RBrace) || self.check(&TokenKind::Eof) {
            None
        } else {
            Some(self.parse_expr()?)
        };
        let end_span = self.previous_non_newline().span;
        Ok(ReturnStmt { value, span: Span::new(start_span.start, end_span.end, start_span.line, start_span.column) })
    }

    fn parse_if(&mut self) -> (r: Result<IfStmt>)
        requires
            old(self).wf(),
        ensures
            final(self).kept(old(self)),
            r is Ok ==> final(self).position > old(self).position,
        decreases old(self).budget(), old(self).remaining(), 67nat,
    {
        if self.if_depth >= MAX_PARSE_RECURSION_DEPTH {
            return Err(self.error_here("if nesting exceeds the parser limit of 32"));
        }
        self.if_depth += 1;
        let result = self.parse_if_inner();
        self.if_depth -= 1;
        result
    }

    fn parse_if_inner(&mut self) -> (r: Result<IfStmt>)
        requires
            old(self).wf(),
        ensures
            final(self).kept(old(self)),
            r is Ok ==> final(self).position > old(self).position,
            !(old(self).cur_kind() is If) ==> r is Err,
            old(self).expression_depth < MAX_PARSE_RECURSION_DEPTH && old(self).unary_depth < MAX_PARSE_RECURSION_DEPTH && old(self).cur_kind() is If
                && literal_at(old(self).tokens@, old(self).position + 1) && old(self).tokens@[old(self).position + 2].kind is LBrace
                && old(self).tokens@[old(self).position + 3].kind is RBrace && !(old(self).tokens@[old(self).position
                + 4].kind is Else) ==> (r matches Ok(i) && i.condition == literal_expr(old(self).tokens@[old(self).position
                + 1].kind)->0 && i.then_branch@.len() == 0 && i.else_branch is None && final(self).position == old(self).position + 4),
        decreases old(self).budget(), old(self).remaining(), 66nat,
    {
        let start_span = self.current().span;
        self.expect(TokenKind::If)?;
        let condition = self.parse_expr()?;
        let then_branch = self.parse_block()?;
        let else_branch = if self.check(&TokenKind::Else) {
            self.advance();
            if self.check(&TokenKind::If) {
                let inner_if = self.parse_if()?;
                let mut v: Vec<Stmt> = Vec::new();
                v.push(Stmt::If(inner_if));
                Some(v)
            } else {
                Some(self.parse_block()?)
            }
        } else {
            None
        };
        let end_span = self.current().span;
        Ok(IfStmt { condition, then_branch, else_branch, span: Span::new(start_span.start, end_span.end, start_span.line, start_span.column) })
    }

    fn parse_for(&mut self) -> (r: Result<ForStmt>)
        requires
            old(self).wf(),
        ensures
            final(self).kept(old(self)),
            r is Ok ==> final(self).position > old(self).position,
            !(old(self).cur_kind() is For) ==> r is Err,
            old(self).expression_depth < MAX_PARSE_RECURSION_DEPTH && old(self).unary_depth < MAX_PARSE_RECURSION_DEPTH && old(self).cur_kind() is For
                && old(self).tokens@[old(self).position + 1].kind is Underscore && old(self).tokens@[old(self).position + 2].kind is In
                && literal_at(old(self).tokens@, old(self).position + 3) && old(self).tokens@[old(self).position + 4].kind is LBrace
                && old(self).tokens@[old(self).position + 5].kind is RBrace ==> (r matches Ok(f) && f.pattern
                == BindingPattern::Wildcard && f.iterable == literal_expr(old(self).tokens@[old(self).position + 3].kind)->0
                && f.body@.len() == 0 && f.label is None && final(self).position == old(self).position + 6),
        decreases old(self).budget(), old(self).remaining(), 67nat,
    {
        let start_span = self.current().span;
        self.expect(TokenKind::For)?;
        let pattern = self.parse_binding_pattern()?;
        self.expect(TokenKind::In)?;
        let iterable = self.parse_expr()?;
        let body = self.parse_block()?;
        let end_span = self.current().span;
        Ok(ForStmt { label: None, pattern, iterable, body, span: Span::new(start_span.start, end_span.end, start_span.line, start_span.column) })
    }

    fn parse_while(&mut self) -> (r: Result<WhileStmt>)
        requires
            old(self).wf(),
        ensures
            final(self).kept(old(self)),
            r is Ok ==> final(self).position > old(self).position,
            !(old(self).cur_kind() is While) ==> r is Err,
            old(self).expression_depth < MAX_PARSE_RECURSION_DEPTH && old(self).unary_depth < MAX_PARSE_RECURSION_DEPTH && old(self).cur_kind() is While
                && literal_at(old(self).tokens@, old(self).position + 1) && old(self).tokens@[old(self).position + 2].kind is LBrace
                && old(self).tokens@[old(self).position + 3].kind is RBrace ==> (r matches Ok(w) && w.condition
                == literal_expr(old(self).tokens@[old(self).position + 1].kind)->0 && w.body@.len() == 0 && w.label is None
                && final(self).position == old(self).position + 4),
        decreases old(self).budget(), old(self).remaining(), 67nat,
    {
        let start_span = self.current().span;
        self.expect(TokenKind::While)?;
        let condition = self.parse_expr()?;
        let body = self.parse_block()?;
        let end_span = self.current().span;
        Ok(WhileStmt { label: None, condition, body, span: Span::new(start_span.start, end_span.end, start_span.line, start_span.column) })
    }

    fn parse_loop_control(&mut self, keyword: TokenKind) -> (r: Result<LoopControlStmt>)
        requires
            old(self).wf(),
            keyword is Break || keyword is Continue,
        ensures
            final(self).kept(old(self)),
            final(self).diagnostics == old(self).diagnostics,
            r is Ok ==> final(self).position > old(self).position,
            old(self).cur_kind().spec_tag() != keyword.spec_tag() ==> r is Err,
            old(self).cur_kind().spec_tag() == keyword.spec_tag() && ident_like(old(self).tokens@[old(self).position
                + 1].kind) is None ==> (r matches Ok(c) && c.label is None && final(self).position == old(self).position
                + 1),
    {
        let start = self.current().span;
        self.expect(keyword)?;
        let label = if self.ident_like_name().is_some() {
            Some(self.parse_name()?)
        } else {
            None
        };
        let end = self.current().span;
        Ok(LoopControlStmt { label, span: Span::new(start.start, end.start, start.line, start.column) })
    }

    fn parse_labeled_loop(&mut self) -> (r: Result<Stmt>)
        requires
            old(self).wf(),
        ensures
            final(self).kept(old(self)),
            r is Ok ==> final(self).position > old(self).position,
            !(old(self).cur_kind() is Label) ==> r is Err,
            old(self).expression_depth < MAX_PARSE_RECURSION_DEPTH && old(self).unary_depth < MAX_PARSE_RECURSION_DEPTH && old(self).cur_kind() is Label
                && ident_like(old(self).tokens@[old(self).position + 1].kind) is Some && old(self).tokens@[old(self).position + 2].kind is Colon && old(self).tokens@[old(self).position + 3].kind is While && literal_at(
                old(self).tokens@, old(self).position + 4) && old(self).tokens@[old(self).position + 5].kind is LBrace && old(self).tokens@[old(self).position + 6].kind is RBrace ==> (
            r matches Ok(Stmt::While(w)) && (w.label matches Some(l) && Some(l@) == ident_like(old(self).tokens@[old(self).position + 1].kind))
                && w.condition == literal_expr(old(self).tokens@[old(self).position + 4].kind)->0 && w.body@.len() == 0 && final(self).position == old(self).position + 7),
        decreases old(self).budget(), old(self).remaining(), 67nat,
    {
        self.expect(TokenKind::Label)?;
        let label = self.parse_name()?;
        self.expect(TokenKind::Colon)?;
        match &self.current().kind {
            TokenKind::For => {
                let mut statement = self.parse_for()?;
                statement.label = Some(label);
                Ok(Stmt::For(statement))
            },
            TokenKind::While => {
                let mut statement = self.parse_while()?;
                statement.label = Some(label);
                Ok(Stmt::While(statement))
            },
            _ => Err(self.error_here("label must precede a for or while loop")),
        }
    }

    fn parse_borrow(&mut self) -> (r: Result<BorrowStmt>)
        requires
            old(self).wf(),
        ensures
            final(self).kept(old(self)),
            r is Ok ==> final(self).position > old(self).position,
            !(old(self).cur_kind() is Borrow) ==> r is Err,
            old(self).cur_kind() is Borrow && ident_like(old(self).tokens@[old(self).position + 1].kind) is Some && ident_like(old(self).tokens@[old(self).position + 2].kind) == Some(
                "as"@) && ident_like(old(self).tokens@[old(self).position + 3].kind) is Some && old(self).tokens@[old(self).position + 4].kind is LBrace && old(self).tokens@[old(self).position + 5].kind is RBrace ==> (
            r matches Ok(b) && Some(b.root@) == ident_like(old(self).tokens@[old(self).position + 1].kind) && b.path@.len() == 0 && Some(b.binding@)
                == ident_like(old(self).tokens@[old(self).position + 3].kind) && b.body@.len() == 0 && final(self).position == old(self).position + 6),
        decreases old(self).budget(), old(self).remaining(), 67nat,
    {
        let start_span = self.current().span;
        self.expect(TokenKind::Borrow)?;
        let root = self.parse_name()?;
        let mut path: Vec<String> = Vec::new();
        while self.check(&TokenKind::Dot)
            invariant
                old(self).cur_kind() is Borrow && ident_like(old(self).tokens@[old(self).position + 1].kind) is Some && ident_like(old(self).tokens@[old(self).position + 2].kind) == Some("as"@)
                    ==> self.position == old(self).position + 2 && path@.len() == 0,
                self.kept(old(self)),
                self.position > old(self).position,
                self.diagnostics == old(self).diagnostics,
            decreases self.tokens@.len() - self.position,
        {
            self.advance();
            path.push(self.parse_name()?);
        }
        let as_span = self.current().span;
        let keyword = self.parse_name()?;
        if !str_eq(keyword.as_str(), "as") {
            return Err(CompileError::at("expected 'as' in borrow block", as_span));
        }
        let binding = self.parse_name()?;
        let body = self.parse_block()?;
        let end_span = self.previous_non_newline().span;
        Ok(BorrowStmt { root, path, binding, body, span: Span::new(start_span.start, end_span.end, start_span.line, start_span.column) })
    }
}

impl<'a> Parser<'a> {

    fn parse_expr(&mut self) -> (r: Result<Expr>)
        requires
            old(self).wf(),
        ensures
            final(self).kept(old(self)),
            old(self).preserve_empty_at_cursor() ==> (r matches Err(e) && e.message@ == "preserve block is empty — at least one field name is required"@ && (e.code matches Some(c) && c@ == "E1001"@)),
            old(self).groups_too_deep() ==> (r matches Err(e) && e.message@ == "expression nesting exceeds the parser limit of 32"@ && e.code is None),
            r is Ok ==> final(self).position > old(self).position,
            old(self).expression_depth >= MAX_PARSE_RECURSION_DEPTH ==> (r matches Err(e) && e.message@
                == "expression nesting exceeds the parser limit of 32"@ && e.code is None),
            old(self).at_simple_literal() && old(self).expression_depth < MAX_PARSE_RECURSION_DEPTH ==> r == Ok::<Expr, CompileError>(old(self).simple_literal())
                && final(self).position == old(self).position + 1,
            old(self).at_literal_sum() && old(self).expression_depth < MAX_PARSE_RECURSION_DEPTH ==> (r matches Ok(e) && old(self).is_literal_sum(e)) && final(self).position == old(self).position + 3,
            old(self).chain_ready() && old(self).expression_depth < MAX_PARSE_RECURSION_DEPTH ==> r == Ok::<Expr, CompileError>(old(self).chain_result(0)) && final(self).position == old(self).chain_end(0) + 1 && final(self).diags() == old(self).diags(),
        decreases old(self).budget(), old(self).remaining(), 60nat,
    {
        if self.expression_depth >= MAX_PARSE_RECURSION_DEPTH {
            return Err(self.error_here("expression nesting exceeds the parser limit of 32"));
        }
        self.expression_depth += 1;
        let result = self.parse_expr_inner();
        self.expression_depth -= 1;
        result
    }

    fn parse_expr_inner(&mut self) -> (r: Result<Expr>)
        requires
            old(self).wf(),
        ensures
            final(self).kept(old(self)),
            old(self).preserve_empty_within(true) ==> (r matches Err(e) && e.message@ == "preserve block is empty — at least one field name is required"@ && (e.code matches Some(c) && c@ == "E1001"@)),
            old(self).groups_too_deep_within(true) ==> (r matches Err(e) && e.message@ == "expression nesting exceeds the parser limit of 32"@ && e.code is None),
            r is Ok ==> final(self).position > old(self).position,
            old(self).at_simple_literal() ==> r == Ok::<Expr, CompileError>(old(self).simple_literal())
                && final(self).position == old(self).position + 1,
            old(self).at_literal_sum() ==> (r matches Ok(e) && old(self).is_literal_sum(e)) && final(self).position == old(self).position + 3,
            old(self).chain_ready() ==> r == Ok::<Expr, CompileError>(old(self).chain_result(0)) && final(self).position == old(self).chain_end(0) + 1 && final(self).diags() == old(self).diags(),
        decreases old(self).budget(), old(self).remaining(), 59nat,
    {
        self.skip_newlines();
        self.parse_assignment()
    }

    fn parse_assignment(&mut self) -> (r: Result<Expr>)
        requires
            old(self).wf(),
        ensures
            final(self).kept(old(self)),
            old(self).preserve_empty_within(true) ==> (r matches Err(e) && e.message@ == "preserve block is empty — at least one field name is required"@ && (e.code matches Some(c) && c@ == "E1001"@)),
            old(self).groups_too_deep_within(true) ==> (r matches Err(e) && e.message@ == "expression nesting exceeds the parser limit of 32"@ && e.code is None),
            r is Ok ==> final(self).position > old(self).position,
            old(self).at_simple_literal() ==> r == Ok::<Expr, CompileError>(old(self).simple_literal())
                && final(self).position == old(self).position + 1,
            old(self).at_literal_sum() ==> (r matches Ok(e) && old(self).is_literal_sum(e)) && final(self).position == old(self).position + 3,
            old(self).chain_ready() ==> r == Ok::<Expr, CompileError>(old(self).chain_result(0)) && final(self).position == old(self).chain_end(0) + 1 && final(self).diags() == old(self).diags(),
        decreases old(self).budget(), old(self).remaining(), 58nat,
    {
        proof {
            if old(self).chain_ready() {
                let t = self.tokens@;
                lemma_level_start(t, 0, self.position as int);
                let c = chain_extent(t, 0, self.position as int);
                lemma_level_stop_end(t, self.position as int);
            }
        }
        let left = self.parse_range()?;
        let start_span = self.current().span;
        if self.check(&TokenKind::Eq) {
            self.advance();
            let right = self.parse_expr()?;
            return Ok(Expr::Assign(AssignExpr { target: Box::new(left), op: AssignOp::Assign, value: Box::new(right), span: start_span }));
        }
        if self.check(&TokenKind::Plus) && self.check_next(&TokenKind::Eq) {
            self.advance();
            self.advance();
            let right = self.parse_expr()?;
            return Ok(Expr::Assign(AssignExpr { target: Box::new(left), op: AssignOp::AddAssign, value: Box::new(right), span: start_span }));
        }
        Ok(left)
    }

    fn parse_range(&mut self) -> (r: Result<Expr>)
        requires
            old(self).wf(),
        ensures
            final(self).kept(old(self)),
            old(self).preserve_empty_within(true) ==> (r matches Err(e) && e.message@ == "preserve block is empty — at least one field name is required"@ && (e.code matches Some(c) && c@ == "E1001"@)),
            old(self).groups_too_deep_within(true) ==> (r matches Err(e) && e.message@ == "expression nesting exceeds the parser limit of 32"@ && e.code is None),
            r is Ok ==> final(self).position > old(self).position,
            old(self).at_simple_literal() ==> r == Ok::<Expr, CompileError>(old(self).simple_literal())
                && final(self).position == old(self).position + 1,
            old(self).at_literal_sum() ==> (r matches Ok(e) && old(self).is_literal_sum(e)) && final(self).position == old(self).position + 3,
            old(self).chain_ready() ==> r == Ok::<Expr, CompileError>(old(self).chain_result(0)) && final(self).position == old(self).chain_end(0) + 1 && final(self).diags() == old(self).diags(),
        decreases old(self).budget(), old(self).remaining(), 57nat,
    {
        proof {
            if old(self).chain_ready() {
                let t = self.tokens@;
                lemma_level_start(t, 0, self.position as int);
                let c = chain_extent(t, 0, self.position as int);
                lemma_level_stop_end(t, self.position as int);
            }
        }
        let left = self.parse_or()?;
        if self.check(&TokenKind::Dot) && self.check_next(&TokenKind::Dot) {
            let start_span = self.current().span;
            self.advance();
            self.advance();
            let right = self.parse_or()?;
            Ok(Expr::Range(RangeExpr { start: Box::new(left), end: Box::new(right), span: start_span }))
        } else {
            Ok(left)
        }
    }

    fn parse_or(&mut self) -> (r: Result<Expr>)
        requires
            old(self).wf(),
        ensures
            final(self).kept(old(self)),
            old(self).preserve_empty_within(true) ==> (r matches Err(e) && e.message@ == "preserve block is empty — at least one field name is required"@ && (e.code matches Some(c) && c@ == "E1001"@)),
            old(self).groups_too_deep_within(true) ==> (r matches Err(e) && e.message@ == "expression nesting exceeds the parser limit of 32"@ && e.code is None),
            r is Ok ==> final(self).position > old(self).position,
            old(self).at_simple_literal() ==> r == Ok::<Expr, CompileError>(old(self).simple_literal())
                && final(self).position == old(self).position + 1,
            old(self).at_literal_sum() ==> (r matches Ok(e) && old(self).is_literal_sum(e)) && final(self).position == old(self).position + 3,
            old(self).chain_ready() ==> r == Ok::<Expr, CompileError>(old(self).chain_result(0)) && final(self).position == old(self).chain_end(0) + 1 && final(self).diags() == old(self).diags(),
        decreases old(self).budget(), old(self).remaining(), 56nat,
    {
        proof {
            if old(self).chain_ready() {
                lemma_level_start(self.tokens@, 0, self.position as int);
            }
        }
        let mut left = self.parse_and()?;
        loop
            invariant
                !old(self).preserve_empty_within(true),
                !old(self).groups_too_deep_within(true),
                self.kept(old(self)),
                self.position > old(self).position,
                old(self).at_simple_literal() ==> self.position == old(self).position + 1 && left == old(
                    self,
                ).simple_literal(),
                old(self).at_literal_sum() ==> self.position == old(self).position + 3 && old(self).is_literal_sum(left),
                old(self).chain_ready() ==> self.chain_state(old(self), 0, left),
            ensures
                old(self).chain_ready() ==> left == old(self).chain_result(0) && self.position == old(self).chain_end(0) + 1 && self.diags() == old(self).diags(),
            decreases self.tokens@.len() - self.position,
        {
            self.skip_newlines();
            let ghost b = self.position - 1;
            if !self.check(&TokenKind::Or) {
                proof {
                    if old(self).chain_ready() {
                        lemma_level_stop(self.tokens@, 0, old(self).position as int, b);
                    }
                }
                break;
            }
            proof {
                if old(self).chain_ready() {
                    lemma_level_step(self.tokens@, 0, old(self).position as int, b);
                }
            }
            let start_span = self.current().span;
            self.advance();
            self.skip_newlines();
            let right = self.parse_and()?;
            left = Expr::Binary(BinaryExpr { op: BinaryOp::Or, left: Box::new(left), right: Box::new(right), span: start_span });
        }
        Ok(left)
    }

    fn parse_and(&mut self) -> (r: Result<Expr>)
        requires
            old(self).wf(),
        ensures
            final(self).kept(old(self)),
            old(self).preserve_empty_within(true) ==> (r matches Err(e) && e.message@ == "preserve block is empty — at least one field name is required"@ && (e.code matches Some(c) && c@ == "E1001"@)),
            old(self).groups_too_deep_within(true) ==> (r matches Err(e) && e.message@ == "expression nesting exceeds the parser limit of 32"@ && e.code is None),
            r is Ok ==> final(self).position > old(self).position,
            old(self).at_simple_literal() ==> r == Ok::<Expr, CompileError>(old(self).simple_literal())
                && final(self).position == old(self).position + 1,
            old(self).at_literal_sum() ==> (r matches Ok(e) && old(self).is_literal_sum(e)) && final(self).position == old(self).position + 3,
            old(self).chain_ready() ==> r == Ok::<Expr, CompileError>(old(self).chain_result(1)) && final(self).position == old(self).chain_end(1) + 1 && final(self).diags() == old(self).diags(),
        decreases old(self).budget(), old(self).remaining(), 55nat,
    {
        proof {
            if old(self).chain_ready() {
                lemma_level_start(self.tokens@, 1, self.position as int);
            }
        }
        let mut left = self.parse_bitwise_or()?;
        loop
            invariant
                !old(self).preserve_empty_within(true),
                !old(self).groups_too_deep_within(true),
                self.kept(old(self)),
                self.position > old(self).position,
                old(self).at_simple_literal() ==> self.position == old(self).position + 1 && left == old(
                    self,
                ).simple_literal(),
                old(self).at_literal_sum() ==> self.position == old(self).position + 3 && old(self).is_literal_sum(left),
                old(self).chain_ready() ==> self.chain_state(old(self), 1, left),
            ensures
                old(self).chain_ready() ==> left == old(self).chain_result(1) && self.position == old(self).chain_end(1) + 1 && self.diags() == old(self).diags(),
            decreases self.tokens@.len() - self.position,
        {
            self.skip_newlines();
            let ghost b = self.position - 1;
            if !self.check(&TokenKind::And) {
                proof {
                    if old(self).chain_ready() {
                        lemma_level_stop(self.tokens@, 1, old(self).position as int, b);
                    }
                }
                break;
            }
            proof {
                if old(self).chain_ready() {
                    lemma_level_step(self.tokens@, 1, old(self).position as int, b);
                }
            }
            let start_span = self.current().span;
            self.advance();
            self.skip_newlines();
            let right = self.parse_bitwise_or()?;
            left = Expr::Binary(BinaryExpr { op: BinaryOp::And, left: Box::new(left), right: Box::new(right), span: start_span });
        }
        Ok(left)
    }

    fn parse_bitwise_or(&mut self) -> (r: Result<Expr>)
        requires
            old(self).wf(),
        ensures
            final(self).kept(old(self)),
            old(self).preserve_empty_within(true) ==> (r matches Err(e) && e.message@ == "preserve block is empty — at least one field name is required"@ && (e.code matches Some(c) && c@ == "E1001"@)),
            old(self).groups_too_deep_within(true) ==> (r matches Err(e) && e.message@ == "expression nesting exceeds the parser limit of 32"@ && e.code is None),
            r is Ok ==> final(self).position > old(self).position,
            old(self).at_simple_literal() ==> r == Ok::<Expr, CompileError>(old(self).simple_literal())
                && final(self).position == old(self).position + 1,
            old(self).at_literal_sum() ==> (r matches Ok(e) && old(self).is_literal_sum(e)) && final(self).position == old(self).position + 3,
            old(self).chain_ready() ==> r == Ok::<Expr, CompileError>(old(self).chain_result(2)) && final(self).position == old(self).chain_end(2) + 1 && final(self).diags() == old(self).diags(),
        decreases old(self).budget(), old(self).remaining(), 54nat,
    {
        proof {
            if old(self).chain_ready() {
                lemma_level_start(self.tokens@, 2, self.position as int);
            }
        }
        let mut left = self.parse_bitwise_xor()?;
        loop
            invariant
                !old(self).preserve_empty_within(true),
                !old(self).groups_too_deep_within(true),
                self.kept(old(self)),
                self.position > old(self).position,
                old(self).at_simple_literal() ==> self.position == old(self).position + 1 && left == old(
                    self,
                ).simple_literal(),
                old(self).at_literal_sum() ==> self.position == old(self).position + 3 && old(self).is_literal_sum(left),
                old(self).chain_ready() ==> self.chain_state(old(self), 2, left),
            ensures
                old(self).chain_ready() ==> left == old(self).chain_result(2) && self.position == old(self).chain_end(2) + 1 && self.diags() == old(self).diags(),
            decreases self.tokens@.len() - self.position,
        {
            self.skip_newlines();
            let ghost b = self.position - 1;
            if !self.check(&TokenKind::Pipe) {
                proof {
                    if old(self).chain_ready() {
                        lemma_level_stop(self.tokens@, 2, old(self).position as int, b);
                    }
                }
                break;
            }
            proof {
                if old(self).chain_ready() {
                    lemma_level_step(self.tokens@, 2, old(self).position as int, b);
                }
            }
            let start_span = self.current().span;
            self.advance();
            self.skip_newlines();
            let right = self.parse_bitwise_xor()?;
            left = Expr::Binary(BinaryExpr { op: BinaryOp::BitOr, left: Box::new(left), right: Box::new(right), span: start_span });
        }
        Ok(left)
    }

    fn parse_bitwise_xor(&mut self) -> (r: Result<Expr>)
        requires
            old(self).wf(),
        ensures
            final(self).kept(old(self)),
            old(self).preserve_empty_within(true) ==> (r matches Err(e) && e.message@ == "preserve block is empty — at least one field name is required"@ && (e.code matches Some(c) && c@ == "E1001"@)),
            old(self).groups_too_deep_within(true) ==> (r matches Err(e) && e.message@ == "expression nesting exceeds the parser limit of 32"@ && e.code is None),
            r is Ok ==> final(self).position > old(self).position,
            old(self).at_simple_literal() ==> r == Ok::<Expr, CompileError>(old(self).simple_literal())
                && final(self).position == old(self).position + 1,
            old(self).at_literal_sum() ==> (r matches Ok(e) && old(self).is_literal_sum(e)) && final(self).position == old(self).position + 3,
            old(self).chain_ready() ==> r == Ok::<Expr, CompileError>(old(self).chain_result(3)) && final(self).position == old(self).chain_end(3) + 1 && final(self).diags() == old(self).diags(),
        decreases old(self).budget(), old(self).remaining(), 53nat,
    {
        proof {
            if old(self).chain_ready() {
                lemma_level_start(self.tokens@, 3, self.position as int);
            }
        }
        let mut left = self.parse_bitwise_and()?;
        loop
            invariant
                !old(self).preserve_empty_within(true),
                !old(self).groups_too_deep_within(true),
                self.kept(old(self)),
                self.position > old(self).position,
                old(self).at_simple_literal() ==> self.position == old(self).position + 1 && left == old(
                    self,
                ).simple_literal(),
                old(self).at_literal_sum() ==> self.position == old(self).position + 3 && old(self).is_literal_sum(left),
                old(self).chain_ready() ==> self.chain_state(old(self), 3, left),
            ensures
                old(self).chain_ready() ==> left == old(self).chain_result(3) && self.position == old(self).chain_end(3) + 1 && self.diags() == old(self).diags(),
            decreases self.tokens@.len() - self.position,
        {
            self.skip_newlines();
            let ghost b = self.position - 1;
            if !self.check(&TokenKind::Caret) {
                proof {
                    if old(self).chain_ready() {
                        lemma_level_stop(self.tokens@, 3, old(self).position as int, b);
                    }
                }
                break;
            }
            proof {
                if old(self).chain_ready() {
                    lemma_level_step(self.tokens@, 3, old(self).position as int, b);
                }
            }
            let start_span = self.current().span;
            self.advance();
            self.skip_newlines();
            let right = self.parse_bitwise_and()?;
            left = Expr::Binary(BinaryExpr { op: BinaryOp::BitXor, left: Box::new(left), right: Box::new(right), span: start_span });
        }
        Ok(left)
    }

    fn parse_bitwise_and(&mut self) -> (r: Result<Expr>)
        requires
            old(self).wf(),
        ensures
            final(self).kept(old(self)),
            old(self).preserve_empty_within(true) ==> (r matches Err(e) && e.message@ == "preserve block is empty — at least one field name is required"@ && (e.code matches Some(c) && c@ == "E1001"@)),
            old(self).groups_too_deep_within(true) ==> (r matches Err(e) && e.message@ == "expression nesting exceeds the parser limit of 32"@ && e.code is None),
            r is Ok ==> final(self).position > old(self).position,
            old(self).at_simple_literal() ==> r == Ok::<Expr, CompileError>(old(self).simple_literal())
                && final(self).position == old(self).position + 1,
            old(self).at_literal_sum() ==> (r matches Ok(e) && old(self).is_literal_sum(e)) && final(self).position == old(self).position + 3,
            old(self).chain_ready() ==> r == Ok::<Expr, CompileError>(old(self).chain_result(4)) && final(self).position == old(self).chain_end(4) + 1 && final(self).diags() == old(self).diags(),
        decreases old(self).budget(), old(self).remaining(), 52nat,
    {
        proof {
            if old(self).chain_ready() {
                lemma_level_start(self.tokens@, 4, self.position as int);
            }
        }
        let mut left = self.parse_equality()?;
        loop
            invariant
                !old(self).preserve_empty_within(true),
                !old(self).groups_too_deep_within(true),
                self.kept(old(self)),
                self.position > old(self).position,
                old(self).at_simple_literal() ==> self.position == old(self).position + 1 && left == old(
                    self,
                ).simple_literal(),
                old(self).at_literal_sum() ==> self.position == old(self).position + 3 && old(self).is_literal_sum(left),
                old(self).chain_ready() ==> self.chain_state(old(self), 4, left),
            ensures
                old(self).chain_ready() ==> left == old(self).chain_result(4) && self.position == old(self).chain_end(4) + 1 && self.diags() == old(self).diags(),
            decreases self.tokens@.len() - self.position,
        {
            self.skip_newlines();
            let ghost b = self.position - 1;
            if !self.check(&TokenKind::Ampersand) {
                proof {
                    if old(self).chain_ready() {
                        lemma_level_stop(self.tokens@, 4, old(self).position as int, b);
                    }
                }
                break;
            }
            proof {
                if old(self).chain_ready() {
                    lemma_level_step(self.tokens@, 4, old(self).position as int, b);
                }
            }
            let start_span = self.current().span;
            self.advance();
            self.skip_newlines();
            let right = self.parse_equality()?;
            left = Expr::Binary(BinaryExpr { op: BinaryOp::BitAnd, left: Box::new(left), right: Box::new(right), span: start_span });
        }
        Ok(left)
    }

    fn parse_equality(&mut self) -> (r: Result<Expr>)
        requires
            old(self).wf(),
        ensures
            final(self).kept(old(self)),
            old(self).preserve_empty_within(true) ==> (r matches Err(e) && e.message@ == "preserve block is empty — at least one field name is required"@ && (e.code matches Some(c) && c@ == "E1001"@)),
            old(self).groups_too_deep_within(true) ==> (r matches Err(e) && e.message@ == "expression nesting exceeds the parser limit of 32"@ && e.code is None),
            r is Ok ==> final(self).position > old(self).position,
            old(self).at_simple_literal() ==> r == Ok::<Expr, CompileError>(old(self).simple_literal())
                && final(self).position == old(self).position + 1,
            old(self).at_literal_sum() ==> (r matches Ok(e) && old(self).is_literal_sum(e)) && final(self).position == old(self).position + 3,
            old(self).chain_ready() ==> r == Ok::<Expr, CompileError>(old(self).chain_result(5)) && final(self).position == old(self).chain_end(5) + 1 && final(self).diags() == old(self).diags(),
        decreases old(self).budget(), old(self).remaining(), 51nat,
    {
        proof {
            if old(self).chain_ready() {
                lemma_level_start(self.tokens@, 5, self.position as int);
            }
        }
        let mut left = self.parse_comparison()?;
        loop
            invariant
                !old(self).preserve_empty_within(true),
                !old(self).groups_too_deep_within(true),
                self.kept(old(self)),
                self.position > old(self).position,
                old(self).at_simple_literal() ==> self.position == old(self).position + 1 && left == old(
                    self,
                ).simple_literal(),
                old(self).at_literal_sum() ==> self.position == old(self).position + 3 && old(self).is_literal_sum(left),
                old(self).chain_ready() ==> self.chain_state(old(self), 5, left),
            ensures
                old(self).chain_ready() ==> left == old(self).chain_result(5) && self.position == old(self).chain_end(5) + 1 && self.diags() == old(self).diags(),
            decreases self.tokens@.len() - self.position,
        {
            self.skip_newlines();
            let ghost b = self.position - 1;
            let op = if self.check(&TokenKind::EqEq) {
                self.advance();
                Some(BinaryOp::Eq)
            } else if self.check(&TokenKind::NotEq) {
                self.advance();
                Some(BinaryOp::Ne)
            } else {
                None
            };
            match op {
                Some(op) => {
                    proof {
                        if old(self).chain_ready() {
                            lemma_level_step(self.tokens@, 5, old(self).position as int, b);
                        }
                    }
                    let start_span = self.current().span;
                    self.skip_newlines();
                    let right = self.parse_comparison()?;
                    left = Expr::Binary(BinaryExpr { op, left: Box::new(left), right: Box::new(right), span: start_span });
                },
                None => {
                    proof {
                        if old(self).chain_ready() {
                            lemma_level_stop(self.tokens@, 5, old(self).position as int, b);
                        }
                    }
                    break;
                },
            }
        }
        Ok(left)
    }

    fn parse_comparison(&mut self) -> (r: Result<Expr>)
        requires
            old(self).wf(),
        ensures
            final(self).kept(old(self)),
            old(self).preserve_empty_within(true) ==> (r matches Err(e) && e.message@ == "preserve block is empty — at least one field name is required"@ && (e.code matches Some(c) && c@ == "E1001"@)),
            old(self).groups_too_deep_within(true) ==> (r matches Err(e) && e.message@ == "expression nesting exceeds the parser limit of 32"@ && e.code is None),
            r is Ok ==> final(self).position > old(self).position,
            old(self).at_simple_literal() ==> r == Ok::<Expr, CompileError>(old(self).simple_literal())
                && final(self).position == old(self).position + 1,
            old(self).at_literal_sum() ==> (r matches Ok(e) && old(self).is_literal_sum(e)) && final(self).position == old(self).position + 3,
            old(self).chain_ready() ==> r == Ok::<Expr, CompileError>(old(self).chain_result(6)) && final(self).position == old(self).chain_end(6) + 1 && final(self).diags() == old(self).diags(),
        decreases old(self).budget(), old(self).remaining(), 50nat,
    {
        proof {
            if old(self).chain_ready() {
                lemma_level_start(self.tokens@, 6, self.position as int);
            }
        }
        let mut left = self.parse_shift()?;
        loop
            invariant
                !old(self).preserve_empty_within(true),
                !old(self).groups_too_deep_within(true),
                self.kept(old(self)),
                self.position > old(self).position,
                old(self).at_simple_literal() ==> self.position == old(self).position + 1 && left == old(
                    self,
                ).simple_literal(),
                old(self).at_literal_sum() ==> self.position == old(self).position + 3 && old(self).is_literal_sum(left),
                old(self).chain_ready() ==> self.chain_state(old(self), 6, left),
            ensures
                old(self).chain_ready() ==> left == old(self).chain_result(6) && self.position == old(self).chain_end(6) + 1 && self.diags() == old(self).diags(),
            decreases self.tokens@.len() - self.position,
        {
            self.skip_newlines();
            let ghost b = self.position - 1;
            let op = if self.check(&TokenKind::Lt) {
                self.advance();
                Some(BinaryOp::Lt)
            } else if self.check(&TokenKind::Le) {
                self.advance();
                Some(BinaryOp::Le)
            } else if self.check(&TokenKind::Gt) {
                self.advance();
                Some(BinaryOp::Gt)
            } else if self.check(&TokenKind::Ge) {
                self.advance();
                Some(BinaryOp::Ge)
            } else {
                None
            };
            match op {
                Some(op) => {
                    proof {
                        if old(self).chain_ready() {
                            lemma_level_step(self.tokens@, 6, old(self).position as int, b);
                        }
                    }
                    let start_span = self.current().span;
                    self.skip_newlines();
                    let right = self.parse_shift()?;
                    left = Expr::Binary(BinaryExpr { op, left: Box::new(left), right: Box::new(right), span: start_span });
                },
                None => {
                    proof {
                        if old(self).chain_ready() {
                            lemma_level_stop(self.tokens@, 6, old(self).position as int, b);
                        }
                    }
                    break;
                },
            }
        }
        Ok(left)
    }

    fn parse_shift(&mut self) -> (r: Result<Expr>)
        requires
            old(self).wf(),
        ensures
            final(self).kept(old(self)),
            old(self).preserve_empty_within(true) ==> (r matches Err(e) && e.message@ == "preserve block is empty — at least one field name is required"@ && (e.code matches Some(c) && c@ == "E1001"@)),
            old(self).groups_too_deep_within(true) ==> (r matches Err(e) && e.message@ == "expression nesting exceeds the parser limit of 32"@ && e.code is None),
            r is Ok ==> final(self).position > old(self).position,
            old(self).at_simple_literal() ==> r == Ok::<Expr, CompileError>(old(self).simple_literal())
                && final(self).position == old(self).position + 1,
            old(self).at_literal_sum() ==> (r matches Ok(e) && old(self).is_literal_sum(e)) && final(self).position == old(self).position + 3,
            old(self).chain_ready() ==> r == Ok::<Expr, CompileError>(old(self).chain_result(7)) && final(self).position == old(self).chain_end(7) + 1 && final(self).diags() == old(self).diags(),
        decreases old(self).budget(), old(self).remaining(), 49nat,
    {
        proof {
            if old(self).chain_ready() {
                lemma_level_start(self.tokens@, 7, self.position as int);
            }
        }
        let mut left = self.parse_term()?;
        loop
            invariant
                !old(self).preserve_empty_within(true),
                !old(self).groups_too_deep_within(true),
                self.kept(old(self)),
                self.position > old(self).position,
                old(self).at_simple_literal() ==> self.position == old(self).position + 1 && left == old(
                    self,
                ).simple_literal(),
                old(self).at_literal_sum() ==> self.position == old(self).position + 3 && old(self).is_literal_sum(left),
                old(self).chain_ready() ==> self.chain_state(old(self), 7, left),
            ensures
                old(self).chain_ready() ==> left == old(self).chain_result(7) && self.position == old(self).chain_end(7) + 1 && self.diags() == old(self).diags(),
            decreases self.tokens@.len() - self.position,
        {
            self.skip_newlines();
            proof {
                if old(self).chain_ready() {
                    let t = self.tokens@;
                    let b = self.position - 1;
                    lemma_level_stop(t, 7, old(self).position as int, b);
                    if binop_level(t[b + 1].kind) >= 0 {
                        assert(flat_chain(t, b + 2));
                        assert(!(t[b + 2].kind is Lt) && !(t[b + 2].kind is Gt));
                    }
                }
            }
            let op = if self.check(&TokenKind::Lt) && self.check_next(&TokenKind::Lt) {
                BinaryOp::Shl
            } else if self.check(&TokenKind::Gt) && self.check_next(&TokenKind::Gt) {
                BinaryOp::Shr
            } else {
                break;
            };
            let start_span = self.current().span;
            self.advance();
            self.advance();
            self.skip_newlines();
            let right = self.parse_term()?;
            left = Expr::Binary(BinaryExpr { op, left: Box::new(left), right: Box::new(right), span: start_span });
        }
        Ok(left)
    }

    fn parse_term(&mut self) -> (r: Result<Expr>)
        requires
            old(self).wf(),
        ensures
            final(self).kept(old(self)),
            old(self).preserve_empty_within(true) ==> (r matches Err(e) && e.message@ == "preserve block is empty — at least one field name is required"@ && (e.code matches Some(c) && c@ == "E1001"@)),
            old(self).groups_too_deep_within(true) ==> (r matches Err(e) && e.message@ == "expression nesting exceeds the parser limit of 32"@ && e.code is None),
            r is Ok ==> final(self).position > old(self).position,
            old(self).at_simple_literal() ==> r == Ok::<Expr, CompileError>(old(self).simple_literal())
                && final(self).position == old(self).position + 1,
            old(self).at_literal_sum() ==> (r matches Ok(e) && old(self).is_literal_sum(e)) && final(self).position == old(self).position + 3,
            old(self).chain_ready() ==> r == Ok::<Expr, CompileError>(old(self).chain_result(8)) && final(self).position == old(self).chain_end(8) + 1 && final(self).diags() == old(self).diags(),
        decreases old(self).budget(), old(self).remaining(), 48nat,
    {
        proof {
            if old(self).chain_ready() {
                lemma_level_start(self.tokens@, 8, self.position as int);
            }
        }
        let mut left = self.parse_factor()?;
        loop
            invariant
                !old(self).preserve_empty_within(true),
                !old(self).groups_too_deep_within(true),
                self.kept(old(self)),
                self.position > old(self).position,
                old(self).at_simple_literal() ==> self.position == old(self).position + 1 && left == old(
                    self,
                ).simple_literal(),
                old(self).at_literal_sum() ==> (self.position == old(self).position + 1 && left == old(self).simple_literal()) || (self.position == old(self).position + 3 && old(self).is_literal_sum(left)),
                old(self).chain_ready() ==> self.chain_state(old(self), 8, left),
            ensures
                old(self).at_literal_sum() ==> self.position == old(self).position + 3 && old(self).is_literal_sum(left),
                old(self).at_simple_literal() ==> self.position == old(self).position + 1 && left == old(self).simple_literal(),
                old(self).chain_ready() ==> left == old(self).chain_result(8) && self.position == old(self).chain_end(8) + 1 && self.diags() == old(self).diags(),
            decreases self.tokens@.len() - self.position,
        {
            self.skip_newlines();
            proof {
                if old(self).at_literal_sum() && self.position == old(self).position + 1 {
                    assert(self.cur_kind() is Plus || self.cur_kind() is Minus);
                    assert(literal_expr(self.tokens@[self.position + 1].kind) is Some);
                    assert(self.tokens@[self.position + 1].kind.spec_tag() != TokenKind::Eq.spec_tag());
                }
            }
            let ghost b = self.position - 1;
            proof {
                if old(self).chain_ready() && self.tokens@[self.position as int].kind is Plus {
                    assert(flat_chain(self.tokens@, b + 2));
                    assert(!(self.tokens@[b + 2].kind is Eq));
                }
            }
            let op = if self.check(&TokenKind::Plus) && !self.check_next(&TokenKind::Eq) {
                self.advance();
                BinaryOp::Add
            } else if self.check(&TokenKind::Minus) {
                self.advance();
                BinaryOp::Sub
            } else {
                assert(!(old(self).at_literal_sum() && self.position == old(self).position + 1));
                proof {
                    if old(self).chain_ready() {
                        lemma_level_stop(self.tokens@, 8, old(self).position as int, b);
                    }
                }
                break;
            };
            proof {
                if old(self).chain_ready() {
                    lemma_level_step(self.tokens@, 8, old(self).position as int, b);
                }
            }
            let start_span = self.current().span;
            self.skip_newlines();
            let right = self.parse_factor()?;
            left = Expr::Binary(BinaryExpr { op, left: Box::new(left), right: Box::new(right), span: start_span });
        }
        Ok(left)
    }

    fn parse_factor(&mut self) -> (r: Result<Expr>)
        requires
            old(self).wf(),
        ensures
            final(self).kept(old(self)),
            old(self).preserve_empty_within(true) ==> (r matches Err(e) && e.message@ == "preserve block is empty — at least one field name is required"@ && (e.code matches Some(c) && c@ == "E1001"@)),
            old(self).groups_too_deep_within(true) ==> (r matches Err(e) && e.message@ == "expression nesting exceeds the parser limit of 32"@ && e.code is None),
            r is Ok ==> final(self).position > old(self).position,
            old(self).at_simple_literal() ==> r == Ok::<Expr, CompileError>(old(self).simple_literal())
                && final(self).position == old(self).position + 1,
            old(self).at_literal_before_sign() ==> r == Ok::<Expr, CompileError>(old(self).simple_literal())
                && final(self).position == old(self).position + 1,
            old(self).chain_ready() ==> r == Ok::<Expr, CompileError>(old(self).chain_result(9)) && final(self).position == old(self).chain_end(9) + 1 && final(self).diags() == old(self).diags(),
        decreases old(self).budget(), old(self).remaining(), 47nat,
    {
        proof {
            if old(self).chain_ready() {
                lemma_level_start(self.tokens@, 9, self.position as int);
            }
        }
        let mut left = self.parse_cast()?;
        loop
            invariant
                !old(self).preserve_empty_within(true),
                !old(self).groups_too_deep_within(true),
                self.kept(old(self)),
                self.position > old(self).position,
                old(self).at_simple_literal() ==> self.position == old(self).position + 1 && left == old(
                    self,
                ).simple_literal(),
                old(self).at_literal_before_sign() ==> self.position == old(self).position + 1 && left == old(
                    self,
                ).simple_literal(),
                old(self).chain_ready() ==> self.chain_state(old(self), 9, left),
            ensures
                old(self).chain_ready() ==> left == old(self).chain_result(9) && self.position == old(self).chain_end(9) + 1 && self.diags() == old(self).diags(),
            decreases self.tokens@.len() - self.position,
        {
            self.skip_newlines();
            let ghost b = self.position - 1;
            let op = if self.check(&TokenKind::Star) {
                self.advance();
                Some(BinaryOp::Mul)
            } else if self.check(&TokenKind::Slash) {
                self.advance();
                Some(BinaryOp::Div)
            } else if self.check(&TokenKind::Percent) {
                self.advance();
                Some(BinaryOp::Mod)
            } else {
                None
            };
            match op {
                Some(op) => {
                    proof {
                        if old(self).chain_ready() {
                            lemma_level_step(self.tokens@, 9, old(self).position as int, b);
                        }
                    }
                    let start_span = self.current().span;
                    self.skip_newlines();
                    let right = self.parse_cast()?;
                    left = Expr::Binary(BinaryExpr { op, left: Box::new(left), right: Box::new(right), span: start_span });
                },
                None => {
                    proof {
                        if old(self).chain_ready() {
                            lemma_level_stop(self.tokens@, 9, old(self).position as int, b);
                        }
                    }
                    break;
                },
            }
        }
        Ok(left)
    }

    fn parse_cast(&mut self) -> (r: Result<Expr>)
        requires
            old(self).wf(),
        ensures
            final(self).kept(old(self)),
            old(self).preserve_empty_within(true) ==> (r matches Err(e) && e.message@ == "preserve block is empty — at least one field name is required"@ && (e.code matches Some(c) && c@ == "E1001"@)),
            old(self).groups_too_deep_within(true) ==> (r matches Err(e) && e.message@ == "expression nesting exceeds the parser limit of 32"@ && e.code is None),
            r is Ok ==> final(self).position > old(self).position,
            old(self).at_simple_literal() ==> r == Ok::<Expr, CompileError>(old(self).simple_literal())
                && final(self).position == old(self).position + 1,
            old(self).at_literal_before_sign() ==> r == Ok::<Expr, CompileError>(old(self).simple_literal())
                && final(self).position == old(self).position + 1,
            old(self).chain_ready() ==> r == Ok::<Expr, CompileError>(old(self).chain_result(10)) && final(self).position == old(self).chain_end(10) + 1 && final(self).diags() == old(self).diags(),
        decreases old(self).budget(), old(self).remaining(), 46nat,
    {
        proof {
            if old(self).chain_ready() {
                lemma_operand(self.tokens@, self.position as int);
            }
        }
        let mut expr = self.parse_unary()?;
        loop
            invariant
                !old(self).preserve_empty_within(true),
                !old(self).groups_too_deep_within(true),
                self.kept(old(self)),
                self.position > old(self).position,
                old(self).at_simple_literal() ==> self.position == old(self).position + 1 && expr == old(
                    self,
                ).simple_literal(),
                old(self).at_literal_before_sign() ==> self.position == old(self).position + 1 && expr == old(
                    self,
                ).simple_literal(),
                old(self).chain_ready() ==> self.position == old(self).position + 1 && expr == old(self).simple_literal()
                    && self.diags() == old(self).diags() && (binop_level(self.tokens@[self.position as int].kind) >= 0 || ends_operand(self.tokens@[self.position as int].kind)),
            decreases self.tokens@.len() - self.position,
        {
            self.skip_newlines();
            if !self.at_word("as") {
                break;
            }
            let start_span = self.current().span;
            self.advance();
            self.skip_newlines();
            let ty = self.parse_type()?;
            expr = Expr::Cast(CastExpr { expr: Box::new(expr), ty, span: start_span });
        }
        Ok(expr)
    }

    fn parse_unary(&mut self) -> (r: Result<Expr>)
        requires
            old(self).wf(),
        ensures
            final(self).kept(old(self)),
            old(self).preserve_empty_within(true) ==> (r matches Err(e) && e.message@ == "preserve block is empty — at least one field name is required"@ && (e.code matches Some(c) && c@ == "E1001"@)),
            old(self).groups_too_deep_within(true) ==> (r matches Err(e) && e.message@ == "expression nesting exceeds the parser limit of 32"@ && e.code is None),
            r is Ok ==> final(self).position > old(self).position,
            old(self).unary_depth >= MAX_PARSE_RECURSION_DEPTH ==> (r matches Err(e) && e.message@
                == "unary expression nesting exceeds the parser limit of 32"@),
            old(self).at_simple_literal() ==> r == Ok::<Expr, CompileError>(old(self).simple_literal())
                && final(self).position == old(self).position + 1,
            old(self).at_literal_before_sign() ==> r == Ok::<Expr, CompileError>(old(self).simple_literal())
                && final(self).position == old(self).position + 1,
            old(self).chain_ready() ==> r == Ok::<Expr, CompileError>(old(self).simple_literal()) && final(self).position == old(self).position + 1 && final(self).diags() == old(self).diags(),
            old(self).at_prefixed_literal() && old(self).unary_depth + 1 < MAX_PARSE_RECURSION_DEPTH ==> (r matches Ok(Expr::Unary(u))
                && u.op == old(self).prefix_op() && *u.expr == old(self).next_literal() && final(self).position == old(self).position + 2),
        decreases old(self).budget(), old(self).remaining(), 45nat,
    {
        proof {
            if old(self).chain_ready() {
                assert(flat_chain(self.tokens@, self.position as int));
                assert(self.at_literal_operand() || self.at_literal_then_op());
            }
        }
        if self.unary_depth >= MAX_PARSE_RECURSION_DEPTH {
            return Err(self.error_here("unary expression nesting exceeds the parser limit of 32"));
        }
        self.unary_depth += 1;
        let result = self.parse_unary_inner();
        self.unary_depth -= 1;
        result
    }

    fn parse_unary_inner(&mut self) -> (r: Result<Expr>)
        requires
            old(self).wf(),
        ensures
            final(self).kept(old(self)),
            old(self).preserve_empty_within(false) ==> (r matches Err(e) && e.message@ == "preserve block is empty — at least one field name is required"@ && (e.code matches Some(c) && c@ == "E1001"@)),
            old(self).groups_too_deep_within(false) ==> (r matches Err(e) && e.message@ == "expression nesting exceeds the parser limit of 32"@ && e.code is None),
            r is Ok ==> final(self).position > old(self).position,
            old(self).at_literal_operand() ==> r == Ok::<Expr, CompileError>(old(self).simple_literal())
                && final(self).position == old(self).position + 1 && final(self).diags() == old(self).diags(),
            old(self).at_literal_then_op() ==> r == Ok::<Expr, CompileError>(old(self).simple_literal())
                && final(self).position == old(self).position + 1 && final(self).diags() == old(self).diags(),
            old(self).at_prefixed_literal() && old(self).unary_depth < MAX_PARSE_RECURSION_DEPTH ==> (r matches Ok(Expr::Unary(u))
                && u.op == old(self).prefix_op() && *u.expr == old(self).next_literal() && final(self).position == old(self).position + 2),
        decreases old(self).budget(), old(self).remaining(), 44nat,
    {
        let op = if self.check(&TokenKind::Minus) {
            Some(UnaryOp::Neg)
        } else if self.check(&TokenKind::Not) {
            Some(UnaryOp::Not)
        } else if self.check(&TokenKind::Ampersand) {
            Some(UnaryOp::Ref)
        } else if self.check(&TokenKind::Star) {
            Some(UnaryOp::Deref)
        } else {
            None
        };
        match op {
            Some(op) => {
                let start_span = self.current().span;
                self.advance();
                let expr = self.parse_unary()?;
                Ok(Expr::Unary(UnaryExpr { op, expr: Box::new(expr), span: start_span }))
            },
            None => self.parse_postfix(),
        }
    }

    fn parse_postfix(&mut self) -> (r: Result<Expr>)
        requires
            old(self).wf(),
        ensures
            final(self).kept(old(self)),
            old(self).preserve_empty_within(false) ==> (r matches Err(e) && e.message@ == "preserve block is empty — at least one field name is required"@ && (e.code matches Some(c) && c@ == "E1001"@)),
            old(self).groups_too_deep_within(false) ==> (r matches Err(e) && e.message@ == "expression nesting exceeds the parser limit of 32"@ && e.code is None),
            r is Ok ==> final(self).position > old(self).position,
            old(self).at_literal_operand() ==> r == Ok::<Expr, CompileError>(old(self).simple_literal())
                && final(self).position == old(self).position + 1 && final(self).diags() == old(self).diags(),
            old(self).at_literal_then_op() ==> r == Ok::<Expr, CompileError>(old(self).simple_literal())
                && final(self).position == old(self).position + 1 && final(self).diags() == old(self).diags(),
        decreases old(self).budget(), old(self).remaining(), 43nat,
    {
        let mut expr = self.parse_primary()?;
        loop
            invariant
                !old(self).preserve_empty_within(false),
                !old(self).groups_too_deep_within(false),
                self.kept(old(self)),
                self.position > old(self).position,
                old(self).at_literal_operand() ==> self.position == old(self).position + 1 && expr == old(
                    self,
                ).simple_literal() && self.diags() == old(self).diags(),
                old(self).at_literal_then_op() ==> self.position == old(self).position + 1 && expr == old(
                    self,
                ).simple_literal() && self.diags() == old(self).diags(),
            decreases self.tokens@.len() - self.position,
        {
            if self.check(&TokenKind::Newline) {
                break;
            }
            if self.check(&TokenKind::Dot) && !self.check_next(&TokenKind::Dot) {
                self.advance();
                let field = if self.ident_like_name().is_some() {
                    self.parse_name()?
                } else {
                    match &self.current().kind {
                        TokenKind::Integer(n) => {
                            let index = decimal_string(*n);
                            self.advance();
                            index
                        },
                        _ => {
                            return Err(self.error_here("expected field name"));
                        },
                    }
                };
                expr = Expr::FieldAccess(FieldAccessExpr { expr: Box::new(expr), field, span: self.current().span });
            } else if self.check(&TokenKind::Lt) && self.supports_generic_call(&expr) {
                self.advance();
                let ghost mark = self.position;
                let mut type_args: Vec<Type> = Vec::new();
                while !self.check(&TokenKind::Gt) && !self.check(&TokenKind::Eof)
                    invariant
                        !old(self).preserve_empty_within(false),
                        !old(self).groups_too_deep_within(false),
                        !old(self).at_literal_operand(),
                        !old(self).at_literal_then_op(),
                        self.kept(old(self)),
                        self.position >= mark,
                        mark > old(self).position,
                    decreases self.tokens@.len() - self.position,
                {
                    type_args.push(self.parse_type()?);
                    if self.check(&TokenKind::Comma) {
                        self.advance();
                    } else {
                        break;
                    }
                }
                self.expect(TokenKind::Gt)?;
                if !self.check(&TokenKind::LParen) {
                    return Err(self.error_here("generic callable type arguments must be followed by '(...)'"));
                }
                let args = self.parse_args()?;
                expr = Expr::Call(CallExpr { func: Box::new(expr), type_args, args, span: self.current().span });
            } else if self.check(&TokenKind::LParen) {
                let args = self.parse_args()?;
                expr = Expr::Call(CallExpr { func: Box::new(expr), type_args: Vec::new(), args, span: self.current().span });
            } else if self.check(&TokenKind::LBracket) {
                self.advance();
                let index = self.parse_expr()?;
                self.expect(TokenKind::RBracket)?;
                expr = Expr::Index(IndexExpr { expr: Box::new(expr), index: Box::new(index), span: self.current().span });
            } else {
                break;
            }
        }
        Ok(expr)
    }

    fn parse_args(&mut self) -> (r: Result<Vec<Expr>>)
        requires
            old(self).wf(),
        ensures
            final(self).kept(old(self)),
            r is Ok ==> final(self).position > old(self).position,
            !(old(self).cur_kind() is LParen) ==> r is Err,
            old(self).cur_kind() is LParen && old(self).tokens@[old(self).position + 1].kind is RParen ==> final(self).position
                == old(self).position + 2 && (r matches Ok(v) && v@.len() == 0),
        decreases old(self).budget(), old(self).remaining(), 30nat,
    {
        self.expect(TokenKind::LParen)?;
        let mut args: Vec<Expr> = Vec::new();
        loop
            invariant
                old(self).cur_kind() is LParen && old(self).tokens@[old(self).position + 1].kind is RParen ==> self.position
                    == old(self).position + 1 && args@.len() == 0,
                self.kept(old(self)),
                self.position > old(self).position,
            decreases self.tokens@.len() - self.position,
        {
            self.skip_newlines();
            if self.check(&TokenKind::RParen) || self.check(&TokenKind::Eof) {
                break;
            }
            args.push(self.parse_expr()?);
            if self.check(&TokenKind::Comma) {
                self.advance();
            } else {
                break;
            }
        }
        self.skip_newlines();
        self.expect(TokenKind::RParen)?;
        Ok(args)
    }
}

impl<'a> Parser<'a> {

    fn parse_primary(&mut self) -> (r: Result<Expr>)
        requires
            old(self).wf(),
        ensures
            final(self).kept(old(self)),
            old(self).preserve_empty_within(false) ==> (r matches Err(e) && e.message@ == "preserve block is empty — at least one field name is required"@ && (e.code matches Some(c) && c@ == "E1001"@)),
            old(self).groups_too_deep_within(false) ==> (r matches Err(e) && e.message@ == "expression nesting exceeds the parser limit of 32"@ && e.code is None),
            r is Ok ==> final(self).position > old(self).position,
            old(self).at_literal_operand() ==> r == Ok::<Expr, CompileError>(old(self).simple_literal())
                && final(self).position == old(self).position + 1 && final(self).diags() == old(self).diags(),
            old(self).at_literal_then_op() ==> r == Ok::<Expr, CompileError>(old(self).simple_literal())
                && final(self).position == old(self).position + 1 && final(self).diags() == old(self).diags(),
        decreases old(self).budget(), old(self).remaining(), 42nat,
    {
        match &self.current().kind {
            TokenKind::Integer(n) => {
                let val = *n;
                self.advance();
                Ok(Expr::Integer(val))
            },
            TokenKind::True => {
                self.advance();
                Ok(Expr::Bool(true))
            },
            TokenKind::False => {
                self.advance();
                Ok(Expr::Bool(false))
            },
            TokenKind::String(s) => {
                let val = s.clone();
                self.advance();
                Ok(Expr::String(val))
            },
            TokenKind::ByteString(b) => {
                let val = b.clone();
                self.advance();
                Ok(Expr::ByteString(val))
            },
            TokenKind::Create => self.parse_create(),
            TokenKind::Consume => self.parse_consume(),
            TokenKind::Preserve => self.parse_preserve(),
            TokenKind::DestroyKw => self.parse_destroy(),
            TokenKind::Launch => Err(
                self.error_here(
                    "launch is reserved for a post-v1 transaction builder and is not part of the executable language core; use explicit create/consume/destroy operations",
                ),
            ),
            TokenKind::ReadRef => self.parse_read_ref_expr(),
            TokenKind::If => self.parse_if_expr(),
            TokenKind::Match => self.parse_match_expr(),
            TokenKind::Require => self.parse_require(),
            TokenKind::Std => self.parse_stdlib_call(),
            TokenKind::LParen => {
                self.advance();
                if self.check(&TokenKind::RParen) {
                    self.advance();
                    return Ok(Expr::Tuple(Vec::new()));
                }
                let expr = self.parse_expr()?;
                if self.check(&TokenKind::Comma) {
                    let mut elems: Vec<Expr> = Vec::new();
                    elems.push(expr);
                    while self.check(&TokenKind::Comma)
                        invariant
                            !old(self).preserve_empty_within(false),
                            !old(self).groups_too_deep_within(false),
                            !old(self).at_literal_operand(),
                            !old(self).at_literal_then_op(),
                            self.kept(old(self)),
                            self.position > old(self).position,
                        decreases self.tokens@.len() - self.position,
                    {
                        self.advance();
                        if self.check(&TokenKind::RParen) {
                            break;
                        }
                        elems.push(self.parse_expr()?);
                    }
                    self.expect(TokenKind::RParen)?;
                    Ok(Expr::Tuple(elems))
                } else {
                    self.expect(TokenKind::RParen)?;
                    Ok(expr)
                }
            },
            TokenKind::LBracket => self.parse_array_expr(),
            TokenKind::LBrace => {
                let stmts = self.parse_block()?;
                Ok(Expr::Block(stmts))
            },
            _ => {
                let word = match self.ident_like_name() {
                    Some(w) => w,
                    None => {
                        let found = describe(&self.current().kind);
                        return Err(CompileError::new(concat2("unexpected token in expression: ", found.as_str()), self.current().span));
                    },
                };
                if str_eq(word.as_str(), "consume_each") || str_eq(word.as_str(), "create_each") {
                    return self.parse_bounded_collection_each();
                }
                if str_eq(word.as_str(), "claim") && !self.check_next(&TokenKind::LParen) {
                    return self.parse_claim_expr();
                }
                if str_eq(word.as_str(), "settle") && !self.check_next(&TokenKind::LParen) {
                    return self.parse_settle_expr();
                }
                let name = self.parse_name_path()?;
                let n = name.as_str();
                if str_eq(n, "destroy_singleton_type") {
                    return self.parse_destroy_singleton_type();
                } else if str_eq(n, "destroy_unique") {
                    return self.parse_destroy_unique();
                } else if str_eq(n, "destroy_instance") {
                    return self.parse_destroy_instance();
                } else if str_eq(n, "burn_amount") {
                    return self.parse_burn_amount();
                } else if str_eq(n, "create_unique") {
                    return self.parse_create_unique_expr();
                } else if str_eq(n, "replace_unique") {
                    return self.parse_replace_unique_expr();
                }
                if self.check(&TokenKind::Lt) && looks_like_type_name(n)
                    && self.generic_arguments_followed_by(&TokenKind::LBrace) {
                    self.advance();
                    let ghost mark = self.position;
                    let mut type_args: Vec<Type> = Vec::new();
                    while !self.check(&TokenKind::Gt) && !self.check(&TokenKind::Eof)
                        invariant
                            !old(self).preserve_empty_within(false),
                            !old(self).groups_too_deep_within(false),
                            !old(self).at_literal_operand(),
                            !old(self).at_literal_then_op(),
                            self.kept(old(self)),
                            self.position >= mark,
                            mark > old(self).position,
                        decreases self.tokens@.len() - self.position,
                    {
                        type_args.push(self.parse_type()?);
                        if self.check(&TokenKind::Comma) {
                            self.advance();
                        } else {
                            break;
                        }
                    }
                    self.expect(TokenKind::Gt)?;
                    let rendered = render_types(&type_args);
                    let mut ty = concat3(n, "<", rendered.as_str());
                    ty.append(">");
                    return self.parse_struct_init(ty);
                }
                if self.check(&TokenKind::LBrace) && looks_like_type_name(n) {
                    self.parse_struct_init(name)
                } else {
                    Ok(Expr::Identifier(name))
                }
            },
        }
    }

    fn parse_bounded_collection_each(&mut self) -> (r: Result<Expr>)
        requires
            old(self).wf(),
        ensures
            final(self).kept(old(self)),
            r is Ok ==> final(self).position > old(self).position,
        decreases old(self).budget(), old(self).remaining(), 30nat,
    {
        let start_span = self.current().span;
        let operation = self.parse_name()?;
        let binding = self.parse_name()?;
        self.expect(TokenKind::In)?;
        let collection = self.parse_expr()?;
        if !self.check(&TokenKind::LBrace) {
            let message = concat2(operation.as_str(), " requires a braced per-element contract body");
            return Err(CompileError::new(message, self.current().span));
        }
        let body = self.parse_block()?;
        let end_span = self.current().span;
        let mut args: Vec<Expr> = Vec::new();
        args.push(Expr::Identifier(binding));
        args.push(collection);
        args.push(Expr::Block(body));
        Ok(Expr::Call(CallExpr {
            func: Box::new(Expr::Identifier(concat2("__cellscript_", operation.as_str()))),
            type_args: Vec::new(),
            args,
            span: Span::new(start_span.start, end_span.end, start_span.line, start_span.column),
        }))
    }

    fn parse_array_expr(&mut self) -> (r: Result<Expr>)
        requires
            old(self).wf(),
        ensures
            final(self).kept(old(self)),
            r is Ok ==> final(self).position > old(self).position,
            !(old(self).cur_kind() is LBracket) ==> r is Err,
            old(self).cur_kind() is LBracket && old(self).tokens@[old(self).position + 1].kind is RBracket ==> final(self).position
                == old(self).position + 2 && (r matches Ok(v) && v matches Expr::Array(items) && items@.len() == 0),
        decreases old(self).budget(), old(self).remaining(), 30nat,
    {
        self.expect(TokenKind::LBracket)?;
        let mut elems: Vec<Expr> = Vec::new();
        loop
            invariant
                old(self).cur_kind() is LBracket && old(self).tokens@[old(self).position + 1].kind is RBracket ==> self.position
                    == old(self).position + 1 && elems@.len() == 0,
                self.kept(old(self)),
                self.position > old(self).position,
            decreases self.tokens@.len() - self.position,
        {
            self.skip_newlines();
            if self.check(&TokenKind::RBracket) || self.check(&TokenKind::Eof) {
                break;
            }
            elems.push(self.parse_expr()?);
            self.skip_newlines();
            if self.check(&TokenKind::Comma) {
                self.advance();
                continue;
            }
            break;
        }
        self.expect(TokenKind::RBracket)?;
        Ok(Expr::Array(elems))
    }

    fn parse_create(&mut self) -> (r: Result<Expr>)
        requires
            old(self).wf(),
        ensures
            final(self).kept(old(self)),
            r is Ok ==> final(self).position > old(self).position,
            !(old(self).cur_kind() is Create) ==> r is Err,
            old(self).cur_kind() is Create && ident_like(old(self).tokens@[old(self).position + 1].kind) is Some && old(self).tokens@[old(self).position + 2].kind is LBrace && old(self).tokens@[old(self).position + 3].kind is RBrace && ident_like(old(self).tokens@[old(self).position + 4].kind) != Some("with_lock"@) ==> (r matches Ok(Expr::Create(c)) && c.target is None && Some(c.ty@) == ident_like(old(self).tokens@[old(self).position + 1].kind)
                && c.fields@.len() == 0 && c.lock is None && final(self).position == old(self).position + 4),
        decreases old(self).budget(), old(self).remaining(), 30nat,
    {
        let start_span = self.current().span;
        self.expect(TokenKind::Create)?;
        let first = self.parse_name_path()?;
        let (target, ty) = if self.check(&TokenKind::Eq) {
            self.advance();
            (Some(first), self.parse_name_path()?)
        } else {
            (None, first)
        };
        self.expect(TokenKind::LBrace)?;
        self.skip_newlines();
        let mut fields: Vec<(String, Expr)> = Vec::new();
        while !self.check(&TokenKind::RBrace) && !self.check(&TokenKind::Eof)
            invariant
                old(self).cur_kind() is Create && ident_like(old(self).tokens@[old(self).position + 1].kind) is Some && old(self).tokens@[old(self).position + 2].kind is LBrace && old(self).tokens@[old(self).position + 3].kind is RBrace && ident_like(old(self).tokens@[old(self).position + 4].kind) != Some("with_lock"@)
                    ==> self.position == old(self).position + 3 && fields@.len() == 0 && target is None && Some(ty@) == ident_like(old(self).tokens@[old(self).position + 1].kind),
                self.kept(old(self)),
                self.position > old(self).position,
            decreases self.tokens@.len() - self.position,
        {
            let field_name = self.parse_name()?;
            let value = if self.check(&TokenKind::Colon) {
                self.advance();
                self.parse_expr()?
            } else {
                Expr::Identifier(field_name.clone())
            };
            fields.push((field_name, value));
            if self.check(&TokenKind::Comma) {
                self.advance();
                self.skip_newlines();
            } else {
                self.skip_newlines();
            }
        }
        self.expect(TokenKind::RBrace)?;
        let lock = if self.at_word("with_lock") {
            self.advance();
            self.expect(TokenKind::LParen)?;
            let lock_expr = self.parse_expr()?;
            self.expect(TokenKind::RParen)?;
            Some(Box::new(lock_expr))
        } else {
            None
        };
        let end_span = self.current().span;
        Ok(Expr::Create(CreateExpr { target, ty, fields, lock, span: Span::new(start_span.start, end_span.end, start_span.line, start_span.column) }))
    }

    fn parse_consume(&mut self) -> (r: Result<Expr>)
        requires
            old(self).wf(),
        ensures
            final(self).kept(old(self)),
            r is Ok ==> final(self).position > old(self).position,
            !(old(self).cur_kind() is Consume) ==> r is Err,
            old(self).expression_depth < MAX_PARSE_RECURSION_DEPTH && old(self).unary_depth < MAX_PARSE_RECURSION_DEPTH && old(self).cur_kind() is Consume
                && literal_at(old(self).tokens@, old(self).position + 1) ==> (r matches Ok(Expr::Consume(c)) && *c.expr
                == literal_expr(old(self).tokens@[old(self).position + 1].kind)->0 && final(self).position == old(self).position + 2),
        decreases old(self).budget(), old(self).remaining(), 30nat,
    {
        let start_span = self.current().span;
        self.expect(TokenKind::Consume)?;
        let expr = self.parse_expr()?;
        let end_span = self.current().span;
        Ok(Expr::Consume(ConsumeExpr { expr: Box::new(expr), span: Span::new(start_span.start, end_span.end, start_span.line, start_span.column) }))
    }

    fn parse_claim_expr(&mut self) -> (r: Result<Expr>)
        requires
            old(self).wf(),
        ensures
            final(self).kept(old(self)),
            r is Ok ==> final(self).position > old(self).position,
            ident_like(old(self).cur_kind()) != Some("claim"@) ==> r is Err,
            old(self).expression_depth < MAX_PARSE_RECURSION_DEPTH && old(self).unary_depth < MAX_PARSE_RECURSION_DEPTH && ident_like(old(self).cur_kind()) == Some("claim"@)
                && literal_at(old(self).tokens@, old(self).position + 1) ==> (r matches Ok(Expr::Claim(c)) && *c.receipt
                == literal_expr(old(self).tokens@[old(self).position + 1].kind)->0 && final(self).position == old(self).position + 2),
        decreases old(self).budget(), old(self).remaining(), 30nat,
    {
        let start_span = self.current().span;
        let keyword = self.parse_name()?;
        if !str_eq(keyword.as_str(), "claim") {
            return Err(CompileError::at("expected 'claim'", start_span));
        }
        let receipt = self.parse_expr()?;
        let end_span = self.current().span;
        Ok(Expr::Claim(ClaimExpr { receipt: Box::new(receipt), span: Span::new(start_span.start, end_span.end, start_span.line, start_span.column) }))
    }

    fn parse_settle_expr(&mut self) -> (r: Result<Expr>)
        requires
            old(self).wf(),
        ensures
            final(self).kept(old(self)),
            r is Ok ==> final(self).position > old(self).position,
            ident_like(old(self).cur_kind()) != Some("settle"@) ==> r is Err,
            old(self).expression_depth < MAX_PARSE_RECURSION_DEPTH && old(self).unary_depth < MAX_PARSE_RECURSION_DEPTH && ident_like(old(self).cur_kind()) == Some("settle"@)
                && literal_at(old(self).tokens@, old(self).position + 1) ==> (r matches Ok(Expr::Settle(c)) && *c.expr
                == literal_expr(old(self).tokens@[old(self).position + 1].kind)->0 && final(self).position == old(self).position + 2),
        decreases old(self).budget(), old(self).remaining(), 30nat,
    {
        let start_span = self.current().span;
        let keyword = self.parse_name()?;
        if !str_eq(keyword.as_str(), "settle") {
            return Err(CompileError::at("expected 'settle'", start_span));
        }
        let expr = self.parse_expr()?;
        let end_span = self.current().span;
        Ok(Expr::Settle(SettleExpr { expr: Box::new(expr), span: Span::new(start_span.start, end_span.end, start_span.line, start_span.column) }))
    }

    fn parse_destroy(&mut self) -> (r: Result<Expr>)
        requires
            old(self).wf(),
        ensures
            final(self).kept(old(self)),
            r is Ok ==> final(self).position > old(self).position,
            !(old(self).cur_kind() is DestroyKw) ==> r is Err,
            old(self).cur_kind() is DestroyKw && old(self).tokens@[old(self).position + 1].kind is LParen ==> r is Err,
            old(self).expression_depth < MAX_PARSE_RECURSION_DEPTH && old(self).unary_depth < MAX_PARSE_RECURSION_DEPTH && old(self).cur_kind() is DestroyKw
                && literal_at(old(self).tokens@, old(self).position + 1) ==> (r matches Ok(Expr::Destroy(d)) && *d.expr
                == literal_expr(old(self).tokens@[old(self).position + 1].kind)->0 && d.policy == DestructionPolicy::Default && final(self).position == old(self).position + 2),
        decreases old(self).budget(), old(self).remaining(), 30nat,
    {
        let start_span = self.current().span;
        self.expect(TokenKind::DestroyKw)?;
        if self.check(&TokenKind::LParen) {
            return Err(
                self.error_here(
                    "expected cell expression after destroy; for policy-specific forms use destroy_singleton_type, destroy_unique, destroy_instance, or burn_amount",
                ),
            );
        }
        let expr = self.parse_expr()?;
        let end_span = self.current().span;
        Ok(Expr::Destroy(DestroyExpr {
            expr: Box::new(expr),
            policy: DestructionPolicy::Default,
            span: Span::new(start_span.start, end_span.end, start_span.line, start_span.column),
        }))
    }

    fn parse_destroy_singleton_type(&mut self) -> (r: Result<Expr>)
        requires
            old(self).wf(),
        ensures
            final(self).kept(old(self)),
            r is Ok ==> final(self).position > old(self).position,
            !(old(self).cur_kind() is LParen) ==> r is Err,
            old(self).expression_depth < MAX_PARSE_RECURSION_DEPTH && old(self).unary_depth < MAX_PARSE_RECURSION_DEPTH && old(self).cur_kind() is LParen
                && literal_at(old(self).tokens@, old(self).position + 1) && old(self).tokens@[old(self).position + 2].kind is RParen ==> (r matches Ok(
                Expr::Destroy(d)) && *d.expr == literal_expr(old(self).tokens@[old(self).position + 1].kind)->0 && d.policy == DestructionPolicy::SingletonType && final(self).position
                == old(self).position + 3),
        decreases old(self).budget(), old(self).remaining(), 30nat,
    {
        let start_span = self.current().span;
        self.expect(TokenKind::LParen)?;
        let expr = self.parse_expr()?;
        self.expect(TokenKind::RParen)?;
        let end_span = self.current().span;
        Ok(Expr::Destroy(DestroyExpr {
            expr: Box::new(expr),
            policy: DestructionPolicy::SingletonType,
            span: Span::new(start_span.start, end_span.end, start_span.line, start_span.column),
        }))
    }

    fn parse_destroy_unique(&mut self) -> (r: Result<Expr>)
        requires
            old(self).wf(),
        ensures
            final(self).kept(old(self)),
            r is Ok ==> final(self).position > old(self).position,
            !(old(self).cur_kind() is LParen) ==> r is Err,
            old(self).expression_depth < MAX_PARSE_RECURSION_DEPTH && old(self).unary_depth < MAX_PARSE_RECURSION_DEPTH && old(self).cur_kind() is LParen
                && literal_at(old(self).tokens@, old(self).position + 1) && old(self).tokens@[old(self).position + 2].kind is Comma && ident_like(
                old(self).tokens@[old(self).position + 3].kind) == Some("identity"@) && old(self).tokens@[old(self).position + 4].kind is Eq && ident_like(old(self).tokens@[old(self).position + 5].kind) is Some
                && old(self).tokens@[old(self).position + 6].kind is RParen ==> (r matches Ok(Expr::Destroy(d)) && *d.expr == literal_expr(old(self).tokens@[old(self).position + 1].kind)->0 && (d.policy matches
                DestructionPolicy::Unique { identity } && Some(identity@) == ident_like(old(self).tokens@[old(self).position + 5].kind)) && final(self).position
                == old(self).position + 7),
        decreases old(self).budget(), old(self).remaining(), 30nat,
    {
        let start_span = self.current().span;
        self.expect(TokenKind::LParen)?;
        let expr = self.parse_expr()?;
        self.expect(TokenKind::Comma)?;
        let identity = self.parse_named_arg("identity")?;
        self.expect(TokenKind::RParen)?;
        let end_span = self.current().span;
        Ok(Expr::Destroy(DestroyExpr {
            expr: Box::new(expr),
            policy: DestructionPolicy::Unique { identity },
            span: Span::new(start_span.start, end_span.end, start_span.line, start_span.column),
        }))
    }

    fn parse_destroy_instance(&mut self) -> (r: Result<Expr>)
        requires
            old(self).wf(),
        ensures
            final(self).kept(old(self)),
            r is Ok ==> final(self).position > old(self).position,
            !(old(self).cur_kind() is LParen) ==> r is Err,
            old(self).expression_depth < MAX_PARSE_RECURSION_DEPTH && old(self).unary_depth < MAX_PARSE_RECURSION_DEPTH && old(self).cur_kind() is LParen
                && literal_at(old(self).tokens@, old(self).position + 1) && old(self).tokens@[old(self).position + 2].kind is Comma && ident_like(
                old(self).tokens@[old(self).position + 3].kind) == Some("identity_field"@) && old(self).tokens@[old(self).position + 4].kind is Eq && ident_like(old(self).tokens@[old(self).position + 5].kind) is Some
                && old(self).tokens@[old(self).position + 6].kind is RParen ==> (r matches Ok(Expr::Destroy(d)) && *d.expr == literal_expr(old(self).tokens@[old(self).position + 1].kind)->0 && (d.policy matches
                DestructionPolicy::Instance { identity_field } && Some(identity_field@) == ident_like(old(self).tokens@[old(self).position + 5].kind)) && final(self).position
                == old(self).position + 7),
        decreases old(self).budget(), old(self).remaining(), 30nat,
    {
        let start_span = self.current().span;
        self.expect(TokenKind::LParen)?;
        let expr = self.parse_expr()?;
        self.expect(TokenKind::Comma)?;
        let identity_field = self.parse_named_arg("identity_field")?;
        self.expect(TokenKind::RParen)?;
        let end_span = self.current().span;
        Ok(Expr::Destroy(DestroyExpr {
            expr: Box::new(expr),
            policy: DestructionPolicy::Instance { identity_field },
            span: Span::new(start_span.start, end_span.end, start_span.line, start_span.column),
        }))
    }

    fn parse_burn_amount(&mut self) -> (r: Result<Expr>)
        requires
            old(self).wf(),
        ensures
            final(self).kept(old(self)),
            r is Ok ==> final(self).position > old(self).position,
            !(old(self).cur_kind() is LParen) ==> r is Err,
            old(self).expression_depth < MAX_PARSE_RECURSION_DEPTH && old(self).unary_depth < MAX_PARSE_RECURSION_DEPTH && old(self).cur_kind() is LParen
                && literal_at(old(self).tokens@, old(self).position + 1) && old(self).tokens@[old(self).position + 2].kind is Comma && ident_like(
                old(self).tokens@[old(self).position + 3].kind) == Some("field"@) && old(self).tokens@[old(self).position + 4].kind is Eq && ident_like(old(self).tokens@[old(self).position + 5].kind) is Some
                && old(self).tokens@[old(self).position + 6].kind is RParen ==> (r matches Ok(Expr::Destroy(d)) && *d.expr == literal_expr(old(self).tokens@[old(self).position + 1].kind)->0 && (d.policy matches
                DestructionPolicy::BurnAmount { field } && Some(field@) == ident_like(old(self).tokens@[old(self).position + 5].kind)) && final(self).position
                == old(self).position + 7),
        decreases old(self).budget(), old(self).remaining(), 30nat,
    {
        let start_span = self.current().span;
        self.expect(TokenKind::LParen)?;
        let expr = self.parse_expr()?;
        self.expect(TokenKind::Comma)?;
        let field = self.parse_named_arg("field")?;
        self.expect(TokenKind::RParen)?;
        let end_span = self.current().span;
        Ok(Expr::Destroy(DestroyExpr {
            expr: Box::new(expr),
            policy: DestructionPolicy::BurnAmount { field },
            span: Span::new(start_span.start, end_span.end, start_span.line, start_span.column),
        }))
    }

    /// Parses a named argument such as `identity = type_id` and returns its value.
    fn parse_named_arg(&mut self, expected_name: &str) -> (r: Result<String>)
        requires
            old(self).wf(),
        ensures
            final(self).kept(old(self)),
            final(self).diagnostics == old(self).diagnostics,
            r is Ok ==> final(self).position == old(self).position + 3,
            ident_like(old(self).cur_kind()) == Some(expected_name@) && old(self).tokens@[old(self).position + 1].kind is Eq
                && ident_like(old(self).tokens@[old(self).position + 2].kind) is Some ==> (r matches Ok(v) && Some(v@)
                == ident_like(old(self).tokens@[old(self).position + 2].kind)),
            ident_like(old(self).cur_kind()) != Some(expected_name@) ==> r is Err,
    {
        let name = self.parse_name()?;
        if !str_eq(name.as_str(), expected_name) {
            let mut message = concat3("expected named argument '", expected_name, "', got '");
            message.append(name.as_str());
            message.append("'");
            return Err(CompileError::new(message, self.current().span));
        }
        self.expect(TokenKind::Eq)?;
        let value = self.parse_name()?;
        Ok(value)
    }

    fn parse_create_unique_expr(&mut self) -> (r: Result<Expr>)
        requires
            old(self).wf(),
        ensures
            final(self).kept(old(self)),
            r is Ok ==> final(self).position > old(self).position,
            !(old(self).cur_kind() is Lt) ==> r is Err,
            old(self).type_depth < MAX_PARSE_RECURSION_DEPTH && old(self).cur_kind() is Lt && primitive_type(old(self).tokens@[old(self).position + 1].kind) is Some && old(self).tokens@[old(self).position + 2].kind is Gt && old(self).tokens@[old(self).position + 3].kind is LParen && ident_like(old(self).tokens@[old(self).position + 4].kind) == Some("identity"@) && old(self).tokens@[old(self).position + 5].kind is Eq && ident_like(old(self).tokens@[old(self).position + 6].kind) is Some && identity_word(ident_like(old(self).tokens@[old(self).position + 6].kind)->0) is Some && old(self).tokens@[old(self).position + 7].kind is RParen && old(self).tokens@[old(self).position + 8].kind is LBrace && old(self).tokens@[old(self).position + 9].kind is RBrace && ident_like(old(self).tokens@[old(self).position + 10].kind) != Some("with_lock"@) ==> (
            r matches Ok(Expr::CreateUnique(c)) && c.fields@.len() == 0 && c.identity == identity_word(ident_like(
                old(self).tokens@[old(self).position + 6].kind)->0)->0 && c.lock is None && final(self).position == old(self).position + 10),
        decreases old(self).budget(), old(self).remaining(), 30nat,
    {
        let start_span = self.current().span;
        self.expect(TokenKind::Lt)?;
        let parsed = self.parse_type()?;
        let ty = render_type(&parsed);
        self.expect(TokenKind::Gt)?;
        self.expect(TokenKind::LParen)?;
        let identity = self.parse_identity_policy_from_args()?;
        self.expect(TokenKind::RParen)?;
        let fields = self.parse_field_init_list()?;
        let lock = if self.at_word("with_lock") {
            self.advance();
            self.expect(TokenKind::LParen)?;
            let lock_expr = self.parse_expr()?;
            self.expect(TokenKind::RParen)?;
            Some(Box::new(lock_expr))
        } else {
            None
        };
        let end_span = self.current().span;
        Ok(Expr::CreateUnique(CreateUniqueExpr {
            target: None,
            ty,
            fields,
            lock,
            identity,
            span: Span::new(start_span.start, end_span.end, start_span.line, start_span.column),
        }))
    }

    fn parse_replace_unique_expr(&mut self) -> (r: Result<Expr>)
        requires
            old(self).wf(),
        ensures
            final(self).kept(old(self)),
            r is Ok ==> final(self).position > old(self).position,
            !(old(self).cur_kind() is Lt) ==> r is Err,
            old(self).expression_depth < MAX_PARSE_RECURSION_DEPTH && old(self).unary_depth < MAX_PARSE_RECURSION_DEPTH && old(self).type_depth < MAX_PARSE_RECURSION_DEPTH && old(self).cur_kind() is Lt && primitive_type(old(self).tokens@[old(self).position + 1].kind) is Some && old(self).tokens@[old(self).position + 2].kind is Gt && old(self).tokens@[old(self).position + 3].kind is LParen && ident_like(old(self).tokens@[old(self).position + 4].kind) == Some("identity"@) && old(self).tokens@[old(self).position + 5].kind is Eq && ident_like(old(self).tokens@[old(self).position + 6].kind) is Some && identity_word(ident_like(old(self).tokens@[old(self).position + 6].kind)->0) is Some && old(self).tokens@[old(self).position + 7].kind is RParen && literal_at(old(self).tokens@, old(self).position + 8) && old(self).tokens@[old(self).position + 9].kind is LBrace && old(self).tokens@[old(self).position + 10].kind is RBrace
                ==> (r matches Ok(Expr::ReplaceUnique(c)) && *c.expr == literal_expr(old(self).tokens@[old(self).position + 8].kind)->0 && c.fields@.len() == 0
                && c.identity == identity_word(ident_like(old(self).tokens@[old(self).position + 6].kind)->0)->0 && final(self).position == old(self).position + 11),
        decreases old(self).budget(), old(self).remaining(), 30nat,
    {
        let start_span = self.current().span;
        self.expect(TokenKind::Lt)?;
        let parsed = self.parse_type()?;
        let ty = render_type(&parsed);
        self.expect(TokenKind::Gt)?;
        self.expect(TokenKind::LParen)?;
        let identity = self.parse_identity_policy_from_args()?;
        self.expect(TokenKind::RParen)?;
        let expr = self.parse_expr()?;
        let fields = self.parse_field_init_list()?;
        let end_span = self.current().span;
        Ok(Expr::ReplaceUnique(ReplaceUniqueExpr {
            expr: Box::new(expr),
            ty,
            fields,
            identity,
            span: Span::new(start_span.start, end_span.end, start_span.line, start_span.column),
        }))
    }

    fn parse_identity_policy_from_args(&mut self) -> (r: Result<IdentityPolicy>)
        requires
            old(self).wf(),
        ensures
            final(self).kept(old(self)),
            final(self).diagnostics == old(self).diagnostics,
            r is Ok ==> final(self).position > old(self).position,
            ident_like(old(self).cur_kind()) != Some("identity"@) ==> r is Err,
            ident_like(old(self).cur_kind()) == Some("identity"@) && old(self).tokens@[old(self).position + 1].kind is Eq && ident_like(old(self).tokens@[old(self).position + 2].kind) is Some
                ==> (identity_word(ident_like(old(self).tokens@[old(self).position + 2].kind)->0) is Some ==> r == Ok::<IdentityPolicy, CompileError>(
                identity_word(ident_like(old(self).tokens@[old(self).position + 2].kind)->0)->0) && final(self).position == old(self).position + 3) && (
            !is_identity_word(ident_like(old(self).tokens@[old(self).position + 2].kind)->0) ==> r is Err),
    {
        let name = self.parse_name()?;
        if !str_eq(name.as_str(), "identity") {
            let message = concat3("expected 'identity' named argument, got '", name.as_str(), "'");
            return Err(CompileError::new(message, self.current().span));
        }
        self.expect(TokenKind::Eq)?;
        let kind = self.parse_name()?;
        let k = kind.as_str();
        if str_eq(k, "ckb_type_id") {
            Ok(IdentityPolicy::CkbTypeId)
        } else if str_eq(k, "field") {
            self.expect(TokenKind::LParen)?;
            let path = self.parse_name()?;
            self.expect(TokenKind::RParen)?;
            Ok(IdentityPolicy::Field(path))
        } else if str_eq(k, "script_args") {
            Ok(IdentityPolicy::ScriptArgs)
        } else if str_eq(k, "singleton_type") {
            Ok(IdentityPolicy::SingletonType)
        } else if str_eq(k, "none") {
            Ok(IdentityPolicy::NoIdentity)
        } else {
            let mut message = concat3("unsupported identity policy '", k, "'; ");
            message.append("expected none, ckb_type_id, field(...), script_args, or singleton_type");
            Err(CompileError::new(message, self.current().span))
        }
    }

    fn parse_field_init_list(&mut self) -> (r: Result<Vec<(String, Expr)>>)
        requires
            old(self).wf(),
        ensures
            final(self).kept(old(self)),
            r is Ok ==> final(self).position > old(self).position,
            !(old(self).cur_kind() is LBrace) ==> r is Err,
            old(self).cur_kind() is LBrace && old(self).tokens@[old(self).position + 1].kind is RBrace ==> final(self).position
                == old(self).position + 2 && (r matches Ok(v) && v@.len() == 0),
        decreases old(self).budget(), old(self).remaining(), 20nat,
    {
        self.expect(TokenKind::LBrace)?;
        self.skip_newlines();
        let mut fields: Vec<(String, Expr)> = Vec::new();
        while !self.check(&TokenKind::RBrace) && !self.check(&TokenKind::Eof)
            invariant
                old(self).cur_kind() is LBrace && old(self).tokens@[old(self).position + 1].kind is RBrace ==> self.position
                    == old(self).position + 1 && fields@.len() == 0,
                self.kept(old(self)),
                self.position > old(self).position,
            decreases self.tokens@.len() - self.position,
        {
            let name = self.parse_name_path()?;
            if self.check(&TokenKind::Colon) {
                self.advance();
                let value = self.parse_expr()?;
                fields.push((name, value));
            } else {
                let shorthand = Expr::Identifier(name.clone());
                fields.push((name, shorthand));
            }
            if self.check(&TokenKind::Comma) {
                self.advance();
            }
            self.skip_newlines();
        }
        self.expect(TokenKind::RBrace)?;
        Ok(fields)
    }

    fn parse_read_ref_expr(&mut self) -> (r: Result<Expr>)
        requires
            old(self).wf(),
        ensures
            final(self).kept(old(self)),
            final(self).diagnostics == old(self).diagnostics,
            r is Ok ==> final(self).position > old(self).position,
            !(old(self).cur_kind() is ReadRef) ==> r is Err,
            old(self).type_depth < MAX_PARSE_RECURSION_DEPTH && old(self).cur_kind() is ReadRef && primitive_type(
                old(self).tokens@[old(self).position + 1].kind) is Some && !(old(self).tokens@[old(self).position
                + 2].kind is LParen) ==> (r matches Ok(Expr::ReadRef(_)) && final(self).position == old(self).position + 2),
    {
        let start_span = self.current().span;
        self.expect(TokenKind::ReadRef)?;
        let ty = if self.check(&TokenKind::Lt) {
            self.advance();
            let parsed = self.parse_type()?;
            self.expect(TokenKind::Gt)?;
            render_type(&parsed)
        } else {
            let parsed = self.parse_type()?;
            render_type(&parsed)
        };
        if self.check(&TokenKind::LParen) {
            self.advance();
            self.expect(TokenKind::RParen)?;
        }
        let end_span = self.current().span;
        Ok(Expr::ReadRef(ReadRefExpr { ty, span: Span::new(start_span.start, end_span.end, start_span.line, start_span.column) }))
    }

    fn parse_require(&mut self) -> (r: Result<Expr>)
        requires
            old(self).wf(),
        ensures
            final(self).kept(old(self)),
            r is Ok ==> final(self).position > old(self).position,
            !(old(self).cur_kind() is Require) ==> r is Err,
            old(self).cur_kind() is Require && old(self).tokens@[old(self).position + 1].kind is LBrace && old(
                self).tokens@[old(self).position + 2].kind is RBrace ==> r is Err,
            old(self).expression_depth < MAX_PARSE_RECURSION_DEPTH && old(self).unary_depth < MAX_PARSE_RECURSION_DEPTH && old(self).cur_kind() is Require
                && !(old(self).tokens@[old(self).position + 1].kind is LBrace) && literal_at(old(self).tokens@, old(
                self).position + 1) && !(old(self).tokens@[old(self).position + 2].kind is Comma) ==> (r matches Ok(
                Expr::Require(q)) && *q.condition == literal_expr(old(self).tokens@[old(self).position + 1].kind)->0
                && q.message is None && final(self).position == old(self).position + 2),
        decreases old(self).budget(), old(self).remaining(), 30nat,
    {
        let start_span = self.current().span;
        self.expect(TokenKind::Require)?;
        if self.check(&TokenKind::LBrace) {
            self.advance();
            self.skip_newlines();
            let mut expressions: Vec<Expr> = Vec::new();
            while !self.check(&TokenKind::RBrace) && !self.check(&TokenKind::Eof)
                invariant
                    old(self).tokens@[old(self).position + 1].kind is LBrace,
                    old(self).tokens@[old(self).position + 1].kind is LBrace && old(self).tokens@[old(self).position + 2].kind is RBrace
                        ==> self.position == old(self).position + 2 && expressions@.len() == 0,
                    self.kept(old(self)),
                    self.position > old(self).position,
                decreases self.tokens@.len() - self.position,
            {
                let expr = self.parse_expr()?;
                match &expr {
                    Expr::Consume(_) | Expr::Create(_) | Expr::Destroy(_) => {
                        return Err(
                            CompileError::at(
                                "require block contains statement — only pure boolean expressions are allowed",
                                expr.span(),
                            ).with_code("E1005"),
                        );
                    },
                    Expr::If(_) | Expr::Match(_) => {
                        return Err(
                            CompileError::at(
                                "require block contains control flow — only pure boolean expressions are allowed",
                                expr.span(),
                            ).with_code("E1006"),
                        );
                    },
                    _ => {},
                }
                expressions.push(expr);
                self.consume_optional_semi();
                self.skip_newlines();
            }
            if expressions.len() == 0 {
                return Err(
                    CompileError::at("require block is empty — at least one boolean expression is required", start_span).with_code(
                        "E1001",
                    ),
                );
            }
            let end_span = self.current().span;
            self.expect(TokenKind::RBrace)?;
            return Ok(Expr::RequireBlock(RequireBlockExpr {
                expressions,
                span: Span::new(start_span.start, end_span.end, start_span.line, start_span.column),
            }));
        }
        let condition = self.parse_expr()?;
        let message = if self.check(&TokenKind::Comma) {
            self.advance();
            self.skip_newlines();
            Some(Box::new(self.parse_expr()?))
        } else if self.check(&TokenKind::Else) {
            self.advance();
            self.skip_newlines();
            let message_span = self.current().span;
            match self.ident_like_name() {
                Some(name) => {
                    self.advance();
                    Some(Box::new(Expr::String(name)))
                },
                None => {
                    return Err(CompileError::at("require else must name an error identifier", message_span));
                },
            }
        } else {
            None
        };
        let end_span = self.current().span;
        Ok(Expr::Require(RequireExpr {
            condition: Box::new(condition),
            message,
            span: Span::new(start_span.start, end_span.end, start_span.line, start_span.column),
        }))
    }

    /// Parses `preserve output from input { field ... }`.
    fn parse_preserve(&mut self) -> (r: Result<Expr>)
        requires
            old(self).wf(),
        ensures
            final(self).kept(old(self)),
            final(self).diagnostics == old(self).diagnostics,
            r is Ok ==> final(self).position > old(self).position,
            r matches Ok(e) ==> (e matches Expr::Preserve(p) && p.fields@.len() > 0),
            empty_preserve_at(old(self).tokens@, old(self).position as int) ==> (r matches Err(e) && e.message@
                == "preserve block is empty — at least one field name is required"@ && (e.code matches Some(c) && c@
                == "E1001"@)),
    {
        let start_span = self.current().span;
        self.expect(TokenKind::Preserve)?;
        let output_name = self.parse_name()?;
        if !self.at_word("from") {
            return Err(self.error_here("expected 'from' in preserve expression"));
        }
        self.advance();
        let input_name = self.parse_name()?;
        if !self.check(&TokenKind::LBrace) {
            return Err(
                self.error_here(
                    "bare 'preserve' requires a field block — use 'preserve output from input { field1, field2 }'",
                ).with_code("E1009"),
            );
        }
        self.advance();
        let ghost block_start = self.position as int;
        self.skip_newlines();
        proof {
            if empty_preserve_at(self.tokens@, old(self).position as int) {
                lemma_skip_breaks(self.tokens@, block_start, self.position as int);
            }
        }
        let mut fields: Vec<String> = Vec::new();
        while !self.check(&TokenKind::RBrace) && !self.check(&TokenKind::Eof)
            invariant
                self.kept(old(self)),
                self.diagnostics == old(self).diagnostics,
                self.position > old(self).position,
                empty_preserve_at(old(self).tokens@, old(self).position as int) ==> self.position == skip_breaks(
                    self.tokens@,
                    old(self).position + 5,
                ) && fields@.len() == 0,
            decreases self.tokens@.len() - self.position,
        {
            if self.check(&TokenKind::Star) {
                return Err(self.error_here("preserve wildcard '*' is not allowed — use explicit whitelist").with_code("E1007"));
            }
            if self.at_word("except") {
                return Err(self.error_here("preserve except is not allowed — use explicit whitelist").with_code("E1008"));
            }
            let field_name = self.parse_name()?;
            fields.push(field_name);
            self.consume_optional_semi();
            self.skip_newlines();
        }
        if fields.len() == 0 {
            return Err(
                CompileError::at("preserve block is empty — at least one field name is required", start_span).with_code("E1001"),
            );
        }
        let end_span = self.current().span;
        self.expect(TokenKind::RBrace)?;
        Ok(Expr::Preserve(PreserveExpr {
            output_name,
            input_name,
            fields,
            span: Span::new(start_span.start, end_span.end, start_span.line, start_span.column),
        }))
    }

    /// Parses `std::namespace::name(args)`, optionally followed by a field block.
    fn parse_stdlib_call(&mut self) -> (r: Result<Expr>)
        requires
            old(self).wf(),
        ensures
            final(self).kept(old(self)),
            r is Ok ==> final(self).position > old(self).position,
            !(old(self).cur_kind() is Std) ==> r is Err,
            old(self).cur_kind() is Std && old(self).tokens@[old(self).position + 1].kind is ColonColon && ident_like(old(self).tokens@[old(self).position + 2].kind) is Some
                && old(self).tokens@[old(self).position + 3].kind is ColonColon && ident_like(old(self).tokens@[old(self).position + 4].kind) is Some && old(self).tokens@[old(self).position + 5].kind is LParen
                && old(self).tokens@[old(self).position + 6].kind is RParen && !(old(self).tokens@[old(self).position + 7].kind is LBrace) ==> (r matches Ok(Expr::StdlibCall(c)) && Some(
                c.namespace@) == ident_like(old(self).tokens@[old(self).position + 2].kind) && Some(c.name@) == ident_like(old(self).tokens@[old(self).position + 4].kind) && c.args@.len()
                == 0 && c.preserve_fields@.len() == 0 && final(self).position == old(self).position + 7),
        decreases old(self).budget(), old(self).remaining(), 30nat,
    {
        let start_span = self.current().span;
        self.expect(TokenKind::Std)?;
        self.expect(TokenKind::ColonColon)?;
        let namespace = self.parse_name()?;
        self.expect(TokenKind::ColonColon)?;
        let name = self.parse_name()?;
        let args = self.parse_args()?;
        let preserve_fields = if self.check(&TokenKind::LBrace) {
            self.advance();
            self.skip_newlines();
            let mut fields: Vec<String> = Vec::new();
            while !self.check(&TokenKind::RBrace) && !self.check(&TokenKind::Eof)
                invariant
                    !(old(self).cur_kind() is Std && old(self).tokens@[old(self).position + 1].kind is ColonColon && ident_like(old(self).tokens@[old(self).position + 2].kind) is Some && old(self).tokens@[old(self).position + 3].kind is ColonColon && ident_like(old(self).tokens@[old(self).position + 4].kind) is Some && old(self).tokens@[old(self).position + 5].kind is LParen && old(self).tokens@[old(self).position + 6].kind is RParen && !(old(self).tokens@[old(self).position + 7].kind is LBrace)),
                    self.kept(old(self)),
                    self.position > old(self).position,
                decreases self.tokens@.len() - self.position,
            {
                fields.push(self.parse_name()?);
                self.consume_optional_semi();
                self.skip_newlines();
            }
            self.expect(TokenKind::RBrace)?;
            fields
        } else {
            Vec::new()
        };
        let end_span = self.current().span;
        Ok(Expr::StdlibCall(StdlibCallExpr {
            namespace,
            name,
            args,
            preserve_fields,
            span: Span::new(start_span.start, end_span.end, start_span.line, start_span.column),
        }))
    }

    fn parse_if_expr(&mut self) -> (r: Result<Expr>)
        requires
            old(self).wf(),
        ensures
            final(self).kept(old(self)),
            r is Ok ==> final(self).position > old(self).position,
            !(old(self).cur_kind() is If) ==> r is Err,
            old(self).expression_depth < MAX_PARSE_RECURSION_DEPTH && old(self).unary_depth < MAX_PARSE_RECURSION_DEPTH && old(self).cur_kind() is If
                && literal_at(old(self).tokens@, old(self).position + 1) && old(self).tokens@[old(self).position + 2].kind is LBrace
                && old(self).tokens@[old(self).position + 3].kind is RBrace && old(self).tokens@[old(self).position + 4].kind is Else
                && old(self).tokens@[old(self).position + 5].kind is LBrace && old(self).tokens@[old(self).position + 6].kind is RBrace
                ==> (r matches Ok(Expr::If(e)) && *e.condition == literal_expr(old(self).tokens@[old(self).position + 1].kind)->0
                && (*e.then_branch matches Expr::Block(a) && a@.len() == 0) && (*e.else_branch matches Expr::Block(b) && b@.len()
                == 0) && final(self).position == old(self).position + 7),
        decreases old(self).budget(), old(self).remaining(), 30nat,
    {
        let start_span = self.current().span;
        self.expect(TokenKind::If)?;
        let condition = self.parse_expr()?;
        let then_branch = Box::new(self.parse_branch_expr()?);
        self.skip_newlines();
        self.expect(TokenKind::Else)?;
        let else_branch = Box::new(self.parse_branch_expr()?);
        Ok(Expr::If(IfExpr { condition: Box::new(condition), then_branch, else_branch, span: start_span }))
    }

    fn parse_branch_expr(&mut self) -> (r: Result<Expr>)
        requires
            old(self).wf(),
        ensures
            final(self).kept(old(self)),
            r is Ok ==> final(self).position > old(self).position,
            old(self).cur_kind() is LBrace && old(self).tokens@[old(self).position + 1].kind is RBrace ==> (r matches Ok(
                Expr::Block(v)) && v@.len() == 0 && final(self).position == old(self).position + 2),
        decreases old(self).budget(), old(self).remaining(), 65nat,
    {
        self.skip_newlines();
        if self.check(&TokenKind::LBrace) {
            Ok(Expr::Block(self.parse_block()?))
        } else if self.check(&TokenKind::If) {
            self.parse_if_expr()
        } else {
            self.parse_expr()
        }
    }

    fn parse_struct_init(&mut self, ty: String) -> (r: Result<Expr>)
        requires
            old(self).wf(),
        ensures
            final(self).kept(old(self)),
            r is Ok ==> final(self).position > old(self).position,
            !(old(self).cur_kind() is LBrace) ==> r is Err,
            old(self).cur_kind() is LBrace && old(self).tokens@[old(self).position + 1].kind is RBrace ==> (r matches Ok(
                Expr::StructInit(s)) && s.ty == ty && s.fields@.len() == 0 && final(self).position == old(self).position + 2),
        decreases old(self).budget(), old(self).remaining(), 30nat,
    {
        let start_span = self.current().span;
        self.expect(TokenKind::LBrace)?;
        self.skip_newlines();
        let mut fields: Vec<(String, Expr)> = Vec::new();
        while !self.check(&TokenKind::RBrace) && !self.check(&TokenKind::Eof)
            invariant
                old(self).cur_kind() is LBrace && old(self).tokens@[old(self).position + 1].kind is RBrace ==> self.position
                    == old(self).position + 1 && fields@.len() == 0,
                self.kept(old(self)),
                self.position > old(self).position,
            decreases self.tokens@.len() - self.position,
        {
            let field_name = self.parse_name()?;
            let value = if self.check(&TokenKind::Colon) {
                self.advance();
                self.parse_expr()?
            } else {
                Expr::Identifier(field_name.clone())
            };
            fields.push((field_name, value));
            if self.check(&TokenKind::Comma) {
                self.advance();
            }
            self.skip_newlines();
        }
        self.expect(TokenKind::RBrace)?;
        Ok(Expr::StructInit(StructInitExpr { ty, fields, span: start_span }))
    }

    fn parse_match_expr(&mut self) -> (r: Result<Expr>)
        requires
            old(self).wf(),
        ensures
            final(self).kept(old(self)),
            r is Ok ==> final(self).position > old(self).position,
            !(old(self).cur_kind() is Match) ==> r is Err,
            old(self).expression_depth < MAX_PARSE_RECURSION_DEPTH && old(self).unary_depth < MAX_PARSE_RECURSION_DEPTH && old(self).cur_kind() is Match
                && literal_at(old(self).tokens@, old(self).position + 1) && old(self).tokens@[old(self).position + 2].kind is LBrace && old(self).tokens@[old(self).position + 3].kind is RBrace
                ==> (r matches Ok(Expr::Match(m)) && *m.expr == literal_expr(old(self).tokens@[old(self).position + 1].kind)->0 && m.arms@.len() == 0 && final(self).position
                == old(self).position + 4),
        decreases old(self).budget(), old(self).remaining(), 30nat,
    {
        let start_span = self.current().span;
        self.expect(TokenKind::Match)?;
        let expr = self.parse_expr()?;
        self.skip_newlines();
        self.expect(TokenKind::LBrace)?;
        self.skip_newlines();
        let mut arms: Vec<MatchArm> = Vec::new();
        while !self.check(&TokenKind::RBrace) && !self.check(&TokenKind::Eof)
            invariant
                old(self).expression_depth < MAX_PARSE_RECURSION_DEPTH && old(self).unary_depth < MAX_PARSE_RECURSION_DEPTH
                    && old(self).cur_kind() is Match && literal_at(old(self).tokens@, old(self).position + 1) && old(self).tokens@[old(self).position + 2].kind is LBrace
                    && old(self).tokens@[old(self).position + 3].kind is RBrace ==> self.position == old(self).position + 3 && arms@.len() == 0,
                self.kept(old(self)),
                self.position > old(self).position,
            decreases self.tokens@.len() - self.position,
        {
            let arm_start = self.current().span;
            let pattern = self.parse_match_pattern()?;
            self.skip_newlines();
            self.expect(TokenKind::FatArrow)?;
            self.skip_newlines();
            let value = if self.check(&TokenKind::LBrace) {
                Expr::Block(self.parse_block()?)
            } else if self.check(&TokenKind::Require) {
                self.parse_match_arm_require()?
            } else {
                self.parse_expr()?
            };
            let arm_end = self.current().span;
            let arm_span = Span::new(arm_start.start, arm_end.end, arm_start.line, arm_start.column);
            arms.push(MatchArm { pattern, value, span: arm_span });
            self.skip_newlines();
            if self.check(&TokenKind::Comma) {
                self.advance();
                self.skip_newlines();
            } else if self.check(&TokenKind::RBrace) {
                break;
            }
        }
        self.expect(TokenKind::RBrace)?;
        Ok(Expr::Match(MatchExpr { expr: Box::new(expr), arms, span: start_span }))
    }

    fn parse_match_arm_require(&mut self) -> (r: Result<Expr>)
        requires
            old(self).wf(),
        ensures
            final(self).kept(old(self)),
            r is Ok ==> final(self).position > old(self).position,
            !(old(self).cur_kind() is Require) ==> r is Err,
            old(self).expression_depth < MAX_PARSE_RECURSION_DEPTH && old(self).unary_depth < MAX_PARSE_RECURSION_DEPTH && old(self).cur_kind() is Require
                && literal_at(old(self).tokens@, old(self).position + 1) && !(old(self).tokens@[old(self).position + 2].kind is Comma) ==> (r matches Ok(
                Expr::Require(q)) && *q.condition == literal_expr(old(self).tokens@[old(self).position + 1].kind)->0 && q.message is None && final(self).position == old(self).position + 2),
        decreases old(self).budget(), old(self).remaining(), 20nat,
    {
        let start_span = self.current().span;
        self.expect(TokenKind::Require)?;
        let condition = self.parse_expr()?;
        let next_is_string = match &self.peek(1).kind {
            TokenKind::String(_) => true,
            _ => false,
        };
        let message = if self.check(&TokenKind::Comma) && next_is_string {
            self.advance();
            self.skip_newlines();
            Some(Box::new(self.parse_expr()?))
        } else if self.check(&TokenKind::Else) {
            self.advance();
            self.skip_newlines();
            let message_span = self.current().span;
            match self.ident_like_name() {
                Some(name) => {
                    self.advance();
                    Some(Box::new(Expr::String(name)))
                },
                None => {
                    return Err(CompileError::at("require else must name an error identifier", message_span));
                },
            }
        } else {
            None
        };
        let end_span = self.current().span;
        Ok(Expr::Require(RequireExpr {
            condition: Box::new(condition),
            message,
            span: Span::new(start_span.start, end_span.end, start_span.line, start_span.column),
        }))
    }

    fn parse_match_pattern(&mut self) -> (r: Result<MatchPattern>)
        requires
            old(self).wf(),
        ensures
            final(self).kept(old(self)),
            final(self).diagnostics == old(self).diagnostics,
            r is Ok ==> final(self).position > old(self).position,
            old(self).cur_kind() is Underscore && !(old(self).tokens@[old(self).position + 1].kind is Pipe) ==> r
                == Ok::<MatchPattern, CompileError>(MatchPattern::Wildcard) && final(self).position == old(self).position + 1,
        decreases old(self).remaining(), 1nat,
    {
        let mut patterns: Vec<MatchPattern> = Vec::new();
        patterns.push(self.parse_match_pattern_primary()?);
        while self.check(&TokenKind::Pipe)
            invariant
                old(self).cur_kind() is Underscore && !(old(self).tokens@[old(self).position + 1].kind is Pipe) ==> self.position
                    == old(self).position + 1 && patterns@ == seq![MatchPattern::Wildcard],
                self.kept(old(self)),
                self.diagnostics == old(self).diagnostics,
                self.position > old(self).position,
                patterns@.len() > 0,
            decreases self.tokens@.len() - self.position,
        {
            self.advance();
            self.skip_newlines();
            patterns.push(self.parse_match_pattern_primary()?);
        }
        if patterns.len() == 1 {
            Ok(patterns.pop().unwrap())
        } else {
            Ok(MatchPattern::Or(patterns))
        }
    }

    fn parse_match_pattern_primary(&mut self) -> (r: Result<MatchPattern>)
        requires
            old(self).wf(),
        ensures
            final(self).kept(old(self)),
            final(self).diagnostics == old(self).diagnostics,
            r is Ok ==> final(self).position > old(self).position,
            old(self).cur_kind() is Underscore ==> r == Ok::<MatchPattern, CompileError>(MatchPattern::Wildcard)
                && final(self).position == old(self).position + 1,
        decreases old(self).remaining(), 0nat,
    {
        if self.check(&TokenKind::Underscore) || self.at_word("_") {
            self.advance();
            return Ok(MatchPattern::Wildcard);
        }
        if self.check(&TokenKind::LParen) {
            self.advance();
            self.skip_newlines();
            let mut items: Vec<MatchPattern> = Vec::new();
            let mut saw_comma = false;
            while !self.check(&TokenKind::RParen) && !self.check(&TokenKind::Eof)
                invariant
                    !(old(self).cur_kind() is Underscore),
                    self.kept(old(self)),
                    self.diagnostics == old(self).diagnostics,
                    self.position > old(self).position,
                decreases self.tokens@.len() - self.position,
            {
                items.push(self.parse_match_pattern()?);
                self.skip_newlines();
                if self.check(&TokenKind::Comma) {
                    saw_comma = true;
                    self.advance();
                    self.skip_newlines();
                } else {
                    break;
                }
            }
            self.expect(TokenKind::RParen)?;
            if items.len() == 1 && !saw_comma {
                return Ok(items.pop().unwrap());
            }
            return Ok(MatchPattern::Tuple(items));
        }
        let path = self.parse_name_path()?;
        if self.check(&TokenKind::LBrace) {
            self.advance();
            self.skip_newlines();
            let mut fields: Vec<(String, MatchPattern)> = Vec::new();
            while !self.check(&TokenKind::RBrace) && !self.check(&TokenKind::Eof)
                invariant
                    !(old(self).cur_kind() is Underscore),
                    self.kept(old(self)),
                    self.diagnostics == old(self).diagnostics,
                    self.position > old(self).position,
                decreases self.tokens@.len() - self.position,
            {
                let name = self.parse_name()?;
                let pattern = if self.check(&TokenKind::Colon) {
                    self.advance();
                    self.skip_newlines();
                    self.parse_match_pattern()?
                } else {
                    MatchPattern::Binding(name.clone())
                };
                fields.push((name, pattern));
                self.skip_newlines();
                if self.check(&TokenKind::Comma) {
                    self.advance();
                    self.skip_newlines();
                } else {
                    break;
                }
            }
            self.expect(TokenKind::RBrace)?;
            return Ok(MatchPattern::Struct { path, fields });
        }
        let mut fields: Vec<MatchPattern> = Vec::new();
        if self.check(&TokenKind::LParen) {
            self.advance();
            self.skip_newlines();
            while !self.check(&TokenKind::RParen) && !self.check(&TokenKind::Eof)
                invariant
                    !(old(self).cur_kind() is Underscore),
                    self.kept(old(self)),
                    self.diagnostics == old(self).diagnostics,
                    self.position > old(self).position,
                decreases self.tokens@.len() - self.position,
            {
                fields.push(self.parse_match_pattern()?);
                self.skip_newlines();
                if self.check(&TokenKind::Comma) {
                    self.advance();
                    self.skip_newlines();
                } else {
                    break;
                }
            }
            self.expect(TokenKind::RParen)?;
            return Ok(MatchPattern::Variant { path, fields });
        }
        if contains_double_colon(path.as_str()) || starts_with_uppercase(path.as_str()) {
            Ok(MatchPattern::Variant { path, fields })
        } else {
            Ok(MatchPattern::Binding(path))
        }
    }
}

/// Whether a string begins with an ASCII capital letter.
fn starts_with_uppercase(s: &str) -> (r: bool)
    ensures
        r == (s@.len() > 0 && 'A' <= s@[0] && s@[0] <= 'Z'),
{
    let cs = chars_of(s);
    cs.len() > 0 && 'A' <= cs[0] && cs[0] <= 'Z'
}

impl<'a> Parser<'a> {
    /// Parses a whole module: `module name` followed by items up to the end of input.
    pub fn parse_module(&mut self) -> (r: Result<Module>)
        requires
            old(self).wf(),
        ensures
            final(self).kept(old(self)),
            r is Ok ==> old(self).cur_kind() is Module,
            r is Ok ==> final(self).cur_kind() is Eof,
            old(self).cur_kind() is Module && ident_like(old(self).toks()[old(self).pos() + 1].kind) is Some && old(
                self,
            ).toks()[old(self).pos() + 2].kind is Eof ==> (r matches Ok(m) && Some(m.name@) == ident_like(old(
                self,
            ).toks()[old(self).pos() + 1].kind) && m.items@.len() == 0),
            !old(self).recovering() ==> final(self).diags() == old(self).diags(),
            old(self).recovering() ==> old(self).diags().len() <= final(self).diags().len(),
            empty_decl_module_at(old(self).toks(), old(self).pos()) matches Some((name, ds)) ==> (r matches Ok(m)
                && m.name@ == name && decls_of(m.items@) == as_decls(ds) && final(self).diags() == old(self).diags()),
            r is Ok ==> ident_like(old(self).toks()[old(self).pos() + 1].kind) is Some,
            old(self).recovering() && old(self).cur_kind() is Module && ident_like(old(self).toks()[old(self).pos()
                + 1].kind) is Some ==> r is Ok,
            !old(self).recovering() && old(self).at_top() && failing_module_at(old(self).toks(), old(self).pos())
                ==> (r matches Err(e) && Some((e.message@, code_text(e.code))) == stmt_error_at(old(self).toks(),
                action_first_stmt(old(self).toks(), module_first_item(old(self).toks(), old(self).pos())))),
            old(self).at_top() ==> (simple_module_at(old(self).toks(), old(self).pos()) matches Some((name, ds)) ==> (r matches Ok(m)
                && m.name@ == name && shapes_of(m.items@) == as_shapes(ds) && final(self).diags() == old(self).diags())),
    {
        let ghost frag = empty_decl_module_at(self.tokens@, self.position as int);
        let ghost frag2 = if self.at_top() {
            simple_module_at(self.tokens@, self.position as int)
        } else {
            None
        };
        let start_span = self.current().span;
        self.expect(TokenKind::Module)?;
        let full_name = self.parse_name_path()?;
        self.consume_optional_semi();
        let ghost header_end = self.position as int;
        self.skip_newlines();
        proof {
            if frag is Some {
                lemma_empty_decls_breaks(self.tokens@, header_end, self.position as int);
            }
            if frag2 is Some {
                lemma_simple_items_breaks(self.tokens@, header_end, self.position as int);
            }
        }
        let ghost deep = !self.recover && self.at_top() && failing_module_at(old(self).tokens@, old(self).position as int);
        proof {
            if deep {
                lemma_skip_breaks(self.tokens@, header_end, self.position as int);
            }
        }
        let mut items: Vec<Item> = Vec::new();
        let mut visibilities: Vec<(String, Visibility)> = Vec::new();
        while !self.check(&TokenKind::Eof)
            invariant
                !(old(self).cur_kind() is Underscore),
                self.kept(old(self)),
                old(self).cur_kind() is Module,
                ident_like(old(self).tokens@[old(self).position + 1].kind) is Some && old(self).tokens@[old(
                    self,
                ).position + 2].kind is Eof ==> self.cur_kind() is Eof && items@.len() == 0,
                frag == empty_decl_module_at(old(self).tokens@, old(self).position as int),
                deep == (!old(self).recover && old(self).at_top() && failing_module_at(old(self).tokens@, old(self).position as int)),
                deep ==> self.at_top() && !self.recover && failing_action_at(self.tokens@, self.position as int) && self.position as int == module_first_item(old(self).tokens@, old(self).position as int),
                ident_like(old(self).tokens@[old(self).position + 1].kind) is Some,
                frag matches Some((name, ds)) ==> (empty_decls(self.tokens@, self.position as int) matches Some(rest)
                    && decls_of(items@) + as_decls(rest) == as_decls(ds) && self.diagnostics == old(self).diagnostics
                    && full_name@ == name),
                frag2 == (if old(self).at_top() {
                    simple_module_at(old(self).tokens@, old(self).position as int)
                } else {
                    None
                }),
                frag2 matches Some((name, ds)) ==> (simple_items(self.tokens@, self.position as int) matches Some(rest)
                    && shapes_of(items@) + as_shapes(rest) == as_shapes(ds) && full_name@ == name && self.at_top()
                    && self.diags() == old(self).diags()),
            ensures
                self.cur_kind() is Eof,
            decreases self.tokens@.len() - self.position,
        {
            let ghost before_breaks = self.position as int;
            self.skip_newlines();
            proof {
                if frag is Some {
                    lemma_empty_decls_breaks(self.tokens@, before_breaks, self.position as int);
                }
                if frag2 is Some {
                    lemma_simple_items_breaks(self.tokens@, before_breaks, self.position as int);
                }
            }
            if self.check(&TokenKind::Eof) {
                break;
            }
            let start_position = self.position;
            let ghost items_before = items@;
            match self.parse_item() {
                Ok((item, visibility)) => {
                    proof {
                        if frag is Some {
                            let rest = empty_decls(self.tokens@, start_position as int)->0;
                            assert(rest =~= seq![rest[0]] + rest.skip(1));
                            assert(as_decls(rest) =~= seq![Some(rest[0])] + as_decls(rest.skip(1)));
                            assert(decls_of(items_before.push(item)) =~= decls_of(items_before).push(empty_decl(item)));
                            assert(decls_of(items_before.push(item)) + as_decls(rest.skip(1)) =~= decls_of(items_before)
                                + as_decls(rest));
                        }
                        if frag2 is Some {
                            let rest = simple_items(self.tokens@, start_position as int)->0;
                            assert(rest =~= seq![rest[0]] + rest.skip(1));
                            assert(item_shape(item) == Some(rest[0]));
                            assert(simple_items(self.tokens@, self.position as int) == Some(rest.skip(1)));
                            assert(as_shapes(rest) =~= seq![Some(rest[0])] + as_shapes(rest.skip(1)));
                            assert(shapes_of(items_before.push(item)) =~= shapes_of(items_before).push(item_shape(item)));
                            assert(shapes_of(items_before.push(item)) + as_shapes(rest.skip(1)) =~= shapes_of(items_before)
                                + as_shapes(rest));
                        }
                    }
                    if let Some(name) = item.name() {
                        insert_visibility(&mut visibilities, name, visibility);
                    }
                    items.push(item);
                },
                Err(error) => {
                    if self.recover {
                        self.record_diagnostic(error);
                        self.synchronize_item(start_position);
                    } else {
                        return Err(error);
                    }
                },
            }
            let ghost before_trailing = self.position as int;
            self.skip_newlines();
            proof {
                if frag is Some {
                    lemma_empty_decls_breaks(self.tokens@, before_trailing, self.position as int);
                }
                if frag2 is Some {
                    lemma_simple_items_breaks(self.tokens@, before_trailing, self.position as int);
                }
            }
        }
        proof {
            if frag is Some {
                let rest = empty_decls(self.tokens@, self.position as int)->0;
                assert(as_decls(rest) =~= Seq::<Option<(bool, Seq<char>)>>::empty());
                assert(decls_of(items@) + as_decls(rest) =~= decls_of(items@));
            }
            if frag2 is Some {
                let rest = simple_items(self.tokens@, self.position as int)->0;
                assert(as_shapes(rest) =~= Seq::<Option<ItemShape>>::empty());
                assert(shapes_of(items@) + as_shapes(rest) =~= shapes_of(items@));
            }
        }
        let end_span = self.current().span;
        Ok(Module {
            name: full_name,
            items,
            visibilities,
            span: Span::new(start_span.start, end_span.end, start_span.line, start_span.column),
        })
    }

    fn parse_item(&mut self) -> (r: Result<(Item, Visibility)>)
        requires
            old(self).wf(),
        ensures
            final(self).kept(old(self)),
            !old(self).recovering() && old(self).at_top() && failing_action_at(old(self).tokens@, old(self).position as int) ==> (r matches Err(e) && Some((e.message@, code_text(e.code))) == stmt_error_at(old(self).tokens@, action_first_stmt(old(self).tokens@, old(self).position as int))),
            r is Ok ==> final(self).position > old(self).position,
            literal_expr(old(self).cur_kind()) is Some ==> r is Err,
            old(self).cur_kind() is Struct && ident_like(old(self).tokens@[old(self).position + 1].kind) is Some && old(self).tokens@[old(self).position + 2].kind is LBrace && old(self).tokens@[old(self).position + 3].kind is RBrace ==> (r matches Ok((Item::Struct(d), v)) && v == Visibility::LegacyPublic && Some(d.name@)
                == ident_like(old(self).tokens@[old(self).position + 1].kind) && d.fields@.len() == 0 && final(self).position == old(self).position + 4
                && final(self).diagnostics == old(self).diagnostics),
            old(self).cur_kind() is Resource && ident_like(old(self).tokens@[old(self).position + 1].kind) is Some && old(self).tokens@[old(self).position + 2].kind is LBrace && old(self).tokens@[old(self).position + 3].kind is RBrace ==> (r matches Ok((Item::Resource(d), v)) && v == Visibility::LegacyPublic && Some(d.name@)
                == ident_like(old(self).tokens@[old(self).position + 1].kind) && d.fields@.len() == 0 && final(self).position == old(self).position + 4
                && final(self).diagnostics == old(self).diagnostics),
            old(self).at_top() && const_at(old(self).tokens@, old(self).position as int) ==> (r matches Ok((Item::Const(c), v))
                && Some(c.name@) == ident_like(old(self).tokens@[old(self).position + 1].kind) && Some(c.ty) == primitive_type(
                old(self).tokens@[old(self).position + 3].kind) && c.value == chain_tree(
                old(self).tokens@,
                0,
                old(self).position + 5,
                chain_extent(old(self).tokens@, 0, old(self).position + 5),
            ) && final(self).position == chain_extent(old(self).tokens@, 0, old(self).position + 5) + 2
                && final(self).diags() == old(self).diags()),
    {
        let leading_visibility = self.parse_visibility()?;
        let attrs = self.parse_attrs()?;
        let trailing_visibility = self.parse_visibility()?;
        let visibility = if leading_visibility == Visibility::LegacyPublic {
            trailing_visibility
        } else if trailing_visibility == Visibility::LegacyPublic {
            leading_visibility
        } else {
            return Err(self.error_here("a top-level declaration may have only one visibility modifier"));
        };
        let item = match &self.current().kind {
            TokenKind::Use => {
                self.reject_type_id_attr(&attrs)?;
                Item::Use(self.parse_use()?)
            },
            TokenKind::Resource => Item::Resource(self.parse_resource(attrs.type_id, attrs.capabilities)?),
            TokenKind::Shared => Item::Shared(self.parse_shared(attrs.type_id, attrs.capabilities)?),
            TokenKind::Receipt => Item::Receipt(self.parse_receipt(attrs.type_id, attrs.capabilities)?),
            TokenKind::Struct => Item::Struct(self.parse_struct(attrs.type_id)?),
            TokenKind::Invariant => {
                self.reject_all_attrs("invariant", &attrs)?;
                Item::Invariant(self.parse_invariant()?)
            },
            TokenKind::Const => {
                self.reject_type_id_attr(&attrs)?;
                Item::Const(self.parse_const()?)
            },
            TokenKind::Enum => {
                self.reject_type_id_attr(&attrs)?;
                Item::Enum(self.parse_enum()?)
            },
            TokenKind::Action => {
                self.reject_type_id_attr(&attrs)?;
                Item::Action(self.parse_action(attrs.effect, attrs.scheduler_hint)?)
            },
            TokenKind::Fn => {
                self.reject_type_id_attr(&attrs)?;
                if attrs.capabilities.is_some() || attrs.scheduler_hint.is_some() {
                    return Err(self.error_here("fn definitions only accept the #[effect(...)] attribute"));
                }
                Item::Function(self.parse_fn(attrs.effect)?)
            },
            TokenKind::Lock => {
                self.reject_type_id_attr(&attrs)?;
                Item::Lock(self.parse_lock()?)
            },
            _ => {
                if self.at_word("flow") {
                    self.reject_type_id_attr(&attrs)?;
                    Item::Flow(self.parse_flow()?)
                } else {
                    let found = describe(&self.current().kind);
                    return Err(CompileError::new(concat2("unexpected token: ", found.as_str()), self.current().span));
                }
            },
        };
        if item.name().is_none() && visibility != Visibility::LegacyPublic {
            return Err(self.error_here("visibility modifiers are only valid on named top-level declarations"));
        }
        Ok((item, visibility))
    }

    fn parse_use(&mut self) -> (r: Result<UseStmt>)
        requires
            old(self).wf(),
        ensures
            final(self).kept(old(self)),
            final(self).diagnostics == old(self).diagnostics,
            r is Ok ==> final(self).position > old(self).position,
    {
        let start_span = self.current().span;
        self.expect(TokenKind::Use)?;
        let joined = self.parse_name_path()?;
        let path = split_path(joined.as_str());
        let (module_segments, imports) = if self.check(&TokenKind::ColonColon) {
            self.advance();
            if self.check(&TokenKind::LBrace) {
                self.advance();
                let mut imports: Vec<UseImport> = Vec::new();
                while !self.check(&TokenKind::RBrace) && !self.check(&TokenKind::Eof)
            invariant
                self.kept(old(self)),
                self.position > old(self).position,
                self.diagnostics == old(self).diagnostics,
            decreases self.tokens@.len() - self.position,
                {
                    imports.push(UseImport { name: self.parse_name_path()?, alias: None });
                    if self.check(&TokenKind::Comma) {
                        self.advance();
                    } else {
                        break;
                    }
                }
                self.expect(TokenKind::RBrace)?;
                (path, imports)
            } else {
                let import_name = self.parse_name_path()?;
                let alias = self.parse_use_alias();
                let mut imports: Vec<UseImport> = Vec::new();
                imports.push(UseImport { name: import_name, alias });
                (path, imports)
            }
        } else {
            let mut module_segments = path;
            let import_name = match module_segments.pop() {
                Some(n) => n,
                None => {
                    return Err(self.error_here("expected import path"));
                },
            };
            let alias = self.parse_use_alias();
            let mut imports: Vec<UseImport> = Vec::new();
            imports.push(UseImport { name: import_name, alias });
            (module_segments, imports)
        };
        self.consume_optional_semi();
        let end_span = self.current().span;
        Ok(UseStmt { module_segments, imports, span: Span::new(start_span.start, end_span.end, start_span.line, start_span.column) })
    }

    /// Reads `as alias` after an import name, if present.
    fn parse_use_alias(&mut self) -> (r: Option<String>)
        requires
            old(self).wf(),
        ensures
            final(self).kept(old(self)),
            final(self).diagnostics == old(self).diagnostics,
    {
        if self.at_word("as") {
            self.advance();
            match &self.current().kind {
                TokenKind::Identifier(n) => {
                    let a = n.clone();
                    self.advance();
                    Some(a)
                },
                _ => None,
            }
        } else {
            None
        }
    }

    fn parse_resource(&mut self, type_id: Option<TypeIdentity>, attr_capabilities: Option<Vec<Capability>>) -> (r: Result<ResourceDef>)
        requires
            old(self).wf(),
        ensures
            final(self).kept(old(self)),
            r is Ok ==> final(self).position > old(self).position,
            !(old(self).cur_kind() is Resource) ==> r is Err,
            old(self).cur_kind() is Resource && ident_like(old(self).tokens@[old(self).position + 1].kind) is Some && old(self).tokens@[old(self).position + 2].kind is LBrace && old(self).tokens@[old(self).position + 3].kind is RBrace ==> (r matches Ok(d) && Some(d.name@)
                == ident_like(old(self).tokens@[old(self).position + 1].kind) && d.fields@.len() == 0 && d.validity is None && final(self).position == old(
                self).position + 4 && final(self).diagnostics == old(self).diagnostics),
    {
        let start_span = self.current().span;
        self.expect(TokenKind::Resource)?;
        let name = self.parse_name()?;
        self.reject_generic_type_params(name.as_str())?;
        let inline = self.parse_capabilities()?;
        let capabilities = merge_capabilities(attr_capabilities, inline);
        self.skip_newlines();
        let type_policy = self.parse_type_policy_decls()?;
        self.skip_newlines();
        let (fields, validity) = self.parse_fields_and_validity()?;
        let end_span = self.current().span;
        Ok(ResourceDef {
            name,
            type_id,
            identity: match type_policy.identity {
                Some(i) => i,
                None => IdentityPolicy::NoIdentity,
            },
            default_hash_type: type_policy.default_hash_type,
            capacity_floor: type_policy.capacity_floor,
            capabilities,
            fields,
            validity,
            span: Span::new(start_span.start, end_span.end, start_span.line, start_span.column),
        })
    }

    fn parse_shared(&mut self, type_id: Option<TypeIdentity>, attr_capabilities: Option<Vec<Capability>>) -> (r: Result<SharedDef>)
        requires
            old(self).wf(),
        ensures
            final(self).kept(old(self)),
            r is Ok ==> final(self).position > old(self).position,
            !(old(self).cur_kind() is Shared) ==> r is Err,
            old(self).cur_kind() is Shared && ident_like(old(self).tokens@[old(self).position + 1].kind) is Some && old(self).tokens@[old(self).position + 2].kind is LBrace && old(self).tokens@[old(self).position + 3].kind is RBrace ==> (r matches Ok(d) && Some(d.name@)
                == ident_like(old(self).tokens@[old(self).position + 1].kind) && d.fields@.len() == 0 && d.validity is None && final(self).position == old(
                self).position + 4 && final(self).diagnostics == old(self).diagnostics),
    {
        let start_span = self.current().span;
        self.expect(TokenKind::Shared)?;
        let name = self.parse_name()?;
        self.reject_generic_type_params(name.as_str())?;
        let inline = self.parse_capabilities()?;
        let capabilities = merge_capabilities(attr_capabilities, inline);
        self.skip_newlines();
        let type_policy = self.parse_type_policy_decls()?;
        self.skip_newlines();
        let (fields, validity) = self.parse_fields_and_validity()?;
        let end_span = self.current().span;
        Ok(SharedDef {
            name,
            type_id,
            identity: match type_policy.identity {
                Some(i) => i,
                None => IdentityPolicy::NoIdentity,
            },
            default_hash_type: type_policy.default_hash_type,
            capacity_floor: type_policy.capacity_floor,
            capabilities,
            fields,
            validity,
            span: Span::new(start_span.start, end_span.end, start_span.line, start_span.column),
        })
    }

    fn parse_receipt(&mut self, type_id: Option<TypeIdentity>, attr_capabilities: Option<Vec<Capability>>) -> (r: Result<ReceiptDef>)
        requires
            old(self).wf(),
        ensures
            final(self).kept(old(self)),
            r is Ok ==> final(self).position > old(self).position,
            !(old(self).cur_kind() is Receipt) ==> r is Err,
            old(self).cur_kind() is Receipt && ident_like(old(self).tokens@[old(self).position + 1].kind) is Some && old(self).tokens@[old(self).position + 2].kind is LBrace && old(self).tokens@[old(self).position + 3].kind is RBrace ==> (r matches Ok(d) && Some(d.name@)
                == ident_like(old(self).tokens@[old(self).position + 1].kind) && d.fields@.len() == 0 && d.validity is None && d.claim_output is None && final(self).position == old(
                self).position + 4),
    {
        let start_span = self.current().span;
        self.expect(TokenKind::Receipt)?;
        let name = self.parse_name()?;
        self.reject_generic_type_params(name.as_str())?;
        let claim_output = if self.check(&TokenKind::Arrow) {
            self.advance();
            Some(self.parse_type()?)
        } else {
            None
        };
        let inline = self.parse_capabilities()?;
        let capabilities = merge_capabilities(attr_capabilities, inline);
        self.skip_newlines();
        let type_policy = self.parse_type_policy_decls()?;
        self.skip_newlines();
        let (fields, validity) = self.parse_fields_and_validity()?;
        let end_span = self.current().span;
        Ok(ReceiptDef {
            name,
            type_id,
            identity: match type_policy.identity {
                Some(i) => i,
                None => IdentityPolicy::NoIdentity,
            },
            default_hash_type: type_policy.default_hash_type,
            capacity_floor: type_policy.capacity_floor,
            claim_output,
            capabilities,
            fields,
            validity,
            span: Span::new(start_span.start, end_span.end, start_span.line, start_span.column),
        })
    }

    fn parse_struct(&mut self, type_id: Option<TypeIdentity>) -> (r: Result<StructDef>)
        requires
            old(self).wf(),
        ensures
            final(self).kept(old(self)),
            r is Ok ==> final(self).position > old(self).position,
            !(old(self).cur_kind() is Struct) ==> r is Err,
            old(self).cur_kind() is Struct && ident_like(old(self).tokens@[old(self).position + 1].kind) is Some && old(self).tokens@[old(self).position + 2].kind is LBrace && old(self).tokens@[old(self).position + 3].kind is RBrace ==> (r matches Ok(d) && Some(d.name@)
                == ident_like(old(self).tokens@[old(self).position + 1].kind) && d.fields@.len() == 0 && d.validity is None && d.type_params@.len() == 0 && d.abilities@.len() == 0 && final(self).position == old(
                self).position + 4 && final(self).diagnostics == old(self).diagnostics),
    {
        let start_span = self.current().span;
        self.expect(TokenKind::Struct)?;
        let name = self.parse_name()?;
        let type_params = self.parse_type_params()?;
        self.skip_newlines();
        let abilities = self.parse_value_abilities()?;
        if type_params.len() > 0 && type_id.is_some() {
            return Err(
                CompileError::at(
                    "generic value structs cannot declare #[type_id]; Cell identity belongs to concrete Cell-backed types",
                    start_span,
                ),
            );
        }
        self.skip_newlines();
        let type_policy = self.parse_type_policy_decls()?;
        self.skip_newlines();
        let (fields, validity) = self.parse_fields_and_validity()?;
        let end_span = self.current().span;
        Ok(StructDef {
            name,
            type_params,
            abilities,
            type_id,
            default_hash_type: type_policy.default_hash_type,
            capacity_floor: type_policy.capacity_floor,
            fields,
            validity,
            span: Span::new(start_span.start, end_span.end, start_span.line, start_span.column),
        })
    }

    fn parse_flow(&mut self) -> (r: Result<FlowDef>)
        requires
            old(self).wf(),
        ensures
            final(self).kept(old(self)),
            final(self).diagnostics == old(self).diagnostics,
            r is Ok ==> final(self).position > old(self).position,
    {
        let start_span = self.current().span;
        let _keyword = self.parse_name()?;
        let first = self.parse_name_path()?;
        let (name, target) = if self.check(&TokenKind::For) || self.at_word("for") {
            self.advance();
            (Some(first), self.parse_state_field_path()?)
        } else if self.check(&TokenKind::Dot) {
            self.advance();
            let field_start = self.current().span;
            let field = self.parse_name()?;
            let field_end = self.current().span;
            (None, StateFieldPath { base: first, field, span: Span::new(start_span.start, field_end.end, field_start.line, field_start.column) })
        } else {
            return Err(self.error_here("expected 'for' or '.field' in flow declaration"));
        };
        self.expect(TokenKind::LBrace)?;
        self.skip_newlines();
        let mut initial_states: Vec<String> = Vec::new();
        let mut terminal_states: Vec<String> = Vec::new();
        let mut transitions: Vec<StateTransition> = Vec::new();
        while !self.check(&TokenKind::RBrace) && !self.check(&TokenKind::Eof)
            invariant
                self.kept(old(self)),
                self.position > old(self).position,
                self.diagnostics == old(self).diagnostics,
            decreases self.tokens@.len() - self.position,
        {
            if self.at_word("initial") {
                self.advance();
                let mut states = self.parse_flow_state_list("initial")?;
                initial_states.append(&mut states);
                self.expect(TokenKind::Semi)?;
                self.skip_newlines();
                continue;
            }
            if self.at_word("terminal") {
                self.advance();
                let mut states = self.parse_flow_state_list("terminal")?;
                terminal_states.append(&mut states);
                self.expect(TokenKind::Semi)?;
                self.skip_newlines();
                continue;
            }
            let transition_start = self.current().span;
            let from = self.parse_name_path()?;
            self.expect(TokenKind::Arrow)?;
            let to = self.parse_name_path()?;
            let action = if self.at_word("by") {
                self.advance();
                Some(self.parse_name_path()?)
            } else {
                None
            };
            let transition_end = self.current().span;
            transitions.push(StateTransition {
                from,
                to,
                action,
                span: Span::new(transition_start.start, transition_end.end, transition_start.line, transition_start.column),
            });
            if self.check(&TokenKind::Comma) || self.check(&TokenKind::Semi) {
                self.advance();
            }
            self.skip_newlines();
        }
        self.expect(TokenKind::RBrace)?;
        self.consume_optional_semi();
        let end_span = self.current().span;
        Ok(FlowDef {
            name,
            target,
            initial_states,
            terminal_states,
            transitions,
            span: Span::new(start_span.start, end_span.end, start_span.line, start_span.column),
        })
    }

    fn parse_flow_state_list(&mut self, declaration: &str) -> (r: Result<Vec<String>>)
        requires
            old(self).wf(),
        ensures
            final(self).kept(old(self)),
            final(self).diagnostics == old(self).diagnostics,
            r matches Ok(v) ==> v@.len() > 0,
            old(self).cur_kind() is Semi || old(self).cur_kind() is Eof ==> r is Err,
            ident_like(old(self).cur_kind()) is Some && !(old(self).tokens@[old(self).position + 1].kind is ColonColon) && !(old(self).tokens@[old(self).position + 1].kind is Comma) ==> (
            r matches Ok(v) && v@.len() == 1 && Some(v@[0]@) == ident_like(old(self).cur_kind()) && final(self).position
                == old(self).position + 1),
    {
        let mut states: Vec<String> = Vec::new();
        while !self.check(&TokenKind::Semi) && !self.check(&TokenKind::Eof)
            invariant_except_break
                ident_like(old(self).cur_kind()) is Some && !(old(self).tokens@[old(self).position + 1].kind is ColonColon)
                    && !(old(self).tokens@[old(self).position + 1].kind is Comma) ==> self.position == old(self).position
                    && states@.len() == 0,
            invariant
                old(self).cur_kind() is Semi || old(self).cur_kind() is Eof ==> self.position == old(self).position
                    && states@.len() == 0,
                self.tokens@ == old(self).tokens@,
                self.kept(old(self)),
                self.diagnostics == old(self).diagnostics,
            ensures
                self.kept(old(self)),
                old(self).cur_kind() is Semi || old(self).cur_kind() is Eof ==> states@.len() == 0,
                ident_like(old(self).cur_kind()) is Some && !(old(self).tokens@[old(self).position + 1].kind is ColonColon)
                    && !(old(self).tokens@[old(self).position + 1].kind is Comma) ==> self.position == old(self).position
                    + 1 && states@.len() == 1 && Some(states@[0]@) == ident_like(old(self).cur_kind()),
            decreases self.tokens@.len() - self.position,
        {
            states.push(self.parse_name_path()?);
            if self.check(&TokenKind::Comma) {
                self.advance();
            } else {
                break;
            }
        }
        if states.len() == 0 {
            let message = concat2(declaration, " declaration must name at least one state");
            return Err(CompileError::new(message, self.current().span));
        }
        Ok(states)
    }

    fn parse_state_field_path(&mut self) -> (r: Result<StateFieldPath>)
        requires
            old(self).wf(),
        ensures
            final(self).kept(old(self)),
            final(self).diagnostics == old(self).diagnostics,
            r is Ok ==> final(self).position > old(self).position,
            ident_like(old(self).cur_kind()) is Some && old(self).tokens@[old(self).position + 1].kind is Dot && ident_like(old(self).tokens@[old(self).position + 2].kind) is Some ==> (r matches Ok(
                s) && Some(s.base@) == ident_like(old(self).cur_kind()) && Some(s.field@) == ident_like(old(self).tokens@[old(self).position + 2].kind)
                && final(self).position == old(self).position + 3),
    {
        let start_span = self.current().span;
        let base = self.parse_name_path()?;
        self.expect(TokenKind::Dot)?;
        let field = self.parse_name()?;
        let end_span = self.current().span;
        Ok(StateFieldPath { base, field, span: Span::new(start_span.start, end_span.end, start_span.line, start_span.column) })
    }

    fn parse_type_policy_decls(&mut self) -> (r: Result<TypePolicyDecls>)
        requires
            old(self).wf(),
        ensures
            final(self).kept(old(self)),
            final(self).diagnostics == old(self).diagnostics,
            !(old(self).cur_kind() is Newline) && !starts_policy_decl(old(self).cur_kind()) ==> (r matches Ok(d)
                && d.default_hash_type is None && d.capacity_floor is None && d.identity is None && final(self).position
                == old(self).position),
    {
        let mut policy = TypePolicyDecls { default_hash_type: None, capacity_floor: None, identity: None };
        loop
            invariant
                self.kept(old(self)),
                self.diagnostics == old(self).diagnostics,
                !(old(self).cur_kind() is Newline) && !starts_policy_decl(old(self).cur_kind()) ==> policy.default_hash_type
                    is None && policy.capacity_floor is None && policy.identity is None && self.position == old(
                    self,
                ).position,
            decreases self.tokens@.len() - self.position,
        {
            self.skip_newlines();
            let name = match self.current_identifier() {
                Some(n) => n,
                None => break,
            };
            let ghost before = self.position;
            if str_eq(name.as_str(), "with_default_hash_type") {
                if policy.default_hash_type.is_some() {
                    return Err(self.error_here("duplicate with_default_hash_type declaration"));
                }
                policy.default_hash_type = Some(self.parse_default_hash_type_decl()?);
            } else if str_eq(name.as_str(), "with_capacity_floor") {
                if policy.capacity_floor.is_some() {
                    return Err(self.error_here("duplicate with_capacity_floor declaration"));
                }
                policy.capacity_floor = Some(self.parse_capacity_floor_decl()?);
            } else if str_eq(name.as_str(), "identity") {
                if policy.identity.is_some() {
                    return Err(self.error_here("duplicate identity declaration"));
                }
                policy.identity = Some(self.parse_identity_decl()?);
            } else {
                break;
            }
        }
        Ok(policy)
    }

    fn parse_default_hash_type_decl(&mut self) -> (r: Result<HashTypeDecl>)
        requires
            old(self).wf(),
            old(self).cur_kind() is Identifier,
        ensures
            final(self).kept(old(self)),
            final(self).diagnostics == old(self).diagnostics,
            r is Ok ==> final(self).position > old(self).position,
            r matches Ok(d) ==> spec_normalize_hash_type(d.value@) is Some,
            r is Ok <==> (old(self).tokens@[old(self).position + 1].kind is LParen && ident_like(old(self).tokens@[old(self).position + 2].kind) is Some && old(self).tokens@[old(self).position + 3].kind is RParen
                && spec_normalize_hash_type(ident_like(old(self).tokens@[old(self).position + 2].kind)->0) is Some),
            r matches Ok(d) ==> Some(d.value@) == spec_normalize_hash_type(ident_like(old(self).tokens@[old(self).position + 2].kind)->0) && final(self).position
                == old(self).position + 4,
    {
        let start_span = self.current().span;
        self.advance();
        self.expect(TokenKind::LParen)?;
        let value = self.parse_name()?;
        self.expect(TokenKind::RParen)?;
        match normalize_hash_type_decl(value.as_str()) {
            Some(normalized) => {
                proof {
                    assert(spec_normalize_hash_type(normalized@) is Some) by {
                        reveal_strlit("data");
                        reveal_strlit("data1");
                        reveal_strlit("data2");
                        reveal_strlit("type");
                    }
                }
                Ok(HashTypeDecl { value: normalized, span: start_span })
            },
            None => {
                let mut message = concat3("unsupported CKB hash_type '", value.as_str(), "'; ");
                message.append("expected Data, Data1, Data2, or Type");
                Err(CompileError::new(message, start_span))
            },
        }
    }

    fn parse_capacity_floor_decl(&mut self) -> (r: Result<CapacityFloorDecl>)
        requires
            old(self).wf(),
            old(self).cur_kind() is Identifier,
        ensures
            final(self).kept(old(self)),
            final(self).diagnostics == old(self).diagnostics,
            r is Ok ==> final(self).position > old(self).position,
            r matches Ok(d) ==> d.shannons > 0,
            r is Ok <==> (old(self).tokens@[old(self).position + 1].kind is LParen && (old(self).tokens@[old(self).position + 2].kind matches TokenKind::Integer(v) && 0 < v <= u64::MAX)
                && old(self).tokens@[old(self).position + 3].kind is RParen),
            r matches Ok(d) ==> (old(self).tokens@[old(self).position + 2].kind matches TokenKind::Integer(v) && d.shannons == v) && final(self).position
                == old(self).position + 4,
    {
        let start_span = self.current().span;
        self.advance();
        self.expect(TokenKind::LParen)?;
        let shannons: u64 = match &self.current().kind {
            TokenKind::Integer(value) => {
                if *value > u64::MAX as u128 {
                    return Err(self.error_here("capacity floor must fit in u64 shannons"));
                }
                let v = *value as u64;
                self.advance();
                v
            },
            _ => {
                return Err(self.error_here("expected integer shannon value in with_capacity_floor(...)"));
            },
        };
        self.expect(TokenKind::RParen)?;
        if shannons == 0 {
            return Err(CompileError::at("capacity floor must be greater than zero shannons", start_span));
        }
        Ok(CapacityFloorDecl { shannons, span: start_span })
    }

    fn parse_identity_decl(&mut self) -> (r: Result<IdentityPolicy>)
        requires
            old(self).wf(),
            old(self).cur_kind() is Identifier,
        ensures
            final(self).kept(old(self)),
            final(self).diagnostics == old(self).diagnostics,
            r is Ok ==> final(self).position > old(self).position,
            old(self).tokens@[old(self).position + 1].kind is LParen && ident_like(old(self).tokens@[old(self).position + 2].kind) is Some && old(self).tokens@[old(self).position + 3].kind is RParen ==> (identity_word(
                ident_like(old(self).tokens@[old(self).position + 2].kind)->0) is Some ==> r == Ok::<IdentityPolicy, CompileError>(identity_word(ident_like(
                old(self).tokens@[old(self).position + 2].kind)->0)->0) && final(self).position == old(self).position + 4) && (!is_identity_word(ident_like(
                old(self).tokens@[old(self).position + 2].kind)->0) ==> r is Err),
    {
        self.advance();
        if self.check(&TokenKind::LParen) {
            self.advance();
            let kind = self.parse_name()?;
            let k = kind.as_str();
            let policy = if str_eq(k, "ckb_type_id") {
                IdentityPolicy::CkbTypeId
            } else if str_eq(k, "field") {
                self.expect(TokenKind::LParen)?;
                let path = self.parse_name()?;
                self.expect(TokenKind::RParen)?;
                IdentityPolicy::Field(path)
            } else if str_eq(k, "script_args") {
                IdentityPolicy::ScriptArgs
            } else if str_eq(k, "singleton_type") {
                IdentityPolicy::SingletonType
            } else if str_eq(k, "none") {
                IdentityPolicy::NoIdentity
            } else {
                let mut message = concat3("unsupported identity policy '", k, "'; ");
                message.append("expected none, ckb_type_id, field(...), script_args, or singleton_type");
                return Err(CompileError::new(message, self.current().span));
            };
            self.expect(TokenKind::RParen)?;
            Ok(policy)
        } else {
            let kind = self.parse_name()?;
            let k = kind.as_str();
            if str_eq(k, "ckb_type_id") {
                Ok(IdentityPolicy::CkbTypeId)
            } else if str_eq(k, "script_args") {
                Ok(IdentityPolicy::ScriptArgs)
            } else if str_eq(k, "singleton_type") {
                Ok(IdentityPolicy::SingletonType)
            } else if str_eq(k, "none") {
                Ok(IdentityPolicy::NoIdentity)
            } else {
                let mut message = concat3("unsupported identity policy '", k, "'; ");
                message.append("expected none, ckb_type_id, script_args, or singleton_type");
                Err(CompileError::new(message, self.current().span))
            }
        }
    }

    fn parse_const(&mut self) -> (r: Result<ConstDef>)
        requires
            old(self).wf(),
        ensures
            final(self).kept(old(self)),
            r is Ok ==> final(self).position > old(self).position,
            !(old(self).cur_kind() is Const) ==> r is Err,
            old(self).expression_depth < MAX_PARSE_RECURSION_DEPTH && old(self).unary_depth < MAX_PARSE_RECURSION_DEPTH && old(self).type_depth < MAX_PARSE_RECURSION_DEPTH && old(self).cur_kind() is Const
                && ident_like(old(self).tokens@[old(self).position + 1].kind) is Some && old(self).tokens@[old(self).position + 2].kind is Colon && primitive_type(old(self).tokens@[old(self).position + 3].kind) is Some
                && old(self).tokens@[old(self).position + 4].kind is Eq && literal_at(old(self).tokens@, old(self).position + 5) ==> (r matches Ok(c)
                && Some(c.name@) == ident_like(old(self).tokens@[old(self).position + 1].kind) && Some(c.ty) == primitive_type(old(self).tokens@[old(self).position + 3].kind) && c.value
                == literal_expr(old(self).tokens@[old(self).position + 5].kind)->0),
            old(self).expression_depth < MAX_PARSE_RECURSION_DEPTH && old(self).unary_depth < MAX_PARSE_RECURSION_DEPTH
                && old(self).type_depth < MAX_PARSE_RECURSION_DEPTH && const_at(old(self).tokens@, old(self).position as int)
                ==> (r matches Ok(c) && Some(c.name@) == ident_like(old(self).tokens@[old(self).position + 1].kind)
                && Some(c.ty) == primitive_type(old(self).tokens@[old(self).position + 3].kind) && c.value == chain_tree(
                old(self).tokens@,
                0,
                old(self).position + 5,
                chain_extent(old(self).tokens@, 0, old(self).position + 5),
            ) && final(self).position == chain_extent(old(self).tokens@, 0, old(self).position + 5) + 2
                && final(self).diags() == old(self).diags()),
    {
        proof {
            if const_at(self.tokens@, self.position as int) {
                lemma_level_stop_end(self.tokens@, self.position + 5);
            }
        }
        let start_span = self.current().span;
        self.expect(TokenKind::Const)?;
        let name = self.parse_name_path()?;
        self.expect(TokenKind::Colon)?;
        let ty = self.parse_type()?;
        self.expect(TokenKind::Eq)?;
        let value = self.parse_expr()?;
        self.consume_optional_semi();
        let end_span = self.current().span;
        Ok(ConstDef { name, ty, value, span: Span::new(start_span.start, end_span.end, start_span.line, start_span.column) })
    }

    fn parse_enum(&mut self) -> (r: Result<EnumDef>)
        requires
            old(self).wf(),
        ensures
            final(self).kept(old(self)),
            final(self).diagnostics == old(self).diagnostics,
            r is Ok ==> final(self).position > old(self).position,
            !(old(self).cur_kind() is Enum) ==> r is Err,
            old(self).cur_kind() is Enum && ident_like(old(self).tokens@[old(self).position + 1].kind) is Some && old(self).tokens@[old(self).position + 2].kind is LBrace && old(self).tokens@[old(self).position + 3].kind is RBrace && !(old(self).tokens@[old(self).position + 1].kind is ColonColon) && !(old(self).tokens@[old(self).position + 4].kind is Semi) ==> (r matches Ok(d) && Some(d.name@)
                == ident_like(old(self).tokens@[old(self).position + 1].kind) && d.variants@.len() == 0 && d.type_params@.len() == 0),
    {
        let start_span = self.current().span;
        self.expect(TokenKind::Enum)?;
        let name = self.parse_name_path()?;
        let type_params = self.parse_type_params()?;
        self.skip_newlines();
        let abilities = self.parse_value_abilities()?;
        self.skip_newlines();
        self.expect(TokenKind::LBrace)?;
        self.skip_newlines();
        let mut variants: Vec<EnumVariant> = Vec::new();
        while !self.check(&TokenKind::RBrace) && !self.check(&TokenKind::Eof)
            invariant
                old(self).cur_kind() is Enum && ident_like(old(self).tokens@[old(self).position + 1].kind) is Some && old(self).tokens@[old(self).position + 2].kind is LBrace && old(self).tokens@[old(self).position + 3].kind is RBrace && !(old(self).tokens@[old(self).position + 1].kind is ColonColon)
                    ==> self.position == old(self).position + 3 && variants@.len() == 0,
                self.kept(old(self)),
                self.position > old(self).position,
                self.diagnostics == old(self).diagnostics,
            decreases self.tokens@.len() - self.position,
        {
            let variant_start = self.current().span;
            let variant_name = self.parse_name_path()?;
            let fields = if self.check(&TokenKind::LParen) {
                self.advance();
                let items = self.parse_type_list(TokenKind::RParen)?;
                self.expect(TokenKind::RParen)?;
                items
            } else {
                Vec::new()
            };
            let variant_end = self.current().span;
            variants.push(EnumVariant {
                name: variant_name,
                fields,
                span: Span::new(variant_start.start, variant_end.end, variant_start.line, variant_start.column),
            });
            if self.check(&TokenKind::Comma) {
                self.advance();
            }
            self.skip_newlines();
        }
        self.expect(TokenKind::RBrace)?;
        self.consume_optional_semi();
        let end_span = self.current().span;
        Ok(EnumDef { name, type_params, abilities, variants, span: Span::new(start_span.start, end_span.end, start_span.line, start_span.column) })
    }

    fn parse_fields_and_validity(&mut self) -> (r: Result<(Vec<Field>, Option<ValidityBlock>)>)
        requires
            old(self).wf(),
        ensures
            final(self).kept(old(self)),
            r is Ok ==> final(self).position > old(self).position,
            r matches Ok((_, Some(v))) ==> v.predicates@.len() > 0,
            !(old(self).cur_kind() is LBrace) ==> r is Err,
            old(self).cur_kind() is LBrace && old(self).tokens@[old(self).position + 1].kind is RBrace ==> final(self).position == old(self).position + 2 && (r matches Ok((fs, v)) && fs@.len() == 0 && v is None)
                && final(self).diagnostics == old(self).diagnostics,
    {
        self.expect(TokenKind::LBrace)?;
        self.skip_newlines();
        let mut fields: Vec<Field> = Vec::new();
        let mut validity: Option<ValidityBlock> = None;
        while !self.check(&TokenKind::RBrace) && !self.check(&TokenKind::Eof)
            invariant
                old(self).cur_kind() is LBrace && old(self).tokens@[old(self).position + 1].kind is RBrace ==> self.position
                    == old(self).position + 1 && fields@.len() == 0 && validity is None && self.diagnostics == old(self).diagnostics,
                self.kept(old(self)),
                self.position > old(self).position,
                validity matches Some(v) ==> v.predicates@.len() > 0,
            decreases self.tokens@.len() - self.position,
        {
            if self.at_word("validity") && !self.check_next(&TokenKind::Colon) {
                let start = self.current().span;
                self.advance();
                self.skip_newlines();
                let mut predicates: Vec<Expr> = Vec::new();
                while !self.check(&TokenKind::RBrace) && !self.check(&TokenKind::Eof)
            invariant
                !(old(self).cur_kind() is LBrace && old(self).tokens@[old(self).position + 1].kind is RBrace),
                self.kept(old(self)),
                self.position > old(self).position,
            decreases self.tokens@.len() - self.position,
                {
                    if !self.check(&TokenKind::Require) {
                        return Err(
                            self.error_here(
                                "validity block only accepts pure require predicates and must be the final section of the type body",
                            ),
                        );
                    }
                    predicates.push(self.parse_require()?);
                    self.consume_optional_semi();
                    self.skip_newlines();
                }
                if predicates.len() == 0 {
                    return Err(CompileError::at("validity block must contain at least one require predicate", start));
                }
                let end = predicates[predicates.len() - 1].span();
                validity = Some(ValidityBlock { predicates, span: Span::new(start.start, end.end, start.line, start.column) });
                break;
            }
            let field = self.parse_field()?;
            fields.push(field);
            if self.check(&TokenKind::Comma) {
                self.advance();
            }
            self.skip_newlines();
        }
        self.expect(TokenKind::RBrace)?;
        Ok((fields, validity))
    }

    fn parse_field(&mut self) -> (r: Result<Field>)
        requires
            old(self).wf(),
        ensures
            final(self).kept(old(self)),
            final(self).diagnostics == old(self).diagnostics,
            r is Ok ==> final(self).position > old(self).position,
            old(self).type_depth < MAX_PARSE_RECURSION_DEPTH && ident_like(old(self).cur_kind()) is Some && old(
                self,
            ).tokens@[old(self).position + 1].kind is Colon && primitive_type(old(self).tokens@[old(self).position
                + 2].kind) is Some && !(old(self).tokens@[old(self).position + 3].kind matches TokenKind::Identifier(w)
                && w@ == "where"@) ==> (r matches Ok(f) && Some(f.name@) == ident_like(old(self).cur_kind()) && Some(f.ty)
                == primitive_type(old(self).tokens@[old(self).position + 2].kind) && final(self).position == old(
                self,
            ).position + 3),
    {
        let start_span = self.current().span;
        let name = self.parse_name()?;
        self.expect(TokenKind::Colon)?;
        let ty = self.parse_type()?;
        if self.at_word("where") {
            return Err(
                self.error_here(
                    "field-level 'where' refinements are deferred; declare predicates in the type validity block",
                ),
            );
        }
        let end_span = self.current().span;
        Ok(Field { name, ty, span: Span::new(start_span.start, end_span.end, start_span.line, start_span.column) })
    }
}

/// Whether a token opens a module item: an attribute, a declaration keyword, or `flow`.
pub open spec fn starts_item(k: TokenKind) -> bool {
    match k {
        TokenKind::Pound | TokenKind::Use | TokenKind::Resource | TokenKind::Shared | TokenKind::Receipt
        | TokenKind::Struct | TokenKind::Invariant | TokenKind::Const | TokenKind::Enum | TokenKind::Action
        | TokenKind::Fn | TokenKind::Lock => true,
        TokenKind::Identifier(name) => name@ == "flow"@,
        _ => false,
    }
}

/// The segments of `cs` from position `i` on, split at each `::`: `cur` is the segment read
/// so far and `acc` the segments before it.
pub open spec fn split_from(cs: Seq<char>, i: int, cur: Seq<char>, acc: Seq<Seq<char>>) -> Seq<Seq<char>>
    decreases cs.len() - i,
{
    if i >= cs.len() || i < 0 {
        acc.push(cur)
    } else if cs[i] == ':' && i + 1 < cs.len() && cs[i + 1] == ':' {
        split_from(cs, i + 2, Seq::empty(), acc.push(cur))
    } else {
        split_from(cs, i + 1, cur.push(cs[i]), acc)
    }
}

/// A path's segments: the text split at each `::`, read from the left.
pub open spec fn path_segments(cs: Seq<char>) -> Seq<Seq<char>> {
    split_from(cs, 0, Seq::empty(), Seq::empty())
}

/// The `::`-separated segments of a path.
fn split_path(path: &str) -> (r: Vec<String>)
    ensures
        r@.map_values(|x: String| x@) == path_segments(path@),
{
    let cs = chars_of(path);
    let mut out: Vec<String> = Vec::new();
    let mut current = String::new();
    let mut i: usize = 0;
    assert(out@.map_values(|x: String| x@) =~= Seq::<Seq<char>>::empty());
    assert(current@ =~= Seq::<char>::empty());
    while i < cs.len()
        invariant
            i <= cs@.len(),
            cs@ == path@,
            split_from(cs@, i as int, current@, out@.map_values(|x: String| x@)) == path_segments(path@),
        decreases cs@.len() - i,
    {
        if cs[i] == ':' && i + 1 < cs.len() && cs[i + 1] == ':' {
            let ghost before = out@;
            out.push(current);
            assert(out@.map_values(|x: String| x@) =~= before.map_values(|x: String| x@).push(current@));
            current = String::new();
            i += 2;
        } else {
            crate::text::push_char(&mut current, cs[i]);
            i += 1;
        }
    }
    let ghost before = out@;
    out.push(current);
    assert(out@.map_values(|x: String| x@) =~= before.map_values(|x: String| x@).push(current@));
    out
}

/// Records `visibility` for `name`, replacing an earlier record of the same name.
fn insert_visibility(visibilities: &mut Vec<(String, Visibility)>, name: String, visibility: Visibility)
    ensures
        exists|i: int| 0 <= i < final(visibilities)@.len() && #[trigger] final(visibilities)@[i].0@ == name@
            && final(visibilities)@[i].1 == visibility,
{
    let mut i: usize = 0;
    while i < visibilities.len()
        invariant
            i <= visibilities@.len(),
        decreases visibilities@.len() - i,
    {
        if visibilities[i].0 == name {
            visibilities.set(i, (name, visibility));
            assert(visibilities@[i as int].0@ == name@);
            return;
        }
        i += 1;
    }
    visibilities.push((name, visibility));
    assert(visibilities@[visibilities@.len() - 1].0@ == name@);
}


/// The first position at or after `p` that does not hold a line break.
pub open spec fn skip_breaks(t: Seq<Token>, p: int) -> int
    decreases t.len() - p,
{
    if 0 <= p < t.len() && t[p].kind is Newline {
        skip_breaks(t, p + 1)
    } else {
        p
    }
}

/// An item that is a declaration with an empty body, as a tag (`true` for a struct, `false` for
/// a resource) and its name.
pub open spec fn empty_decl(item: Item) -> Option<(bool, Seq<char>)> {
    match item {
        Item::Struct(d) => if d.fields@.len() == 0 {
            Some((true, d.name@))
        } else {
            None
        },
        Item::Resource(d) => if d.fields@.len() == 0 {
            Some((false, d.name@))
        } else {
            None
        },
        _ => None,
    }
}

/// The items of a module, each as a declaration with an empty body where it is one.
pub open spec fn decls_of(items: Seq<Item>) -> Seq<Option<(bool, Seq<char>)>> {
    items.map_values(|i: Item| empty_decl(i))
}

/// Declarations read as such.
pub open spec fn as_decls(ds: Seq<(bool, Seq<char>)>) -> Seq<Option<(bool, Seq<char>)>> {
    ds.map_values(|d: (bool, Seq<char>)| Some(d))
}

/// Read from position `p` to the end of input: declarations `struct Name {}` and
/// `resource Name {}` between line breaks, each as a tag (`true` for a struct) and a name;
/// `None` where the tokens take any other shape.
pub open spec fn empty_decls(t: Seq<Token>, p: int) -> Option<Seq<(bool, Seq<char>)>>
    decreases t.len() - p,
{
    if p < 0 || p >= t.len() {
        None
    } else if t[p].kind is Newline {
        empty_decls(t, p + 1)
    } else if t[p].kind is Eof {
        Some(Seq::empty())
    } else if (t[p].kind is Struct || t[p].kind is Resource) && p + 4 <= t.len() && ident_like(t[p + 1].kind) is Some
        && t[p + 2].kind is LBrace && t[p + 3].kind is RBrace {
        match empty_decls(t, p + 4) {
            Some(rest) => Some(seq![(t[p].kind is Struct, ident_like(t[p + 1].kind)->0)] + rest),
            None => None,
        }
    } else {
        None
    }
}

/// A header `module name` (with an optional `;`) at position `p`, followed by nothing but
/// declarations with empty bodies: the module's name and those declarations.
pub open spec fn empty_decl_module_at(t: Seq<Token>, p: int) -> Option<(Seq<char>, Seq<(bool, Seq<char>)>)> {
    if 0 <= p && p + 2 < t.len() && t[p].kind is Module && ident_like(t[p + 1].kind) is Some && !(t[p
        + 2].kind is ColonColon) {
        match empty_decls(t, if t[p + 2].kind is Semi { p + 3 } else { p + 2 }) {
            Some(ds) => Some((ident_like(t[p + 1].kind)->0, ds)),
            None => None,
        }
    } else {
        None
    }
}

/// A token list that, after blank lines, holds a module of declarations with empty bodies.
pub open spec fn empty_decl_module(t: Seq<Token>) -> Option<(Seq<char>, Seq<(bool, Seq<char>)>)> {
    empty_decl_module_at(t, skip_breaks(t, 0))
}

/// The shape of a module item whose parse is stated: a declaration with an empty body (`true`
/// for a struct, `false` for a resource) and its name, or a constant with its name, type and
/// value.
pub enum ItemShape {
    Empty(bool, Seq<char>),
    Const(Seq<char>, Type, Expr),
}

/// The shape of an item, where it has one of the stated shapes.
pub open spec fn item_shape(item: Item) -> Option<ItemShape> {
    match item {
        Item::Struct(d) => if d.fields@.len() == 0 {
            Some(ItemShape::Empty(true, d.name@))
        } else {
            None
        },
        Item::Resource(d) => if d.fields@.len() == 0 {
            Some(ItemShape::Empty(false, d.name@))
        } else {
            None
        },
        Item::Const(c) => Some(ItemShape::Const(c.name@, c.ty, c.value)),
        _ => None,
    }
}

/// The shapes of a module's items.
pub open spec fn shapes_of(items: Seq<Item>) -> Seq<Option<ItemShape>> {
    items.map_values(|i: Item| item_shape(i))
}

/// Shapes read as such.
pub open spec fn as_shapes(ds: Seq<ItemShape>) -> Seq<Option<ItemShape>> {
    ds.map_values(|d: ItemShape| Some(d))
}

/// At position `p`: `const NAME: T = value;` with a primitive type `T` and a value made of
/// literal operands joined by binary operators.
pub open spec fn const_at(t: Seq<Token>, p: int) -> bool {
    &&& 0 <= p && p + 5 < t.len()
    &&& t[p].kind is Const
    &&& ident_like(t[p + 1].kind) is Some
    &&& t[p + 2].kind is Colon
    &&& primitive_type(t[p + 3].kind) is Some
    &&& t[p + 4].kind is Eq
    &&& flat_chain(t, p + 5)
    &&& chain_extent(t, 0, p + 5) + 1 < t.len()
    &&& t[chain_extent(t, 0, p + 5) + 1].kind is Semi
}

/// Read from position `p` to the end of input, items between line breaks: `struct Name {}`,
/// `resource Name {}`, and constants `const NAME: T = value;` whose value is literal operands
/// joined by binary operators, each as its shape, the constant's value as its precedences group
/// it; `None` where the tokens take any other shape.
pub open spec fn simple_items(t: Seq<Token>, p: int) -> Option<Seq<ItemShape>>
    decreases t.len() - p,
{
    if p < 0 || p >= t.len() {
        None
    } else if t[p].kind is Newline {
        simple_items(t, p + 1)
    } else if t[p].kind is Eof {
        Some(Seq::empty())
    } else if (t[p].kind is Struct || t[p].kind is Resource) && p + 4 <= t.len() && ident_like(t[p + 1].kind) is Some
        && t[p + 2].kind is LBrace && t[p + 3].kind is RBrace {
        match simple_items(t, p + 4) {
            Some(rest) => Some(seq![ItemShape::Empty(t[p].kind is Struct, ident_like(t[p + 1].kind)->0)] + rest),
            None => None,
        }
    } else if const_at(t, p) && chain_extent(t, 0, p + 5) >= p + 5 {
        let e = chain_extent(t, 0, p + 5);
        match simple_items(t, e + 2) {
            Some(rest) => Some(
                seq![ItemShape::Const(ident_like(t[p + 1].kind)->0, primitive_type(t[p + 3].kind)->0, chain_tree(t, 0, p + 5, e))]
                    + rest,
            ),
            None => None,
        }
    } else {
        None
    }
}

/// A header `module name` (with an optional `;`) at position `p`, followed by nothing but
/// items of the stated shapes: the module's name and those shapes.
pub open spec fn simple_module_at(t: Seq<Token>, p: int) -> Option<(Seq<char>, Seq<ItemShape>)> {
    if 0 <= p && p + 2 < t.len() && t[p].kind is Module && ident_like(t[p + 1].kind) is Some && !(t[p
        + 2].kind is ColonColon) {
        match simple_items(t, if t[p + 2].kind is Semi { p + 3 } else { p + 2 }) {
            Some(ds) => Some((ident_like(t[p + 1].kind)->0, ds)),
            None => None,
        }
    } else {
        None
    }
}

/// A token list that, after blank lines, holds a module of items of the stated shapes.
pub open spec fn simple_module(t: Seq<Token>) -> Option<(Seq<char>, Seq<ItemShape>)> {
    simple_module_at(t, skip_breaks(t, 0))
}

proof fn lemma_simple_items_breaks(t: Seq<Token>, p: int, q: int)
    requires
        0 <= p <= q < t.len(),
        forall|j: int| p <= j < q ==> #[trigger] t[j].kind is Newline,
    ensures
        simple_items(t, p) == simple_items(t, q),
    decreases q - p,
{
    if p < q {
        lemma_simple_items_breaks(t, p + 1, q);
    }
}

pub(crate) proof fn lemma_skip_breaks(t: Seq<Token>, p: int, q: int)
    requires
        0 <= p <= q < t.len(),
        forall|j: int| p <= j < q ==> #[trigger] t[j].kind is Newline,
        !(t[q].kind is Newline),
    ensures
        skip_breaks(t, p) == q,
    decreases q - p,
{
    if p < q {
        lemma_skip_breaks(t, p + 1, q);
    }
}

proof fn lemma_empty_decls_breaks(t: Seq<Token>, p: int, q: int)
    requires
        0 <= p <= q < t.len(),
        forall|j: int| p <= j < q ==> #[trigger] t[j].kind is Newline,
    ensures
        empty_decls(t, p) == empty_decls(t, q),
    decreases q - p,
{
    if p < q {
        lemma_empty_decls_breaks(t, p + 1, q);
    }
}

/// At position `p`: `preserve output from input {`, then nothing but line breaks before the
/// closing `}`.
pub open spec fn empty_preserve_at(t: Seq<Token>, p: int) -> bool {
    &&& 0 <= p && p + 5 < t.len()
    &&& t[p].kind is Preserve
    &&& ident_like(t[p + 1].kind) is Some
    &&& t[p + 2].kind matches TokenKind::Identifier(w) && w@ == "from"@
    &&& ident_like(t[p + 3].kind) is Some
    &&& t[p + 4].kind is LBrace
    &&& skip_breaks(t, p + 5) < t.len()
    &&& t[skip_breaks(t, p + 5)].kind is RBrace
}

/// The text of an error's code, where it has one.
pub open spec fn code_text(code: Option<String>) -> Option<Seq<char>> {
    match code {
        Some(c) => Some(c@),
        None => None,
    }
}

/// `count` opening brackets `(` stand at position `p` and after it.
pub open spec fn groups_at(t: Seq<Token>, p: int, count: int) -> bool {
    &&& 0 <= p
    &&& p + count <= t.len()
    &&& forall|j: int| p <= j < p + count ==> (#[trigger] t[j].kind is LParen)
}

/// At position `q`: `return`, then more nested groups `(` than the expression depth limit allows.
pub open spec fn deep_return_at(t: Seq<Token>, q: int) -> bool {
    &&& 0 <= q < t.len()
    &&& t[q].kind is Return
    &&& groups_at(t, q + 1, MAX_PARSE_RECURSION_DEPTH + 1)
}

/// The error the statement at position `q` of an entry body draws, for the shapes whose failure
/// is stated: a `return` whose value nests groups too deeply, and an empty `preserve` block. The
/// message, and the code where there is one.
pub open spec fn stmt_error_at(t: Seq<Token>, q: int) -> Option<(Seq<char>, Option<Seq<char>>)> {
    if deep_return_at(t, q) {
        Some(("expression nesting exceeds the parser limit of 32"@, None))
    } else if empty_preserve_at(t, q) {
        Some(("preserve block is empty — at least one field name is required"@, Some("E1001"@)))
    } else {
        None
    }
}

/// Where the first statement of an action at `p` stands: past `action name() -> T {`, line
/// breaks, the `verification` marker and line breaks.
pub open spec fn action_first_stmt(t: Seq<Token>, p: int) -> int {
    skip_breaks(t, skip_breaks(t, p + 7) + 1)
}

/// At position `p`: `action name() -> T {` with a primitive type `T`, line breaks, the
/// `verification` marker, line breaks, then a statement that draws an error.
pub open spec fn failing_action_at(t: Seq<Token>, p: int) -> bool {
    &&& 0 <= p && p + 7 < t.len()
    &&& t[p].kind is Action
    &&& ident_like(t[p + 1].kind) is Some
    &&& t[p + 2].kind is LParen
    &&& t[p + 3].kind is RParen
    &&& t[p + 4].kind is Arrow
    &&& primitive_type(t[p + 5].kind) is Some
    &&& t[p + 6].kind is LBrace
    &&& skip_breaks(t, p + 7) + 1 < t.len()
    &&& t[skip_breaks(t, p + 7)].kind is Verification
    &&& stmt_error_at(t, action_first_stmt(t, p)) is Some
}

/// Where the first item of a module whose header stands at `p` begins.
pub open spec fn module_first_item(t: Seq<Token>, p: int) -> int {
    skip_breaks(t, if t[p + 2].kind is Semi { p + 3 } else { p + 2 })
}

/// At position `p`: a header `module name` (with an optional `;`), line breaks, and then such
/// an action.
pub open spec fn failing_module_at(t: Seq<Token>, p: int) -> bool {
    &&& 0 <= p && p + 2 < t.len()
    &&& t[p].kind is Module
    &&& ident_like(t[p + 1].kind) is Some
    &&& !(t[p + 2].kind is ColonColon)
    &&& failing_action_at(t, module_first_item(t, p))
}

/// The token list opens with a `module` keyword, after blank lines only.
pub open spec fn opens_module(tokens: Seq<Token>) -> bool {
    exists|i: int|
        0 <= i < tokens.len() && #[trigger] tokens[i].kind is Module && forall|j: int|
            0 <= j < i ==> #[trigger] tokens[j].kind is Newline
}

/// Parses a lexed token list into a module, stopping at the first error. Entry bodies must
/// open with a `verification` section.
pub fn parse(tokens: &[Token]) -> (r: Result<Module>)
    requires
        well_terminated(tokens@),
    ensures
        r is Ok ==> opens_module(tokens@),
        empty_decl_module(tokens@) matches Some((name, ds)) ==> (r matches Ok(m) && m.name@ == name && decls_of(m.items@)
            == as_decls(ds)),
        failing_module_at(tokens@, skip_breaks(tokens@, 0)) ==> (r matches Err(e) && Some((e.message@, code_text(e.code)))
            == stmt_error_at(tokens@, action_first_stmt(tokens@, module_first_item(tokens@, skip_breaks(tokens@, 0))))),
        simple_module(tokens@) matches Some((name, ds)) ==> (r matches Ok(m) && m.name@ == name && shapes_of(m.items@)
            == as_shapes(ds)),
{
    parse_with_entry_grammar(tokens, EntryBodyGrammar::VerificationSection)
}

/// Parses a lexed token list into a module with the given entry-body grammar, stopping at
/// the first error.
pub fn parse_with_entry_grammar(tokens: &[Token], grammar: EntryBodyGrammar) -> (r: Result<Module>)
    requires
        well_terminated(tokens@),
    ensures
        r is Ok ==> opens_module(tokens@),
        empty_decl_module(tokens@) matches Some((name, ds)) ==> (r matches Ok(m) && m.name@ == name && decls_of(m.items@)
            == as_decls(ds)),
        failing_module_at(tokens@, skip_breaks(tokens@, 0)) ==> (r matches Err(e) && Some((e.message@, code_text(e.code)))
            == stmt_error_at(tokens@, action_first_stmt(tokens@, module_first_item(tokens@, skip_breaks(tokens@, 0))))),
        simple_module(tokens@) matches Some((name, ds)) ==> (r matches Ok(m) && m.name@ == name && shapes_of(m.items@)
            == as_shapes(ds)),
{
    let mut parser = Parser::new(tokens);
    parser.entry_body_grammar = grammar;
    parser.skip_newlines();
    let ghost start = parser.position as int;
    proof {
        lemma_skip_breaks(tokens@, 0, start);
    }
    let parsed = parser.parse_module();
    assert(parsed is Ok ==> tokens@[start].kind is Module);
    parsed
}

/// Parses a lexed token list, recording errors and resynchronizing, so that one pass reports
/// every error it finds. `Err` always holds at least one diagnostic.
pub fn parse_diagnostics(tokens: &[Token]) -> (r: std::result::Result<Module, Vec<CompileError>>)
    requires
        well_terminated(tokens@),
    ensures
        r matches Err(v) ==> v@.len() > 0,
        r is Ok ==> opens_module(tokens@),
        empty_decl_module(tokens@) matches Some((name, ds)) ==> (r matches Ok(m) && m.name@ == name && decls_of(m.items@)
            == as_decls(ds)),
        simple_module(tokens@) matches Some((name, ds)) ==> (r matches Ok(m) && m.name@ == name && shapes_of(m.items@)
            == as_shapes(ds)),
{
    parse_diagnostics_with_entry_grammar(tokens, EntryBodyGrammar::VerificationSection)
}

/// `parse_diagnostics` with the given entry-body grammar.
pub fn parse_diagnostics_with_entry_grammar(tokens: &[Token], grammar: EntryBodyGrammar) -> (r: std::result::Result<
    Module,
    Vec<CompileError>,
>)
    requires
        well_terminated(tokens@),
    ensures
        r matches Err(v) ==> v@.len() > 0,
        r is Ok ==> opens_module(tokens@),
        empty_decl_module(tokens@) matches Some((name, ds)) ==> (r matches Ok(m) && m.name@ == name && decls_of(m.items@)
            == as_decls(ds)),
        simple_module(tokens@) matches Some((name, ds)) ==> (r matches Ok(m) && m.name@ == name && shapes_of(m.items@)
            == as_shapes(ds)),
{
    let mut parser = Parser::new_recovering(tokens);
    parser.entry_body_grammar = grammar;
    parser.skip_newlines();
    let ghost start = parser.position as int;
    proof {
        lemma_skip_breaks(tokens@, 0, start);
    }
    let parsed = parser.parse_module();
    match parsed {
        Ok(module) => {
            if parser.diagnostics.len() == 0 {
                assert(tokens@[start].kind is Module);
                Ok(module)
            } else {
                Err(parser.diagnostics)
            }
        },
        Err(error) => {
            let mut diagnostics = parser.diagnostics;
            diagnostics.push(error);
            Err(diagnostics)
        },
    }
}

/// A copy of `kind`; only a byte string's payload is known by its contents alone.
fn copy_kind(kind: &TokenKind) -> (r: TokenKind)
    ensures
        r.spec_tag() == kind.spec_tag(),
        !(kind is ByteString) ==> r == *kind,
        kind matches TokenKind::ByteString(b) ==> (r matches TokenKind::ByteString(c) && c@ == b@),
{
    match kind {
        TokenKind::Identifier(s) => TokenKind::Identifier(s.clone()),
        TokenKind::Integer(n) => TokenKind::Integer(*n),
        TokenKind::String(s) => TokenKind::String(s.clone()),
        TokenKind::ByteString(b) => {
            let mut c: Vec<u8> = Vec::new();
            let mut i: usize = 0;
            while i < b.len()
                invariant
                    i <= b@.len(),
                    c@ == b@.take(i as int),
                decreases b@.len() - i,
            {
                c.push(b[i]);
                i += 1;
                assert(c@ =~= b@.take(i as int));
            }
            assert(b@.take(b@.len() as int) =~= b@);
            TokenKind::ByteString(c)
        },
        TokenKind::Module => TokenKind::Module,
        TokenKind::Use => TokenKind::Use,
        TokenKind::Resource => TokenKind::Resource,
        TokenKind::Shared => TokenKind::Shared,
        TokenKind::Receipt => TokenKind::Receipt,
        TokenKind::Struct => TokenKind::Struct,
        TokenKind::Const => TokenKind::Const,
        TokenKind::Enum => TokenKind::Enum,
        TokenKind::Invariant => TokenKind::Invariant,
        TokenKind::Action => TokenKind::Action,
        TokenKind::Fn => TokenKind::Fn,
        TokenKind::Lock => TokenKind::Lock,
        TokenKind::Transition => TokenKind::Transition,
        TokenKind::Verification => TokenKind::Verification,
        TokenKind::Has => TokenKind::Has,
        TokenKind::Store => TokenKind::Store,
        TokenKind::Destroy => TokenKind::Destroy,
        TokenKind::DestroyKw => TokenKind::DestroyKw,
        TokenKind::Launch => TokenKind::Launch,
        TokenKind::Assert => TokenKind::Assert,
        TokenKind::Preserve => TokenKind::Preserve,
        TokenKind::Address => TokenKind::Address,
        TokenKind::Hash => TokenKind::Hash,
        TokenKind::Env => TokenKind::Env,
        TokenKind::Std => TokenKind::Std,
        TokenKind::Self_ => TokenKind::Self_,
        TokenKind::Private => TokenKind::Private,
        TokenKind::Public => TokenKind::Public,
        TokenKind::For => TokenKind::For,
        TokenKind::In => TokenKind::In,
        TokenKind::If => TokenKind::If,
        TokenKind::Else => TokenKind::Else,
        TokenKind::While => TokenKind::While,
        TokenKind::Break => TokenKind::Break,
        TokenKind::Continue => TokenKind::Continue,
        TokenKind::Label => TokenKind::Label,
        TokenKind::Borrow => TokenKind::Borrow,
        TokenKind::Let => TokenKind::Let,
        TokenKind::Mut => TokenKind::Mut,
        TokenKind::Return => TokenKind::Return,
        TokenKind::Ref => TokenKind::Ref,
        TokenKind::ReadRef => TokenKind::ReadRef,
        TokenKind::Create => TokenKind::Create,
        TokenKind::Consume => TokenKind::Consume,
        TokenKind::Require => TokenKind::Require,
        TokenKind::Match => TokenKind::Match,
        TokenKind::True => TokenKind::True,
        TokenKind::False => TokenKind::False,
        TokenKind::U8 => TokenKind::U8,
        TokenKind::U16 => TokenKind::U16,
        TokenKind::U32 => TokenKind::U32,
        TokenKind::I32 => TokenKind::I32,
        TokenKind::U64 => TokenKind::U64,
        TokenKind::U128 => TokenKind::U128,
        TokenKind::Bool => TokenKind::Bool,
        TokenKind::Underscore => TokenKind::Underscore,
        TokenKind::Pound => TokenKind::Pound,
        TokenKind::Newline => TokenKind::Newline,
        TokenKind::Semi => TokenKind::Semi,
        TokenKind::Comma => TokenKind::Comma,
        TokenKind::Colon => TokenKind::Colon,
        TokenKind::ColonColon => TokenKind::ColonColon,
        TokenKind::Dot => TokenKind::Dot,
        TokenKind::LBrace => TokenKind::LBrace,
        TokenKind::RBrace => TokenKind::RBrace,
        TokenKind::LParen => TokenKind::LParen,
        TokenKind::RParen => TokenKind::RParen,
        TokenKind::LBracket => TokenKind::LBracket,
        TokenKind::RBracket => TokenKind::RBracket,
        TokenKind::Lt => TokenKind::Lt,
        TokenKind::Gt => TokenKind::Gt,
        TokenKind::Le => TokenKind::Le,
        TokenKind::Ge => TokenKind::Ge,
        TokenKind::EqEq => TokenKind::EqEq,
        TokenKind::NotEq => TokenKind::NotEq,
        TokenKind::Eq => TokenKind::Eq,
        TokenKind::Plus => TokenKind::Plus,
        TokenKind::Minus => TokenKind::Minus,
        TokenKind::Star => TokenKind::Star,
        TokenKind::Slash => TokenKind::Slash,
        TokenKind::Percent => TokenKind::Percent,
        TokenKind::Ampersand => TokenKind::Ampersand,
        TokenKind::Pipe => TokenKind::Pipe,
        TokenKind::Caret => TokenKind::Caret,
        TokenKind::Not => TokenKind::Not,
        TokenKind::And => TokenKind::And,
        TokenKind::Or => TokenKind::Or,
        TokenKind::Arrow => TokenKind::Arrow,
        TokenKind::FatArrow => TokenKind::FatArrow,
        TokenKind::Eof => TokenKind::Eof,
    }
}

/// The tokens of `tokens` before its first end-of-file token, followed by one end-of-file
/// token placed at the end of the last given token.
fn terminated_fragment(tokens: &[Token]) -> (v: Vec<Token>)
    ensures
        well_terminated(v@),
        v@.len() <= tokens@.len() + 1,
        forall|i: int| 0 <= i < v@.len() - 1 ==> (#[trigger] v@[i]).span == tokens@[i].span && v@[i].kind.spec_tag()
            == tokens@[i].kind.spec_tag(),
        forall|i: int| 0 <= i < v@.len() - 1 && !(tokens@[i].kind is ByteString) ==> (#[trigger] v@[i]).kind == tokens@[i].kind,
        forall|e: int| 0 <= e < tokens@.len() && tokens@[e].kind is Eof && (forall|k: int| 0 <= k < e ==> !(#[trigger] tokens@[k].kind is Eof))
            ==> v@.len() == e + 1,
{
    let mut fragment: Vec<Token> = Vec::new();
    let mut i: usize = 0;
    while i < tokens.len()
        invariant
            i <= tokens@.len(),
            fragment@.len() == i,
            forall|k: int| 0 <= k < i ==> !(#[trigger] fragment@[k].kind is Eof),
            forall|k: int| 0 <= k < i ==> (#[trigger] fragment@[k]).span == tokens@[k].span
                && fragment@[k].kind.spec_tag() == tokens@[k].kind.spec_tag(),
            forall|k: int| 0 <= k < i && !(tokens@[k].kind is ByteString) ==> (#[trigger] fragment@[k]).kind == tokens@[k].kind,
            forall|k: int| 0 <= k < i ==> !(#[trigger] tokens@[k].kind is Eof),
        ensures
            fragment@.len() == i,
            i <= tokens@.len(),
            forall|k: int| 0 <= k < i ==> !(#[trigger] fragment@[k].kind is Eof),
            forall|k: int| 0 <= k < i ==> (#[trigger] fragment@[k]).span == tokens@[k].span
                && fragment@[k].kind.spec_tag() == tokens@[k].kind.spec_tag(),
            forall|k: int| 0 <= k < i && !(tokens@[k].kind is ByteString) ==> (#[trigger] fragment@[k]).kind == tokens@[k].kind,
            forall|k: int| 0 <= k < i ==> !(#[trigger] tokens@[k].kind is Eof),
            i < tokens@.len() ==> tokens@[i as int].kind is Eof,
        decreases tokens@.len() - i,
    {
        if let TokenKind::Eof = &tokens[i].kind {
            break;
        }
        let kind = copy_kind(&tokens[i].kind);
        let text = tokens[i].text.clone();
        fragment.push(Token::new(kind, tokens[i].span, text));
        i += 1;
    }
    let end = if tokens.len() > 0 {
        tokens[tokens.len() - 1].span
    } else {
        Span::empty()
    };
    fragment.push(Token::new(TokenKind::Eof, Span::new(end.end, end.end, end.line, end.column), String::new()));
    fragment
}

/// Parses one type written as tokens, which must all be used. An empty list is refused.
pub fn parse_type_fragment(tokens: &[Token]) -> (r: Result<Type>)
    ensures
        r is Ok ==> tokens@.len() > 0,
{
    let fragment = terminated_fragment(tokens);
    let mut parser = Parser::new(fragment.as_slice());
    parser.skip_newlines();
    let ty = parser.parse_type()?;
    parser.skip_newlines();
    if !parser.at_eof() {
        return Err(parser.expected_end());
    }
    Ok(ty)
}

/// The tokens are literal operands joined by binary operators, up to an end-of-file token.
pub open spec fn chain_then_eof(t: Seq<Token>) -> bool {
    &&& flat_chain(t, 0)
    &&& t[chain_extent(t, 0, 0) + 1].kind is Eof
}

/// Parses one expression written as tokens, which must all be used. An empty list is refused.
/// Literal operands joined by binary operators parse to the tree their precedences give, each
/// precedence grouping from the left.
pub fn parse_expression_fragment(tokens: &[Token]) -> (r: Result<Expr>)
    ensures
        r is Ok ==> tokens@.len() > 0,
        chain_then_eof(tokens@) ==> r == Ok::<Expr, CompileError>(chain_tree(tokens@, 0, 0, chain_extent(tokens@, 0, 0))),
{
    let fragment = terminated_fragment(tokens);
    proof {
        if chain_then_eof(tokens@) {
            let e = chain_extent(tokens@, 0, 0) + 1;
            lemma_chain_no_eof(tokens@, 0);
            assert forall|k: int| 0 <= k < e implies !(#[trigger] tokens@[k].kind is Eof) && !(tokens@[k].kind is ByteString) by {
                assert(literal_expr(tokens@[k].kind) is Some || binop_level(tokens@[k].kind) >= 0);
            }
            assert(tokens@[e].kind is Eof);
            assert(fragment@.len() == e + 1);
            assert forall|k: int| 0 <= k < e implies (#[trigger] fragment@[k]).kind == tokens@[k].kind && fragment@[k].span
                == tokens@[k].span by {
                assert(!(tokens@[k].kind is ByteString));
            }
            assert(fragment@[e].kind is Eof);
            lemma_chain_agree(tokens@, fragment@, 0, e);
        }
    }
    let mut parser = Parser::new(fragment.as_slice());
    parser.skip_newlines();
    let expression = parser.parse_expr()?;
    parser.skip_newlines();
    if !parser.at_eof() {
        return Err(parser.expected_end());
    }
    Ok(expression)
}

impl<'a> Parser<'a> {
    /// The error for input left over where the end was expected.
    fn expected_end(&self) -> (e: CompileError)
        requires
            self.wf(),
        ensures
            e.message@ == "expected "@ + TokenKind::Eof.spec_spelling() + ", found "@ + describe_kind(self.cur_kind()),
    {
        let mut message = concat2("expected ", TokenKind::Eof.spelling());
        message.append(", found ");
        let found = describe(&self.current().kind);
        message.append(found.as_str());
        CompileError::new(message, self.current().span)
    }
}

} // verus!
