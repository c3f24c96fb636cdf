//! Invariant declarations: trigger, scope, reads, aggregate assertions, bounded quantifiers.

use crate::ast::{
    AggregateInvariant, AggregateInvariantKind, AggregateRelation, AggregateTarget, AssertExpr,
    BoundedQuantifier, BoundedQuantifierKind, Expr, InvariantDef, SourceView,
};
use crate::error::{CompileError, Result, Span};
use crate::lexer::token::TokenKind;
use crate::parser::{
    aggregate_scope_from_targets, ident_like, literal_at, literal_expr, render_type, Parser, MAX_PARSE_RECURSION_DEPTH,
};
use crate::text::{concat3, debug_quote, debug_rendering, decimal, decimal_string, str_eq};
use vstd::prelude::*;
use vstd::string::StringExecFns;

verus! {

/// The words that open an aggregate assertion inside an invariant.
pub open spec fn spec_is_aggregate_start(name: Seq<char>) -> bool {
    ||| name == "assert_sum"@
    ||| name == "assert_conserved"@
    ||| name == "assert_delta"@
    ||| name == "assert_distinct"@
    ||| name == "assert_singleton"@
}

/// Names joined with `.` between them.
pub open spec fn spec_join_dotted(parts: Seq<String>) -> Seq<char>
    decreases parts.len(),
{
    if parts.len() == 0 {
        Seq::empty()
    } else if parts.len() == 1 {
        parts[0]@
    } else {
        spec_join_dotted(parts.drop_last()) + "."@ + parts.last()@
    }
}

fn join_dotted(parts: &Vec<String>) -> (s: String)
    ensures
        s@ == spec_join_dotted(parts@),
{
    let mut s = String::new();
    let mut i: usize = 0;
    while i < parts.len()
        invariant
            i <= parts@.len(),
            s@ == spec_join_dotted(parts@.take(i as int)),
        decreases parts@.len() - i,
    {
        if i > 0 {
            s.append(".");
        }
        s.append(parts[i].as_str());
        proof {
            assert(parts@.take(i + 1).drop_last() =~= parts@.take(i as int));
            if i == 0 {
                assert(s@ =~= parts@[0]@);
            }
        }
        i += 1;
    }
    assert(parts@.take(parts@.len() as int) =~= parts@);
    s
}

/// A comparison token as an aggregate relation.
pub open spec fn spec_relation_of(kind: TokenKind) -> Option<AggregateRelation> {
    match kind {
        TokenKind::Lt => Some(AggregateRelation::Lt),
        TokenKind::Le => Some(AggregateRelation::Le),
        TokenKind::EqEq => Some(AggregateRelation::Eq),
        TokenKind::Ge => Some(AggregateRelation::Ge),
        TokenKind::Gt => Some(AggregateRelation::Gt),
        _ => None,
    }
}

fn relation_of(kind: &TokenKind) -> (r: Option<AggregateRelation>)
    ensures
        r == spec_relation_of(*kind),
{
    match kind {
        TokenKind::Lt => Some(AggregateRelation::Lt),
        TokenKind::Le => Some(AggregateRelation::Le),
        TokenKind::EqEq => Some(AggregateRelation::Eq),
        TokenKind::Ge => Some(AggregateRelation::Ge),
        TokenKind::Gt => Some(AggregateRelation::Gt),
        _ => None,
    }
}

/// What a well-formed invariant target satisfies: `type_id` stands alone, and a bare
/// name selects cells of that type.
pub open spec fn target_well_formed(t: AggregateTarget) -> bool {
    &&& t.source == SourceView::TypeIdentity ==> (t.cell_type is None && t.field is None)
    &&& t.source == SourceView::SelectedCells ==> t.cell_type is Some
}

/// What a parsed aggregate assertion satisfies.
pub open spec fn aggregate_well_formed(a: AggregateInvariant) -> bool {
    &&& target_well_formed(a.target)
    &&& (a.kind == AggregateInvariantKind::Sum) == (a.relation is Some)
    &&& (a.kind == AggregateInvariantKind::Sum) == (a.rhs is Some)
    &&& (a.kind == AggregateInvariantKind::Delta) == (a.argument is Some)
    &&& a.kind == AggregateInvariantKind::Sum ==> Some(a.scope@) == a.target.source.spec_aggregate_scope()
}

/// What a parsed bounded quantifier satisfies.
pub open spec fn quantifier_well_formed(q: BoundedQuantifier) -> bool {
    &&& target_well_formed(q.range)
    &&& q.range.field is None
    &&& q.predicates@.len() > 0
    &&& q.kind == BoundedQuantifierKind::ForAll ==> (q.role is Some && q.binding is Some && q.relation is None
        && q.expected is None)
    &&& q.kind == BoundedQuantifierKind::Count ==> (q.role is None && q.binding is None && q.relation is Some
        && q.expected is Some && q.predicates@.len() == 1)
}

impl<'a> Parser<'a> {
    /// Whether `name` opens an aggregate assertion.
    pub(crate) fn is_invariant_aggregate_start(name: &str) -> (r: bool)
        ensures
            r == spec_is_aggregate_start(name@),
    {
        str_eq(name, "assert_sum") || str_eq(name, "assert_conserved") || str_eq(name, "assert_delta")
            || str_eq(name, "assert_distinct") || str_eq(name, "assert_singleton")
    }

    /// Parses `invariant name { ... }`.
    pub(crate) fn parse_invariant(&mut self) -> (r: Result<InvariantDef>)
        requires
            old(self).wf(),
        ensures
            final(self).kept(old(self)),
            r is Ok ==> final(self).pos() > old(self).pos(),
            r is Ok ==> old(self).cur_kind() is Invariant,
            r matches Ok(d) ==> forall|i: int| 0 <= i < d.aggregates@.len() ==> aggregate_well_formed(#[trigger] d.aggregates@[i]),
            r matches Ok(d) ==> forall|i: int| 0 <= i < d.quantifiers@.len() ==> quantifier_well_formed(#[trigger] d.quantifiers@[i]),
            r matches Ok(d) ==> forall|i: int| 0 <= i < d.reads@.len() ==> target_well_formed(#[trigger] d.reads@[i]),
            r matches Ok(d) ==> forall|i: int| 0 <= i < d.asserts@.len() ==> #[trigger] d.asserts@[i] is Assert,
    {
        let start_span = self.current().span;
        self.expect(TokenKind::Invariant)?;
        let name = self.parse_name()?;
        self.expect(TokenKind::LBrace)?;
        self.skip_newlines();
        let mut trigger: Option<String> = None;
        let mut scope: Option<String> = None;
        let mut reads: Vec<AggregateTarget> = Vec::new();
        let mut aggregates: Vec<AggregateInvariant> = Vec::new();
        let mut quantifiers: Vec<BoundedQuantifier> = Vec::new();
        let mut asserts: Vec<Expr> = Vec::new();
        while !self.check(&TokenKind::RBrace) && !self.check(&TokenKind::Eof)
            invariant
                self.kept(old(self)),
                self.pos() > old(self).pos(),
                old(self).cur_kind() is Invariant,
                forall|i: int| 0 <= i < aggregates@.len() ==> aggregate_well_formed(#[trigger] aggregates@[i]),
                forall|i: int| 0 <= i < quantifiers@.len() ==> quantifier_well_formed(#[trigger] quantifiers@[i]),
                forall|i: int| 0 <= i < reads@.len() ==> target_well_formed(#[trigger] reads@[i]),
                forall|i: int| 0 <= i < asserts@.len() ==> #[trigger] asserts@[i] is Assert,
            decreases self.remaining(),
        {
            self.skip_newlines();
            if self.check(&TokenKind::RBrace) {
                break;
            }
            if self.check(&TokenKind::Assert) {
                let assertion = if self.text_is("assert_invariant") {
                    self.parse_invariant_call_assert()?
                } else {
                    self.parse_invariant_assert()?
                };
                asserts.push(assertion);
                self.consume_optional_semi();
                self.skip_newlines();
                continue;
            }
            if let Some(word) = self.ident_like_name() {
                if str_eq(word.as_str(), "forall") {
                    let q = self.parse_bounded_forall()?;
                    quantifiers.push(q);
                    self.consume_optional_semi();
                    self.skip_newlines();
                    continue;
                }
                if str_eq(word.as_str(), "count") {
                    let q = self.parse_bounded_count()?;
                    quantifiers.push(q);
                    self.consume_optional_semi();
                    self.skip_newlines();
                    continue;
                }
                if Self::is_invariant_aggregate_start(word.as_str()) {
                    let a = self.parse_aggregate_invariant()?;
                    aggregates.push(a);
                    self.consume_optional_semi();
                    self.skip_newlines();
                    continue;
                }
            }
            let key_span = self.current().span;
            let key = match self.ident_like_name() {
                Some(key) => key,
                None => {
                    return Err(
                        self.error_here("expected invariant field, aggregate assertion, or assert_invariant"),
                    );
                },
            };
            self.advance();
            self.expect(TokenKind::Colon)?;
            if str_eq(key.as_str(), "trigger") {
                if trigger.is_some() {
                    return Err(CompileError::at("duplicate invariant trigger declaration", key_span));
                }
                trigger = Some(self.parse_name_path()?);
            } else if str_eq(key.as_str(), "scope") {
                if scope.is_some() {
                    return Err(CompileError::at("duplicate invariant scope declaration", key_span));
                }
                scope = Some(self.parse_name_path()?);
            } else if str_eq(key.as_str(), "reads") {
                let mut more = self.parse_invariant_reads()?;
                reads.append(&mut more);
            } else {
                return Err(
                    CompileError::new(
                        concat3(
                            "unknown invariant field '",
                            key.as_str(),
                            "'; expected trigger, scope, reads, or assert_invariant",
                        ),
                        key_span,
                    ),
                );
            }
            self.consume_optional_semi();
            self.skip_newlines();
        }
        let end_span = self.current().span;
        self.expect(TokenKind::RBrace)?;
        Ok(InvariantDef {
            name,
            trigger,
            scope,
            reads,
            aggregates,
            quantifiers,
            asserts,
            span: Span::new(start_span.start, end_span.end, start_span.line, start_span.column),
        })
    }

    /// Parses `forall role binding in view<T> { require ... }`.
    pub(crate) fn parse_bounded_forall(&mut self) -> (r: Result<BoundedQuantifier>)
        requires
            old(self).wf(),
        ensures
            final(self).kept(old(self)),
            r is Ok ==> final(self).pos() > old(self).pos(),
            r matches Ok(q) ==> q.kind == BoundedQuantifierKind::ForAll && quantifier_well_formed(q),
    {
        let start_span = self.current().span;
        self.parse_name()?;
        let role = match self.parse_name() {
            Ok(role) => role,
            Err(_) => {
                return Err(
                    CompileError::at(
                        "forall requires a role, binding, and finite source view: `forall output token in outputs<Token> { ... }`",
                        start_span,
                    ),
                );
            },
        };
        let binding_span = self.current().span;
        let binding = match self.parse_name() {
            Ok(binding) => binding,
            Err(_) => {
                return Err(
                    CompileError::at(
                        "unbounded forall is not supported; name a finite source view with `forall <role> <binding> in <source_view<T>>`",
                        binding_span,
                    ),
                );
            },
        };
        if !self.check(&TokenKind::In) {
            return Err(
                self.error_here("unbounded forall is not supported; expected `in` followed by a finite source view"),
            );
        }
        self.advance();
        let range = self.parse_invariant_target()?;
        if range.field.is_some() {
            return Err(
                CompileError::at("forall range must name a source view and cell type, not a projected field", start_span),
            );
        }
        self.expect(TokenKind::LBrace)?;
        self.skip_newlines();
        let mut predicates: Vec<Expr> = Vec::new();
        while !self.check(&TokenKind::RBrace) && !self.check(&TokenKind::Eof)
            invariant
                self.kept(old(self)),
                self.pos() > old(self).pos(),
            decreases self.remaining(),
        {
            if !self.check(&TokenKind::Require) {
                return Err(
                    self.error_here(
                        "forall body only accepts pure `require` predicates; lifecycle and control-flow statements are not allowed",
                    ),
                );
            }
            let predicate = self.parse_require()?;
            predicates.push(predicate);
            self.consume_optional_semi();
            self.skip_newlines();
        }
        if predicates.len() == 0 {
            return Err(CompileError::at("forall body must contain at least one require predicate", start_span));
        }
        let end_span = self.current().span;
        self.expect(TokenKind::RBrace)?;
        Ok(BoundedQuantifier {
            kind: BoundedQuantifierKind::ForAll,
            role: Some(role),
            binding: Some(binding),
            range,
            predicates,
            relation: None,
            expected: None,
            span: Span::new(start_span.start, end_span.end, start_span.line, start_span.column),
        })
    }

    /// Parses `count(view<T> where predicate) <relation> expected`.
    pub(crate) fn parse_bounded_count(&mut self) -> (r: Result<BoundedQuantifier>)
        requires
            old(self).wf(),
        ensures
            final(self).kept(old(self)),
            r is Ok ==> final(self).pos() > old(self).pos(),
            r matches Ok(q) ==> q.kind == BoundedQuantifierKind::Count && quantifier_well_formed(q),
    {
        let start_span = self.current().span;
        self.parse_name()?;
        self.expect(TokenKind::LParen)?;
        let range = self.parse_invariant_target()?;
        if range.field.is_some() {
            return Err(
                CompileError::at("count range must name a source view and cell type, not a projected field", start_span),
            );
        }
        if !self.at_word("where") {
            return Err(self.error_here("count requires `where <predicate>` after its finite source view"));
        }
        self.advance();
        let predicate = self.parse_expr()?;
        self.expect(TokenKind::RParen)?;
        let relation = match relation_of(&self.current().kind) {
            Some(relation) => relation,
            None => {
                return Err(self.error_here("count requires a comparison against a u64 expression"));
            },
        };
        self.advance();
        let expected = self.parse_expr()?;
        let end_span = self.current().span;
        Ok(BoundedQuantifier {
            kind: BoundedQuantifierKind::Count,
            role: None,
            binding: None,
            range,
            predicates: vec![predicate],
            relation: Some(relation),
            expected: Some(expected),
            span: Span::new(start_span.start, end_span.end, start_span.line, start_span.column),
        })
    }

    /// Parses one aggregate assertion: `assert_sum(...) <rel> assert_sum(...)`, or
    /// `assert_conserved` / `assert_distinct` / `assert_singleton(target, scope = s)`, or
    /// `assert_delta(target, amount, scope = s)`.
    pub(crate) fn parse_aggregate_invariant(&mut self) -> (r: Result<AggregateInvariant>)
        requires
            old(self).wf(),
        ensures
            final(self).kept(old(self)),
            r is Ok ==> final(self).pos() > old(self).pos(),
            r matches Ok(a) ==> aggregate_well_formed(a),
            r matches Ok(a) ==> (a.kind == AggregateInvariantKind::Sum <==> ident_like(old(self).cur_kind())
                == Some("assert_sum"@)),
    {
        let start_span = self.current().span;
        let name = self.parse_name()?;
        if str_eq(name.as_str(), "assert_sum") {
            return self.parse_aggregate_sum_comparison(start_span);
        }
        self.expect(TokenKind::LParen)?;
        self.skip_newlines();
        let target = self.parse_invariant_target()?;
        self.skip_newlines();
        self.expect(TokenKind::Comma)?;
        self.skip_newlines();
        let (kind, argument, scope) = if str_eq(name.as_str(), "assert_conserved") {
            (AggregateInvariantKind::Conserved, None, self.parse_aggregate_scope_arg()?)
        } else if str_eq(name.as_str(), "assert_distinct") {
            (AggregateInvariantKind::Distinct, None, self.parse_aggregate_scope_arg()?)
        } else if str_eq(name.as_str(), "assert_singleton") {
            (AggregateInvariantKind::Singleton, None, self.parse_aggregate_scope_arg()?)
        } else if str_eq(name.as_str(), "assert_delta") {
            let delta = self.parse_aggregate_argument()?;
            self.skip_newlines();
            self.expect(TokenKind::Comma)?;
            self.skip_newlines();
            (AggregateInvariantKind::Delta, Some(delta), self.parse_aggregate_scope_arg()?)
        } else {
            return Err(
                CompileError::new(
                    concat3("unknown aggregate invariant primitive '", name.as_str(), "'"),
                    start_span,
                ),
            );
        };
        self.skip_newlines();
        let end_span = self.current().span;
        self.expect(TokenKind::RParen)?;
        Ok(AggregateInvariant {
            kind,
            target,
            scope,
            argument,
            relation: None,
            rhs: None,
            span: Span::new(start_span.start, end_span.end, start_span.line, start_span.column),
        })
    }

    fn parse_aggregate_sum_comparison(&mut self, start_span: Span) -> (r: Result<AggregateInvariant>)
        requires
            old(self).wf(),
        ensures
            final(self).kept(old(self)),
            r is Ok ==> final(self).pos() > old(self).pos(),
            r matches Ok(a) ==> a.kind == AggregateInvariantKind::Sum && aggregate_well_formed(a),
    {
        let left = self.parse_aggregate_sum_operand()?;
        self.skip_newlines();
        let relation = match relation_of(&self.current().kind) {
            Some(relation) => relation,
            None => {
                return Err(self.error_here("assert_sum aggregate assertion requires a comparison operator"));
            },
        };
        self.advance();
        self.skip_newlines();
        let rhs_start = self.current().span;
        let rhs_name = self.parse_name()?;
        if !str_eq(rhs_name.as_str(), "assert_sum") {
            return Err(CompileError::at("assert_sum comparison right-hand side must be assert_sum(...)", rhs_start));
        }
        let right = self.parse_aggregate_sum_operand()?;
        let scope = match aggregate_scope_from_targets(&left, Some(&right)) {
            Some(scope) => scope,
            None => {
                return Err(
                    CompileError::at(
                        "assert_sum aggregate assertion requires explicit input/output source views",
                        start_span,
                    ),
                );
            },
        };
        let end_span = self.current().span;
        Ok(AggregateInvariant {
            kind: AggregateInvariantKind::Sum,
            target: left,
            scope,
            argument: None,
            relation: Some(relation),
            rhs: Some(right),
            span: Span::new(start_span.start, end_span.end, start_span.line, start_span.column),
        })
    }

    fn parse_aggregate_sum_operand(&mut self) -> (r: Result<AggregateTarget>)
        requires
            old(self).wf(),
        ensures
            final(self).kept(old(self)),
            r is Ok ==> final(self).pos() > old(self).pos(),
            r matches Ok(t) ==> target_well_formed(t),
    {
        self.expect(TokenKind::LParen)?;
        self.skip_newlines();
        let target = self.parse_invariant_target()?;
        self.skip_newlines();
        self.expect(TokenKind::RParen)?;
        Ok(target)
    }

    fn parse_aggregate_scope_arg(&mut self) -> (r: Result<String>)
        requires
            old(self).wf(),
        ensures
            final(self).kept(old(self)),
            r is Ok ==> final(self).pos() > old(self).pos(),
            r is Ok ==> ident_like(old(self).cur_kind()) == Some("scope"@),
    {
        let key_span = self.current().span;
        let key = self.parse_name()?;
        if !str_eq(key.as_str(), "scope") {
            return Err(CompileError::at("aggregate invariant primitive requires `scope = ...`", key_span));
        }
        self.skip_newlines();
        self.expect(TokenKind::Eq)?;
        self.skip_newlines();
        self.parse_name_path()
    }

    /// The amount argument of `assert_delta`: an integer, a quoted string, or a target, as text.
    pub(crate) fn parse_aggregate_argument(&mut self) -> (r: Result<String>)
        requires
            old(self).wf(),
        ensures
            final(self).kept(old(self)),
            r is Ok ==> final(self).pos() > old(self).pos(),
            old(self).cur_kind() matches TokenKind::Integer(v) ==> (r matches Ok(s) && s@ == decimal(v as nat)),
            old(self).cur_kind() matches TokenKind::String(v) ==> (r matches Ok(s) && s@ == debug_rendering(v@)),
    {
        match &self.current().kind {
            TokenKind::Integer(value) => {
                let rendered = decimal_string(*value);
                self.advance();
                Ok(rendered)
            },
            TokenKind::String(value) => {
                let rendered = debug_quote(value.as_str());
                self.advance();
                Ok(rendered)
            },
            _ => {
                let target = self.parse_invariant_target()?;
                Ok(target.to_string())
            },
        }
    }

    /// `assert condition`, with the fixed invariant failure message.
    fn parse_invariant_assert(&mut self) -> (r: Result<Expr>)
        requires
            old(self).wf(),
        ensures
            final(self).kept(old(self)),
            r is Ok ==> final(self).pos() > old(self).pos(),
            r matches Ok(e) ==> (e matches Expr::Assert(a) && ((*a.message) matches Expr::String(m)
                && m@ == "invariant assertion failed"@)),
            !(old(self).cur_kind() is Assert) ==> r is Err,
            old(self).expression_depth < MAX_PARSE_RECURSION_DEPTH && old(self).unary_depth < MAX_PARSE_RECURSION_DEPTH && old(self).cur_kind() is Assert
                && literal_at(old(self).tokens@, old(self).position + 1) ==> (r matches Ok(Expr::Assert(a)) && *a.condition
                == literal_expr(old(self).tokens@[old(self).position + 1].kind)->0 && final(self).position == old(self).position + 2),
    {
        let start_span = self.current().span;
        self.expect(TokenKind::Assert)?;
        let condition = self.parse_expr()?;
        let end_span = self.current().span;
        Ok(Expr::Assert(AssertExpr {
            condition: Box::new(condition),
            message: Box::new(Expr::String("invariant assertion failed".to_owned())),
            span: Span::new(start_span.start, end_span.end, start_span.line, start_span.column),
        }))
    }

    /// `assert_invariant(condition, message)`.
    fn parse_invariant_call_assert(&mut self) -> (r: Result<Expr>)
        requires
            old(self).wf(),
        ensures
            final(self).kept(old(self)),
            r is Ok ==> final(self).pos() > old(self).pos(),
            r matches Ok(e) ==> e is Assert,
            !(old(self).cur_kind() is Assert) ==> r is Err,
            old(self).expression_depth < MAX_PARSE_RECURSION_DEPTH && old(self).unary_depth < MAX_PARSE_RECURSION_DEPTH && old(self).cur_kind() is Assert
                && old(self).tokens@[old(self).position + 1].kind is LParen && literal_at(old(self).tokens@, old(self).position + 2) && old(self).tokens@[old(self).position + 3].kind is Comma
                && literal_at(old(self).tokens@, old(self).position + 4) && old(self).tokens@[old(self).position + 5].kind is RParen ==> (r matches Ok(
                Expr::Assert(a)) && *a.condition == literal_expr(old(self).tokens@[old(self).position + 2].kind)->0 && *a.message == literal_expr(old(self).tokens@[old(self).position + 4].kind)->0 && final(self).position == old(
                self).position + 6),
    {
        let start_span = self.current().span;
        self.expect(TokenKind::Assert)?;
        self.expect(TokenKind::LParen)?;
        self.skip_newlines();
        let condition = self.parse_expr()?;
        self.expect(TokenKind::Comma)?;
        self.skip_newlines();
        let message = self.parse_expr()?;
        self.skip_newlines();
        let end_span = self.current().span;
        self.expect(TokenKind::RParen)?;
        Ok(Expr::Assert(AssertExpr {
            condition: Box::new(condition),
            message: Box::new(message),
            span: Span::new(start_span.start, end_span.end, start_span.line, start_span.column),
        }))
    }

    /// A comma-separated list of targets after `reads:`; it may be empty.
    fn parse_invariant_reads(&mut self) -> (r: Result<Vec<AggregateTarget>>)
        requires
            old(self).wf(),
        ensures
            final(self).kept(old(self)),
            r matches Ok(v) ==> forall|i: int| 0 <= i < v@.len() ==> target_well_formed(#[trigger] v@[i]),
            !(old(self).cur_kind() is Newline) && (old(self).cur_kind() is RBrace || old(self).cur_kind() is Semi) ==> (
            r matches Ok(v) && v@.len() == 0 && final(self).position == old(self).position),
    {
        let mut reads: Vec<AggregateTarget> = Vec::new();
        self.skip_newlines();
        if self.check(&TokenKind::RBrace) || self.check(&TokenKind::Semi) {
            return Ok(reads);
        }
        loop
            invariant
                !(!(old(self).cur_kind() is Newline) && (old(self).cur_kind() is RBrace || old(self).cur_kind() is Semi)),
                self.kept(old(self)),
                forall|i: int| 0 <= i < reads@.len() ==> target_well_formed(#[trigger] reads@[i]),
            decreases self.remaining(),
        {
            let target = self.parse_invariant_target()?;
            reads.push(target);
            if self.check(&TokenKind::Comma) {
                self.advance();
                self.skip_newlines();
                if self.check(&TokenKind::RBrace) || self.check(&TokenKind::Semi) {
                    break;
                }
            } else {
                break;
            }
        }
        Ok(reads)
    }

    /// `view<Type>.field.field`, or `Type.field` for cells selected by type.
    pub(crate) fn parse_invariant_target(&mut self) -> (r: Result<AggregateTarget>)
        requires
            old(self).wf(),
        ensures
            final(self).kept(old(self)),
            r is Ok ==> final(self).pos() > old(self).pos(),
            r matches Ok(t) ==> target_well_formed(t),
            ident_like(old(self).cur_kind()) is Some && !(old(self).toks()[old(self).pos() + 1].kind is ColonColon) && !(old(self).toks()[old(self).pos() + 1].kind is Lt) && !(old(self).toks()[old(self).pos() + 1].kind is Dot) ==> (r matches Ok(t) && t.field is None
                && final(self).pos() == old(self).pos() + 1 && match SourceView::spec_from_source_name(
                ident_like(old(self).cur_kind())->0,
            ) {
                Some(s) => t.source == s && t.cell_type is None,
                None => t.source == SourceView::SelectedCells && (t.cell_type matches Some(c) && Some(c@) == ident_like(
                    old(self).cur_kind(),
                )),
            }),
    {
        let start_span = self.current().span;
        let root = self.parse_name_path()?;
        let mut cell_type: Option<String> = None;
        if self.check(&TokenKind::Lt) {
            self.advance();
            let ty = self.parse_type()?;
            self.expect(TokenKind::Gt)?;
            cell_type = Some(render_type(&ty));
        }
        let mut fields: Vec<String> = Vec::new();
        while self.check(&TokenKind::Dot)
            invariant
                ident_like(old(self).cur_kind()) is Some && !(old(self).tokens@[old(self).position + 1].kind is ColonColon) && !(old(self).tokens@[old(self).position + 1].kind is Lt) && !(old(self).tokens@[old(self).position + 1].kind is Dot)
                    ==> self.position == old(self).position + 1 && fields@.len() == 0 && cell_type is None,
                self.kept(old(self)),
                self.pos() > old(self).pos(),
            decreases self.remaining(),
        {
            self.advance();
            let field_name = self.parse_name()?;
            fields.push(field_name);
        }
        let field = if fields.len() == 0 {
            None
        } else {
            Some(join_dotted(&fields))
        };
        let source = match SourceView::from_source_name(root.as_str()) {
            Some(source) => source,
            None => {
                if cell_type.is_some() {
                    return Err(
                        CompileError::new(
                            concat3(
                                "unknown invariant source view '",
                                root.as_str(),
                                "'; generic source views use the closed CKB view registry",
                            ),
                            start_span,
                        ),
                    );
                }
                cell_type = Some(root);
                SourceView::SelectedCells
            },
        };
        if source == SourceView::TypeIdentity && (cell_type.is_some() || field.is_some()) {
            return Err(
                CompileError::at("type_id aggregate target cannot have a type argument or field projection", start_span),
            );
        }
        Ok(AggregateTarget { source, cell_type, field })
    }
}

} // verus!
