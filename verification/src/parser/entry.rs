//! Entry points and helpers: actions, functions, locks and their parameters.

use crate::ast::{
    ActionDef, ActionOutput, ActionStateEdge, EffectClass, FnDef, LockDef, Param, ParamSource, SchedulerHint,
    StateFieldPath, Stmt, Type,
};
use crate::error::{CompileError, Result, Span};
use crate::lexer::token::{Token, TokenKind};
use crate::parser::{action_first_stmt, code_text, failing_action_at, stmt_error_at, ident_like, lemma_skip_breaks, primitive_type, skip_breaks, Parser, MAX_PARSE_RECURSION_DEPTH};
use crate::text::str_eq;
use vstd::prelude::*;

verus! {

/// What a parsed parameter satisfies: `ref` is never accepted, `output` is only a return-side
/// source, and protected and read-only parameters are read through a shared reference.
pub open spec fn param_well_formed(p: Param) -> bool {
    &&& !p.is_ref
    &&& p.source != ParamSource::Output
    &&& p.source == ParamSource::Protected ==> p.ty is Ref
    &&& p.is_read_ref ==> p.ty is Ref
    &&& p.is_read_ref ==> p.source == ParamSource::Default
}

/// All parameters of a list are well formed.
pub open spec fn params_well_formed(ps: Seq<Param>) -> bool {
    forall|i: int| 0 <= i < ps.len() ==> param_well_formed(#[trigger] ps[i])
}

/// The token at `i`, or the last token where `i` is past the end.
pub open spec fn token_at(t: Seq<Token>, i: int) -> Token {
    if 0 <= i < t.len() {
        t[i]
    } else {
        t.last()
    }
}

/// The source a word in front of a parameter selects, when a name and a colon follow it: the
/// source and whether the parameter is a read; nothing for `output`, which is refused there.
pub open spec fn source_prefix(t: Seq<Token>, p: int) -> Option<(ParamSource, bool)> {
    if !(ident_like(token_at(t, p + 1).kind) is Some && token_at(t, p + 2).kind is Colon) {
        Some((ParamSource::Default, false))
    } else {
        match ident_like(t[p].kind) {
            None => Some((ParamSource::Default, false)),
            Some(w) => if w == "read"@ {
                Some((ParamSource::Default, true))
            } else if w == "input"@ {
                Some((ParamSource::Input, false))
            } else if w == "output"@ {
                None
            } else if w == "protected"@ {
                Some((ParamSource::Protected, false))
            } else if w == "witness"@ {
                Some((ParamSource::Witness, false))
            } else if w == "lock_args"@ {
                Some((ParamSource::LockArgs, false))
            } else {
                Some((ParamSource::Default, false))
            },
        }
    }
}

/// The source a word after a parameter's colon selects.
pub open spec fn spec_marker_source(kind: TokenKind) -> ParamSource {
    match kind {
        TokenKind::Identifier(n) => if n@ == "protected"@ {
            ParamSource::Protected
        } else if n@ == "witness"@ {
            ParamSource::Witness
        } else if n@ == "lock_args"@ {
            ParamSource::LockArgs
        } else {
            ParamSource::Default
        },
        _ => ParamSource::Default,
    }
}

impl<'a> Parser<'a> {
    /// Parses `action name(params) [-> outputs] { transitions verification body }`.
    pub(crate) fn parse_action(&mut self, effect: Option<EffectClass>, scheduler_hint: Option<SchedulerHint>) -> (r:
        Result<ActionDef>)
        requires
            old(self).wf(),
        ensures
            final(self).kept(old(self)),
            !old(self).recovering() && old(self).at_top() && failing_action_at(old(self).toks(), old(self).pos()) ==> (r matches Err(e) && Some((e.message@, code_text(e.code))) == stmt_error_at(old(self).toks(), action_first_stmt(old(self).toks(), old(self).pos()))),
            r is Ok ==> final(self).pos() > old(self).pos(),
            r is Ok ==> old(self).cur_kind() is Action,
            r matches Ok(a) ==> a.effect_declared == (effect is Some),
            r matches Ok(a) ==> a.effect == (match effect {
                Some(e) => e,
                None => EffectClass::Pure,
            }),
            r matches Ok(a) ==> a.scheduler_hint == scheduler_hint,
            r matches Ok(a) ==> params_well_formed(a.params@),
            r matches Ok(a) ==> (a.return_type is Some ==> a.outputs@.len() == 0),
            r matches Ok(a) ==> a.doc_comment is None,
            old(self).cur_kind() is Action && ident_like(old(self).toks()[old(self).pos() + 1].kind) is Some && old(self).toks()[old(self).pos() + 2].kind is LParen && old(self).toks()[old(self).pos() + 3].kind
                is RParen && old(self).toks()[old(self).pos() + 4].kind is LBrace && old(self).toks()[old(self).pos() + 5].kind is Verification && old(self).toks()[old(self).pos() + 6].kind is RBrace ==> (r matches Ok(
                a) && Some(a.name@) == ident_like(old(self).toks()[old(self).pos() + 1].kind) && a.params@.len() == 0 && a.return_type is None && a.outputs@.len()
                == 0 && a.state_edges@.len() == 0 && a.body@.len() == 0 && final(self).pos() == old(self).pos() + 7),
    {
        let start_span = self.current().span;
        self.expect(TokenKind::Action)?;
        let name = self.parse_name()?;
        let params = self.parse_params()?;
        let (return_type, outputs) = if self.check(&TokenKind::Arrow) {
            self.advance();
            self.parse_action_output_signature()?
        } else {
            (None, Vec::new())
        };
        let (state_edges, body) = self.parse_action_body()?;
        let end_span = self.current().span;
        let effect_declared = effect.is_some();
        let effect = match effect {
            Some(e) => e,
            None => EffectClass::Pure,
        };
        Ok(ActionDef {
            name,
            params,
            return_type,
            outputs,
            state_edges,
            body,
            effect,
            effect_declared,
            scheduler_hint,
            doc_comment: None,
            span: Span::new(start_span.start, end_span.end, start_span.line, start_span.column),
        })
    }

    /// After `->`: a tuple of named outputs, one named output, or a bare return type.
    fn parse_action_output_signature(&mut self) -> (r: Result<(Option<Type>, Vec<ActionOutput>)>)
        requires
            old(self).wf(),
        ensures
            final(self).kept(old(self)),
            r is Ok ==> final(self).pos() > old(self).pos(),
            r matches Ok((t, outs)) ==> (t is Some ==> outs@.len() == 0),
            old(self).type_depth < MAX_PARSE_RECURSION_DEPTH && primitive_type(old(self).cur_kind()) is Some ==> (r matches Ok(
                (t, outs)) && t == primitive_type(old(self).cur_kind()) && outs@.len() == 0 && final(self).position == old(
                self).position + 1),
    {
        self.skip_newlines();
        if self.check(&TokenKind::LParen) && self.action_output_tuple_looks_named() {
            self.advance();
            self.skip_newlines();
            let mut outputs: Vec<ActionOutput> = Vec::new();
            while !self.check(&TokenKind::RParen) && !self.check(&TokenKind::Eof)
                invariant
                    !(old(self).type_depth < MAX_PARSE_RECURSION_DEPTH && primitive_type(old(self).cur_kind()) is Some),
                    self.kept(old(self)),
                    self.pos() > old(self).pos(),
                decreases self.remaining(),
            {
                let output = self.parse_action_output_binding()?;
                outputs.push(output);
                if self.check(&TokenKind::Comma) {
                    self.advance();
                    self.skip_newlines();
                } else {
                    break;
                }
            }
            self.expect(TokenKind::RParen)?;
            return Ok((None, outputs));
        }
        if self.action_output_looks_named() {
            let output = self.parse_action_output_binding()?;
            return Ok((None, vec![output]));
        }
        let ty = self.parse_type()?;
        Ok((Some(ty), Vec::new()))
    }

    /// Whether `( name :` follows, opening a tuple of named outputs.
    fn action_output_tuple_looks_named(&self) -> (r: bool)
        requires
            self.wf(),
        ensures
            r ==> self.pos() + 2 < self.toks().len(),
    {
        match (&self.peek(1).kind, &self.peek(2).kind) {
            (TokenKind::Identifier(_), TokenKind::Colon) => true,
            _ => false,
        }
    }

    /// Whether `name :` follows, opening one named output.
    fn action_output_looks_named(&self) -> (r: bool)
        requires
            self.wf(),
        ensures
            r ==> self.cur_kind() is Identifier,
    {
        match (&self.current().kind, &self.peek(1).kind) {
            (TokenKind::Identifier(_), TokenKind::Colon) => true,
            _ => false,
        }
    }

    fn parse_action_output_binding(&mut self) -> (r: Result<ActionOutput>)
        requires
            old(self).wf(),
        ensures
            final(self).kept(old(self)),
            r is Ok ==> final(self).pos() > old(self).pos(),
            old(self).type_depth < MAX_PARSE_RECURSION_DEPTH && ident_like(old(self).cur_kind()) is Some && old(self).toks()[old(self).pos() + 1].kind
                is Colon && primitive_type(old(self).toks()[old(self).position + 2].kind) is Some ==> (r matches Ok(o) && Some(o.name@) == ident_like(old(
                self).cur_kind()) && Some(o.ty) == primitive_type(old(self).toks()[old(self).position + 2].kind) && final(self).position == old(self).position
                + 3),
    {
        let start_span = self.current().span;
        let name = self.parse_name()?;
        self.expect(TokenKind::Colon)?;
        let ty = self.parse_type()?;
        let end_span = self.current().span;
        Ok(ActionOutput { name, ty, span: Span::new(start_span.start, end_span.end, start_span.line, start_span.column) })
    }

    /// The `transition` clauses at the head of an action body.
    fn parse_action_clauses(&mut self) -> (r: Result<Vec<ActionStateEdge>>)
        requires
            old(self).wf(),
        ensures
            final(self).kept(old(self)),
            !(old(self).cur_kind() is Newline) && !(old(self).cur_kind() is Transition) ==> (r matches Ok(v)
                && v@.len() == 0 && final(self).position == old(self).position),
    {
        let mut state_edges: Vec<ActionStateEdge> = Vec::new();
        loop
            invariant
                self.kept(old(self)),
                !(old(self).cur_kind() is Newline) && !(old(self).cur_kind() is Transition) ==> state_edges@.len() == 0
                    && self.position == old(self).position,
            decreases self.remaining(),
        {
            self.skip_newlines();
            if self.check(&TokenKind::Transition) {
                let mut edges = self.parse_action_state_edges()?;
                state_edges.append(&mut edges);
            } else {
                break;
            }
        }
        Ok(state_edges)
    }

    /// `{ transitions verification statements }`; a `where` proof block is refused.
    fn parse_action_body(&mut self) -> (r: Result<(Vec<ActionStateEdge>, Vec<Stmt>)>)
        requires
            old(self).wf(),
        ensures
            final(self).kept(old(self)),
            !old(self).recovering() && old(self).at_top() && old(self).cur_kind() is LBrace && skip_breaks(old(self).toks(), old(self).pos() + 1) + 1 < old(self).toks().len() && old(self).toks()[skip_breaks(old(self).toks(), old(self).pos() + 1)].kind is Verification && stmt_error_at(old(self).toks(), skip_breaks(old(self).toks(), skip_breaks(old(self).toks(), old(self).pos() + 1) + 1)) is Some ==> (r matches Err(e) && Some((e.message@, code_text(e.code))) == stmt_error_at(old(self).toks(), skip_breaks(old(self).toks(), skip_breaks(old(self).toks(), old(self).pos() + 1) + 1))),
            r is Ok ==> final(self).pos() > old(self).pos(),
            old(self).cur_kind() is LBrace && old(self).toks()[old(self).pos() + 1].kind is Verification && old(self).toks()[old(self).position + 2].kind is RBrace ==> (r matches Ok(
                (edges, stmts)) && edges@.len() == 0 && stmts@.len() == 0 && final(self).position == old(self).position + 3),
    {
        self.skip_newlines();
        self.expect(TokenKind::LBrace)?;
        let ghost after_brace = self.pos();
        self.skip_newlines();
        proof {
            if old(self).cur_kind() is LBrace {
                lemma_skip_breaks(self.toks(), after_brace, self.pos());
            }
        }
        let state_edges = self.parse_action_clauses()?;
        self.skip_newlines();
        if self.at_word("where") {
            return Err(self.error_here("`where` action proof blocks are not supported; use `verification`"));
        }
        self.parse_verification_marker()?;
        let stmts = self.parse_entry_statements()?;
        Ok((state_edges, stmts))
    }

    /// Statements up to and including the closing brace of an entry body.
    fn parse_entry_statements(&mut self) -> (r: Result<Vec<Stmt>>)
        requires
            old(self).wf(),
        ensures
            final(self).kept(old(self)),
            !old(self).recovering() ==> (old(self).stmt_fails() matches Some((m, c)) ==> (r matches Err(e) && e.message@ == m && code_text(e.code) == c)),
            r is Ok ==> final(self).pos() > old(self).pos(),
            r is Ok ==> old(self).toks()[final(self).pos() - 1].kind is RBrace,
            old(self).cur_kind() is RBrace ==> final(self).pos() == old(self).pos() + 1 && (r matches Ok(v) && v@.len()
                == 0),
    {
        let mut stmts: Vec<Stmt> = Vec::new();
        while !self.check(&TokenKind::RBrace) && !self.check(&TokenKind::Eof)
            invariant
                old(self).cur_kind() is RBrace ==> self.pos() == old(self).pos() && stmts@.len() == 0,
                self.kept(old(self)),
                !old(self).recovering() && old(self).stmt_fails() is Some ==> self.pos() == old(self).pos(),
            decreases self.remaining(),
        {
            if let Some(stmt) = self.parse_stmt_recovering()? {
                stmts.push(stmt);
            }
            self.skip_newlines();
        }
        self.expect(TokenKind::RBrace)?;
        Ok(stmts)
    }

    /// One or more `transition` clauses, each a comma-separated list of edges.
    fn parse_action_state_edges(&mut self) -> (r: Result<Vec<ActionStateEdge>>)
        requires
            old(self).wf(),
        ensures
            final(self).kept(old(self)),
            old(self).cur_kind() is Transition && r is Ok ==> final(self).pos() > old(self).pos(),
            !(old(self).cur_kind() is Transition) ==> final(self).pos() == old(self).pos() && (r matches Ok(v)
                && v@.len() == 0),
    {
        let mut edges: Vec<ActionStateEdge> = Vec::new();
        if !self.check(&TokenKind::Transition) {
            return Ok(edges);
        }
        while self.check(&TokenKind::Transition)
            invariant
                old(self).cur_kind() is Transition,
                self.kept(old(self)),
                old(self).cur_kind() is Transition,
                self.pos() > old(self).pos() || self.cur_kind() is Transition,
            decreases self.remaining(),
        {
            let ghost iteration_start = self.pos();
            self.advance();
            self.skip_newlines();
            if self.check(&TokenKind::LBrace) {
                return Err(self.error_here("transition block syntax is not part of the canonical action surface"));
            }
            loop
                invariant
                    old(self).cur_kind() is Transition,
                    self.kept(old(self)),
                    self.pos() > old(self).pos(),
                    self.pos() > iteration_start,
                decreases self.remaining(),
            {
                let edge = self.parse_action_state_edge()?;
                edges.push(edge);
                if self.check(&TokenKind::Comma) {
                    self.advance();
                    continue;
                }
                break;
            }
            self.skip_newlines();
        }
        Ok(edges)
    }

    /// `input -> output` for lineage, or `input.field: From -> output.field: To` for a state edge.
    fn parse_action_state_edge(&mut self) -> (r: Result<ActionStateEdge>)
        requires
            old(self).wf(),
        ensures
            final(self).kept(old(self)),
            r is Ok ==> final(self).pos() > old(self).pos(),
            ident_like(old(self).cur_kind()) is Some && old(self).toks()[old(self).pos() + 1].kind is Arrow && ident_like(old(self).toks()[old(self).position + 2].kind) is Some
                && !(old(self).toks()[old(self).position + 3].kind is Dot) && !(old(self).toks()[old(self).position + 3].kind is ColonColon) ==> (r matches Ok(e) && Some(e.path.base@)
                == ident_like(old(self).cur_kind()) && Some(e.to_path.base@) == ident_like(old(self).toks()[old(self).position + 2].kind)
                && final(self).position == old(self).position + 3),
    {
        let start_span = self.current().span;
        let first = self.parse_name_path()?;
        if !self.check(&TokenKind::Dot) {
            self.expect(TokenKind::Arrow)?;
            let output_start = self.current().span;
            let output = self.parse_name_path()?;
            if self.check(&TokenKind::Dot) {
                return Err(
                    CompileError::at(
                        "lineage transition output must be a binding name: transition input -> output",
                        output_start,
                    ),
                );
            }
            let end_span = self.current().span;
            return Ok(ActionStateEdge {
                path: StateFieldPath { base: first, field: String::new(), span: start_span },
                to_path: StateFieldPath { base: output, field: String::new(), span: output_start },
                from: String::new(),
                to: String::new(),
                span: Span::new(start_span.start, end_span.end, start_span.line, start_span.column),
            });
        }
        self.advance();
        let field = self.parse_name()?;
        let path_span = Span::new(start_span.start, self.current().span.end, start_span.line, start_span.column);
        let path = StateFieldPath { base: first, field, span: path_span };
        if !self.check(&TokenKind::Colon) {
            return Err(
                self.error_here(
                    "state transition must put ':' before the source state: transition input.state: From -> output.state: To",
                ),
            );
        }
        self.advance();
        let from = self.parse_name_path()?;
        self.expect(TokenKind::Arrow)?;
        let to_start_span = self.current().span;
        let to_first = self.parse_name_path()?;
        if !self.check(&TokenKind::Dot) {
            return Err(
                CompileError::at(
                    "state transition must use an explicit output field path: transition input.state: From -> output.state: To",
                    to_start_span,
                ),
            );
        }
        self.advance();
        let to_field = self.parse_name()?;
        let to_path_span = Span::new(
            to_start_span.start,
            self.current().span.end,
            to_start_span.line,
            to_start_span.column,
        );
        let to_path = StateFieldPath { base: to_first, field: to_field, span: to_path_span };
        if !self.check(&TokenKind::Colon) {
            return Err(
                self.error_here(
                    "state transition must put ':' before the target state: transition input.state: From -> output.state: To",
                ),
            );
        }
        self.advance();
        let to = self.parse_name_path()?;
        let end_span = self.current().span;
        Ok(ActionStateEdge {
            path,
            to_path,
            from,
            to,
            span: Span::new(start_span.start, end_span.end, start_span.line, start_span.column),
        })
    }

    /// Parses `fn name<T>(params) [-> type] { ... }`.
    pub(crate) fn parse_fn(&mut self, effect: Option<EffectClass>) -> (r: Result<FnDef>)
        requires
            old(self).wf(),
        ensures
            final(self).kept(old(self)),
            r is Ok ==> final(self).pos() > old(self).pos(),
            r is Ok ==> old(self).cur_kind() is Fn,
            r matches Ok(f) ==> f.effect_declared == (effect is Some),
            r matches Ok(f) ==> f.effect == (match effect {
                Some(e) => e,
                None => EffectClass::Pure,
            }),
            r matches Ok(f) ==> params_well_formed(f.params@),
            r matches Ok(f) ==> f.doc_comment is None,
            old(self).cur_kind() is Fn && ident_like(old(self).toks()[old(self).pos() + 1].kind) is Some && old(self).toks()[old(self).pos() + 2].kind is LParen && old(self).toks()[old(self).pos() + 3].kind is RParen
                && old(self).toks()[old(self).pos() + 4].kind is LBrace && old(self).toks()[old(self).pos() + 5].kind is RBrace ==> (r matches Ok(f) && Some(f.name@) == ident_like(
                old(self).toks()[old(self).pos() + 1].kind) && f.type_params@.len() == 0 && f.params@.len() == 0 && f.return_type is None && f.body@.len()
                == 0 && final(self).pos() == old(self).pos() + 6),
    {
        let start_span = self.current().span;
        self.expect(TokenKind::Fn)?;
        let name = self.parse_name()?;
        let type_params = self.parse_type_params()?;
        let params = self.parse_params()?;
        let return_type = if self.check(&TokenKind::Arrow) {
            self.advance();
            Some(self.parse_type()?)
        } else {
            None
        };
        let body = self.parse_block()?;
        let end_span = self.current().span;
        let effect_declared = effect.is_some();
        let effect = match effect {
            Some(e) => e,
            None => EffectClass::Pure,
        };
        Ok(FnDef {
            name,
            type_params,
            params,
            return_type,
            body,
            effect,
            effect_declared,
            doc_comment: None,
            span: Span::new(start_span.start, end_span.end, start_span.line, start_span.column),
        })
    }

    /// Parses `lock name(params) [-> type] { verification statements }`; the result type is
    /// `bool` unless written.
    pub(crate) fn parse_lock(&mut self) -> (r: Result<LockDef>)
        requires
            old(self).wf(),
        ensures
            final(self).kept(old(self)),
            r is Ok ==> final(self).pos() > old(self).pos(),
            r is Ok ==> old(self).cur_kind() is Lock,
            r matches Ok(l) ==> params_well_formed(l.params@),
            old(self).cur_kind() is Lock && ident_like(old(self).toks()[old(self).pos() + 1].kind) is Some && old(self).toks()[old(self).pos() + 2].kind is LParen && old(self).toks()[old(self).pos() + 3].kind is RParen
                && old(self).toks()[old(self).pos() + 4].kind is LBrace && old(self).toks()[old(self).pos() + 5].kind is Verification && old(self).toks()[old(self).pos() + 6].kind is RBrace ==> (r matches Ok(l)
                && Some(l.name@) == ident_like(old(self).toks()[old(self).pos() + 1].kind) && l.params@.len() == 0 && l.return_type == Type::Bool
                && l.body@.len() == 0 && final(self).pos() == old(self).pos() + 7),
    {
        let start_span = self.current().span;
        self.expect(TokenKind::Lock)?;
        let name = self.parse_name()?;
        let params = self.parse_params()?;
        let return_type = if self.check(&TokenKind::Arrow) {
            self.advance();
            self.parse_type()?
        } else {
            Type::Bool
        };
        self.skip_newlines();
        self.expect(TokenKind::LBrace)?;
        self.skip_newlines();
        self.parse_verification_marker()?;
        let body = self.parse_entry_statements()?;
        let end_span = self.current().span;
        Ok(LockDef {
            name,
            params,
            return_type,
            body,
            span: Span::new(start_span.start, end_span.end, start_span.line, start_span.column),
        })
    }

    /// `( param, param, ... )`.
    pub(crate) fn parse_params(&mut self) -> (r: Result<Vec<Param>>)
        requires
            old(self).wf(),
        ensures
            final(self).kept(old(self)),
            r is Ok ==> final(self).pos() > old(self).pos(),
            r matches Ok(ps) ==> params_well_formed(ps@),
            !(old(self).cur_kind() is LParen) ==> r is Err,
            old(self).cur_kind() is LParen && old(self).toks()[old(self).pos() + 1].kind is RParen ==> final(self).pos()
                == old(self).pos() + 2 && (r matches Ok(v) && v@.len() == 0),
    {
        self.expect(TokenKind::LParen)?;
        let mut params: Vec<Param> = Vec::new();
        loop
            invariant
                old(self).cur_kind() is LParen && old(self).toks()[old(self).pos() + 1].kind is RParen ==> self.pos()
                    == old(self).pos() + 1 && params@.len() == 0,
                self.kept(old(self)),
                self.pos() > old(self).pos(),
                params_well_formed(params@),
            decreases self.remaining(),
        {
            self.skip_newlines();
            if self.check(&TokenKind::RParen) || self.check(&TokenKind::Eof) {
                break;
            }
            let param = self.parse_param()?;
            params.push(param);
            if self.check(&TokenKind::Comma) {
                self.advance();
            } else {
                break;
            }
        }
        self.skip_newlines();
        self.expect(TokenKind::RParen)?;
        Ok(params)
    }

    /// `[mut] [read|input|protected|witness|lock_args] name: [protected|witness|lock_args] Type`.
    pub(crate) fn parse_param(&mut self) -> (r: Result<Param>)
        requires
            old(self).wf(),
        ensures
            final(self).kept(old(self)),
            r is Ok ==> final(self).pos() > old(self).pos(),
            r matches Ok(p) ==> param_well_formed(p),
            old(self).cur_kind() is Ref ==> r is Err,
            r matches Ok(p) ==> p.is_mut == (old(self).cur_kind() is Mut),
    {
        let start_span = self.current().span;
        if self.check(&TokenKind::Ref) {
            return Err(
                self.error_here(
                    "parameter modifier 'ref' is reserved but unsupported; use '&T' for read-only helper views, or `action(before: T) -> after: T` plus `transition` and `require` constraints for Cell state updates",
                ),
            );
        }
        let is_ref = false;
        let is_mut = if self.check(&TokenKind::Mut) {
            self.advance();
            true
        } else {
            false
        };
        let (prefix_source, prefix_read_ref) = self.parse_param_source_prefix()?;
        let name = self.parse_name()?;
        self.expect(TokenKind::Colon)?;
        let postfix_source = if prefix_source == ParamSource::Default && !prefix_read_ref {
            self.parse_param_source_marker()
        } else {
            ParamSource::Default
        };
        let source = if postfix_source == ParamSource::Default {
            prefix_source
        } else {
            postfix_source
        };
        let is_read_ref = prefix_read_ref;
        let mut ty = if source == ParamSource::Protected {
            if is_read_ref {
                return Err(
                    self.error_here(
                        "protected parameters already denote the lock's protected read-only Cell view; remove 'read_ref'",
                    ),
                );
            }
            let protected_ty = self.parse_type()?;
            match protected_ty {
                Type::Ref(_) | Type::MutRef(_) => {
                    return Err(self.error_here("protected parameters use 'protected name: T', not 'protected name: &T'"));
                },
                ty => Type::Ref(Box::new(ty)),
            }
        } else {
            self.parse_type()?
        };
        if prefix_read_ref {
            ty = match ty {
                Type::Ref(inner) => Type::Ref(inner),
                other => Type::Ref(Box::new(other)),
            };
        }
        let end_span = self.current().span;
        Ok(Param {
            name,
            ty,
            is_mut,
            is_ref,
            is_read_ref,
            source,
            span: Span::new(start_span.start, end_span.end, start_span.line, start_span.column),
        })
    }

    /// A word before a parameter's name that selects its source; `output` is refused here.
    fn parse_param_source_prefix(&mut self) -> (r: Result<(ParamSource, bool)>)
        requires
            old(self).wf(),
        ensures
            final(self).kept(old(self)),
            final(self).pos() <= old(self).pos() + 1,
            r matches Ok((s, read)) ==> s != ParamSource::Output && (read ==> s == ParamSource::Default),
            r matches Ok((s, read)) ==> (s != ParamSource::Default || read) ==> final(self).pos() == old(self).pos()
                + 1,
            r is Ok <==> source_prefix(old(self).toks(), old(self).pos()) is Some,
            r matches Ok(x) ==> source_prefix(old(self).toks(), old(self).pos()) == Some(x),
    {
        let current_name = Self::token_ident_like_name(&self.current().kind);
        let next_is_name = Self::token_ident_like_name(&self.peek(1).kind).is_some();
        let next_next_is_colon = match &self.peek(2).kind {
            TokenKind::Colon => true,
            _ => false,
        };
        if !next_is_name || !next_next_is_colon {
            return Ok((ParamSource::Default, false));
        }
        match current_name {
            Some(word) => {
                if str_eq(word.as_str(), "read") {
                    self.advance();
                    Ok((ParamSource::Default, true))
                } else if str_eq(word.as_str(), "input") {
                    self.advance();
                    Ok((ParamSource::Input, false))
                } else if str_eq(word.as_str(), "output") {
                    Err(
                        self.error_here(
                            "`output name: T` is only valid on the action return side; write `action f(input: T) -> output: T`",
                        ),
                    )
                } else if str_eq(word.as_str(), "protected") {
                    self.advance();
                    Ok((ParamSource::Protected, false))
                } else if str_eq(word.as_str(), "witness") {
                    self.advance();
                    Ok((ParamSource::Witness, false))
                } else if str_eq(word.as_str(), "lock_args") {
                    self.advance();
                    Ok((ParamSource::LockArgs, false))
                } else {
                    Ok((ParamSource::Default, false))
                }
            },
            None => Ok((ParamSource::Default, false)),
        }
    }

    /// A word after a parameter's colon that selects its source, consumed when present.
    fn parse_param_source_marker(&mut self) -> (r: ParamSource)
        requires
            old(self).wf(),
        ensures
            final(self).kept(old(self)),
            r == spec_marker_source(old(self).cur_kind()),
            r != ParamSource::Output,
    {
        let source = match &self.current().kind {
            TokenKind::Identifier(name) => {
                if str_eq(name.as_str(), "protected") {
                    ParamSource::Protected
                } else if str_eq(name.as_str(), "witness") {
                    ParamSource::Witness
                } else if str_eq(name.as_str(), "lock_args") {
                    ParamSource::LockArgs
                } else {
                    ParamSource::Default
                }
            },
            _ => ParamSource::Default,
        };
        if source != ParamSource::Default {
            self.advance();
        }
        source
    }
}

} // verus!
