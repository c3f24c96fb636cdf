//! Focused review receipts for `same except` schema evolution.
//!
//! A receipt is off-chain review evidence. It binds one old/new schema pair and one canonical
//! authoring relation, but it does not authorize a package, deployment, or on-chain migration.
//! Newly added fields must be assigned explicitly before an acknowledgement can be created;
//! implicit preservation remains a blocking migration decision.
//!
//! The canonical hashes that bind plans, receipts, schemas and relations, and the source text of
//! an assigned expression, are computed by the caller and handed in as functions; what is checked
//! and decided around them is here.

use crate::ast::{ActionDef, Expr, Item, Module, ReplaceDataTreatment, ReplaceRelation, Stmt, Type};
use crate::error::{CompileError, Result};
use crate::protocol_bundle::order::{chars_lt, sorted_texts, strs_sorted, texts};
use crate::text::{blank, concat2, concat3, is_blank, lemma_trimmed_not_blank, str_eq, trim, trimmed};
use vstd::prelude::*;

verus! {

pub const SCHEMA_CHANGE_PLAN_SCHEMA: &'static str = "cellscript-schema-change-plan-v1";
pub const SCHEMA_ACKNOWLEDGEMENT_SCHEMA: &'static str = "cellscript-schema-acknowledgement-v1";
pub const SCHEMA_IDENTITY_DOMAIN: &'static str = "cellscript-authoring-schema-identity-v1";
pub const RELATION_IDENTITY_DOMAIN: &'static str = "cellscript-authoring-relation-identity-v1";
pub const PLAN_HASH_DOMAIN: &'static str = "cellscript-schema-change-plan-hash-v1";
pub const ACKNOWLEDGEMENT_HASH_DOMAIN: &'static str = "cellscript-schema-acknowledgement-hash-v1";
pub const SCHEMA_REVIEW_POLICY: &'static str = "reviewed-explicit-field-treatment-delta-v1";

/// Which `replace before -> after` relation of which action a plan is about.
#[derive(Debug, Clone, PartialEq, Eq)]
pub struct SchemaRelationSelector {
    pub action: String,
    pub before: String,
    pub after: String,
}

/// How a relation treats one field: `assign` with the source text of its expression, or
/// `preserve`.
#[derive(Debug, Clone, PartialEq, Eq)]
pub struct SchemaFieldPolicy {
    pub treatment: String,
    pub expression: Option<String>,
}

/// One field whose type or treatment differs between the old and new schema.
#[derive(Debug, Clone, PartialEq, Eq)]
pub struct SchemaFieldChange {
    pub field: String,
    pub classification: String,
    pub old_type: Option<String>,
    pub new_type: Option<String>,
    pub old_policy: Option<SchemaFieldPolicy>,
    pub new_policy: Option<SchemaFieldPolicy>,
}

/// A field treatment that must change before a plan can be acknowledged.
#[derive(Debug, Clone, PartialEq, Eq)]
pub struct SchemaAcknowledgementBlocker {
    pub code: String,
    pub field: String,
    pub message: String,
}

/// The reviewed difference between two schemas of one resource under one relation.
#[derive(Debug, Clone, PartialEq, Eq)]
pub struct SchemaChangePlan {
    pub schema: String,
    pub version: u32,
    pub module: String,
    pub selector: SchemaRelationSelector,
    pub resource_type: String,
    pub old_interface_hash: String,
    pub new_interface_hash: String,
    pub old_schema_identity: String,
    pub new_schema_identity: String,
    pub old_relation_identity: String,
    pub new_relation_identity: String,
    pub requires_acknowledgement: bool,
    pub state_migration_required: bool,
    pub field_changes: Vec<SchemaFieldChange>,
    pub blockers: Vec<SchemaAcknowledgementBlocker>,
    pub plan_hash: String,
}

/// A signed acknowledgement of one plan.
#[derive(Debug, Clone, PartialEq, Eq)]
pub struct SchemaAcknowledgementReceipt {
    pub schema: String,
    pub version: u32,
    pub plan_hash: String,
    pub module: String,
    pub selector: SchemaRelationSelector,
    pub resource_type: String,
    pub old_schema_identity: String,
    pub new_schema_identity: String,
    pub old_relation_identity: String,
    pub new_relation_identity: String,
    pub review_policy: String,
    pub reviewer: String,
    pub rationale: String,
    pub field_changes: Vec<SchemaFieldChange>,
    pub acknowledgement_hash: String,
}

/// A field of a typed resource schema, as compile metadata records it.
#[derive(Debug, Clone, PartialEq, Eq)]
pub struct TypedSemanticField {
    pub name: String,
    pub ty: String,
    pub offset: u32,
    pub width_bytes: Option<u32>,
}

/// A typed schema, as compile metadata records it.
#[derive(Debug, Clone, PartialEq, Eq)]
pub struct TypedSemanticType {
    pub name: String,
    pub kind: String,
    pub encoded_size: Option<u32>,
    pub fields: Vec<TypedSemanticField>,
}

/// What planning reads of one compilation: its module identity and interface hash, its syntax
/// tree, and the typed schemas its metadata records.
#[derive(Debug)]
pub struct SchemaCompilation {
    pub module: String,
    pub interface_hash: String,
    pub ast: Module,
    pub types: Vec<TypedSemanticType>,
}

// ---------------------------------------------------------------------------------------------
// Finding the relation.

/// The `replace before -> after` relations among `stmts`, in source order.
pub open spec fn stmts_relations(stmts: Seq<Stmt>, before: Seq<char>, after: Seq<char>) -> Seq<ReplaceRelation>
    decreases stmts,
{
    if stmts.len() == 0 {
        Seq::empty()
    } else {
        stmt_relations(stmts[0], before, after) + stmts_relations(stmts.subrange(1, stmts.len() as int), before, after)
    }
}

/// The `replace before -> after` relations of one statement, in source order.
pub open spec fn stmt_relations(s: Stmt, before: Seq<char>, after: Seq<char>) -> Seq<ReplaceRelation>
    decreases s,
{
    match s {
        Stmt::Expr(e) => expr_relations(e, before, after),
        Stmt::Let(l) => expr_relations(l.value, before, after),
        Stmt::Return(r) => match r.value {
            Some(v) => expr_relations(v, before, after),
            None => Seq::empty(),
        },
        Stmt::If(i) => expr_relations(i.condition, before, after) + stmts_relations(i.then_branch@, before, after) + match i.else_branch {
            Some(b) => stmts_relations(b@, before, after),
            None => Seq::empty(),
        },
        Stmt::For(f) => expr_relations(f.iterable, before, after) + stmts_relations(f.body@, before, after),
        Stmt::While(w) => expr_relations(w.condition, before, after) + stmts_relations(w.body@, before, after),
        Stmt::Borrow(b) => stmts_relations(b.body@, before, after),
        Stmt::Break(_) => Seq::empty(),
        Stmt::Continue(_) => Seq::empty(),
    }
}

/// The `replace before -> after` relations of match arms, in source order.
pub open spec fn arms_relations(arms: Seq<crate::ast::MatchArm>, before: Seq<char>, after: Seq<char>) -> Seq<ReplaceRelation>
    decreases arms,
{
    if arms.len() == 0 {
        Seq::empty()
    } else {
        expr_relations(arms[0].value, before, after) + arms_relations(arms.subrange(1, arms.len() as int), before, after)
    }
}

/// The `replace before -> after` relations of one expression, in source order; only blocks,
/// conditionals and matches are looked into.
pub open spec fn expr_relations(e: Expr, before: Seq<char>, after: Seq<char>) -> Seq<ReplaceRelation>
    decreases e,
{
    match e {
        Expr::ReplaceRelation(r) => if r.before@ == before && r.after@ == after {
            seq![r]
        } else {
            Seq::empty()
        },
        Expr::Block(stmts) => stmts_relations(stmts@, before, after),
        Expr::If(i) => expr_relations(*i.condition, before, after) + expr_relations(*i.then_branch, before, after)
            + expr_relations(*i.else_branch, before, after),
        Expr::Match(m) => expr_relations(*m.expr, before, after) + arms_relations(m.arms@, before, after),
        _ => Seq::empty(),
    }
}


/// `r` is what a search over `rels` reports: the first of them, and whether there are several.
pub open spec fn found(r: (Option<&ReplaceRelation>, bool), rels: Seq<ReplaceRelation>) -> bool {
    &&& (r.0 is None <==> rels.len() == 0)
    &&& (r.0 matches Some(x) ==> *x == rels[0])
    &&& r.1 == (rels.len() >= 2)
}

proof fn lemma_stmts_relations_prefix(s: Seq<Stmt>, i: int, before: Seq<char>, after: Seq<char>)
    requires
        0 <= i < s.len(),
    ensures
        stmts_relations(s.subrange(0, i + 1), before, after) == stmts_relations(s.subrange(0, i), before, after)
            + stmt_relations(s[i], before, after),
    decreases i,
{
    let p = s.subrange(0, i + 1);
    let q = s.subrange(0, i);
    if i == 0 {
        let e = p.subrange(1, p.len() as int);
        assert(e =~= Seq::<Stmt>::empty());
        assert(q =~= Seq::<Stmt>::empty());
        assert(stmts_relations(e, before, after) =~= Seq::<ReplaceRelation>::empty());
        assert(stmts_relations(q, before, after) =~= Seq::<ReplaceRelation>::empty());
        assert(p[0] == s[0]);
        assert(stmts_relations(p, before, after) =~= stmt_relations(s[0], before, after));
    } else {
        let t = s.subrange(1, s.len() as int);
        lemma_stmts_relations_prefix(t, i - 1, before, after);
        assert(p.subrange(1, p.len() as int) =~= t.subrange(0, i));
        assert(q.subrange(1, q.len() as int) =~= t.subrange(0, i - 1));
        assert(t[i - 1] == s[i]);
        assert(stmts_relations(p, before, after) =~= stmts_relations(q, before, after) + stmt_relations(s[i], before, after));
    }
}

proof fn lemma_arms_relations_prefix(s: Seq<crate::ast::MatchArm>, i: int, before: Seq<char>, after: Seq<char>)
    requires
        0 <= i < s.len(),
    ensures
        arms_relations(s.subrange(0, i + 1), before, after) == arms_relations(s.subrange(0, i), before, after)
            + expr_relations(s[i].value, before, after),
    decreases i,
{
    let p = s.subrange(0, i + 1);
    let q = s.subrange(0, i);
    if i == 0 {
        let e = p.subrange(1, p.len() as int);
        assert(e =~= Seq::<crate::ast::MatchArm>::empty());
        assert(q =~= Seq::<crate::ast::MatchArm>::empty());
        assert(arms_relations(e, before, after) =~= Seq::<ReplaceRelation>::empty());
        assert(arms_relations(q, before, after) =~= Seq::<ReplaceRelation>::empty());
        assert(p[0] == s[0]);
        assert(arms_relations(p, before, after) =~= expr_relations(s[0].value, before, after));
    } else {
        let t = s.subrange(1, s.len() as int);
        lemma_arms_relations_prefix(t, i - 1, before, after);
        assert(p.subrange(1, p.len() as int) =~= t.subrange(0, i));
        assert(q.subrange(1, q.len() as int) =~= t.subrange(0, i - 1));
        assert(t[i - 1] == s[i]);
        assert(arms_relations(p, before, after) =~= arms_relations(q, before, after) + expr_relations(s[i].value, before, after));
    }
}

/// What a search reports over two consecutive parts.
fn combine<'a>(
    a: (Option<&'a ReplaceRelation>, bool),
    b: (Option<&'a ReplaceRelation>, bool),
    Ghost(ra): Ghost<Seq<ReplaceRelation>>,
    Ghost(rb): Ghost<Seq<ReplaceRelation>>,
) -> (r: (Option<&'a ReplaceRelation>, bool))
    requires
        found(a, ra),
        found(b, rb),
    ensures
        found(r, ra + rb),
{
    let multiple = a.1 || b.1 || (a.0.is_some() && b.0.is_some());
    match a.0 {
        Some(x) => (Some(x), multiple),
        None => {
            assert(ra + rb =~= rb);
            (b.0, multiple)
        },
    }
}

fn relations_in_stmts<'a>(stmts: &'a Vec<Stmt>, before: &str, after: &str) -> (r: (Option<&'a ReplaceRelation>, bool))
    ensures
        found(r, stmts_relations(stmts@, before@, after@)),
    decreases stmts@,
{
    let mut acc: (Option<&'a ReplaceRelation>, bool) = (None, false);
    let mut i: usize = 0;
    assert(stmts@.subrange(0, 0) =~= Seq::<Stmt>::empty());
    while i < stmts.len()
        invariant
            i <= stmts@.len(),
            found(acc, stmts_relations(stmts@.subrange(0, i as int), before@, after@)),
        decreases stmts@.len() - i,
    {
        proof {
            lemma_stmts_relations_prefix(stmts@, i as int, before@, after@);
        }
        let part = relations_in_stmt(&stmts[i], before, after);
        acc = combine(
            acc,
            part,
            Ghost(stmts_relations(stmts@.subrange(0, i as int), before@, after@)),
            Ghost(stmt_relations(stmts@[i as int], before@, after@)),
        );
        i += 1;
    }
    assert(stmts@.subrange(0, stmts@.len() as int) =~= stmts@);
    acc
}

fn relations_in_stmt<'a>(s: &'a Stmt, before: &str, after: &str) -> (r: (Option<&'a ReplaceRelation>, bool))
    ensures
        found(r, stmt_relations(*s, before@, after@)),
    decreases s,
{
    match s {
        Stmt::Expr(e) => relations_in_expr(e, before, after),
        Stmt::Let(l) => relations_in_expr(&l.value, before, after),
        Stmt::Return(ret) => match &ret.value {
            Some(v) => relations_in_expr(v, before, after),
            None => (None, false),
        },
        Stmt::If(i) => {
            let c = relations_in_expr(&i.condition, before, after);
            let t = relations_in_stmts(&i.then_branch, before, after);
            let ct = combine(
                c,
                t,
                Ghost(expr_relations(i.condition, before@, after@)),
                Ghost(stmts_relations(i.then_branch@, before@, after@)),
            );
            match &i.else_branch {
                Some(b) => {
                    let e = relations_in_stmts(b, before, after);
                    combine(
                        ct,
                        e,
                        Ghost(expr_relations(i.condition, before@, after@) + stmts_relations(i.then_branch@, before@, after@)),
                        Ghost(stmts_relations(b@, before@, after@)),
                    )
                },
                None => {
                    assert(expr_relations(i.condition, before@, after@) + stmts_relations(i.then_branch@, before@, after@)
                        + Seq::<ReplaceRelation>::empty() =~= expr_relations(i.condition, before@, after@) + stmts_relations(
                        i.then_branch@,
                        before@,
                        after@,
                    ));
                    ct
                },
            }
        },
        Stmt::For(f) => {
            let a = relations_in_expr(&f.iterable, before, after);
            let b = relations_in_stmts(&f.body, before, after);
            combine(a, b, Ghost(expr_relations(f.iterable, before@, after@)), Ghost(stmts_relations(f.body@, before@, after@)))
        },
        Stmt::While(w) => {
            let a = relations_in_expr(&w.condition, before, after);
            let b = relations_in_stmts(&w.body, before, after);
            combine(a, b, Ghost(expr_relations(w.condition, before@, after@)), Ghost(stmts_relations(w.body@, before@, after@)))
        },
        Stmt::Borrow(b) => relations_in_stmts(&b.body, before, after),
        Stmt::Break(_) => (None, false),
        Stmt::Continue(_) => (None, false),
    }
}

fn relations_in_expr<'a>(e: &'a Expr, before: &str, after: &str) -> (r: (Option<&'a ReplaceRelation>, bool))
    ensures
        found(r, expr_relations(*e, before@, after@)),
    decreases e,
{
    match e {
        Expr::ReplaceRelation(rel) => {
            if str_eq(rel.before.as_str(), before) && str_eq(rel.after.as_str(), after) {
                (Some(rel), false)
            } else {
                (None, false)
            }
        },
        Expr::Block(stmts) => relations_in_stmts(stmts, before, after),
        Expr::If(i) => {
            let a = relations_in_expr(&i.condition, before, after);
            let b = relations_in_expr(&i.then_branch, before, after);
            let c = relations_in_expr(&i.else_branch, before, after);
            let ab = combine(
                a,
                b,
                Ghost(expr_relations(*i.condition, before@, after@)),
                Ghost(expr_relations(*i.then_branch, before@, after@)),
            );
            combine(
                ab,
                c,
                Ghost(expr_relations(*i.condition, before@, after@) + expr_relations(*i.then_branch, before@, after@)),
                Ghost(expr_relations(*i.else_branch, before@, after@)),
            )
        },
        Expr::Match(m) => {
            let a = relations_in_expr(&m.expr, before, after);
            let b = relations_in_arms(&m.arms, before, after);
            combine(a, b, Ghost(expr_relations(*m.expr, before@, after@)), Ghost(arms_relations(m.arms@, before@, after@)))
        },
        _ => (None, false),
    }
}

fn relations_in_arms<'a>(arms: &'a Vec<crate::ast::MatchArm>, before: &str, after: &str) -> (r: (
    Option<&'a ReplaceRelation>,
    bool,
))
    ensures
        found(r, arms_relations(arms@, before@, after@)),
    decreases arms@,
{
    let mut acc: (Option<&'a ReplaceRelation>, bool) = (None, false);
    let mut k: usize = 0;
    assert(arms@.subrange(0, 0) =~= Seq::<crate::ast::MatchArm>::empty());
    while k < arms.len()
        invariant
            k <= arms@.len(),
            found(acc, arms_relations(arms@.subrange(0, k as int), before@, after@)),
        decreases arms@.len() - k,
    {
        proof {
            lemma_arms_relations_prefix(arms@, k as int, before@, after@);
        }
        let part = relations_in_expr(&arms[k].value, before, after);
        acc = combine(
            acc,
            part,
            Ghost(arms_relations(arms@.subrange(0, k as int), before@, after@)),
            Ghost(expr_relations(arms@[k as int].value, before@, after@)),
        );
        k += 1;
    }
    assert(arms@.subrange(0, arms@.len() as int) =~= arms@);
    acc
}


// ---------------------------------------------------------------------------------------------
// Locating the action, its relation and the resource it relates.

/// `item` is an action named `name`.
pub open spec fn is_action_named(item: Item, name: Seq<char>) -> bool {
    item matches Item::Action(a) && a.name@ == name
}

/// The first action of `items` named `name`.
pub open spec fn action_index(items: Seq<Item>, name: Seq<char>) -> Option<int> {
    if exists|k: int| 0 <= k < items.len() && is_action_named(#[trigger] items[k], name) {
        Some(choose|k: int|
            0 <= k < items.len() && is_action_named(#[trigger] items[k], name) && forall|j: int|
                0 <= j < k ==> !is_action_named(#[trigger] items[j], name))
    } else {
        None
    }
}

/// The message for a module without the selected action.
pub open spec fn missing_action_message(label: Seq<char>, name: Seq<char>) -> Seq<char> {
    label + " module has no action '"@ + name + "'"@
}

fn find_action<'a>(module: &'a Module, name: &str, label: &str) -> (r: Result<&'a ActionDef>)
    ensures
        match action_index(module.items@, name@) {
            Some(k) => r matches Ok(a) && module.items@[k] == Item::Action(*a),
            None => r matches Err(e) && e.message@ == missing_action_message(label@, name@),
        },
{
    proof {
        reveal_strlit(" module has no action '");
        reveal_strlit("'");
    }
    let mut k: usize = 0;
    while k < module.items.len()
        invariant
            k <= module.items@.len(),
            forall|j: int| 0 <= j < k ==> !is_action_named(#[trigger] module.items@[j], name@),
        decreases module.items@.len() - k,
    {
        match &module.items[k] {
            Item::Action(a) => {
                if str_eq(a.name.as_str(), name) {
                    proof {
                        assert(is_action_named(module.items@[k as int], name@));
                        let c = choose|c: int|
                            0 <= c < module.items@.len() && is_action_named(#[trigger] module.items@[c], name@) && forall|j: int|
                                0 <= j < c ==> !is_action_named(#[trigger] module.items@[j], name@);
                    }
                    return Ok(a);
                }
            },
            _ => {},
        }
        k += 1;
    }
    let mut m = concat3(label, " module has no action '", name);
    m.append("'");
    Err(CompileError::without_span(m.as_str()))
}

/// The error locating the selected relation in an action reports, if any.
pub open spec fn relation_error(action: ActionDef, selector: SchemaRelationSelector, label: Seq<char>) -> Option<Seq<char>> {
    let rels = stmts_relations(action.body@, selector.before@, selector.after@);
    if rels.len() == 0 {
        Some(label + " action '"@ + selector.action@ + "' has no `replace "@ + selector.before@ + " -> "@ + selector.after@
            + "` relation"@)
    } else if rels.len() >= 2 {
        Some(label + " action '"@ + selector.action@ + "' has multiple `replace "@ + selector.before@ + " -> "@
            + selector.after@ + "` relations; acknowledgement selectors must be unique"@)
    } else {
        None
    }
}

fn find_relation<'a>(action: &'a ActionDef, selector: &SchemaRelationSelector, label: &str) -> (r: Result<&'a ReplaceRelation>)
    ensures
        match relation_error(*action, *selector, label@) {
            Some(m) => r matches Err(e) && e.message@ == m,
            None => r matches Ok(x) && *x == stmts_relations(action.body@, selector.before@, selector.after@)[0],
        },
{
    proof {
        reveal_strlit(" action '");
        reveal_strlit("' has no `replace ");
        reveal_strlit(" -> ");
        reveal_strlit("` relation");
        reveal_strlit("' has multiple `replace ");
        reveal_strlit("` relations; acknowledgement selectors must be unique");
    }
    let (first, multiple) = relations_in_stmts(&action.body, selector.before.as_str(), selector.after.as_str());
    match first {
        None => {
            let mut m = concat3(label, " action '", selector.action.as_str());
            m.append("' has no `replace ");
            m.append(selector.before.as_str());
            m.append(" -> ");
            m.append(selector.after.as_str());
            m.append("` relation");
            Err(CompileError::without_span(m.as_str()))
        },
        Some(x) => {
            if multiple {
                let mut m = concat3(label, " action '", selector.action.as_str());
                m.append("' has multiple `replace ");
                m.append(selector.before.as_str());
                m.append(" -> ");
                m.append(selector.after.as_str());
                m.append("` relations; acknowledgement selectors must be unique");
                Err(CompileError::without_span(m.as_str()))
            } else {
                Ok(x)
            }
        },
    }
}

/// The type of the first parameter named `name`.
pub open spec fn param_type(params: Seq<crate::ast::Param>, name: Seq<char>) -> Option<Type> {
    if exists|k: int| 0 <= k < params.len() && #[trigger] params[k].name@ == name {
        Some(params[choose|k: int|
            0 <= k < params.len() && #[trigger] params[k].name@ == name && forall|j: int| 0 <= j < k ==> #[trigger] params[j].name@ != name].ty)
    } else {
        None
    }
}

/// The type of the first output named `name`.
pub open spec fn output_type(outputs: Seq<crate::ast::ActionOutput>, name: Seq<char>) -> Option<Type> {
    if exists|k: int| 0 <= k < outputs.len() && #[trigger] outputs[k].name@ == name {
        Some(outputs[choose|k: int|
            0 <= k < outputs.len() && #[trigger] outputs[k].name@ == name && forall|j: int| 0 <= j < k ==> #[trigger] outputs[j].name@ != name].ty)
    } else {
        None
    }
}

/// The resource type an action's relation relates, or the error finding it reports.
pub open spec fn resource_outcome(action: ActionDef, selector: SchemaRelationSelector, label: Seq<char>) -> core::result::Result<
    Seq<char>,
    Seq<char>,
> {
    match param_type(action.params@, selector.before@) {
        None => Err(label + " relation predecessor '"@ + selector.before@ + "' is not an action parameter"@),
        Some(bt) => {
            let at = match output_type(action.outputs@, selector.after@) {
                Some(t) => Some(t),
                None => param_type(action.params@, selector.after@),
            };
            match at {
                None => Err(label + " relation successor '"@ + selector.after@ + "' is not an action output"@),
                Some(at) => match (bt, at) {
                    (Type::Named(b), Type::Named(a)) => if b@ != a@ {
                        Err(label + " relation changes resource type from '"@ + b@ + "' to '"@ + a@ + "'"@)
                    } else {
                        Ok(b@)
                    },
                    _ => Err("schema acknowledgement requires concrete named Cell resource roles"@),
                },
            }
        },
    }
}

fn find_param_type<'a>(params: &'a Vec<crate::ast::Param>, name: &str) -> (r: Option<&'a Type>)
    ensures
        match param_type(params@, name@) {
            Some(t) => r matches Some(x) && *x == t,
            None => r is None,
        },
{
    let mut k: usize = 0;
    while k < params.len()
        invariant
            k <= params@.len(),
            forall|j: int| 0 <= j < k ==> #[trigger] params@[j].name@ != name@,
        decreases params@.len() - k,
    {
        if str_eq(params[k].name.as_str(), name) {
            proof {
                let c = choose|c: int|
                    0 <= c < params@.len() && #[trigger] params@[c].name@ == name@ && forall|j: int|
                        0 <= j < c ==> #[trigger] params@[j].name@ != name@;
                if c > k {
                    assert(params@[k as int].name@ == name@);
                }
                if c < k {
                    assert(params@[c].name@ != name@);
                }
            }
            return Some(&params[k].ty);
        }
        k += 1;
    }
    None
}

fn find_output_type<'a>(outputs: &'a Vec<crate::ast::ActionOutput>, name: &str) -> (r: Option<&'a Type>)
    ensures
        match output_type(outputs@, name@) {
            Some(t) => r matches Some(x) && *x == t,
            None => r is None,
        },
{
    let mut k: usize = 0;
    while k < outputs.len()
        invariant
            k <= outputs@.len(),
            forall|j: int| 0 <= j < k ==> #[trigger] outputs@[j].name@ != name@,
        decreases outputs@.len() - k,
    {
        if str_eq(outputs[k].name.as_str(), name) {
            proof {
                let c = choose|c: int|
                    0 <= c < outputs@.len() && #[trigger] outputs@[c].name@ == name@ && forall|j: int|
                        0 <= j < c ==> #[trigger] outputs@[j].name@ != name@;
                if c > k {
                    assert(outputs@[k as int].name@ == name@);
                }
                if c < k {
                    assert(outputs@[c].name@ != name@);
                }
            }
            return Some(&outputs[k].ty);
        }
        k += 1;
    }
    None
}

fn relation_resource_type(action: &ActionDef, selector: &SchemaRelationSelector, label: &str) -> (r: Result<String>)
    ensures
        match resource_outcome(*action, *selector, label@) {
            Ok(t) => r matches Ok(s) && s@ == t,
            Err(m) => r matches Err(e) && e.message@ == m,
        },
{
    proof {
        reveal_strlit(" relation predecessor '");
        reveal_strlit("' is not an action parameter");
        reveal_strlit(" relation successor '");
        reveal_strlit("' is not an action output");
        reveal_strlit(" relation changes resource type from '");
        reveal_strlit("' to '");
        reveal_strlit("'");
        reveal_strlit("schema acknowledgement requires concrete named Cell resource roles");
    }
    let before = match find_param_type(&action.params, selector.before.as_str()) {
        Some(t) => t,
        None => {
            let mut m = concat3(label, " relation predecessor '", selector.before.as_str());
            m.append("' is not an action parameter");
            return Err(CompileError::without_span(m.as_str()));
        },
    };
    let after = match find_output_type(&action.outputs, selector.after.as_str()) {
        Some(t) => t,
        None => match find_param_type(&action.params, selector.after.as_str()) {
            Some(t) => t,
            None => {
                let mut m = concat3(label, " relation successor '", selector.after.as_str());
                m.append("' is not an action output");
                return Err(CompileError::without_span(m.as_str()));
            },
        },
    };
    match (before, after) {
        (Type::Named(b), Type::Named(a)) => {
            if !str_eq(b.as_str(), a.as_str()) {
                let mut m = concat3(label, " relation changes resource type from '", b.as_str());
                m.append("' to '");
                m.append(a.as_str());
                m.append("'");
                Err(CompileError::without_span(m.as_str()))
            } else {
                Ok(b.clone())
            }
        },
        _ => Err(CompileError::without_span("schema acknowledgement requires concrete named Cell resource roles")),
    }
}

/// The first concrete resource schema named `name`.
pub open spec fn resource_schema(types: Seq<TypedSemanticType>, name: Seq<char>) -> Option<int> {
    if exists|k: int| 0 <= k < types.len() && #[trigger] types[k].name@ == name && types[k].kind@ == "resource"@ {
        Some(choose|k: int|
            0 <= k < types.len() && #[trigger] types[k].name@ == name && types[k].kind@ == "resource"@ && forall|j: int|
                0 <= j < k ==> !(#[trigger] types[j].name@ == name && types[j].kind@ == "resource"@))
    } else {
        None
    }
}

/// The message for metadata without the resource's schema.
pub open spec fn missing_schema_message(label: Seq<char>, name: Seq<char>) -> Seq<char> {
    label + " metadata has no concrete resource schema '"@ + name + "'"@
}

fn typed_schema<'a>(types: &'a Vec<TypedSemanticType>, resource_type: &str, label: &str) -> (r: Result<&'a TypedSemanticType>)
    ensures
        match resource_schema(types@, resource_type@) {
            Some(k) => r matches Ok(t) && *t == types@[k],
            None => r matches Err(e) && e.message@ == missing_schema_message(label@, resource_type@),
        },
{
    proof {
        reveal_strlit(" metadata has no concrete resource schema '");
        reveal_strlit("'");
        reveal_strlit("resource");
    }
    let mut k: usize = 0;
    while k < types.len()
        invariant
            k <= types@.len(),
            forall|j: int| 0 <= j < k ==> !(#[trigger] types@[j].name@ == resource_type@ && types@[j].kind@ == "resource"@),
        decreases types@.len() - k,
    {
        if str_eq(types[k].name.as_str(), resource_type) && str_eq(types[k].kind.as_str(), "resource") {
            proof {
                let c = choose|c: int|
                    0 <= c < types@.len() && #[trigger] types@[c].name@ == resource_type@ && types@[c].kind@ == "resource"@
                        && forall|j: int| 0 <= j < c ==> !(#[trigger] types@[j].name@ == resource_type@ && types@[j].kind@ == "resource"@);
                if c > k {
                    assert(types@[k as int].name@ == resource_type@);
                }
            }
            return Ok(&types[k]);
        }
        k += 1;
    }
    let mut m = concat3(label, " metadata has no concrete resource schema '", resource_type);
    m.append("'");
    Err(CompileError::without_span(m.as_str()))
}


// ---------------------------------------------------------------------------------------------
// Field treatments.

/// The index of the last `same except` assignment to field `name`, which is the one that counts.
pub open spec fn last_assignment(asg: Seq<(String, Expr)>, name: Seq<char>) -> Option<int>
    decreases asg.len(),
{
    if asg.len() == 0 {
        None
    } else if asg.last().0@ == name {
        Some(asg.len() - 1)
    } else {
        last_assignment(asg.drop_last(), name)
    }
}

/// `p` is how a `same except` relation with assignments `asg` treats field `name`: an assigned
/// field carries the source text `format` gives its expression, any other is preserved.
pub open spec fn policy_for<F: Fn(&Expr) -> String>(p: SchemaFieldPolicy, asg: Seq<(String, Expr)>, name: Seq<char>, format: F) -> bool {
    match last_assignment(asg, name) {
        Some(k) => p.treatment@ == "assign"@ && (p.expression matches Some(t) && call_ensures(format, (&asg[k].1,), t)),
        None => p.treatment@ == "preserve"@ && p.expression is None,
    }
}

/// The names of a schema's fields.
pub open spec fn field_names(fields: Seq<TypedSemanticField>) -> Seq<Seq<char>> {
    fields.map_values(|f: TypedSemanticField| f.name@)
}

/// The field names a list of treatments is keyed by.
pub open spec fn policy_names(ps: Seq<(String, SchemaFieldPolicy)>) -> Seq<Seq<char>> {
    ps.map_values(|x: (String, SchemaFieldPolicy)| x.0@)
}

/// `ps` gives each field of the schema its treatment under the assignments `asg`, once per field
/// name, sorted by name.
pub open spec fn policies_for<F: Fn(&Expr) -> String>(
    ps: Seq<(String, SchemaFieldPolicy)>,
    asg: Seq<(String, Expr)>,
    fields: Seq<TypedSemanticField>,
    format: F,
) -> bool {
    &&& strs_sorted(policy_names(ps))
    &&& policy_names(ps).to_set() == field_names(fields).to_set()
    &&& forall|i: int| 0 <= i < ps.len() ==> policy_for(#[trigger] ps[i].1, asg, ps[i].0@, format)
}

/// The relation's `same except` assignments, if its data treatment is one.
pub open spec fn same_except(relation: ReplaceRelation) -> Option<Seq<(String, Expr)>> {
    match relation.data {
        ReplaceDataTreatment::SameExcept(asg) => Some(asg@),
        _ => None,
    }
}

/// The message for a relation that does not keep data `same except` some fields.
pub open spec fn same_except_message() -> Seq<char> {
    "schema acknowledgement is defined only for `data = same except { ... }` relations"@
}

proof fn lemma_last_assignment_in_range(asg: Seq<(String, Expr)>, name: Seq<char>)
    ensures
        last_assignment(asg, name) matches Some(k) ==> 0 <= k < asg.len(),
    decreases asg.len(),
{
    if asg.len() > 0 {
        lemma_last_assignment_in_range(asg.drop_last(), name);
    }
}

fn find_last_assignment(asg: &Vec<(String, Expr)>, name: &str) -> (r: Option<usize>)
    ensures
        match last_assignment(asg@, name@) {
            Some(k) => r matches Some(i) && i as int == k && k < asg@.len(),
            None => r is None,
        },
{
    let mut found: Option<usize> = None;
    let mut i: usize = 0;
    while i < asg.len()
        invariant
            i <= asg@.len(),
            found matches Some(f) ==> f < i,
            match last_assignment(asg@.subrange(0, i as int), name@) {
                Some(k) => found matches Some(f) && f as int == k,
                None => found is None,
            },
        decreases asg@.len() - i,
    {
        proof {
            assert(asg@.subrange(0, i + 1).drop_last() =~= asg@.subrange(0, i as int));
            assert(asg@.subrange(0, i + 1).last() == asg@[i as int]);
        }
        if str_eq(asg[i].0.as_str(), name) {
            found = Some(i);
        }
        i += 1;
    }
    assert(asg@.subrange(0, asg@.len() as int) =~= asg@);
    proof {
        lemma_last_assignment_in_range(asg@, name@);
    }
    found
}

/// The treatment of every field of `schema` under a `same except` relation, sorted by field
/// name; `format_expression` gives an assigned expression's source text.
fn relation_policies<F: Fn(&Expr) -> String>(
    relation: &ReplaceRelation,
    schema: &TypedSemanticType,
    format_expression: &F,
) -> (r: Result<Vec<(String, SchemaFieldPolicy)>>)
    requires
        forall|e: &Expr| call_requires(*format_expression, (e,)),
    ensures
        match same_except(*relation) {
            None => r matches Err(e) && e.message@ == same_except_message(),
            Some(asg) => r matches Ok(ps) && policies_for(ps@, asg, schema.fields@, *format_expression),
        },
{
    let assignments = match &relation.data {
        ReplaceDataTreatment::SameExcept(a) => a,
        _ => {
            return Err(
                CompileError::without_span("schema acknowledgement is defined only for `data = same except { ... }` relations"),
            )
        },
    };
    let mut raw: Vec<String> = Vec::new();
    let mut i: usize = 0;
    while i < schema.fields.len()
        invariant
            i <= schema.fields@.len(),
            raw@.len() == i,
            texts(raw@) == field_names(schema.fields@).take(i as int),
        decreases schema.fields@.len() - i,
    {
        let ghost before = raw@;
        raw.push(schema.fields[i].name.clone());
        proof {
            assert forall|j: int| 0 <= j < i + 1 implies #[trigger] texts(raw@)[j] == field_names(schema.fields@).take(i + 1)[j] by {
                if j < i {
                    assert(raw@[j] == before[j]);
                    assert(texts(before)[j] == field_names(schema.fields@).take(i as int)[j]);
                }
            }
            assert(texts(raw@) =~= field_names(schema.fields@).take(i + 1));
        }
        i += 1;
    }
    assert(field_names(schema.fields@).take(schema.fields@.len() as int) =~= field_names(schema.fields@));
    let names = sorted_texts(&raw);
    let mut out: Vec<(String, SchemaFieldPolicy)> = Vec::new();
    let mut k: usize = 0;
    assert(policy_names(out@) =~= texts(names@).take(0));
    while k < names.len()
        invariant
            forall|e: &Expr| call_requires(*format_expression, (e,)),
            k <= names@.len(),
            out@.len() == k,
            policy_names(out@) == texts(names@).take(k as int),
            forall|j: int| 0 <= j < out@.len() ==> policy_for(#[trigger] out@[j].1, assignments@, out@[j].0@, *format_expression),
        decreases names@.len() - k,
    {
        let name = names[k].clone();
        proof {
            reveal_strlit("assign");
            reveal_strlit("preserve");
        }
        let nm = name.as_str();
        assert(nm@ == name@);
        let found = find_last_assignment(assignments, nm);
        let policy = match found {
            Some(a) => {
                let text = format_expression(&assignments[a].1);
                assert(call_ensures(*format_expression, (&assignments@[a as int].1,), text));
                let p = SchemaFieldPolicy { treatment: "assign".to_owned(), expression: Some(text) };
                assert(p.treatment@ == "assign"@);
                assert(last_assignment(assignments@, name@) == Some(a as int));
                p
            },
            None => SchemaFieldPolicy { treatment: "preserve".to_owned(), expression: None },
        };
        assert(policy_for(policy, assignments@, name@, *format_expression));
        let ghost before = out@;
        out.push((name, policy));
        proof {
            assert forall|j: int| 0 <= j < k + 1 implies #[trigger] policy_names(out@)[j] == texts(names@).take(k + 1)[j] by {
                if j < k {
                    assert(out@[j] == before[j]);
                    assert(policy_names(before)[j] == texts(names@).take(k as int)[j]);
                }
            }
            assert forall|j: int| 0 <= j < out@.len() implies policy_for(#[trigger] out@[j].1, assignments@, out@[j].0@, *format_expression) by {
                if j < k {
                    assert(out@[j] == before[j]);
                }
            }
            assert(policy_names(out@) =~= texts(names@).take(k + 1));
        }
        k += 1;
    }
    proof {
        assert(policy_names(out@) =~= texts(names@));
    }
    Ok(out)
}


// ---------------------------------------------------------------------------------------------
// The field-by-field difference.

/// The type text a schema gives field `name`: that of the last field of the name.
pub open spec fn field_type(fields: Seq<TypedSemanticField>, name: Seq<char>) -> Option<Seq<char>>
    decreases fields.len(),
{
    if fields.len() == 0 {
        None
    } else if fields.last().name@ == name {
        Some(fields.last().ty@)
    } else {
        field_type(fields.drop_last(), name)
    }
}

/// The treatment a list of treatments gives field `name`: that of its last entry for the name.
pub open spec fn policy_of(ps: Seq<(String, SchemaFieldPolicy)>, name: Seq<char>) -> Option<SchemaFieldPolicy>
    decreases ps.len(),
{
    if ps.len() == 0 {
        None
    } else if ps.last().0@ == name {
        Some(ps.last().1)
    } else {
        policy_of(ps.drop_last(), name)
    }
}

/// An optional text as characters.
pub open spec fn opt_text(o: Option<String>) -> Option<Seq<char>> {
    match o {
        Some(s) => Some(s@),
        None => None,
    }
}

/// A treatment as characters: its kind and expression text.
pub open spec fn policy_view(p: Option<SchemaFieldPolicy>) -> Option<(Seq<char>, Option<Seq<char>>)> {
    match p {
        Some(p) => Some((p.treatment@, opt_text(p.expression))),
        None => None,
    }
}

/// How a field changed, if it did: added, removed, retyped, or only treated differently.
pub open spec fn classification(
    old_type: Option<Seq<char>>,
    new_type: Option<Seq<char>>,
    old_policy: Option<SchemaFieldPolicy>,
    new_policy: Option<SchemaFieldPolicy>,
) -> Option<Seq<char>> {
    if old_type is None && new_type is Some {
        Some("added"@)
    } else if old_type is Some && new_type is None {
        Some("removed"@)
    } else if old_type is Some && new_type is Some && old_type != new_type {
        Some("type-changed"@)
    } else if policy_view(old_policy) != policy_view(new_policy) {
        Some("policy-changed"@)
    } else {
        None
    }
}

/// A field change as characters: field, classification, old and new type, old and new treatment.
pub open spec fn change_view(c: SchemaFieldChange) -> (
    Seq<char>,
    Seq<char>,
    Option<Seq<char>>,
    Option<Seq<char>>,
    Option<(Seq<char>, Option<Seq<char>>)>,
    Option<(Seq<char>, Option<Seq<char>>)>,
) {
    (c.field@, c.classification@, opt_text(c.old_type), opt_text(c.new_type), policy_view(c.old_policy), policy_view(c.new_policy))
}

/// A blocker as characters: code, field and message.
pub open spec fn blocker_view(b: SchemaAcknowledgementBlocker) -> (Seq<char>, Seq<char>, Seq<char>) {
    (b.code@, b.field@, b.message@)
}

/// The message of the blocker for a new field that `same except` preserves implicitly.
pub open spec fn implicit_preserve_message(name: Seq<char>) -> Seq<char> {
    "new field '"@ + name
        + "' is implicitly preserved by `same except`; assign it explicitly before acknowledging the schema change"@
}

/// The changes of the fields `names`, in that order, between the old and new schemas and
/// treatments; unchanged fields are left out.
pub open spec fn changes_spec(
    names: Seq<Seq<char>>,
    old_fields: Seq<TypedSemanticField>,
    new_fields: Seq<TypedSemanticField>,
    old_ps: Seq<(String, SchemaFieldPolicy)>,
    new_ps: Seq<(String, SchemaFieldPolicy)>,
) -> Seq<(Seq<char>, Seq<char>, Option<Seq<char>>, Option<Seq<char>>, Option<(Seq<char>, Option<Seq<char>>)>, Option<(Seq<char>, Option<Seq<char>>)>)>
    decreases names.len(),
{
    if names.len() == 0 {
        Seq::empty()
    } else {
        let prev = changes_spec(names.drop_last(), old_fields, new_fields, old_ps, new_ps);
        let n = names.last();
        let ot = field_type(old_fields, n);
        let nt = field_type(new_fields, n);
        let op = policy_of(old_ps, n);
        let np = policy_of(new_ps, n);
        match classification(ot, nt, op, np) {
            Some(c) => prev.push((n, c, ot, nt, policy_view(op), policy_view(np))),
            None => prev,
        }
    }
}

/// The blockers among the fields `names`, in that order: each new field that is preserved
/// implicitly.
pub open spec fn blockers_spec(
    names: Seq<Seq<char>>,
    old_fields: Seq<TypedSemanticField>,
    new_fields: Seq<TypedSemanticField>,
    new_ps: Seq<(String, SchemaFieldPolicy)>,
) -> Seq<(Seq<char>, Seq<char>, Seq<char>)>
    decreases names.len(),
{
    if names.len() == 0 {
        Seq::empty()
    } else {
        let prev = blockers_spec(names.drop_last(), old_fields, new_fields, new_ps);
        let n = names.last();
        if field_type(old_fields, n) is None && field_type(new_fields, n) is Some && (policy_of(new_ps, n) matches Some(p)
            && p.treatment@ == "preserve"@) {
            prev.push(("SACK1001"@, n, implicit_preserve_message(n)))
        } else {
            prev
        }
    }
}

fn copy_text(o: &Option<String>) -> (r: Option<String>)
    ensures
        opt_text(r) == opt_text(*o),
{
    match o {
        Some(s) => Some(s.clone()),
        None => None,
    }
}

fn copy_policy(p: &SchemaFieldPolicy) -> (r: SchemaFieldPolicy)
    ensures
        policy_view(Some(r)) == policy_view(Some(*p)),
{
    SchemaFieldPolicy { treatment: p.treatment.clone(), expression: copy_text(&p.expression) }
}

fn same_policy(a: &Option<SchemaFieldPolicy>, b: &Option<SchemaFieldPolicy>) -> (r: bool)
    ensures
        r == (policy_view(*a) == policy_view(*b)),
{
    match (a, b) {
        (None, None) => true,
        (Some(x), Some(y)) => {
            let e = match (&x.expression, &y.expression) {
                (None, None) => true,
                (Some(s), Some(t)) => str_eq(s.as_str(), t.as_str()),
                _ => false,
            };
            str_eq(x.treatment.as_str(), y.treatment.as_str()) && e
        },
        _ => false,
    }
}

fn lookup_field_type(fields: &Vec<TypedSemanticField>, name: &str) -> (r: Option<String>)
    ensures
        opt_text(r) == field_type(fields@, name@),
{
    let mut found: Option<String> = None;
    let mut i: usize = 0;
    while i < fields.len()
        invariant
            i <= fields@.len(),
            opt_text(found) == field_type(fields@.subrange(0, i as int), name@),
        decreases fields@.len() - i,
    {
        proof {
            assert(fields@.subrange(0, i + 1).drop_last() =~= fields@.subrange(0, i as int));
            assert(fields@.subrange(0, i + 1).last() == fields@[i as int]);
        }
        if str_eq(fields[i].name.as_str(), name) {
            found = Some(fields[i].ty.clone());
        }
        i += 1;
    }
    assert(fields@.subrange(0, fields@.len() as int) =~= fields@);
    found
}

fn lookup_policy(ps: &Vec<(String, SchemaFieldPolicy)>, name: &str) -> (r: Option<SchemaFieldPolicy>)
    ensures
        policy_view(r) == policy_view(policy_of(ps@, name@)),
        (r is Some) == (policy_of(ps@, name@) is Some),
{
    let mut found: Option<SchemaFieldPolicy> = None;
    let mut i: usize = 0;
    while i < ps.len()
        invariant
            i <= ps@.len(),
            policy_view(found) == policy_view(policy_of(ps@.subrange(0, i as int), name@)),
        decreases ps@.len() - i,
    {
        proof {
            assert(ps@.subrange(0, i + 1).drop_last() =~= ps@.subrange(0, i as int));
            assert(ps@.subrange(0, i + 1).last() == ps@[i as int]);
        }
        if str_eq(ps[i].0.as_str(), name) {
            found = Some(copy_policy(&ps[i].1));
        }
        i += 1;
    }
    assert(ps@.subrange(0, ps@.len() as int) =~= ps@);
    found
}

/// The changes and blockers of the fields `names`, in that order.
fn field_changes(
    names: &Vec<String>,
    old_fields: &Vec<TypedSemanticField>,
    new_fields: &Vec<TypedSemanticField>,
    old_ps: &Vec<(String, SchemaFieldPolicy)>,
    new_ps: &Vec<(String, SchemaFieldPolicy)>,
) -> (r: (Vec<SchemaFieldChange>, Vec<SchemaAcknowledgementBlocker>))
    ensures
        r.0@.map_values(|c: SchemaFieldChange| change_view(c)) == changes_spec(texts(names@), old_fields@, new_fields@, old_ps@, new_ps@),
        r.1@.map_values(|b: SchemaAcknowledgementBlocker| blocker_view(b)) == blockers_spec(texts(names@), old_fields@, new_fields@, new_ps@),
{
    let mut changes: Vec<SchemaFieldChange> = Vec::new();
    let mut blockers: Vec<SchemaAcknowledgementBlocker> = Vec::new();
    let mut i: usize = 0;
    proof {
        reveal_strlit("added");
        reveal_strlit("removed");
        reveal_strlit("type-changed");
        reveal_strlit("policy-changed");
        reveal_strlit("preserve");
        reveal_strlit("SACK1001");
        reveal_strlit("new field '");
        reveal_strlit("' is implicitly preserved by `same except`; assign it explicitly before acknowledging the schema change");
        assert(texts(names@).take(0) =~= Seq::<Seq<char>>::empty());
        assert(changes@.map_values(|c: SchemaFieldChange| change_view(c)) =~= changes_spec(texts(names@).take(0), old_fields@, new_fields@, old_ps@, new_ps@));
        assert(blockers@.map_values(|b: SchemaAcknowledgementBlocker| blocker_view(b)) =~= blockers_spec(texts(names@).take(0), old_fields@, new_fields@, new_ps@));
    }
    while i < names.len()
        invariant
            i <= names@.len(),
            changes@.map_values(|c: SchemaFieldChange| change_view(c)) == changes_spec(texts(names@).take(i as int), old_fields@, new_fields@, old_ps@, new_ps@),
            blockers@.map_values(|b: SchemaAcknowledgementBlocker| blocker_view(b)) == blockers_spec(texts(names@).take(i as int), old_fields@, new_fields@, new_ps@),
        decreases names@.len() - i,
    {
        proof {
            reveal_strlit("added");
            reveal_strlit("removed");
            reveal_strlit("type-changed");
            reveal_strlit("policy-changed");
            reveal_strlit("preserve");
            reveal_strlit("SACK1001");
            reveal_strlit("new field '");
            reveal_strlit("' is implicitly preserved by `same except`; assign it explicitly before acknowledging the schema change");
            assert("removed"@.len() != "added"@.len());
            assert("type-changed"@.len() != "added"@.len());
            assert("policy-changed"@.len() != "added"@.len());
        }
        let name = names[i].as_str();
        let ghost n = texts(names@)[i as int];
        assert(name@ == n);
        proof {
            assert(texts(names@).take(i + 1).drop_last() =~= texts(names@).take(i as int));
            assert(texts(names@).take(i + 1).last() == n);
        }
        let old_type = lookup_field_type(old_fields, name);
        let new_type = lookup_field_type(new_fields, name);
        let old_policy = lookup_policy(old_ps, name);
        let new_policy = lookup_policy(new_ps, name);
        let class: Option<&str> = if old_type.is_none() && new_type.is_some() {
            Some("added")
        } else if old_type.is_some() && new_type.is_none() {
            Some("removed")
        } else if match (&old_type, &new_type) {
            (Some(o), Some(t)) => !str_eq(o.as_str(), t.as_str()),
            _ => false,
        } {
            Some("type-changed")
        } else if !same_policy(&old_policy, &new_policy) {
            Some("policy-changed")
        } else {
            None
        };
        assert(match class {
            Some(c) => classification(field_type(old_fields@, n), field_type(new_fields@, n), policy_of(old_ps@, n), policy_of(new_ps@, n)) == Some(c@),
            None => classification(field_type(old_fields@, n), field_type(new_fields@, n), policy_of(old_ps@, n), policy_of(new_ps@, n)) is None,
        });
        match class {
            Some(c) => {
                let blocked = match &new_policy {
                    Some(p) => str_eq(c, "added") && str_eq(p.treatment.as_str(), "preserve"),
                    None => false,
                };
                if blocked {
                    let mut m = concat3("new field '", name, "' is implicitly preserved by `same except`; assign it explicitly before acknowledging the schema change");
                    let ghost before = blockers@;
                    blockers.push(SchemaAcknowledgementBlocker { code: "SACK1001".to_owned(), field: name.to_owned(), message: m });
                    proof {
                        assert(blockers@.map_values(|b: SchemaAcknowledgementBlocker| blocker_view(b)) =~= before.map_values(
                            |b: SchemaAcknowledgementBlocker| blocker_view(b),
                        ).push(("SACK1001"@, n, implicit_preserve_message(n))));
                        assert(c@ == "added"@);
                        assert(field_type(old_fields@, n) is None && field_type(new_fields@, n) is Some);
                        assert(policy_of(new_ps@, n) matches Some(p) && p.treatment@ == "preserve"@);
                        let t = texts(names@).take(i + 1);
                        assert(blockers_spec(t, old_fields@, new_fields@, new_ps@) == blockers_spec(t.drop_last(), old_fields@, new_fields@, new_ps@).push(("SACK1001"@, n, implicit_preserve_message(n))));
                    }
                } else {
                    proof {
                        if field_type(old_fields@, n) is None && field_type(new_fields@, n) is Some {
                            assert(c@ == "added"@);
                            if policy_of(new_ps@, n) is Some {
                                let q = policy_of(new_ps@, n)->0;
                                assert(new_policy is Some);
                                assert(policy_view(new_policy) == policy_view(Some(q)));
                                assert(new_policy->0.treatment@ == q.treatment@);
                            }
                        }
                        let t = texts(names@).take(i + 1);
                        assert(blockers_spec(t, old_fields@, new_fields@, new_ps@) == blockers_spec(t.drop_last(), old_fields@, new_fields@, new_ps@));
                    }
                }
                let ghost before = changes@;
                changes.push(SchemaFieldChange {
                    field: name.to_owned(),
                    classification: c.to_owned(),
                    old_type,
                    new_type,
                    old_policy,
                    new_policy,
                });
                proof {
                    assert(changes@.map_values(|c: SchemaFieldChange| change_view(c)) =~= before.map_values(
                        |c: SchemaFieldChange| change_view(c),
                    ).push(change_view(changes@.last())));
                }
            },
            None => {
                assert(!(field_type(old_fields@, n) is None && field_type(new_fields@, n) is Some));
            },
        }
        i += 1;
    }
    proof {
        assert(texts(names@).take(names@.len() as int) =~= texts(names@));
    }
    (changes, blockers)
}


// ---------------------------------------------------------------------------------------------
// Building a plan.

/// The action a selector names in a module, where there is one.
pub open spec fn selected_action(m: Module, name: Seq<char>) -> ActionDef {
    match m.items@[action_index(m.items@, name)->0] {
        Item::Action(a) => a,
        _ => vstd::pervasive::arbitrary(),
    }
}

/// The message for two compilations of different modules.
pub open spec fn module_mismatch_message(old: Seq<char>, new: Seq<char>) -> Seq<char> {
    "schema acknowledgement compares one module identity; old '"@ + old + "' differs from new '"@ + new + "'"@
}

/// The message for a relation whose resource changed between the versions.
pub open spec fn resource_changed_message(old: Seq<char>, new: Seq<char>) -> Seq<char> {
    "schema acknowledgement relation resource changed from '"@ + old + "' to '"@ + new + "'"@
}

/// The first error planning reports before any hash is computed, if any: the module identity,
/// the selected action and relation in each version, the resource they relate, and its schema.
pub open spec fn plan_prefix_error(old: SchemaCompilation, new: SchemaCompilation, sel: SchemaRelationSelector) -> Option<Seq<char>> {
    if old.module@ != new.module@ {
        Some(module_mismatch_message(old.module@, new.module@))
    } else if action_index(old.ast.items@, sel.action@) is None {
        Some(missing_action_message("old"@, sel.action@))
    } else if action_index(new.ast.items@, sel.action@) is None {
        Some(missing_action_message("new"@, sel.action@))
    } else {
        let oa = selected_action(old.ast, sel.action@);
        let na = selected_action(new.ast, sel.action@);
        if let Some(m) = relation_error(oa, sel, "old"@) {
            Some(m)
        } else if let Some(m) = relation_error(na, sel, "new"@) {
            Some(m)
        } else {
            match resource_outcome(oa, sel, "old"@) {
                Err(m) => Some(m),
                Ok(ort) => match resource_outcome(na, sel, "new"@) {
                    Err(m) => Some(m),
                    Ok(nrt) => if ort != nrt {
                        Some(resource_changed_message(ort, nrt))
                    } else if resource_schema(old.types@, ort) is None {
                        Some(missing_schema_message("old"@, ort))
                    } else if resource_schema(new.types@, nrt) is None {
                        Some(missing_schema_message("new"@, nrt))
                    } else {
                        None
                    },
                },
            }
        }
    }
}

/// `p` records a plan for the given compilations, selector and resource, with the given
/// identities and field treatments, the fields compared in the order `names`; its hash field is
/// not constrained.
pub open spec fn plan_records(
    p: SchemaChangePlan,
    old: SchemaCompilation,
    new: SchemaCompilation,
    sel: SchemaRelationSelector,
    resource_type: Seq<char>,
    old_identity: Seq<char>,
    new_identity: Seq<char>,
    old_relation_identity: Seq<char>,
    new_relation_identity: Seq<char>,
    names: Seq<Seq<char>>,
    old_fields: Seq<TypedSemanticField>,
    new_fields: Seq<TypedSemanticField>,
    old_ps: Seq<(String, SchemaFieldPolicy)>,
    new_ps: Seq<(String, SchemaFieldPolicy)>,
) -> bool {
    &&& p.schema@ == SCHEMA_CHANGE_PLAN_SCHEMA@
    &&& p.version == 1
    &&& p.module@ == old.module@
    &&& p.selector == sel
    &&& p.resource_type@ == resource_type
    &&& p.old_interface_hash@ == old.interface_hash@
    &&& p.new_interface_hash@ == new.interface_hash@
    &&& p.old_schema_identity@ == old_identity
    &&& p.new_schema_identity@ == new_identity
    &&& p.old_relation_identity@ == old_relation_identity
    &&& p.new_relation_identity@ == new_relation_identity
    &&& p.requires_acknowledgement == (old_identity != new_identity)
    &&& p.state_migration_required == p.requires_acknowledgement
    &&& p.field_changes@.map_values(|c: SchemaFieldChange| change_view(c)) == changes_spec(names, old_fields, new_fields, old_ps, new_ps)
    &&& p.blockers@.map_values(|b: SchemaAcknowledgementBlocker| blocker_view(b)) == blockers_spec(names, old_fields, new_fields, new_ps)
}

/// What planning gives once the relation treatments are known: the relation identities from
/// `relation_hash`, then the plan, hashed by `plan_hash`; the first hash that fails ends it.
pub open spec fn plan_tail<RH: Fn(&ReplaceRelation, &Vec<(String, SchemaFieldPolicy)>) -> Result<String>, PH: Fn(&SchemaChangePlan) -> Result<String>>(
    r: Result<SchemaChangePlan>,
    old: SchemaCompilation,
    new: SchemaCompilation,
    sel: SchemaRelationSelector,
    rt: Seq<char>,
    os: TypedSemanticType,
    ns: TypedSemanticType,
    orel: ReplaceRelation,
    nrel: ReplaceRelation,
    oi: Seq<char>,
    ni: Seq<char>,
    ops: Vec<(String, SchemaFieldPolicy)>,
    nps: Vec<(String, SchemaFieldPolicy)>,
    relation_hash: RH,
    plan_hash: PH,
) -> bool {
    exists|ro: Result<String>|
        #![trigger call_ensures(relation_hash, (&orel, &ops), ro)]
        call_ensures(relation_hash, (&orel, &ops), ro) && match ro {
            Err(e) => r == Err::<SchemaChangePlan, CompileError>(e),
            Ok(ori) => exists|rn: Result<String>|
                #![trigger call_ensures(relation_hash, (&nrel, &nps), rn)]
                call_ensures(relation_hash, (&nrel, &nps), rn) && match rn {
                    Err(e) => r == Err::<SchemaChangePlan, CompileError>(e),
                    Ok(nri) => exists|names: Seq<Seq<char>>, p0: SchemaChangePlan, hp: Result<String>|
                        #![trigger strs_sorted(names), call_ensures(plan_hash, (&p0,), hp)]
                        strs_sorted(names) && names.to_set() == field_names(os.fields@).to_set().union(
                            field_names(ns.fields@).to_set(),
                        ) && plan_records(
                            p0,
                            old,
                            new,
                            sel,
                            rt,
                            oi,
                            ni,
                            ori@,
                            nri@,
                            names,
                            os.fields@,
                            ns.fields@,
                            ops@,
                            nps@,
                        ) && p0.plan_hash@ == Seq::<char>::empty() && call_ensures(plan_hash, (&p0,), hp) && match hp {
                            Err(e) => r == Err::<SchemaChangePlan, CompileError>(e),
                            Ok(h) => r matches Ok(p) && plan_records(
                                p,
                                old,
                                new,
                                sel,
                                rt,
                                oi,
                                ni,
                                ori@,
                                nri@,
                                names,
                                os.fields@,
                                ns.fields@,
                                ops@,
                                nps@,
                            ) && p.plan_hash@ == h@,
                        },
                },
        }
}

/// What planning gives: the first error before any hash; otherwise the schema identities from
/// `schema_hash`, the relation treatments (which need `same except` data in both versions, with
/// assigned expressions as `format` writes them), and then what `plan_tail` describes.
pub open spec fn plan_outcome<
    SH: Fn(&TypedSemanticType) -> Result<String>,
    RH: Fn(&ReplaceRelation, &Vec<(String, SchemaFieldPolicy)>) -> Result<String>,
    PH: Fn(&SchemaChangePlan) -> Result<String>,
    FE: Fn(&Expr) -> String,
>(
    r: Result<SchemaChangePlan>,
    old: SchemaCompilation,
    new: SchemaCompilation,
    sel: SchemaRelationSelector,
    schema_hash: SH,
    relation_hash: RH,
    plan_hash: PH,
    format: FE,
) -> bool {
    match plan_prefix_error(old, new, sel) {
        Some(m) => r matches Err(e) && e.message@ == m,
        None => {
            let oa = selected_action(old.ast, sel.action@);
            let na = selected_action(new.ast, sel.action@);
            let orel = stmts_relations(oa.body@, sel.before@, sel.after@)[0];
            let nrel = stmts_relations(na.body@, sel.before@, sel.after@)[0];
            let rt = resource_outcome(oa, sel, "old"@)->Ok_0;
            let os = old.types@[resource_schema(old.types@, rt)->0];
            let ns = new.types@[resource_schema(new.types@, rt)->0];
            exists|ho: Result<String>|
                #![trigger call_ensures(schema_hash, (&os,), ho)]
                call_ensures(schema_hash, (&os,), ho) && match ho {
                    Err(e) => r == Err::<SchemaChangePlan, CompileError>(e),
                    Ok(oi) => exists|hn: Result<String>|
                        #![trigger call_ensures(schema_hash, (&ns,), hn)]
                        call_ensures(schema_hash, (&ns,), hn) && match hn {
                            Err(e) => r == Err::<SchemaChangePlan, CompileError>(e),
                            Ok(ni) => if same_except(orel) is None || same_except(nrel) is None {
                                r matches Err(e) && e.message@ == same_except_message()
                            } else {
                                exists|ops: Vec<(String, SchemaFieldPolicy)>, nps: Vec<(String, SchemaFieldPolicy)>|
                                    #![trigger policies_for(ops@, same_except(orel)->0, os.fields@, format), policies_for(nps@, same_except(nrel)->0, ns.fields@, format)]
                                    policies_for(ops@, same_except(orel)->0, os.fields@, format) && policies_for(
                                        nps@,
                                        same_except(nrel)->0,
                                        ns.fields@,
                                        format,
                                    ) && plan_tail(r, old, new, sel, rt, os, ns, orel, nrel, oi@, ni@, ops, nps, relation_hash, plan_hash)
                            },
                        },
                }
        },
    }
}

/// The elements of two sequences together are the union of their elements.
proof fn lemma_concat_to_set<A>(a: Seq<A>, b: Seq<A>)
    ensures
        (a + b).to_set() == a.to_set().union(b.to_set()),
{
    assert forall|x: A| (a + b).to_set().contains(x) <==> a.to_set().union(b.to_set()).contains(x) by {
        if (a + b).contains(x) {
            let k = choose|k: int| 0 <= k < (a + b).len() && (a + b)[k] == x;
            if k < a.len() {
                assert(a[k] == x);
            } else {
                assert(b[k - a.len()] == x);
            }
        }
        if a.contains(x) {
            let k = choose|k: int| 0 <= k < a.len() && a[k] == x;
            assert((a + b)[k] == x);
        }
        if b.contains(x) {
            let k = choose|k: int| 0 <= k < b.len() && b[k] == x;
            assert((a + b)[a.len() + k] == x);
        }
    }
    assert((a + b).to_set() =~= a.to_set().union(b.to_set()));
}

/// The names of the fields of both schemas, sorted, each once.
fn union_names(old_fields: &Vec<TypedSemanticField>, new_fields: &Vec<TypedSemanticField>) -> (r: Vec<String>)
    ensures
        strs_sorted(texts(r@)),
        texts(r@).to_set() == field_names(old_fields@).to_set().union(field_names(new_fields@).to_set()),
{
    let mut raw: Vec<String> = Vec::new();
    let mut i: usize = 0;
    while i < old_fields.len()
        invariant
            i <= old_fields@.len(),
            raw@.len() == i,
            texts(raw@) == field_names(old_fields@).take(i as int),
        decreases old_fields@.len() - i,
    {
        let ghost before = raw@;
        raw.push(old_fields[i].name.clone());
        proof {
            assert forall|j: int| 0 <= j < i + 1 implies #[trigger] texts(raw@)[j] == field_names(old_fields@).take(i + 1)[j] by {
                if j < i {
                    assert(raw@[j] == before[j]);
                    assert(texts(before)[j] == field_names(old_fields@).take(i as int)[j]);
                }
            }
            assert(texts(raw@) =~= field_names(old_fields@).take(i + 1));
        }
        i += 1;
    }
    assert(field_names(old_fields@).take(old_fields@.len() as int) =~= field_names(old_fields@));
    let mut k: usize = 0;
    let ghost n = old_fields@.len();
    while k < new_fields.len()
        invariant
            n == old_fields@.len(),
            k <= new_fields@.len(),
            raw@.len() == n + k,
            texts(raw@) == field_names(old_fields@) + field_names(new_fields@).take(k as int),
        decreases new_fields@.len() - k,
    {
        let ghost before = raw@;
        raw.push(new_fields[k].name.clone());
        proof {
            assert forall|j: int| 0 <= j < n + k + 1 implies #[trigger] texts(raw@)[j] == (field_names(old_fields@) + field_names(
                new_fields@,
            ).take(k + 1))[j] by {
                if j < n + k {
                    assert(raw@[j] == before[j]);
                    assert(texts(before)[j] == (field_names(old_fields@) + field_names(new_fields@).take(k as int))[j]);
                }
            }
            assert(texts(raw@) =~= field_names(old_fields@) + field_names(new_fields@).take(k + 1));
        }
        k += 1;
    }
    proof {
        assert(field_names(new_fields@).take(new_fields@.len() as int) =~= field_names(new_fields@));
        lemma_concat_to_set(field_names(old_fields@), field_names(new_fields@));
    }
    sorted_texts(&raw)
}

/// Compares one relation of one action across two compilations of a module: the resource it
/// relates must keep its type, both versions must keep data `same except` some fields, and the
/// plan lists each field whose type or treatment changed, blocking on new fields that are only
/// preserved implicitly. `schema_hash`, `relation_hash` and `plan_hash` compute the canonical
/// identities of a schema, of a relation with its field treatments, and of a plan (its hash
/// field left empty); `format_expression` writes an assigned expression's source text.
#[verifier::spinoff_prover]
#[verifier::rlimit(60)]
pub fn build_schema_change_plan<
    SH: Fn(&TypedSemanticType) -> Result<String>,
    RH: Fn(&ReplaceRelation, &Vec<(String, SchemaFieldPolicy)>) -> Result<String>,
    PH: Fn(&SchemaChangePlan) -> Result<String>,
    FE: Fn(&Expr) -> String,
>(
    old: &SchemaCompilation,
    new: &SchemaCompilation,
    selector: SchemaRelationSelector,
    schema_hash: SH,
    relation_hash: RH,
    plan_hash: PH,
    format_expression: FE,
) -> (r: Result<SchemaChangePlan>)
    requires
        forall|t: &TypedSemanticType| call_requires(schema_hash, (t,)),
        forall|x: &ReplaceRelation, ps: &Vec<(String, SchemaFieldPolicy)>| call_requires(relation_hash, (x, ps)),
        forall|p: &SchemaChangePlan| call_requires(plan_hash, (p,)),
        forall|e: &Expr| call_requires(format_expression, (e,)),
    ensures
        plan_outcome(r, *old, *new, selector, schema_hash, relation_hash, plan_hash, format_expression),
{
    proof {
        reveal_strlit("schema acknowledgement compares one module identity; old '");
        reveal_strlit("' differs from new '");
        reveal_strlit("'");
        reveal_strlit("old");
        reveal_strlit("new");
        reveal_strlit("schema acknowledgement relation resource changed from '");
        reveal_strlit("' to '");
    }
    if !str_eq(old.module.as_str(), new.module.as_str()) {
        let mut m = concat3("schema acknowledgement compares one module identity; old '", old.module.as_str(), "' differs from new '");
        m.append(new.module.as_str());
        m.append("'");
        return Err(CompileError::without_span(m.as_str()));
    }
    let old_action = match find_action(&old.ast, selector.action.as_str(), "old") {
        Ok(a) => a,
        Err(e) => return Err(e),
    };
    let new_action = match find_action(&new.ast, selector.action.as_str(), "new") {
        Ok(a) => a,
        Err(e) => return Err(e),
    };
    assert(*old_action == selected_action(old.ast, selector.action@));
    assert(*new_action == selected_action(new.ast, selector.action@));
    let old_relation = match find_relation(old_action, &selector, "old") {
        Ok(x) => x,
        Err(e) => return Err(e),
    };
    let new_relation = match find_relation(new_action, &selector, "new") {
        Ok(x) => x,
        Err(e) => return Err(e),
    };
    let old_resource = match relation_resource_type(old_action, &selector, "old") {
        Ok(t) => t,
        Err(e) => return Err(e),
    };
    let new_resource = match relation_resource_type(new_action, &selector, "new") {
        Ok(t) => t,
        Err(e) => return Err(e),
    };
    if !str_eq(old_resource.as_str(), new_resource.as_str()) {
        let mut m = concat3("schema acknowledgement relation resource changed from '", old_resource.as_str(), "' to '");
        m.append(new_resource.as_str());
        m.append("'");
        return Err(CompileError::without_span(m.as_str()));
    }
    let old_schema = match typed_schema(&old.types, old_resource.as_str(), "old") {
        Ok(t) => t,
        Err(e) => return Err(e),
    };
    let new_schema = match typed_schema(&new.types, new_resource.as_str(), "new") {
        Ok(t) => t,
        Err(e) => return Err(e),
    };
    assert(plan_prefix_error(*old, *new, selector) is None);
    let ho = schema_hash(old_schema);
    let old_identity = match ho {
        Ok(h) => h,
        Err(e) => {
            assert(call_ensures(schema_hash, (old_schema,), ho));
            return Err(e);
        },
    };
    let hn = schema_hash(new_schema);
    let new_identity = match hn {
        Ok(h) => h,
        Err(e) => {
            assert(call_ensures(schema_hash, (old_schema,), ho));
            assert(call_ensures(schema_hash, (new_schema,), hn));
            return Err(e);
        },
    };
    proof {
        assert(call_ensures(schema_hash, (old_schema,), ho));
        assert(call_ensures(schema_hash, (new_schema,), hn));
    }
    let old_policies = match relation_policies(old_relation, old_schema, &format_expression) {
        Ok(ps) => ps,
        Err(e) => return Err(e),
    };
    let new_policies = match relation_policies(new_relation, new_schema, &format_expression) {
        Ok(ps) => ps,
        Err(e) => return Err(e),
    };
    let ro = relation_hash(old_relation, &old_policies);
    let old_relation_identity = match ro {
        Ok(h) => h,
        Err(e) => {
            assert(call_ensures(relation_hash, (old_relation, &old_policies), ro));
            return Err(e);
        },
    };
    let rn = relation_hash(new_relation, &new_policies);
    let new_relation_identity = match rn {
        Ok(h) => h,
        Err(e) => {
            assert(call_ensures(relation_hash, (old_relation, &old_policies), ro));
            assert(call_ensures(relation_hash, (new_relation, &new_policies), rn));
            return Err(e);
        },
    };
    let names = union_names(&old_schema.fields, &new_schema.fields);
    let (field_changes, blockers) = field_changes(&names, &old_schema.fields, &new_schema.fields, &old_policies, &new_policies);
    let requires_acknowledgement = !str_eq(old_identity.as_str(), new_identity.as_str());
    let mut plan = SchemaChangePlan {
        schema: SCHEMA_CHANGE_PLAN_SCHEMA.to_owned(),
        version: 1,
        module: old.module.clone(),
        selector,
        resource_type: old_resource,
        old_interface_hash: old.interface_hash.clone(),
        new_interface_hash: new.interface_hash.clone(),
        old_schema_identity: old_identity,
        new_schema_identity: new_identity,
        old_relation_identity,
        new_relation_identity,
        requires_acknowledgement,
        state_migration_required: requires_acknowledgement,
        field_changes,
        blockers,
        plan_hash: String::new(),
    };
    let hp = plan_hash(&plan);
    let ghost p0 = plan;
    proof {
        assert(call_ensures(schema_hash, (old_schema,), ho));
        assert(call_ensures(schema_hash, (new_schema,), hn));
        assert(call_ensures(relation_hash, (old_relation, &old_policies), ro));
        assert(call_ensures(relation_hash, (new_relation, &new_policies), rn));
        assert(call_ensures(plan_hash, (&p0,), hp));
        assert(strs_sorted(texts(names@)));
    }
    match hp {
        Err(e) => Err(e),
        Ok(h) => {
            plan.plan_hash = h;
            Ok(plan)
        },
    }
}

// ---------------------------------------------------------------------------------------------
// Validating, acknowledging and checking acknowledgements.

/// The message for a plan whose contents do not give its recorded hash.
pub open spec fn plan_hash_mismatch_message() -> Seq<char> {
    "schema-change plan hash does not match its contents"@
}

/// The first check a plan fails before its hash is recomputed, if any: schema and version,
/// non-empty identity fields, and flags that agree with its schema identities.
pub open spec fn plan_shape_error(p: SchemaChangePlan) -> Option<Seq<char>> {
    if p.schema@ != SCHEMA_CHANGE_PLAN_SCHEMA@ || p.version != 1 {
        Some("unsupported schema-change plan schema/version"@)
    } else if p.module@.len() == 0 || p.selector.action@.len() == 0 || p.selector.before@.len() == 0
        || p.selector.after@.len() == 0 || p.resource_type@.len() == 0 {
        Some("schema-change plan contains an empty identity field"@)
    } else if p.requires_acknowledgement != (p.old_schema_identity@ != p.new_schema_identity@) || p.state_migration_required
        != p.requires_acknowledgement {
        Some("schema-change plan flags do not match the bound schema identities"@)
    } else {
        None
    }
}

/// `r` is what validating `p` reports when `plan_hash` gave `hash`.
pub open spec fn validated(r: Result<()>, p: SchemaChangePlan, hash: Result<String>) -> bool {
    match plan_shape_error(p) {
        Some(m) => r matches Err(e) && e.message@ == m,
        None => match hash {
            Err(e) => r == Err::<(), CompileError>(e),
            Ok(h) => if h@ == p.plan_hash@ {
                r is Ok
            } else {
                r matches Err(e) && e.message@ == plan_hash_mismatch_message()
            },
        },
    }
}

/// Checks a plan's schema and version, identity fields and flags, then recomputes its hash with
/// `plan_hash` and compares it with the recorded one.
pub fn validate_plan<PH: Fn(&SchemaChangePlan) -> Result<String>>(plan: &SchemaChangePlan, plan_hash: PH) -> (r: Result<()>)
    requires
        call_requires(plan_hash, (plan,)),
    ensures
        match plan_shape_error(*plan) {
            Some(m) => r matches Err(e) && e.message@ == m,
            None => exists|h: Result<String>|
                #![trigger call_ensures(plan_hash, (plan,), h)]
                call_ensures(plan_hash, (plan,), h) && validated(r, *plan, h),
        },
{
    proof {
        reveal_strlit("unsupported schema-change plan schema/version");
        reveal_strlit("schema-change plan contains an empty identity field");
        reveal_strlit("schema-change plan flags do not match the bound schema identities");
        reveal_strlit("schema-change plan hash does not match its contents");
    }
    if !str_eq(plan.schema.as_str(), SCHEMA_CHANGE_PLAN_SCHEMA) || plan.version != 1 {
        return Err(CompileError::without_span("unsupported schema-change plan schema/version"));
    }
    if is_empty_text(plan.module.as_str()) || is_empty_text(plan.selector.action.as_str()) || is_empty_text(
        plan.selector.before.as_str(),
    ) || is_empty_text(plan.selector.after.as_str()) || is_empty_text(plan.resource_type.as_str()) {
        return Err(CompileError::without_span("schema-change plan contains an empty identity field"));
    }
    let differs = !str_eq(plan.old_schema_identity.as_str(), plan.new_schema_identity.as_str());
    if plan.requires_acknowledgement != differs || plan.state_migration_required != plan.requires_acknowledgement {
        return Err(CompileError::without_span("schema-change plan flags do not match the bound schema identities"));
    }
    let h = plan_hash(plan);
    proof {
        assert(call_ensures(plan_hash, (plan,), h));
    }
    match h {
        Err(e) => Err(e),
        Ok(expected) => {
            if str_eq(plan.plan_hash.as_str(), expected.as_str()) {
                Ok(())
            } else {
                Err(CompileError::without_span("schema-change plan hash does not match its contents"))
            }
        },
    }
}

fn is_empty_text(s: &str) -> (r: bool)
    ensures
        r == (s@.len() == 0),
{
    proof {
        reveal_strlit("");
        if s@.len() == 0 {
            assert(s@ =~= ""@);
        }
    }
    str_eq(s, "")
}

/// A selector as characters.
pub open spec fn selector_view(s: SchemaRelationSelector) -> (Seq<char>, Seq<char>, Seq<char>) {
    (s.action@, s.before@, s.after@)
}

/// Field changes as characters.
pub open spec fn changes_view(cs: Seq<SchemaFieldChange>) -> Seq<(Seq<char>, Seq<char>, Option<Seq<char>>, Option<Seq<char>>, Option<(Seq<char>, Option<Seq<char>>)>, Option<(Seq<char>, Option<Seq<char>>)>)> {
    cs.map_values(|c: SchemaFieldChange| change_view(c))
}

/// The blockers as the acknowledgement refusal lists them: `code field`, separated by `, `.
pub open spec fn blocker_list(bs: Seq<SchemaAcknowledgementBlocker>) -> Seq<char>
    decreases bs.len(),
{
    if bs.len() == 0 {
        Seq::empty()
    } else if bs.len() == 1 {
        bs[0].code@ + " "@ + bs[0].field@
    } else {
        blocker_list(bs.drop_last()) + ", "@ + bs.last().code@ + " "@ + bs.last().field@
    }
}

/// `rc` acknowledges plan `p`, signed as `signer` for `rationale`, whatever its hash field holds.
pub open spec fn receipt_records(rc: SchemaAcknowledgementReceipt, p: SchemaChangePlan, signer: Seq<char>, rationale: Seq<char>) -> bool {
    &&& rc.schema@ == SCHEMA_ACKNOWLEDGEMENT_SCHEMA@
    &&& rc.version == 1
    &&& rc.plan_hash@ == p.plan_hash@
    &&& rc.module@ == p.module@
    &&& selector_view(rc.selector) == selector_view(p.selector)
    &&& rc.resource_type@ == p.resource_type@
    &&& rc.old_schema_identity@ == p.old_schema_identity@
    &&& rc.new_schema_identity@ == p.new_schema_identity@
    &&& rc.old_relation_identity@ == p.old_relation_identity@
    &&& rc.new_relation_identity@ == p.new_relation_identity@
    &&& rc.review_policy@ == SCHEMA_REVIEW_POLICY@
    &&& rc.reviewer@ == signer
    &&& rc.rationale@ == rationale
    &&& changes_view(rc.field_changes@) == changes_view(p.field_changes@)
}

/// The receipt is bound to exactly this plan's hash, module, relation, resource, identities and
/// field changes.
pub open spec fn receipt_matches_plan(rc: SchemaAcknowledgementReceipt, p: SchemaChangePlan) -> bool {
    &&& rc.plan_hash@ == p.plan_hash@
    &&& rc.module@ == p.module@
    &&& selector_view(rc.selector) == selector_view(p.selector)
    &&& rc.resource_type@ == p.resource_type@
    &&& rc.old_schema_identity@ == p.old_schema_identity@
    &&& rc.new_schema_identity@ == p.new_schema_identity@
    &&& rc.old_relation_identity@ == p.old_relation_identity@
    &&& rc.new_relation_identity@ == p.new_relation_identity@
    &&& changes_view(rc.field_changes@) == changes_view(p.field_changes@)
}

/// What acknowledging a plan that passed its shape checks gives, where `hash` is `plan_hash`'s
/// outcome on it: the plan must validate, need an acknowledgement, have no blockers, and have a
/// signer and rationale that are not blank; the receipt is then hashed by `acknowledgement_hash`.
pub open spec fn acknowledgement_outcome<AH: Fn(&SchemaAcknowledgementReceipt) -> Result<String>>(
    r: Result<SchemaAcknowledgementReceipt>,
    p: SchemaChangePlan,
    signer: Seq<char>,
    rationale: Seq<char>,
    hash: Result<String>,
    acknowledgement_hash: AH,
) -> bool {
    match hash {
        Err(e) => r == Err::<SchemaAcknowledgementReceipt, CompileError>(e),
        Ok(h) => if h@ != p.plan_hash@ {
            r matches Err(e) && e.message@ == plan_hash_mismatch_message()
        } else if !p.requires_acknowledgement {
            r matches Err(e) && e.message@ == "schema-change plan does not require an acknowledgement"@
        } else if p.blockers@.len() > 0 {
            r matches Err(e) && e.message@ == "schema-change plan has blocking field treatments: "@ + blocker_list(p.blockers@)
        } else if blank(signer) || blank(rationale) {
            r matches Err(e) && e.message@ == "schema acknowledgement requires a non-empty signer and rationale"@
        } else {
            exists|rc0: SchemaAcknowledgementReceipt, ha: Result<String>|
                #![trigger call_ensures(acknowledgement_hash, (&rc0,), ha)]
                receipt_records(rc0, p, trimmed(signer), trimmed(rationale)) && rc0.acknowledgement_hash@ == Seq::<char>::empty()
                    && call_ensures(acknowledgement_hash, (&rc0,), ha) && match ha {
                    Err(e) => r == Err::<SchemaAcknowledgementReceipt, CompileError>(e),
                    Ok(a) => r matches Ok(rc) && receipt_records(rc, p, trimmed(signer), trimmed(rationale))
                        && rc.acknowledgement_hash@ == a@,
                }
        },
    }
}

fn copy_selector(s: &SchemaRelationSelector) -> (r: SchemaRelationSelector)
    ensures
        selector_view(r) == selector_view(*s),
{
    SchemaRelationSelector { action: s.action.clone(), before: s.before.clone(), after: s.after.clone() }
}

fn copy_option_policy(p: &Option<SchemaFieldPolicy>) -> (r: Option<SchemaFieldPolicy>)
    ensures
        policy_view(r) == policy_view(*p),
{
    match p {
        Some(x) => Some(copy_policy(x)),
        None => None,
    }
}

fn copy_changes(cs: &Vec<SchemaFieldChange>) -> (r: Vec<SchemaFieldChange>)
    ensures
        changes_view(r@) == changes_view(cs@),
{
    let mut out: Vec<SchemaFieldChange> = Vec::new();
    let mut i: usize = 0;
    while i < cs.len()
        invariant
            i <= cs@.len(),
            out@.len() == i,
            forall|j: int| 0 <= j < i ==> change_view(#[trigger] out@[j]) == change_view(cs@[j]),
        decreases cs@.len() - i,
    {
        let c = &cs[i];
        out.push(
            SchemaFieldChange {
                field: c.field.clone(),
                classification: c.classification.clone(),
                old_type: copy_text(&c.old_type),
                new_type: copy_text(&c.new_type),
                old_policy: copy_option_policy(&c.old_policy),
                new_policy: copy_option_policy(&c.new_policy),
            },
        );
        i += 1;
    }
    assert(changes_view(out@) =~= changes_view(cs@));
    out
}

fn same_text(a: &Option<String>, b: &Option<String>) -> (r: bool)
    ensures
        r == (opt_text(*a) == opt_text(*b)),
{
    match (a, b) {
        (None, None) => true,
        (Some(x), Some(y)) => str_eq(x.as_str(), y.as_str()),
        _ => false,
    }
}

fn same_changes(a: &Vec<SchemaFieldChange>, b: &Vec<SchemaFieldChange>) -> (r: bool)
    ensures
        r == (changes_view(a@) == changes_view(b@)),
{
    if a.len() != b.len() {
        proof {
            assert(changes_view(a@).len() != changes_view(b@).len());
        }
        return false;
    }
    let mut i: usize = 0;
    while i < a.len()
        invariant
            a@.len() == b@.len(),
            i <= a@.len(),
            forall|j: int| 0 <= j < i ==> change_view(#[trigger] a@[j]) == change_view(b@[j]),
        decreases a@.len() - i,
    {
        let x = &a[i];
        let y = &b[i];
        let same = str_eq(x.field.as_str(), y.field.as_str()) && str_eq(x.classification.as_str(), y.classification.as_str())
            && same_text(&x.old_type, &y.old_type) && same_text(&x.new_type, &y.new_type) && same_policy(
            &x.old_policy,
            &y.old_policy,
        ) && same_policy(&x.new_policy, &y.new_policy);
        if !same {
            proof {
                assert(changes_view(a@)[i as int] != changes_view(b@)[i as int]);
            }
            return false;
        }
        i += 1;
    }
    assert(changes_view(a@) =~= changes_view(b@));
    true
}

fn blocker_list_text(bs: &Vec<SchemaAcknowledgementBlocker>) -> (r: String)
    ensures
        r@ == blocker_list(bs@),
{
    proof {
        reveal_strlit(" ");
        reveal_strlit(", ");
    }
    let mut m = String::new();
    let mut i: usize = 0;
    assert(bs@.subrange(0, 0) =~= Seq::<SchemaAcknowledgementBlocker>::empty());
    while i < bs.len()
        invariant
            i <= bs@.len(),
            m@ == blocker_list(bs@.subrange(0, i as int)),
        decreases bs@.len() - i,
    {
        proof {
            reveal_strlit(" ");
            reveal_strlit(", ");
            assert(bs@.subrange(0, i + 1).drop_last() =~= bs@.subrange(0, i as int));
            assert(bs@.subrange(0, i + 1).last() == bs@[i as int]);
        }
        if i > 0 {
            m.append(", ");
        } else {
            assert(bs@.subrange(0, 1)[0] == bs@[0]);
        }
        m.append(bs[i].code.as_str());
        m.append(" ");
        m.append(bs[i].field.as_str());
        i += 1;
    }
    assert(bs@.subrange(0, bs@.len() as int) =~= bs@);
    m
}

/// Records a signed acknowledgement of a plan: the plan must validate (its hash recomputed
/// with `plan_hash`), need an acknowledgement, have no blocking field treatments, and come with a
/// signer and rationale that are not blank; both are kept trimmed, and the receipt's hash is
/// computed with `acknowledgement_hash` over the receipt with its hash field empty.
pub fn acknowledge_schema_change<PH: Fn(&SchemaChangePlan) -> Result<String>, AH: Fn(&SchemaAcknowledgementReceipt) -> Result<String>>(
    plan: &SchemaChangePlan,
    reviewer: &str,
    rationale: &str,
    plan_hash: PH,
    acknowledgement_hash: AH,
) -> (r: Result<SchemaAcknowledgementReceipt>)
    requires
        call_requires(plan_hash, (plan,)),
        forall|rc: &SchemaAcknowledgementReceipt| call_requires(acknowledgement_hash, (rc,)),
    ensures
        match plan_shape_error(*plan) {
            Some(m) => r matches Err(e) && e.message@ == m,
            None => exists|h: Result<String>|
                #![trigger call_ensures(plan_hash, (plan,), h)]
                call_ensures(plan_hash, (plan,), h) && acknowledgement_outcome(r, *plan, reviewer@, rationale@, h, acknowledgement_hash),
        },
{
    proof {
        reveal_strlit("schema-change plan does not require an acknowledgement");
        reveal_strlit("schema-change plan has blocking field treatments: ");
        reveal_strlit("schema acknowledgement requires a non-empty signer and rationale");
        reveal_strlit("schema-change plan hash does not match its contents");
    }
    if let Err(e) = validate_plan(plan, &plan_hash) {
        return Err(e);
    }
    if !plan.requires_acknowledgement {
        return Err(CompileError::without_span("schema-change plan does not require an acknowledgement"));
    }
    if plan.blockers.len() > 0 {
        let list = blocker_list_text(&plan.blockers);
        return Err(CompileError::without_span(concat2("schema-change plan has blocking field treatments: ", list.as_str()).as_str()));
    }
    if is_blank(reviewer) || is_blank(rationale) {
        return Err(CompileError::without_span("schema acknowledgement requires a non-empty signer and rationale"));
    }
    let receipt = SchemaAcknowledgementReceipt {
        schema: SCHEMA_ACKNOWLEDGEMENT_SCHEMA.to_owned(),
        version: 1,
        plan_hash: plan.plan_hash.clone(),
        module: plan.module.clone(),
        selector: copy_selector(&plan.selector),
        resource_type: plan.resource_type.clone(),
        old_schema_identity: plan.old_schema_identity.clone(),
        new_schema_identity: plan.new_schema_identity.clone(),
        old_relation_identity: plan.old_relation_identity.clone(),
        new_relation_identity: plan.new_relation_identity.clone(),
        review_policy: SCHEMA_REVIEW_POLICY.to_owned(),
        reviewer: trim(reviewer),
        rationale: trim(rationale),
        field_changes: copy_changes(&plan.field_changes),
        acknowledgement_hash: String::new(),
    };
    let ha = acknowledgement_hash(&receipt);
    let ghost rc0 = receipt;
    proof {
        assert(call_ensures(acknowledgement_hash, (&rc0,), ha));
    }
    match ha {
        Err(e) => Err(e),
        Ok(a) => {
            let mut receipt = receipt;
            receipt.acknowledgement_hash = a;
            Ok(receipt)
        },
    }
}

/// What checking a receipt against a plan that passed its shape checks gives, where `hash` is
/// `plan_hash`'s outcome on the plan: the plan must validate and still be eligible, the receipt
/// must be of the current schema and policy with a signer and rationale that are not blank, its
/// hash must be what `acknowledgement_hash` computes, and it must be bound to this very plan.
pub open spec fn acknowledgement_check<AH: Fn(&SchemaAcknowledgementReceipt) -> Result<String>>(
    r: Result<()>,
    p: SchemaChangePlan,
    rc: SchemaAcknowledgementReceipt,
    hash: Result<String>,
    acknowledgement_hash: AH,
) -> bool {
    match hash {
        Err(e) => r == Err::<(), CompileError>(e),
        Ok(h) => if h@ != p.plan_hash@ {
            r matches Err(e) && e.message@ == plan_hash_mismatch_message()
        } else if !p.requires_acknowledgement || p.blockers@.len() > 0 {
            r matches Err(e) && e.message@ == "current schema-change plan is not eligible for acknowledgement"@
        } else if rc.schema@ != SCHEMA_ACKNOWLEDGEMENT_SCHEMA@ || rc.version != 1 || rc.review_policy@ != SCHEMA_REVIEW_POLICY@ {
            r matches Err(e) && e.message@ == "unsupported schema acknowledgement schema/version/review policy"@
        } else if blank(rc.reviewer@) || blank(rc.rationale@) {
            r matches Err(e) && e.message@ == "schema acknowledgement signer and rationale must remain non-empty"@
        } else {
            exists|ha: Result<String>|
                #![trigger call_ensures(acknowledgement_hash, (&rc,), ha)]
                call_ensures(acknowledgement_hash, (&rc,), ha) && match ha {
                    Err(e) => r == Err::<(), CompileError>(e),
                    Ok(a) => if a@ != rc.acknowledgement_hash@ {
                        r matches Err(e) && e.message@ == "schema acknowledgement hash does not match its contents"@
                    } else if !receipt_matches_plan(rc, p) {
                        r matches Err(e) && e.message@
                            == "schema acknowledgement is stale or belongs to a different schema/relation change"@
                    } else {
                        r is Ok
                    },
                }
        },
    }
}

/// Checks that a receipt acknowledges exactly the current plan: the plan validates (its hash
/// recomputed with `plan_hash`) and is eligible, the receipt is well formed and its hash is what
/// `acknowledgement_hash` computes over it, and it is bound to the plan's hash, module, relation,
/// resource, identities and field changes.
pub fn verify_schema_acknowledgement<PH: Fn(&SchemaChangePlan) -> Result<String>, AH: Fn(&SchemaAcknowledgementReceipt) -> Result<String>>(
    plan: &SchemaChangePlan,
    receipt: &SchemaAcknowledgementReceipt,
    plan_hash: PH,
    acknowledgement_hash: AH,
) -> (r: Result<()>)
    requires
        call_requires(plan_hash, (plan,)),
        call_requires(acknowledgement_hash, (receipt,)),
    ensures
        match plan_shape_error(*plan) {
            Some(m) => r matches Err(e) && e.message@ == m,
            None => exists|h: Result<String>|
                #![trigger call_ensures(plan_hash, (plan,), h)]
                call_ensures(plan_hash, (plan,), h) && acknowledgement_check(r, *plan, *receipt, h, acknowledgement_hash),
        },
{
    proof {
        reveal_strlit("current schema-change plan is not eligible for acknowledgement");
        reveal_strlit("unsupported schema acknowledgement schema/version/review policy");
        reveal_strlit("schema acknowledgement signer and rationale must remain non-empty");
        reveal_strlit("schema acknowledgement hash does not match its contents");
        reveal_strlit("schema acknowledgement is stale or belongs to a different schema/relation change");
    }
    if let Err(e) = validate_plan(plan, &plan_hash) {
        return Err(e);
    }
    if !plan.requires_acknowledgement || plan.blockers.len() > 0 {
        return Err(CompileError::without_span("current schema-change plan is not eligible for acknowledgement"));
    }
    if !str_eq(receipt.schema.as_str(), SCHEMA_ACKNOWLEDGEMENT_SCHEMA) || receipt.version != 1 || !str_eq(
        receipt.review_policy.as_str(),
        SCHEMA_REVIEW_POLICY,
    ) {
        return Err(CompileError::without_span("unsupported schema acknowledgement schema/version/review policy"));
    }
    if is_blank(receipt.reviewer.as_str()) || is_blank(receipt.rationale.as_str()) {
        return Err(CompileError::without_span("schema acknowledgement signer and rationale must remain non-empty"));
    }
    let ha = acknowledgement_hash(receipt);
    proof {
        assert(call_ensures(acknowledgement_hash, (receipt,), ha));
    }
    let expected = match ha {
        Ok(a) => a,
        Err(e) => return Err(e),
    };
    if !str_eq(receipt.acknowledgement_hash.as_str(), expected.as_str()) {
        return Err(CompileError::without_span("schema acknowledgement hash does not match its contents"));
    }
    let bound = str_eq(receipt.plan_hash.as_str(), plan.plan_hash.as_str()) && str_eq(receipt.module.as_str(), plan.module.as_str())
        && str_eq(receipt.selector.action.as_str(), plan.selector.action.as_str()) && str_eq(
        receipt.selector.before.as_str(),
        plan.selector.before.as_str(),
    ) && str_eq(receipt.selector.after.as_str(), plan.selector.after.as_str()) && str_eq(
        receipt.resource_type.as_str(),
        plan.resource_type.as_str(),
    ) && str_eq(receipt.old_schema_identity.as_str(), plan.old_schema_identity.as_str()) && str_eq(
        receipt.new_schema_identity.as_str(),
        plan.new_schema_identity.as_str(),
    ) && str_eq(receipt.old_relation_identity.as_str(), plan.old_relation_identity.as_str()) && str_eq(
        receipt.new_relation_identity.as_str(),
        plan.new_relation_identity.as_str(),
    ) && same_changes(&receipt.field_changes, &plan.field_changes);
    if !bound {
        return Err(CompileError::without_span("schema acknowledgement is stale or belongs to a different schema/relation change"));
    }
    Ok(())
}

// ---------------------------------------------------------------------------------------------
// Laws.

/// A recorded plan's flags agree with its schema identities: it requires an acknowledgement, and
/// a state migration, exactly when the old and new schema identities differ. With a module,
/// selector and resource type that are not empty, it passes every check validation makes before
/// recomputing its hash.
pub proof fn lemma_recorded_plan_passes_shape_checks(
    p: SchemaChangePlan,
    old: SchemaCompilation,
    new: SchemaCompilation,
    sel: SchemaRelationSelector,
    rt: Seq<char>,
    oi: Seq<char>,
    ni: Seq<char>,
    ori: Seq<char>,
    nri: Seq<char>,
    names: Seq<Seq<char>>,
    old_fields: Seq<TypedSemanticField>,
    new_fields: Seq<TypedSemanticField>,
    old_ps: Seq<(String, SchemaFieldPolicy)>,
    new_ps: Seq<(String, SchemaFieldPolicy)>,
)
    requires
        plan_records(p, old, new, sel, rt, oi, ni, ori, nri, names, old_fields, new_fields, old_ps, new_ps),
    ensures
        p.requires_acknowledgement == (p.old_schema_identity@ != p.new_schema_identity@),
        p.state_migration_required == p.requires_acknowledgement,
        old.module@.len() > 0 && sel.action@.len() > 0 && sel.before@.len() > 0 && sel.after@.len() > 0 && rt.len() > 0
            ==> plan_shape_error(p) is None,
{
}

/// A receipt that acknowledging a plan returned is bound to that plan, carries the current
/// receipt schema, version and review policy, and keeps a signer and rationale that are not
/// blank: every check verification makes of it but the recomputed hash passes.
pub proof fn lemma_acknowledged_receipt_is_bound<AH: Fn(&SchemaAcknowledgementReceipt) -> Result<String>>(
    p: SchemaChangePlan,
    rc: SchemaAcknowledgementReceipt,
    signer: Seq<char>,
    rationale: Seq<char>,
    hash: Result<String>,
    acknowledgement_hash: AH,
)
    requires
        acknowledgement_outcome(Ok(rc), p, signer, rationale, hash, acknowledgement_hash),
    ensures
        receipt_matches_plan(rc, p),
        rc.schema@ == SCHEMA_ACKNOWLEDGEMENT_SCHEMA@,
        rc.version == 1,
        rc.review_policy@ == SCHEMA_REVIEW_POLICY@,
        !blank(rc.reviewer@),
        !blank(rc.rationale@),
        p.requires_acknowledgement,
        p.blockers@.len() == 0,
{
    lemma_trimmed_not_blank(signer);
    lemma_trimmed_not_blank(rationale);
}

/// What acknowledging a plan returns verifies against that plan, when the acknowledgement hash
/// computed over the returned receipt is the hash it records (as it is for a hash that leaves
/// out the receipt's own hash field) and the plan's hash is recomputed as before.
pub proof fn lemma_acknowledgement_verifies<AH: Fn(&SchemaAcknowledgementReceipt) -> Result<String>>(
    p: SchemaChangePlan,
    rc: SchemaAcknowledgementReceipt,
    signer: Seq<char>,
    rationale: Seq<char>,
    hash: Result<String>,
    acknowledgement_hash: AH,
    rehash: String,
)
    requires
        acknowledgement_outcome(Ok(rc), p, signer, rationale, hash, acknowledgement_hash),
        call_ensures(acknowledgement_hash, (&rc,), Ok::<String, CompileError>(rehash)),
        rehash@ == rc.acknowledgement_hash@,
    ensures
        acknowledgement_check(Ok(()), p, rc, hash, acknowledgement_hash),
{
    lemma_acknowledged_receipt_is_bound(p, rc, signer, rationale, hash, acknowledgement_hash);
    assert(call_ensures(acknowledgement_hash, (&rc,), Ok::<String, CompileError>(rehash)));
}

/// `plan_hash` gives one and the same outcome each time it hashes `p`.
pub open spec fn plan_hash_fixed_on<PH: Fn(&SchemaChangePlan) -> Result<String>>(plan_hash: PH, p: SchemaChangePlan) -> bool {
    forall|h1: Result<String>, h2: Result<String>|
        #![trigger call_ensures(plan_hash, (&p,), h1), call_ensures(plan_hash, (&p,), h2)]
        call_ensures(plan_hash, (&p,), h1) && call_ensures(plan_hash, (&p,), h2) ==> h1 == h2
}

/// A receipt that acknowledging a plan returned is accepted when it is verified against that
/// plan: with a plan hash that gives one outcome on the plan, and an acknowledgement hash that,
/// recomputed over the receipt, can only give the hash the receipt records (as a hash that leaves
/// out the receipt's own hash field does), whatever verification reports is `Ok`.
pub proof fn lemma_acknowledged_receipt_verifies<PH: Fn(&SchemaChangePlan) -> Result<String>, AH: Fn(&SchemaAcknowledgementReceipt) -> Result<String>>(
    p: SchemaChangePlan,
    rc: SchemaAcknowledgementReceipt,
    signer: Seq<char>,
    rationale: Seq<char>,
    plan_hash: PH,
    acknowledgement_hash: AH,
    r: Result<()>,
)
    requires
        plan_shape_error(p) is None,
        exists|h: Result<String>|
            #![trigger call_ensures(plan_hash, (&p,), h)]
            call_ensures(plan_hash, (&p,), h) && acknowledgement_outcome(Ok(rc), p, signer, rationale, h, acknowledgement_hash),
        exists|h: Result<String>|
            #![trigger call_ensures(plan_hash, (&p,), h)]
            call_ensures(plan_hash, (&p,), h) && acknowledgement_check(r, p, rc, h, acknowledgement_hash),
        plan_hash_fixed_on(plan_hash, p),
        forall|ha: Result<String>|
            call_ensures(acknowledgement_hash, (&rc,), ha) ==> (ha matches Ok(a) && a@ == rc.acknowledgement_hash@),
    ensures
        r is Ok,
{
    let h1 = choose|h: Result<String>|
        #![trigger call_ensures(plan_hash, (&p,), h)]
        call_ensures(plan_hash, (&p,), h) && acknowledgement_outcome(Ok(rc), p, signer, rationale, h, acknowledgement_hash);
    let h2 = choose|h: Result<String>|
        #![trigger call_ensures(plan_hash, (&p,), h)]
        call_ensures(plan_hash, (&p,), h) && acknowledgement_check(r, p, rc, h, acknowledgement_hash);
    assert(h1 == h2);
    lemma_acknowledged_receipt_is_bound(p, rc, signer, rationale, h1, acknowledgement_hash);
}

/// A plan that building recorded validates: with a module, selector and resource type that are
/// not empty, and a plan hash that, recomputed over the plan, can only give the hash the plan
/// records (as a hash that leaves out the plan's own hash field does), whatever validation
/// reports is `Ok`.
pub proof fn lemma_recorded_plan_validates<PH: Fn(&SchemaChangePlan) -> Result<String>>(
    p: SchemaChangePlan,
    old: SchemaCompilation,
    new: SchemaCompilation,
    sel: SchemaRelationSelector,
    rt: Seq<char>,
    oi: Seq<char>,
    ni: Seq<char>,
    ori: Seq<char>,
    nri: Seq<char>,
    names: Seq<Seq<char>>,
    old_fields: Seq<TypedSemanticField>,
    new_fields: Seq<TypedSemanticField>,
    old_ps: Seq<(String, SchemaFieldPolicy)>,
    new_ps: Seq<(String, SchemaFieldPolicy)>,
    plan_hash: PH,
    r: Result<()>,
)
    requires
        plan_records(p, old, new, sel, rt, oi, ni, ori, nri, names, old_fields, new_fields, old_ps, new_ps),
        old.module@.len() > 0 && sel.action@.len() > 0 && sel.before@.len() > 0 && sel.after@.len() > 0 && rt.len() > 0,
        forall|h: Result<String>| call_ensures(plan_hash, (&p,), h) ==> (h matches Ok(x) && x@ == p.plan_hash@),
        match plan_shape_error(p) {
            Some(m) => r matches Err(e) && e.message@ == m,
            None => exists|h: Result<String>|
                #![trigger call_ensures(plan_hash, (&p,), h)]
                call_ensures(plan_hash, (&p,), h) && validated(r, p, h),
        },
    ensures
        r is Ok,
{
    lemma_recorded_plan_passes_shape_checks(p, old, new, sel, rt, oi, ni, ori, nri, names, old_fields, new_fields, old_ps, new_ps);
    let h = choose|h: Result<String>|
        #![trigger call_ensures(plan_hash, (&p,), h)]
        call_ensures(plan_hash, (&p,), h) && validated(r, p, h);
    assert(h matches Ok(x) && x@ == p.plan_hash@);
}

/// A receipt that is not bound to the plan it is checked against is refused, whatever the hash
/// functions give: a receipt whose plan hash, module, relation, resource, identities or field
/// changes differ from the plan's never verifies, and neither does any receipt against a plan
/// with another plan hash than the one it records.
pub proof fn lemma_unbound_receipt_refused<AH: Fn(&SchemaAcknowledgementReceipt) -> Result<String>>(
    p: SchemaChangePlan,
    rc: SchemaAcknowledgementReceipt,
    hash: Result<String>,
    acknowledgement_hash: AH,
    r: Result<()>,
)
    requires
        !receipt_matches_plan(rc, p),
        acknowledgement_check(r, p, rc, hash, acknowledgement_hash),
    ensures
        r is Err,
{
}


/// A field change as characters, as `change_view` gives it.
pub type ChangeView = (
    Seq<char>,
    Seq<char>,
    Option<Seq<char>>,
    Option<Seq<char>>,
    Option<(Seq<char>, Option<Seq<char>>)>,
    Option<(Seq<char>, Option<Seq<char>>)>,
);

/// Whether `changes` lists field `f` under `class`, with old type `ot` and new type `nt`.
pub open spec fn lists_change(changes: Seq<ChangeView>, f: Seq<char>, class: Seq<char>, ot: Option<Seq<char>>, nt: Option<Seq<char>>) -> bool {
    exists|k: int| 0 <= k < changes.len() && (#[trigger] changes[k]).0 == f && changes[k].1 == class && changes[k].2 == ot && changes[k].3 == nt
}

/// Whether the plan `p` lists field `f` under `class`, with old type `ot` and new type `nt`.
pub open spec fn plan_lists_change(p: SchemaChangePlan, f: Seq<char>, class: Seq<char>, ot: Option<Seq<char>>, nt: Option<Seq<char>>) -> bool {
    exists|k: int|
        0 <= k < p.field_changes@.len() && (#[trigger] p.field_changes@[k]).field@ == f && p.field_changes@[k].classification@ == class
            && opt_text(p.field_changes@[k].old_type) == ot && opt_text(p.field_changes@[k].new_type) == nt
}

/// A schema gives a field a type exactly when it has a field of that name.
proof fn lemma_field_type_present(fields: Seq<TypedSemanticField>, f: Seq<char>)
    ensures
        field_type(fields, f) is Some <==> field_names(fields).contains(f),
    decreases fields.len(),
{
    let names = field_names(fields);
    if fields.len() > 0 {
        let rest = fields.drop_last();
        lemma_field_type_present(rest, f);
        assert(field_names(rest) =~= names.drop_last());
        assert(names[fields.len() - 1] == fields.last().name@);
        if names.contains(f) && fields.last().name@ != f {
            let k = choose|k: int| 0 <= k < names.len() && names[k] == f;
            assert(field_names(rest)[k] == f);
        }
        if field_names(rest).contains(f) {
            let k = choose|k: int| 0 <= k < field_names(rest).len() && field_names(rest)[k] == f;
            assert(names[k] == f);
        }
    }
}

/// Over the fields `names`, each field whose type differs between the schemas, or whose
/// treatment differs while its type does not, is listed, under the class that says which;
/// a field with the same type and treatment on both sides is not listed.
proof fn lemma_changes_listed(
    names: Seq<Seq<char>>,
    old_fields: Seq<TypedSemanticField>,
    new_fields: Seq<TypedSemanticField>,
    old_ps: Seq<(String, SchemaFieldPolicy)>,
    new_ps: Seq<(String, SchemaFieldPolicy)>,
    f: Seq<char>,
)
    ensures
        ({
            let changes = changes_spec(names, old_fields, new_fields, old_ps, new_ps);
            let ot = field_type(old_fields, f);
            let nt = field_type(new_fields, f);
            let same_policy = policy_view(policy_of(old_ps, f)) == policy_view(policy_of(new_ps, f));
            &&& names.contains(f) && ot is Some && nt is None ==> lists_change(changes, f, "removed"@, ot, nt)
            &&& names.contains(f) && ot is None && nt is Some ==> lists_change(changes, f, "added"@, ot, nt)
            &&& names.contains(f) && ot is Some && nt is Some && ot != nt ==> lists_change(changes, f, "type-changed"@, ot, nt)
            &&& names.contains(f) && ot == nt && !same_policy ==> lists_change(changes, f, "policy-changed"@, ot, nt)
            &&& ot == nt && same_policy ==> forall|k: int| 0 <= k < changes.len() ==> (#[trigger] changes[k]).0 != f
        }),
    decreases names.len(),
{
    if names.len() > 0 {
        let rest = names.drop_last();
        lemma_changes_listed(rest, old_fields, new_fields, old_ps, new_ps, f);
        let prev = changes_spec(rest, old_fields, new_fields, old_ps, new_ps);
        let changes = changes_spec(names, old_fields, new_fields, old_ps, new_ps);
        assert forall|k: int| 0 <= k < prev.len() implies changes[k] == prev[k] by {}
        if names.contains(f) && names.last() != f {
            let k = choose|k: int| 0 <= k < names.len() && names[k] == f;
            assert(rest[k] == f);
        }
        if names.last() == f {
            let ot = field_type(old_fields, f);
            let nt = field_type(new_fields, f);
            if classification(ot, nt, policy_of(old_ps, f), policy_of(new_ps, f)) is Some {
                assert(changes[prev.len() as int].0 == f);
            }
        }
    }
}

/// In a recorded plan over the fields of both schemas, a field that the old schema has and the
/// new one lacks is listed as removed, with its old type; a field that only the new schema has
/// is listed as added, with its new type; a field whose type differs is listed as type-changed,
/// with both types; a field of the same type whose treatment differs is listed as
/// policy-changed; and a field whose type and treatment are the same on both sides is not
/// listed.
pub proof fn lemma_plan_lists_field_changes(
    p: SchemaChangePlan,
    old: SchemaCompilation,
    new: SchemaCompilation,
    sel: SchemaRelationSelector,
    resource_type: Seq<char>,
    old_identity: Seq<char>,
    new_identity: Seq<char>,
    old_relation_identity: Seq<char>,
    new_relation_identity: Seq<char>,
    names: Seq<Seq<char>>,
    old_fields: Seq<TypedSemanticField>,
    new_fields: Seq<TypedSemanticField>,
    old_ps: Seq<(String, SchemaFieldPolicy)>,
    new_ps: Seq<(String, SchemaFieldPolicy)>,
    f: Seq<char>,
)
    requires
        plan_records(
            p,
            old,
            new,
            sel,
            resource_type,
            old_identity,
            new_identity,
            old_relation_identity,
            new_relation_identity,
            names,
            old_fields,
            new_fields,
            old_ps,
            new_ps,
        ),
        names.to_set() == field_names(old_fields).to_set().union(field_names(new_fields).to_set()),
    ensures
        ({
            let in_old = field_names(old_fields).contains(f);
            let in_new = field_names(new_fields).contains(f);
            let ot = field_type(old_fields, f);
            let nt = field_type(new_fields, f);
            let same_policy = policy_view(policy_of(old_ps, f)) == policy_view(policy_of(new_ps, f));
            &&& in_old ==> ot is Some
            &&& in_new ==> nt is Some
            &&& in_old && !in_new ==> plan_lists_change(p, f, "removed"@, ot, None)
            &&& !in_old && in_new ==> plan_lists_change(p, f, "added"@, None, nt)
            &&& in_old && in_new && ot != nt ==> plan_lists_change(p, f, "type-changed"@, ot, nt)
            &&& (in_old || in_new) && ot == nt && !same_policy ==> plan_lists_change(p, f, "policy-changed"@, ot, nt)
            &&& ot == nt && same_policy ==> forall|k: int| 0 <= k < p.field_changes@.len() ==> (#[trigger] p.field_changes@[k]).field@ != f
        }),
{
    lemma_field_type_present(old_fields, f);
    lemma_field_type_present(new_fields, f);
    lemma_changes_listed(names, old_fields, new_fields, old_ps, new_ps, f);
    let changes = changes_spec(names, old_fields, new_fields, old_ps, new_ps);
    let views = p.field_changes@.map_values(|c: SchemaFieldChange| change_view(c));
    assert(views == changes);
    let in_old = field_names(old_fields).contains(f);
    let in_new = field_names(new_fields).contains(f);
    if in_old || in_new {
        assert(names.to_set().contains(f));
        assert(names.contains(f));
        let ot = field_type(old_fields, f);
        let nt = field_type(new_fields, f);
        if exists|k: int| 0 <= k < changes.len() && (#[trigger] changes[k]).0 == f {
            let k = choose|k: int| 0 <= k < changes.len() && (#[trigger] changes[k]).0 == f;
            assert(views[k] == change_view(p.field_changes@[k]));
        }
        assert forall|class: Seq<char>, a: Option<Seq<char>>, b: Option<Seq<char>>| lists_change(changes, f, class, a, b) implies plan_lists_change(p, f, class, a, b) by {
            let k = choose|k: int| 0 <= k < changes.len() && (#[trigger] changes[k]).0 == f && changes[k].1 == class && changes[k].2 == a && changes[k].3 == b;
            assert(views[k] == change_view(p.field_changes@[k]));
        }
    }
    assert forall|k: int| 0 <= k < p.field_changes@.len() implies (#[trigger] p.field_changes@[k]).field@ == changes[k].0 by {
        assert(views[k] == change_view(p.field_changes@[k]));
    }
}

} // verus!
