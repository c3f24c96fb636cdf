//! The interpreter that walks entry bodies and records the trace.

use crate::ast::{BinaryExpr, BinaryOp, BindingPattern, CallExpr, Expr, Item, Module, Param, Stmt, UnaryOp};
use crate::simulate::value::{join_strings, spec_display, spec_event_display};
use crate::simulate::{
    entry_key_matches, eval_binary, lemma_integer_operations_are_arithmetic, eval_unary, has_entry, is_truthy, spec_bool_binary, spec_integer_binary,
    spec_is_truthy, SimValue, SimulateError, SimulateResult,
    TraceEvent,
};
use crate::text::{concat2, concat3, decimal_string, hex_encode, hex_lower, str_eq};
use vstd::prelude::*;
use vstd::string::StringExecFns;

verus! {

/// Runs the entries of one module, one step at a time, within a step budget.
pub struct SimulateInterpreter<'a> {
    module: &'a Module,
    env: Vec<(String, SimValue)>,
    trace: Vec<TraceEvent>,
    has_cell_ops: bool,
    steps: u64,
    max_steps: u64,
}

/// An environment as names and the displays of their values.
pub open spec fn shown_env(env: Seq<(String, SimValue)>) -> Seq<(Seq<char>, Seq<char>)> {
    env.map_values(|p: (String, SimValue)| (p.0@, spec_display(p.1)))
}

/// The first position at or after `from` where `name` is bound.
pub open spec fn shown_index(ev: Seq<(Seq<char>, Seq<char>)>, name: Seq<char>, from: int) -> Option<int>
    decreases ev.len() - from,
{
    if from < 0 || from >= ev.len() {
        None
    } else if ev[from].0 == name {
        Some(from)
    } else {
        shown_index(ev, name, from + 1)
    }
}

/// `name` bound to `shown`: its first binding replaced, or a new binding at the end.
pub open spec fn shown_insert(ev: Seq<(Seq<char>, Seq<char>)>, name: Seq<char>, shown: Seq<char>) -> Seq<(Seq<char>, Seq<char>)> {
    match shown_index(ev, name, 0) {
        Some(k) => ev.update(k, (name, shown)),
        None => ev.push((name, shown)),
    }
}

proof fn lemma_index_agrees(ev: Seq<(Seq<char>, SimValue)>, ev2: Seq<(Seq<char>, SimValue)>, name: Seq<char>, from: int)
    requires
        ev.len() == ev2.len(),
        forall|j: int| from <= j < ev.len() ==> (#[trigger] ev[j].0 == name <==> ev2[j].0 == name),
    ensures
        env_index(ev, name, from) == env_index(ev2, name, from),
    decreases ev.len() - from,
{
    if from >= 0 && from < ev.len() {
        lemma_index_agrees(ev, ev2, name, from + 1);
    }
}

proof fn lemma_index_after_push(ev: Seq<(Seq<char>, SimValue)>, p: (Seq<char>, SimValue), name: Seq<char>, from: int)
    requires
        from >= 0,
    ensures
        p.0 != name ==> env_index(ev.push(p), name, from) == env_index(ev, name, from),
        p.0 == name && env_index(ev, name, from) is None && from <= ev.len() ==> env_index(ev.push(p), name, from)
            == Some(ev.len() as int),
    decreases ev.len() + 1 - from,
{
    if from < ev.len() {
        assert(ev.push(p)[from] == ev[from]);
        lemma_index_after_push(ev, p, name, from + 1);
    } else if from == ev.len() {
        assert(ev.push(p)[from] == p);
        assert(env_index(ev.push(p), name, from + 1) is None);
    }
}

proof fn lemma_index_at(ev: Seq<(Seq<char>, SimValue)>, name: Seq<char>, from: int, k: int, v: SimValue)
    requires
        env_index(ev, name, from) == Some(k),
    ensures
        from <= k < ev.len(),
        ev[k].0 == name,
        env_index(ev.update(k, (name, v)), name, from) == Some(k),
    decreases ev.len() - from,
{
    if from >= 0 && from < ev.len() && ev[from].0 != name {
        lemma_index_at(ev, name, from + 1, k, v);
    }
}

/// Reading a name back after binding it gives the value just bound.
pub proof fn lemma_env_put_reads_back(ev: Seq<(Seq<char>, SimValue)>, name: Seq<char>, v: SimValue)
    ensures
        env_lookup(env_put(ev, name, v), name) == Some(v),
{
    match env_index(ev, name, 0) {
        Some(k) => {
            lemma_index_at(ev, name, 0, k, v);
        },
        None => {
            lemma_index_after_push(ev, (name, v), name, 0);
        },
    }
}

/// Binding one name leaves what every other name reads unchanged.
pub proof fn lemma_env_put_keeps_others(ev: Seq<(Seq<char>, SimValue)>, name: Seq<char>, other: Seq<char>, v: SimValue)
    requires
        other != name,
    ensures
        env_lookup(env_put(ev, name, v), other) == env_lookup(ev, other),
{
    match env_index(ev, name, 0) {
        Some(k) => {
            lemma_index_at(ev, name, 0, k, v);
            let ev2 = ev.update(k, (name, v));
            assert forall|j: int| 0 <= j < ev.len() implies (#[trigger] ev[j].0 == other <==> ev2[j].0 == other) by {
                if j == k {
                    assert(ev2[j].0 == name);
                }
            }
            lemma_index_agrees(ev, ev2, other, 0);
            match env_index(ev, other, 0) {
                Some(j) => {
                    lemma_index_at(ev, other, 0, j, v);
                    assert(j != k);
                },
                None => {},
            }
        },
        None => {
            lemma_index_after_push(ev, (name, v), other, 0);
            match env_index(ev, other, 0) {
                Some(j) => {
                    lemma_index_at(ev, other, 0, j, v);
                    assert(ev.push((name, v))[j] == ev[j]);
                },
                None => {},
            }
        },
    }
}

/// The first `n` names bound, in order, to the first `n` values.
pub open spec fn shown_bind(
    ev: Seq<(Seq<char>, Seq<char>)>,
    names: Seq<Seq<char>>,
    values: Seq<Seq<char>>,
    n: int,
) -> Seq<(Seq<char>, Seq<char>)>
    decreases n,
{
    if n <= 0 {
        ev
    } else {
        shown_insert(shown_bind(ev, names, values, n - 1), names[n - 1], values[n - 1])
    }
}

/// The name a pattern binds, where it is a plain name.
pub open spec fn pattern_name(p: BindingPattern) -> Seq<char> {
    match p {
        BindingPattern::Name(n) => n@,
        _ => Seq::empty(),
    }
}

/// The smaller of two lengths.
pub open spec fn min_len(a: int, b: int) -> int {
    if a < b {
        a
    } else {
        b
    }
}

/// An environment as names and the values bound to them.
pub open spec fn env_view(env: Seq<(String, SimValue)>) -> Seq<(Seq<char>, SimValue)> {
    env.map_values(|p: (String, SimValue)| (p.0@, p.1))
}

/// The first position at or after `from` where `name` is bound.
pub open spec fn env_index(ev: Seq<(Seq<char>, SimValue)>, name: Seq<char>, from: int) -> Option<int>
    decreases ev.len() - from,
{
    if from < 0 || from >= ev.len() {
        None
    } else if ev[from].0 == name {
        Some(from)
    } else {
        env_index(ev, name, from + 1)
    }
}

/// The value that `name` is bound to, if it is bound.
pub open spec fn env_lookup(ev: Seq<(Seq<char>, SimValue)>, name: Seq<char>) -> Option<SimValue> {
    match env_index(ev, name, 0) {
        Some(k) => Some(ev[k].1),
        None => None,
    }
}

/// `name` bound to `v`: its first binding replaced, or a new binding at the end.
pub open spec fn env_put(ev: Seq<(Seq<char>, SimValue)>, name: Seq<char>, v: SimValue) -> Seq<(Seq<char>, SimValue)> {
    match env_index(ev, name, 0) {
        Some(k) => ev.update(k, (name, v)),
        None => ev.push((name, v)),
    }
}

/// The first `n` names bound, in order, to the first `n` values.
pub open spec fn env_bind(
    ev: Seq<(Seq<char>, SimValue)>,
    names: Seq<Seq<char>>,
    values: Seq<SimValue>,
    n: int,
) -> Seq<(Seq<char>, SimValue)>
    decreases n,
{
    if n <= 0 {
        ev
    } else {
        env_put(env_bind(ev, names, values, n - 1), names[n - 1], values[n - 1])
    }
}

/// A value that is copied exactly: neither a struct, an array nor a tuple.
pub open spec fn is_plain(v: SimValue) -> bool {
    !(v is Struct || v is Array || v is Tuple)
}

/// Whether every value of the sequence is plain.
pub open spec fn all_plain(vs: Seq<SimValue>) -> bool {
    forall|k: int| 0 <= k < vs.len() ==> is_plain(#[trigger] vs[k])
}

/// What a binary operation gives where its result is a plain number or truth value.
pub open spec fn binary_value(op: BinaryOp, l: SimValue, r: SimValue) -> Option<SimValue> {
    match (l, r) {
        (SimValue::Integer(a), SimValue::Integer(b)) => spec_integer_binary(op, a, b),
        (SimValue::Bool(a), SimValue::Bool(b)) => spec_bool_binary(op, a, b),
        _ => None,
    }
}

/// What a unary operation gives where its result is a plain number or truth value.
pub open spec fn unary_value(op: UnaryOp, v: SimValue) -> Option<SimValue> {
    match (op, v) {
        (UnaryOp::Neg, SimValue::Integer(n)) => Some(SimValue::Integer(vstd::wrapping::u64_specs::wrapping_sub(0, n))),
        (UnaryOp::Not, SimValue::Bool(b)) => Some(SimValue::Bool(!b)),
        (UnaryOp::Not, SimValue::Integer(n)) => Some(SimValue::Bool(n == 0)),
        _ => None,
    }
}

/// The value of an expression built from number, truth-value and text literals, bound names,
/// unary and binary operations on numbers and truth values, and casts (which keep the value);
/// `None` for any other expression.
pub open spec fn pure_value(ev: Seq<(Seq<char>, SimValue)>, e: Expr) -> Option<SimValue>
    decreases e,
{
    match e {
        Expr::Integer(n) => if n <= u64::MAX {
            Some(SimValue::Integer(n as u64))
        } else {
            None
        },
        Expr::Bool(b) => Some(SimValue::Bool(b)),
        Expr::String(t) => Some(SimValue::String(t)),
        Expr::Identifier(name) => match env_lookup(ev, name@) {
            Some(v) => if is_plain(v) {
                Some(v)
            } else {
                None
            },
            None => None,
        },
        Expr::Binary(bin) => match (pure_value(ev, *bin.left), pure_value(ev, *bin.right)) {
            (Some(l), Some(r)) => binary_value(bin.op, l, r),
            _ => None,
        },
        Expr::Unary(u) => match pure_value(ev, *u.expr) {
            Some(v) => unary_value(u.op, v),
            None => None,
        },
        Expr::Cast(c) => pure_value(ev, *c.expr),
        _ => None,
    }
}

/// A comparison of two numbers that the simulator evaluates gives the truth of that comparison
/// on the numbers, whatever expressions produced them.
pub proof fn lemma_simulated_comparison(ev: Seq<(Seq<char>, SimValue)>, b: BinaryExpr, l: u64, r: u64)
    requires
        pure_value(ev, *b.left) == Some(SimValue::Integer(l)),
        pure_value(ev, *b.right) == Some(SimValue::Integer(r)),
    ensures
        b.op is Eq ==> pure_value(ev, Expr::Binary(b)) == Some(SimValue::Bool(l == r)),
        b.op is Ne ==> pure_value(ev, Expr::Binary(b)) == Some(SimValue::Bool(l != r)),
        b.op is Lt ==> pure_value(ev, Expr::Binary(b)) == Some(SimValue::Bool(l < r)),
        b.op is Le ==> pure_value(ev, Expr::Binary(b)) == Some(SimValue::Bool(l <= r)),
        b.op is Gt ==> pure_value(ev, Expr::Binary(b)) == Some(SimValue::Bool(l > r)),
        b.op is Ge ==> pure_value(ev, Expr::Binary(b)) == Some(SimValue::Bool(l >= r)),
{
}

/// Arithmetic on two numbers that the simulator evaluates wraps around 2^64 for `+`, `-` and
/// `*`, and divides for `/` and `%` by a nonzero divisor, whatever expressions produced them.
pub proof fn lemma_simulated_arithmetic(ev: Seq<(Seq<char>, SimValue)>, b: BinaryExpr, l: u64, r: u64)
    requires
        pure_value(ev, *b.left) == Some(SimValue::Integer(l)),
        pure_value(ev, *b.right) == Some(SimValue::Integer(r)),
    ensures
        b.op is Add ==> pure_value(ev, Expr::Binary(b)) == Some(SimValue::Integer(((l as int + r as int) % 0x1_0000_0000_0000_0000) as u64)),
        b.op is Sub ==> pure_value(ev, Expr::Binary(b)) == Some(SimValue::Integer(((l as int - r as int + 0x1_0000_0000_0000_0000) % 0x1_0000_0000_0000_0000) as u64)),
        b.op is Mul ==> pure_value(ev, Expr::Binary(b)) == Some(SimValue::Integer(((l as int * r as int) % 0x1_0000_0000_0000_0000) as u64)),
        b.op is Div && r != 0 ==> pure_value(ev, Expr::Binary(b)) == Some(SimValue::Integer(l / r)),
        b.op is Mod && r != 0 ==> pure_value(ev, Expr::Binary(b)) == Some(SimValue::Integer(l % r)),
{
    lemma_integer_operations_are_arithmetic(l, r);
}

proof fn lemma_pure_is_plain(ev: Seq<(Seq<char>, SimValue)>, e: Expr)
    ensures
        pure_value(ev, e) matches Some(v) ==> is_plain(v),
    decreases e,
{
    if let Expr::Cast(c) = e {
        lemma_pure_is_plain(ev, *c.expr);
    }
}

/// The steps an expression of that kind takes: one for each node.
pub open spec fn pure_cost(e: Expr) -> nat
    decreases e,
{
    match e {
        Expr::Binary(bin) => 1 + pure_cost(*bin.left) + pure_cost(*bin.right),
        Expr::Unary(u) => 1 + pure_cost(*u.expr),
        Expr::Cast(c) => 1 + pure_cost(*c.expr),
        _ => 1,
    }
}

/// The effect of a statement built from expressions with plain values: the bindings after it,
/// what it returns, and the steps it takes; `None` for any other statement. A branch runs the
/// block its condition selects; a loop over a plain value runs its body once with the pattern
/// bound to that value; a `while` loop runs at most 100 rounds.
pub open spec fn stmt_effect(ev: Seq<(Seq<char>, SimValue)>, s: Stmt) -> Option<(Seq<(Seq<char>, SimValue)>, Option<SimValue>, nat)>
    decreases s, 101nat,
{
    match s {
        Stmt::Let(l) => match (l.pattern, pure_value(ev, l.value)) {
            (BindingPattern::Name(n), Some(v)) => Some((env_put(ev, n@, v), None, 1 + pure_cost(l.value))),
            _ => None,
        },
        Stmt::Return(ret) => match ret.value {
            None => Some((ev, Some(SimValue::Unit), 1)),
            Some(e) => match pure_value(ev, e) {
                Some(v) => Some((ev, Some(v), 1 + pure_cost(e))),
                None => None,
            },
        },
        Stmt::Expr(e) => match pure_value(ev, e) {
            Some(v) => Some((ev, if v is Unit { None } else { Some(v) }, 1 + pure_cost(e))),
            None => None,
        },
        Stmt::If(i) => match pure_value(ev, i.condition) {
            Some(c) => {
                let cost = 1 + pure_cost(i.condition);
                if spec_is_truthy(c) {
                    match block_effect(ev, i.then_branch@) {
                        Some((e2, ret, c2)) => Some((e2, ret, cost + c2)),
                        None => None,
                    }
                } else {
                    match i.else_branch {
                        Some(b) => match block_effect(ev, b@) {
                            Some((e2, ret, c2)) => Some((e2, ret, cost + c2)),
                            None => None,
                        },
                        None => Some((ev, None, cost)),
                    }
                }
            },
            None => None,
        },
        Stmt::For(f) => match pure_value(ev, f.iterable) {
            Some(v) => {
                let bound = match f.pattern {
                    BindingPattern::Name(n) => Some(env_put(ev, n@, v)),
                    BindingPattern::Wildcard => Some(ev),
                    _ => None,
                };
                match bound {
                    Some(e1) => match block_effect(e1, f.body@) {
                        Some((e2, ret, c2)) => Some((e2, ret, 1 + pure_cost(f.iterable) + c2)),
                        None => None,
                    },
                    None => None,
                }
            },
            None => None,
        },
        Stmt::While(_) => match while_effect(ev, s, 100) {
            Some((e2, ret, c2)) => Some((e2, ret, 1 + c2)),
            None => None,
        },
        _ => None,
    }
}

/// The effect of at most `k` rounds of the `while` loop `s`: each round takes a step, evaluates
/// the condition, and stops when it does not hold or the body returns.
pub open spec fn while_effect(ev: Seq<(Seq<char>, SimValue)>, s: Stmt, k: nat) -> Option<(Seq<(Seq<char>, SimValue)>, Option<SimValue>, nat)>
    decreases s, k,
{
    match s {
        Stmt::While(w) => if k == 0 {
            Some((ev, None, 0))
        } else {
            match pure_value(ev, w.condition) {
                Some(c) => {
                    let cost = 1 + pure_cost(w.condition);
                    if !spec_is_truthy(c) {
                        Some((ev, None, cost))
                    } else {
                        match block_effect(ev, w.body@) {
                            Some((e2, Some(v), c2)) => Some((e2, Some(v), cost + c2)),
                            Some((e2, None, c2)) => match while_effect(e2, s, (k - 1) as nat) {
                                Some((e3, ret, c3)) => Some((e3, ret, cost + c2 + c3)),
                                None => None,
                            },
                            None => None,
                        }
                    }
                },
                None => None,
            }
        },
        _ => None,
    }
}

/// The effect of running statements in order until one returns; `None` where a statement has
/// no effect of that kind.
pub open spec fn block_effect(ev: Seq<(Seq<char>, SimValue)>, stmts: Seq<Stmt>) -> Option<(Seq<(Seq<char>, SimValue)>, Option<SimValue>, nat)>
    decreases stmts, 101nat,
{
    if stmts.len() == 0 {
        Some((ev, None, 0))
    } else {
        match stmt_effect(ev, stmts[0]) {
            Some((e2, Some(v), c)) => Some((e2, Some(v), c)),
            Some((e2, None, c)) => match block_effect(e2, stmts.subrange(1, stmts.len() as int)) {
                Some((e3, ret, c2)) => Some((e3, ret, c + c2)),
                None => None,
            },
            None => None,
        }
    }
}

/// The parameters and body of the last item of `items` that `key` names.
pub open spec fn entry_of(items: Seq<Item>, key: Seq<char>) -> Option<(Seq<Param>, Seq<Stmt>)>
    decreases items.len(),
{
    if items.len() == 0 {
        None
    } else if entry_key_matches(items.last(), key) {
        match items.last() {
            Item::Function(f) => Some((f.params@, f.body@)),
            Item::Action(a) => Some((a.params@, a.body@)),
            Item::Lock(l) => Some((l.params@, l.body@)),
            _ => None,
        }
    } else {
        entry_of(items.drop_last(), key)
    }
}

/// The names of parameters, in order.
pub open spec fn param_names(ps: Seq<Param>) -> Seq<Seq<char>> {
    ps.map_values(|p: Param| p.name@)
}

/// The value an entry gives back: what its body returned, or the unit value.
pub open spec fn returned(ret: Option<SimValue>) -> SimValue {
    match ret {
        Some(v) => v,
        None => SimValue::Unit,
    }
}

impl<'a> SimulateInterpreter<'a> {
    /// The module whose entries run.
    pub closed spec fn spec_module(&self) -> Module {
        *self.module
    }

    /// Steps taken so far.
    pub closed spec fn spec_steps(&self) -> u64 {
        self.steps
    }

    /// The step budget.
    pub closed spec fn spec_max_steps(&self) -> u64 {
        self.max_steps
    }

    /// Whether a cell operation has run.
    pub closed spec fn spec_has_cell_ops(&self) -> bool {
        self.has_cell_ops
    }

    /// The events recorded so far.
    pub closed spec fn spec_trace(&self) -> Seq<TraceEvent> {
        self.trace@
    }

    /// The names bound so far, with their values.
    pub closed spec fn spec_env(&self) -> Seq<(String, SimValue)> {
        self.env@
    }

    /// Steps left before the budget runs out.
    pub closed spec fn fuel(&self) -> nat {
        if self.steps < self.max_steps {
            (self.max_steps - self.steps) as nat
        } else {
            0
        }
    }

    /// A later state of a run from `o`: same module and budget, no fewer steps, the trace only
    /// extended, and cell operations, once seen, still recorded.
    pub closed spec fn progressed(&self, o: &Self) -> bool {
        &&& self.module == o.module
        &&& self.max_steps == o.max_steps
        &&& self.steps >= o.steps
        &&& self.trace@.len() >= o.trace@.len()
        &&& forall|k: int| 0 <= k < o.trace@.len() ==> self.trace@[k] == o.trace@[k]
        &&& o.has_cell_ops ==> self.has_cell_ops
    }

    /// Whether `e` has a plain value in the bindings of this state, and one step more than it
    /// takes leaves the budget unexceeded.
    spec fn operand_fits(&self, e: Expr) -> bool {
        &&& pure_value(env_view(self.env@), e) is Some
        &&& self.steps + 1 + pure_cost(e) <= self.max_steps
    }

    /// The plain value of `e` in the bindings of this state.
    spec fn operand(&self, e: Expr) -> SimValue {
        pure_value(env_view(self.env@), e).unwrap()
    }

    /// A later state of a run from `o` in which a cell operation has run: cell operations are
    /// marked, and where it succeeded the last event is one that `kind` accepts.
    spec fn cell_op_done(&self, o: &Self, r: Result<SimValue, SimulateError>, kind: spec_fn(TraceEvent) -> bool) -> bool {
        &&& self.has_cell_ops
        &&& r is Ok ==> self.trace@.len() > o.trace@.len() && kind(self.trace@.last())
    }

    /// As `cell_op_done`, for an operation that evaluates an operand first: where it succeeded,
    /// the operation's own step and at least one step of the operand were taken.
    spec fn operand_op_done(&self, o: &Self, r: Result<SimValue, SimulateError>, kind: spec_fn(TraceEvent) -> bool) -> bool {
        &&& self.cell_op_done(o, r, kind)
        &&& r is Ok ==> self.steps >= o.steps + 2
    }

    /// A later state of a run from `o` that took `c` steps, left the bindings as they were, and
    /// recorded exactly one event, which `event` accepts.
    spec fn appended_one(&self, o: &Self, c: nat, event: spec_fn(TraceEvent) -> bool) -> bool {
        &&& self.trace@.len() == o.trace@.len() + 1
        &&& event(self.trace@.last())
        &&& self.env@ == o.env@
        &&& self.steps == o.steps + c
    }

    /// A simulator for `module` with a budget of `max_steps` steps.
    pub fn new(module: &'a Module, max_steps: u64) -> (r: Self)
        ensures
            r.spec_module() == *module,
            r.spec_steps() == 0,
            r.spec_max_steps() == max_steps,
            !r.spec_has_cell_ops(),
            r.spec_trace().len() == 0,
            r.spec_env().len() == 0,
    {
        SimulateInterpreter { module, env: Vec::new(), trace: Vec::new(), has_cell_ops: false, steps: 0, max_steps }
    }

    /// Takes one step; past the budget the step fails with the budget in the error.
    fn bump_steps(&mut self) -> (r: Result<(), SimulateError>)
        ensures
            final(self).progressed(old(self)),
            final(self).env == old(self).env,
            final(self).trace == old(self).trace,
            final(self).has_cell_ops == old(self).has_cell_ops,
            r is Ok <==> old(self).steps < old(self).max_steps,
            r is Ok ==> final(self).steps == old(self).steps + 1 && final(self).fuel() + 1 == old(self).fuel(),
            r matches Err(e) ==> e == (SimulateError::StepLimitExceeded { max: old(self).max_steps }),
            r is Err ==> final(self).fuel() == 0,
    {
        if self.steps >= self.max_steps {
            if self.steps < u64::MAX {
                self.steps = self.steps + 1;
            }
            return Err(SimulateError::StepLimitExceeded { max: self.max_steps });
        }
        self.steps = self.steps + 1;
        Ok(())
    }

    fn record(&mut self, event: TraceEvent)
        ensures
            final(self).progressed(old(self)),
            final(self).trace@ == old(self).trace@.push(event),
            final(self).env == old(self).env,
            final(self).steps == old(self).steps,
            final(self).has_cell_ops == old(self).has_cell_ops,
    {
        self.trace.push(event);
    }

    fn mark_cell_op(&mut self)
        ensures
            final(self).progressed(old(self)),
            final(self).has_cell_ops,
            final(self).env == old(self).env,
            final(self).trace == old(self).trace,
            final(self).steps == old(self).steps,
    {
        self.has_cell_ops = true;
    }

    /// Binds `name` to `value`, replacing an earlier binding of the same name.
    fn env_insert(&mut self, name: String, value: SimValue)
        ensures
            final(self).progressed(old(self)),
            final(self).steps == old(self).steps,
            final(self).trace == old(self).trace,
            final(self).has_cell_ops == old(self).has_cell_ops,
            shown_env(final(self).env@) == shown_insert(shown_env(old(self).env@), name@, spec_display(value)),
            env_view(final(self).env@) == env_put(env_view(old(self).env@), name@, value),
    {
        let mut i: usize = 0;
        let ghost ev = shown_env(self.env@);
        let ghost vv = env_view(self.env@);
        while i < self.env.len()
            invariant
                i <= self.env@.len(),
                self.env == old(self).env,
                ev == shown_env(old(self).env@),
                shown_index(ev, name@, 0) == shown_index(ev, name@, i as int),
                vv == env_view(old(self).env@),
                env_index(vv, name@, 0) == env_index(vv, name@, i as int),
                self.env@.len() == old(self).env@.len(),
                self.module == old(self).module,
                self.max_steps == old(self).max_steps,
                self.steps == old(self).steps,
                self.trace == old(self).trace,
                self.has_cell_ops == old(self).has_cell_ops,
            decreases self.env@.len() - i,
        {
            if str_eq(self.env[i].0.as_str(), name.as_str()) {
                proof {
                    assert(ev[i as int].0 == name@);
                    assert(vv[i as int].0 == name@);
                }
                self.env.set(i, (name, value));
                assert(shown_env(self.env@) =~= ev.update(i as int, (name@, spec_display(value))));
                assert(env_view(self.env@) =~= vv.update(i as int, (name@, value)));
                return;
            }
            assert(ev[i as int].0 != name@);
            assert(vv[i as int].0 != name@);
            i += 1;
        }
        self.env.push((name, value));
        assert(shown_env(self.env@) =~= ev.push((name@, spec_display(value))));
        assert(env_view(self.env@) =~= vv.push((name@, value)));
    }

    /// A copy of the value bound to `name`.
    fn env_get(&self, name: &str) -> (r: Option<SimValue>)
        ensures
            r is Some <==> exists|k: int| 0 <= k < self.env@.len() && (#[trigger] self.env@[k]).0@ == name@,
            env_lookup(env_view(self.env@), name@) matches Some(v) ==> (is_plain(v) ==> r == Some(v)),
    {
        let ghost vv = env_view(self.env@);
        let mut i: usize = 0;
        while i < self.env.len()
            invariant
                i <= self.env@.len(),
                vv == env_view(self.env@),
                forall|k: int| 0 <= k < i ==> (#[trigger] self.env@[k]).0@ != name@,
                env_index(vv, name@, 0) == env_index(vv, name@, i as int),
            decreases self.env@.len() - i,
        {
            if str_eq(self.env[i].0.as_str(), name) {
                assert(vv[i as int].0 == name@);
                return Some(self.env[i].1.duplicate());
            }
            assert(vv[i as int].0 != name@);
            i += 1;
        }
        None
    }

    /// The last entry of the module that `key` names: its parameters and body.
    fn lookup(&self, key: &str) -> (r: Option<(&'a Vec<Param>, &'a Vec<Stmt>)>)
        ensures
            r is Some <==> has_entry(*self.module, key@),
            r matches Some((ps, body)) ==> entry_of(self.module.items@, key@) == Some((ps@, body@)),
            r is None ==> entry_of(self.module.items@, key@) is None,
    {
        let module: &'a Module = self.module;
        let mut found: Option<(&'a Vec<Param>, &'a Vec<Stmt>)> = None;
        let mut i: usize = 0;
        while i < module.items.len()
            invariant
                i <= module.items@.len(),
                found is Some <==> exists|k: int| 0 <= k < i && entry_key_matches(#[trigger] module.items@[k], key@),
                match found {
                    Some((ps, body)) => entry_of(module.items@.take(i as int), key@) == Some((ps@, body@)),
                    None => entry_of(module.items@.take(i as int), key@) is None,
                },
            decreases module.items@.len() - i,
        {
            let item: &'a Item = &module.items[i];
            assert(module.items@.take(i + 1).drop_last() =~= module.items@.take(i as int));
            assert(module.items@.take(i + 1).last() == module.items@[i as int]);
            match item {
                Item::Function(f) => {
                    if str_eq(f.name.as_str(), key) {
                        found = Some((&f.params, &f.body));
                    }
                },
                Item::Action(a) => {
                    let name = concat2("action::", a.name.as_str());
                    if str_eq(name.as_str(), key) {
                        found = Some((&a.params, &a.body));
                    }
                },
                Item::Lock(l) => {
                    let name = concat2("lock::", l.name.as_str());
                    if str_eq(name.as_str(), key) {
                        found = Some((&l.params, &l.body));
                    }
                },
                _ => {},
            }
            i += 1;
        }
        assert(module.items@.take(module.items@.len() as int) =~= module.items@);
        found
    }

    fn bind_args(&mut self, params: &Vec<Param>, args: &[SimValue])
        ensures
            final(self).progressed(old(self)),
            final(self).steps == old(self).steps,
            final(self).trace == old(self).trace,
            final(self).has_cell_ops == old(self).has_cell_ops,
            shown_env(final(self).env@) == shown_bind(
                shown_env(old(self).env@),
                params@.map_values(|p: Param| p.name@),
                args@.map_values(|v: SimValue| spec_display(v)),
                min_len(params@.len() as int, args@.len() as int),
            ),
            all_plain(args@) ==> env_view(final(self).env@) == env_bind(
                env_view(old(self).env@),
                param_names(params@),
                args@,
                min_len(params@.len() as int, args@.len() as int),
            ),
    {
        let ghost names = params@.map_values(|p: Param| p.name@);
        let ghost shown = args@.map_values(|v: SimValue| spec_display(v));
        let mut i: usize = 0;
        while i < params.len() && i < args.len()
            invariant
                self.progressed(old(self)),
                self.steps == old(self).steps,
                self.trace == old(self).trace,
                self.has_cell_ops == old(self).has_cell_ops,
                i <= params@.len(),
                i <= args@.len(),
                names == params@.map_values(|p: Param| p.name@),
                shown == args@.map_values(|v: SimValue| spec_display(v)),
                shown_env(self.env@) == shown_bind(shown_env(old(self).env@), names, shown, i as int),
                names == param_names(params@),
                all_plain(args@) ==> env_view(self.env@) == env_bind(env_view(old(self).env@), names, args@, i as int),
            decreases params@.len() - i,
        {
            let name = params[i].name.clone();
            let value = args[i].duplicate();
            assert(all_plain(args@) ==> is_plain(args@[i as int]));
            assert(names[i as int] == name@);
            assert(shown[i as int] == spec_display(value));
            self.env_insert(name, value);
            i += 1;
        }
    }

    /// Runs the action named `name` with `args` bound to its parameters, and reports its
    /// result, trace and step count.
    pub fn simulate_action(&mut self, name: &str, args: &[SimValue]) -> (r: Result<SimulateResult, SimulateError>)
        ensures
            final(self).progressed(old(self)),
            (r matches Err(SimulateError::UndefinedFunction { name: n })) <==> !has_entry(
                old(self).spec_module(),
                "action::"@ + name@,
            ),
            r matches Err(SimulateError::UndefinedFunction { name: n }) ==> n@ == "action::"@ + name@,
            !has_entry(old(self).spec_module(), "action::"@ + name@) ==> final(self).spec_env() == old(self).spec_env()
                && final(self).spec_steps() == old(self).spec_steps() && final(self).spec_trace() == old(
                self,
            ).spec_trace() && final(self).spec_has_cell_ops() == old(self).spec_has_cell_ops(),
            r matches Err(SimulateError::StepLimitExceeded { max }) ==> max == old(self).spec_max_steps(),
            r matches Ok(res) ==> res.entry_name@ == name@ && res.steps == final(self).spec_steps()
                && res.has_cell_ops == final(self).spec_has_cell_ops() && res.trace@.len() == final(self).spec_trace().len(),
            entry_of(old(self).spec_module().items@, "action::"@ + name@) matches Some((ps, body)) ==> (all_plain(args@)
                ==> (block_effect(
                env_bind(env_view(old(self).spec_env()), param_names(ps), args@, min_len(ps.len() as int, args@.len() as int)),
                body,
            ) matches Some((e2, ret, c)) ==> (old(self).spec_steps() + c <= old(self).spec_max_steps() ==> (r matches Ok(
                res,
            ) && res.return_value == returned(ret) && res.steps == old(self).spec_steps() + c
                && res.has_cell_ops == old(self).spec_has_cell_ops())))),
    {
        let key = concat2("action::", name);
        let (params, body) = match self.lookup(key.as_str()) {
            Some(entry) => entry,
            None => {
                return Err(SimulateError::UndefinedFunction { name: key });
            },
        };
        self.bind_args(params, args);
        let result = self.exec_stmts(body)?;
        let return_value = match result {
            Some(v) => v,
            None => SimValue::Unit,
        };
        let mut trace: Vec<TraceEvent> = Vec::new();
        let mut i: usize = 0;
        while i < self.trace.len()
            invariant
                i <= self.trace@.len(),
                trace@.len() == i,
            decreases self.trace@.len() - i,
        {
            trace.push(self.trace[i].duplicate());
            i += 1;
        }
        Ok(SimulateResult {
            entry_name: name.to_owned(),
            return_value,
            trace,
            has_cell_ops: self.has_cell_ops,
            steps: self.steps,
        })
    }

    /// Runs the entry named `name` with `args` bound to its parameters, in bindings of its own;
    /// when it returns, the caller's bindings are back as they were.
    pub fn simulate_function(&mut self, name: &str, args: &[SimValue]) -> (r: Result<SimValue, SimulateError>)
        ensures
            final(self).progressed(old(self)),
            (r matches Err(SimulateError::UndefinedFunction { name: n })) <==> !has_entry(
                old(self).spec_module(),
                name@,
            ),
            r matches Err(SimulateError::StepLimitExceeded { max }) ==> max == old(self).spec_max_steps(),
            r matches Err(SimulateError::UndefinedFunction { name: n }) ==> n@ == name@,
            r is Ok ==> final(self).spec_env() == old(self).spec_env(),
            r is Err && !has_entry(old(self).spec_module(), name@) ==> final(self).spec_env() == old(self).spec_env()
                && final(self).spec_steps() == old(self).spec_steps() && final(self).spec_trace() == old(
                self,
            ).spec_trace() && final(self).spec_has_cell_ops() == old(self).spec_has_cell_ops(),
            entry_of(old(self).spec_module().items@, name@) matches Some((ps, body)) ==> (all_plain(args@) ==> (
            block_effect(env_bind(Seq::empty(), param_names(ps), args@, min_len(ps.len() as int, args@.len() as int)), body)
                matches Some((e2, ret, c)) ==> (old(self).spec_steps() + c <= old(self).spec_max_steps() ==> r
                == Ok::<SimValue, SimulateError>(returned(ret)) && final(self).spec_steps() == old(self).spec_steps() + c
                && final(self).spec_has_cell_ops() == old(self).spec_has_cell_ops()))),
        decreases old(self).fuel(), 3nat,
    {
        let (params, body) = match self.lookup(name) {
            Some(entry) => entry,
            None => {
                return Err(SimulateError::UndefinedFunction { name: name.to_owned() });
            },
        };
        let mut saved_env: Vec<(String, SimValue)> = Vec::new();
        std::mem::swap(&mut saved_env, &mut self.env);
        assert(env_view(self.env@) =~= Seq::<(Seq<char>, SimValue)>::empty());
        self.bind_args(params, args);
        let result = self.exec_stmts(body)?;
        let value = match result {
            Some(v) => v,
            None => SimValue::Unit,
        };
        self.env = saved_env;
        Ok(value)
    }

    fn exec_stmts(&mut self, stmts: &Vec<Stmt>) -> (r: Result<Option<SimValue>, SimulateError>)
        ensures
            final(self).progressed(old(self)),
            r matches Err(SimulateError::StepLimitExceeded { max }) ==> max == old(self).max_steps,
            r matches Err(SimulateError::UndefinedFunction { .. }) ==> false,
            stmts@.len() == 0 ==> r == Ok::<Option<SimValue>, SimulateError>(None) && final(self).env@ == old(
                self,
            ).env@ && final(self).trace@ == old(self).trace@ && final(self).steps == old(self).steps,
            stmts@.len() > 0 && old(self).steps >= old(self).max_steps ==> r == Err::<Option<SimValue>, SimulateError>(
                SimulateError::StepLimitExceeded { max: old(self).max_steps },
            ),
            block_effect(env_view(old(self).env@), stmts@) matches Some((e2, ret, c)) ==> (old(self).steps + c
                <= old(self).max_steps ==> r == Ok::<Option<SimValue>, SimulateError>(ret) && env_view(final(self).env@)
                == e2 && final(self).steps == old(self).steps + c && final(self).has_cell_ops == old(self).has_cell_ops),
        decreases old(self).fuel(), 2nat,
    {
        if stmts.len() == 0 {
            return Ok(None);
        }
        let mut i: usize = 0;
        assert(stmts@.skip(0) =~= stmts@);
        while i < stmts.len()
            invariant
                self.progressed(old(self)),
                self.fuel() <= old(self).fuel(),
                i == 0 ==> self.steps == old(self).steps,
                old(self).steps >= old(self).max_steps ==> i == 0,
                i <= stmts@.len(),
                block_effect(env_view(old(self).env@), stmts@) matches Some((e2, ret, c)) ==> (old(self).steps + c
                    <= old(self).max_steps ==> (block_effect(env_view(self.env@), stmts@.skip(i as int)) matches Some(
                    (e3, ret3, c3),
                ) && e3 == e2 && ret3 == ret && self.steps + c3 == old(self).steps + c && self.has_cell_ops == old(
                    self,
                ).has_cell_ops)),
            decreases stmts@.len() - i,
        {
            assert(stmts@.skip(i as int).subrange(1, stmts@.skip(i as int).len() as int) =~= stmts@.skip(i + 1));
            assert(stmts@.skip(i as int)[0] == stmts@[i as int]);
            match self.exec_stmt(&stmts[i]) {
                Ok(Some(value)) => {
                    return Ok(Some(value));
                },
                Ok(None) => {},
                Err(e) => {
                    return Err(e);
                },
            }
            i += 1;
        }
        assert(stmts@.skip(i as int) =~= Seq::<Stmt>::empty());
        Ok(None)
    }

    fn unsupported(what: &str) -> (e: SimulateError)
        ensures
            e matches SimulateError::Unsupported { description } && description@ == what@,
    {
        SimulateError::Unsupported { description: what.to_owned() }
    }

    fn exec_stmt(&mut self, stmt: &Stmt) -> (r: Result<Option<SimValue>, SimulateError>)
        ensures
            final(self).progressed(old(self)),
            r matches Err(SimulateError::StepLimitExceeded { max }) ==> max == old(self).max_steps,
            r matches Err(SimulateError::UndefinedFunction { .. }) ==> false,
            old(self).steps >= old(self).max_steps ==> r == Err::<Option<SimValue>, SimulateError>(
                SimulateError::StepLimitExceeded { max: old(self).max_steps },
            ),
            old(self).steps < old(self).max_steps ==> match *stmt {
                Stmt::Break(_) => r matches Err(SimulateError::Unsupported { description }) && description@ == "break"@,
                Stmt::Continue(_) => r matches Err(SimulateError::Unsupported { description }) && description@
                    == "continue"@,
                Stmt::Borrow(_) => r matches Err(SimulateError::Unsupported { description }) && description@
                    == "borrow"@,
                Stmt::Return(ret) => ret.value is None ==> r == Ok::<Option<SimValue>, SimulateError>(
                    Some(SimValue::Unit),
                ) && final(self).trace@.len() == old(self).trace@.len() + 1,
                _ => true,
            },
            stmt_effect(env_view(old(self).env@), *stmt) matches Some((e2, ret, c)) ==> (old(self).steps + c
                <= old(self).max_steps ==> r == Ok::<Option<SimValue>, SimulateError>(ret) && env_view(final(self).env@)
                == e2 && final(self).steps == old(self).steps + c && final(self).has_cell_ops == old(self).has_cell_ops),
        decreases old(self).fuel(), 1nat,
    {
        let ghost eff = stmt_effect(env_view(self.env@), *stmt);
        let ghost (e2, ret2, c2) = match eff {
            Some(x) => x,
            None => (Seq::empty(), None, 0nat),
        };
        let ghost frag = eff is Some && self.steps + c2 <= self.max_steps;
        self.bump_steps()?;
        match stmt {
            Stmt::Let(let_stmt) => {
                let value = self.eval_expr(&let_stmt.value)?;
                self.bind_pattern(&let_stmt.pattern, value);
                Ok(None)
            },
            Stmt::Return(ret) => {
                let value = match &ret.value {
                    Some(e) => self.eval_expr(e)?,
                    None => SimValue::Unit,
                };
                self.record(TraceEvent::Return { value: value.duplicate() });
                Ok(Some(value))
            },
            Stmt::Expr(expr) => {
                let value = self.eval_expr(expr)?;
                match value {
                    SimValue::Unit => Ok(None),
                    other => Ok(Some(other)),
                }
            },
            Stmt::If(if_stmt) => {
                let cond = self.eval_expr(&if_stmt.condition)?;
                proof {
                    if frag {
                        assert(stmt_effect(env_view(old(self).env@), Stmt::If(*if_stmt)) == Some((e2, ret2, c2)));
                        assert(pure_value(env_view(old(self).env@), if_stmt.condition) == Some(cond));
                    }
                }
                let taken = is_truthy(&cond);
                self.record(TraceEvent::Branch { condition: cond, taken });
                if taken {
                    self.exec_stmts(&if_stmt.then_branch)
                } else {
                    match &if_stmt.else_branch {
                        Some(else_branch) => self.exec_stmts(else_branch),
                        None => Ok(None),
                    }
                }
            },
            Stmt::For(for_stmt) => {
                let iterable = self.eval_expr(&for_stmt.iterable)?;
                let ghost v0 = pure_value(env_view(old(self).env@), for_stmt.iterable);
                proof {
                    if frag {
                        assert(v0 is Some);
                        assert(iterable == v0->0);
                        lemma_pure_is_plain(env_view(old(self).env@), for_stmt.iterable);
                        assert(is_plain(iterable));
                    }
                }
                let items: Vec<SimValue> = match iterable {
                    SimValue::Array(items) => items,
                    other => vec![other],
                };
                let mut i: usize = 0;
                while i < items.len() && i < 10
                    invariant
                        *stmt is For,
                        *stmt == Stmt::For(*for_stmt),
                        self.progressed(old(self)),
                        self.fuel() < old(self).fuel(),
                        eff == stmt_effect(env_view(old(self).env@), *stmt),
                        eff is Some ==> eff == Some((e2, ret2, c2)),
                        frag == (eff is Some && old(self).steps + c2 <= old(self).max_steps),
                        v0 == pure_value(env_view(old(self).env@), for_stmt.iterable),
                        i <= items@.len(),
                        frag ==> v0 is Some && items@.len() == 1 && items@[0] == v0->0 && is_plain(v0->0),
                        frag ==> (i == 0 ==> env_view(self.env@) == env_view(old(self).env@) && self.steps == old(
                            self,
                        ).steps + 1 + pure_cost(for_stmt.iterable) && self.has_cell_ops == old(self).has_cell_ops),
                        frag ==> (i == 1 ==> env_view(self.env@) == e2 && ret2 is None && self.steps == old(self).steps
                            + c2 && self.has_cell_ops == old(self).has_cell_ops),
                    decreases items@.len() - i,
                {
                    let ghost before_bind = env_view(self.env@);
                    self.bind_pattern(&for_stmt.pattern, items[i].duplicate());
                    proof {
                        if frag {
                            assert(i == 0);
                            assert(before_bind == env_view(old(self).env@));
                            let bound = match &for_stmt.pattern {
                                BindingPattern::Name(n) => Some(env_put(before_bind, n@, v0->0)),
                                BindingPattern::Wildcard => Some(before_bind),
                                _ => None,
                            };
                            assert(stmt_effect(env_view(old(self).env@), Stmt::For(*for_stmt)) == Some((e2, ret2, c2)));
                            assert(bound == Some(env_view(self.env@)));
                            assert(pure_value(env_view(old(self).env@), for_stmt.iterable) == Some(v0->0));
                            assert(block_effect(env_view(self.env@), for_stmt.body@) is Some);
                            assert(block_effect(env_view(self.env@), for_stmt.body@) matches Some((eb, rb, cb)) && eb == e2
                                && rb == ret2 && c2 == 1 + pure_cost(for_stmt.iterable) + cb);
                        }
                    }
                    if let Some(value) = self.exec_stmts(&for_stmt.body)? {
                        return Ok(Some(value));
                    }
                    i += 1;
                }
                Ok(None)
            },
            Stmt::While(while_stmt) => {
                let mut i: usize = 0;
                while i < 100
                    invariant_except_break
                        frag ==> (while_effect(env_view(self.env@), *stmt, (100 - i) as nat) matches Some((e3, r3, c3))
                            && e3 == e2 && r3 == ret2 && self.steps + c3 == old(self).steps + c2 && self.has_cell_ops
                            == old(self).has_cell_ops),
                    invariant
                        *stmt is While,
                        *stmt == Stmt::While(*while_stmt),
                        self.progressed(old(self)),
                        self.fuel() < old(self).fuel(),
                        i <= 100,
                        eff == stmt_effect(env_view(old(self).env@), *stmt),
                        eff is Some ==> eff == Some((e2, ret2, c2)),
                        frag == (eff is Some && old(self).steps + c2 <= old(self).max_steps),
                    ensures
                        frag ==> env_view(self.env@) == e2 && ret2 is None && self.steps == old(self).steps + c2
                            && self.has_cell_ops == old(self).has_cell_ops,
                    decreases 100 - i,
                {
                    proof {
                        if frag {
                            let k = (100 - i) as nat;
                            assert(k >= 1);
                            assert(while_effect(env_view(self.env@), *stmt, k) is Some);
                            assert(pure_value(env_view(self.env@), while_stmt.condition) is Some);
                            assert(self.steps + 1 + pure_cost(while_stmt.condition) <= self.max_steps);
                        }
                    }
                    self.bump_steps()?;
                    let cond = self.eval_expr(&while_stmt.condition)?;
                    if !is_truthy(&cond) {
                        break;
                    }
                    if let Some(value) = self.exec_stmts(&while_stmt.body)? {
                        return Ok(Some(value));
                    }
                    i += 1;
                }
                Ok(None)
            },
            Stmt::Break(_) => Err(Self::unsupported("break")),
            Stmt::Continue(_) => Err(Self::unsupported("continue")),
            Stmt::Borrow(_) => Err(Self::unsupported("borrow")),
        }
    }

    fn bind_pattern(&mut self, pattern: &BindingPattern, value: SimValue)
        ensures
            final(self).progressed(old(self)),
            final(self).steps == old(self).steps,
            final(self).has_cell_ops == old(self).has_cell_ops,
            pattern matches BindingPattern::Name(n) ==> shown_env(final(self).env@) == shown_insert(
                shown_env(old(self).env@),
                n@,
                spec_display(value),
            ) && env_view(final(self).env@) == env_put(env_view(old(self).env@), n@, value)
                && final(self).trace@.len() == old(self).trace@.len() + 1 && spec_event_display(final(self).trace@.last())
                == spec_event_display(TraceEvent::Bind { name: *n, value }),
            pattern is Wildcard || (pattern is Tuple && !(value is Tuple)) ==> final(self).env@ == old(self).env@
                && final(self).trace@ == old(self).trace@,
        decreases pattern,
    {
        match pattern {
            BindingPattern::Name(name) => {
                let shown = value.duplicate();
                self.record(TraceEvent::Bind { name: name.clone(), value: shown });
                self.env_insert(name.clone(), value);
            },
            BindingPattern::Tuple(patterns) => {
                if let SimValue::Tuple(values) = value {
                    self.bind_patterns(patterns, &values);
                }
            },
            BindingPattern::Wildcard => {},
        }
    }
    fn bind_patterns(&mut self, patterns: &Vec<BindingPattern>, values: &Vec<SimValue>)
        ensures
            final(self).progressed(old(self)),
            final(self).steps == old(self).steps,
            final(self).has_cell_ops == old(self).has_cell_ops,
            (forall|j: int| 0 <= j < patterns@.len() ==> (#[trigger] patterns@[j]) is Name) ==> shown_env(
                final(self).env@,
            ) == shown_bind(
                shown_env(old(self).env@),
                patterns@.map_values(|p: BindingPattern| pattern_name(p)),
                values@.map_values(|v: SimValue| spec_display(v)),
                min_len(patterns@.len() as int, values@.len() as int),
            ),
        decreases patterns,
    {
        let ghost names = patterns@.map_values(|p: BindingPattern| pattern_name(p));
        let ghost shown = values@.map_values(|v: SimValue| spec_display(v));
        let ghost all_names = forall|j: int| 0 <= j < patterns@.len() ==> (#[trigger] patterns@[j]) is Name;
        let mut i: usize = 0;
        while i < patterns.len() && i < values.len()
            invariant
                self.progressed(old(self)),
                self.steps == old(self).steps,
                self.has_cell_ops == old(self).has_cell_ops,
                i <= patterns@.len(),
                i <= values@.len(),
                names == patterns@.map_values(|p: BindingPattern| pattern_name(p)),
                shown == values@.map_values(|v: SimValue| spec_display(v)),
                all_names == forall|j: int| 0 <= j < patterns@.len() ==> (#[trigger] patterns@[j]) is Name,
                all_names ==> shown_env(self.env@) == shown_bind(shown_env(old(self).env@), names, shown, i as int),
            decreases patterns@.len() - i,
        {
            proof {
                assert(decreases_to!(patterns => patterns@));
                assert(decreases_to!(patterns@ => patterns@[i as int]));
            }
            let value = values[i].duplicate();
            assert(shown[i as int] == spec_display(value));
            proof {
                if all_names {
                    assert(patterns@[i as int] is Name);
                    assert(names[i as int] == pattern_name(patterns@[i as int]));
                }
            }
            self.bind_pattern(&patterns[i], value);
            i += 1;
        }
    }

    fn eval_list(&mut self, exprs: &Vec<Expr>) -> (r: Result<Vec<SimValue>, SimulateError>)
        ensures
            final(self).progressed(old(self)),
            r matches Err(SimulateError::StepLimitExceeded { max }) ==> max == old(self).max_steps,
            r matches Err(SimulateError::UndefinedFunction { .. }) ==> false,
            r matches Ok(v) ==> v@.len() == exprs@.len(),
            exprs@.len() == 0 ==> r is Ok,
        decreases old(self).fuel(), 1nat,
    {
        let mut values: Vec<SimValue> = Vec::new();
        let mut i: usize = 0;
        while i < exprs.len()
            invariant
                self.progressed(old(self)),
                self.fuel() <= old(self).fuel(),
                i <= exprs@.len(),
                values@.len() == i,
            decreases exprs@.len() - i,
        {
            let value = self.eval_expr(&exprs[i])?;
            values.push(value);
            i += 1;
        }
        Ok(values)
    }

    fn eval_call(&mut self, call: &CallExpr) -> (r: Result<SimValue, SimulateError>)
        ensures
            final(self).progressed(old(self)),
            r matches Err(SimulateError::StepLimitExceeded { max }) ==> max == old(self).max_steps,
            r matches Err(SimulateError::UndefinedFunction { .. }) ==> false,
            !(*call.func is Identifier) ==> (r matches Ok(SimValue::Symbolic { ty, description }) && ty@ == "call"@
                && description@ == "indirect call"@),
            call.args@.len() == 0 ==> match *call.func {
                Expr::Identifier(name) => (name@ == "vec_new"@ || name@ == "Vec::new"@ ==> (r matches Ok(
                    SimValue::Array(items),
                ) && items@.len() == 0)) && (name@ == "push"@ ==> r == Ok::<SimValue, SimulateError>(
                    SimValue::Unit,
                )),
                _ => true,
            },
        decreases old(self).fuel(), 4nat,
    {
        let func_name = match &*call.func {
            Expr::Identifier(name) => name.clone(),
            _ => {
                return Ok(SimValue::Symbolic { ty: "call".to_owned(), description: "indirect call".to_owned() });
            },
        };
        let args = self.eval_list(&call.args)?;
        let mut arg_strs: Vec<String> = Vec::new();
        let mut i: usize = 0;
        while i < args.len()
            invariant
                i <= args@.len(),
            decreases args@.len() - i,
        {
            arg_strs.push(args[i].display());
            i += 1;
        }
        proof {
            reveal_strlit("vec_new");
            reveal_strlit("Vec::new");
            reveal_strlit("push");
        }
        if str_eq(func_name.as_str(), "vec_new") || str_eq(func_name.as_str(), "Vec::new") {
            assert(*call.func matches Expr::Identifier(nm) && nm@ == func_name@);
            assert("push"@.len() == 4);
            assert("vec_new"@.len() == 7);
            assert("Vec::new"@.len() == 8);
            assert(func_name@ != "push"@);
            let items: Vec<SimValue> = Vec::new();
            assert(items@.len() == 0);
            return Ok(SimValue::Array(items));
        }
        if str_eq(func_name.as_str(), "push") {
            return Ok(SimValue::Unit);
        }
        if str_eq(func_name.as_str(), "len") || str_eq(func_name.as_str(), "length") {
            if args.len() > 0 {
                if let SimValue::Array(items) = &args[0] {
                    return Ok(SimValue::Integer(items.len() as u64));
                }
            }
            return Ok(SimValue::Symbolic { ty: "len".to_owned(), description: "len()".to_owned() });
        }
        self.record(TraceEvent::Call { name: func_name.clone(), args: arg_strs });
        if self.lookup(func_name.as_str()).is_some() {
            return self.simulate_function(func_name.as_str(), args.as_slice());
        }
        Ok(SimValue::Symbolic { ty: "call_result".to_owned(), description: concat2(func_name.as_str(), "()") })
    }

    /// The fields of a created cell or struct, each evaluated; a field whose evaluation fails
    /// stands for an unknown symbolic value.
    fn eval_fields(&mut self, fields: &Vec<(String, Expr)>) -> (r: Vec<(String, SimValue)>)
        ensures
            final(self).progressed(old(self)),
            r@.len() == fields@.len(),
        decreases old(self).fuel(), 1nat,
    {
        let mut values: Vec<(String, SimValue)> = Vec::new();
        let mut i: usize = 0;
        while i < fields.len()
            invariant
                self.progressed(old(self)),
                self.fuel() <= old(self).fuel(),
                i <= fields@.len(),
                values@.len() == i,
            decreases fields@.len() - i,
        {
            let value = match self.eval_expr(&fields[i].1) {
                Ok(v) => v,
                Err(_) => SimValue::Symbolic { ty: "unknown".to_owned(), description: "...".to_owned() },
            };
            values.push((fields[i].0.clone(), value));
            i += 1;
        }
        values
    }

    fn eval_expr(&mut self, expr: &Expr) -> (r: Result<SimValue, SimulateError>)
        ensures
            final(self).progressed(old(self)),
            r is Ok ==> final(self).steps >= old(self).steps + 1,
            r matches Err(SimulateError::StepLimitExceeded { max }) ==> max == old(self).max_steps,
            r matches Err(SimulateError::UndefinedFunction { .. }) ==> false,
            old(self).steps >= old(self).max_steps ==> r == Err::<SimValue, SimulateError>(
                SimulateError::StepLimitExceeded { max: old(self).max_steps },
            ),
            old(self).steps < old(self).max_steps ==> match *expr {
                Expr::Integer(n) => if n <= u64::MAX {
                    r == Ok::<SimValue, SimulateError>(SimValue::Integer(n as u64))
                } else {
                    r matches Err(SimulateError::Unsupported { .. })
                },
                Expr::Bool(b) => r == Ok::<SimValue, SimulateError>(SimValue::Bool(b)),
                Expr::String(t) => r matches Ok(SimValue::String(v)) && v@ == t@,
                Expr::Identifier(name) => (r is Ok <==> exists|k: int|
                    0 <= k < old(self).env@.len() && (#[trigger] old(self).env@[k]).0@ == name@) && (r is Err ==> r
                    == Err::<SimValue, SimulateError>(SimulateError::UndefinedVariable { name })),
                Expr::Create(c) => final(self).cell_op_done(old(self), r, |e: TraceEvent| e matches TraceEvent::Create { ty, .. } && ty@ == c.ty@)
                    && (r matches Ok(SimValue::Symbolic { ty, description }) && ty@ == c.ty@ && description@ == "created cell"@),
                Expr::ReadRef(rr) => final(self).cell_op_done(old(self), r, |e: TraceEvent| e matches TraceEvent::ReadRef { ty } && ty@ == rr.ty@)
                    && final(self).appended_one(old(self), 1, |e: TraceEvent| e is ReadRef)
                    && (r matches Ok(SimValue::Symbolic { ty, description }) && ty@ == rr.ty@ && description@ == "read_ref cell dep"@),
                Expr::Consume(c) => final(self).operand_op_done(old(self), r, |e: TraceEvent| e is Consume) && (r is Ok ==> (r matches Ok(SimValue::Symbolic { ty, description }) && ty@ == "consumed"@ && (final(self).trace@.last() matches TraceEvent::Consume { description: d } && d@ == description@)))
                    && (old(self).operand_fits(*c.expr) ==> final(self).appended_one(old(self), 1 + pure_cost(*c.expr),
                    |e: TraceEvent| e matches TraceEvent::Consume { description } && description@ == spec_display(old(self).operand(*c.expr)))
                    && (r matches Ok(SimValue::Symbolic { ty, description }) && ty@ == "consumed"@ && description@ == spec_display(old(self).operand(*c.expr)))),
                Expr::Transfer(tr) => final(self).operand_op_done(old(self), r, |e: TraceEvent| e is Transfer) && (r is Ok ==> final(self).steps
                    >= old(self).steps + 3 && (r matches Ok(SimValue::Symbolic { ty, description }) && ty@ == "transferred"@
                    && description@ == "transfer"@)) && (old(self).operand_fits(*tr.expr) && old(self).steps + 1 + pure_cost(*tr.expr)
                    + pure_cost(*tr.to) <= old(self).max_steps && pure_value(env_view(old(self).env@), *tr.to) is Some
                    ==> r is Ok && final(self).appended_one(old(self), 1 + pure_cost(*tr.expr) + pure_cost(*tr.to),
                    |e: TraceEvent| e matches TraceEvent::Transfer { description, to } && description@ == spec_display(old(self).operand(*tr.expr))
                    && to@ == spec_display(old(self).operand(*tr.to)))),
                Expr::Destroy(d) => final(self).operand_op_done(old(self), r, |e: TraceEvent| e is Destroy) && (r is Ok ==> r == Ok::<SimValue, SimulateError>(SimValue::Unit))
                    && (old(self).operand_fits(*d.expr) ==> final(self).appended_one(old(self), 1 + pure_cost(*d.expr),
                    |e: TraceEvent| e matches TraceEvent::Destroy { description } && description@ == spec_display(old(self).operand(*d.expr)))
                    && r == Ok::<SimValue, SimulateError>(SimValue::Unit)),
                Expr::Claim(c) => final(self).operand_op_done(old(self), r, |e: TraceEvent| e is Claim) && (r is Ok ==> (r matches Ok(SimValue::Symbolic { ty, description }) && ty@ == "claimed"@ && description@ == "claim"@))
                    && (old(self).operand_fits(*c.receipt) ==> final(self).appended_one(old(self), 1 + pure_cost(*c.receipt),
                    |e: TraceEvent| e matches TraceEvent::Claim { description } && description@ == spec_display(old(self).operand(*c.receipt)))
                    && (r matches Ok(SimValue::Symbolic { ty, description }) && ty@ == "claimed"@ && description@ == "claim"@)),
                Expr::Settle(st) => final(self).operand_op_done(old(self), r, |e: TraceEvent| e is Settle) && (r is Ok ==> (r matches Ok(SimValue::Symbolic { ty, description }) && ty@ == "settled"@ && description@ == "settle"@))
                    && (old(self).operand_fits(*st.expr) ==> final(self).appended_one(old(self), 1 + pure_cost(*st.expr),
                    |e: TraceEvent| e matches TraceEvent::Settle { description } && description@ == spec_display(old(self).operand(*st.expr)))
                    && (r matches Ok(SimValue::Symbolic { ty, description }) && ty@ == "settled"@ && description@ == "settle"@)),
                Expr::Assert(a) => old(self).operand_fits(*a.condition) && old(self).steps + 1 + pure_cost(*a.condition) + pure_cost(*a.message) <= old(self).max_steps
                    && pure_value(env_view(old(self).env@), *a.message) is Some ==> final(self).appended_one(old(self),
                    1 + pure_cost(*a.condition) + pure_cost(*a.message),
                    |e: TraceEvent| e matches TraceEvent::Assert { condition, message } && condition == old(self).operand(*a.condition)
                    && message@ == spec_display(old(self).operand(*a.message)))
                    && final(self).has_cell_ops == old(self).has_cell_ops
                    && (if spec_is_truthy(old(self).operand(*a.condition)) {
                        r == Ok::<SimValue, SimulateError>(SimValue::Unit)
                    } else {
                        r matches Ok(SimValue::Symbolic { ty, description }) && ty@ == "assert_failed"@
                            && description@ == spec_display(old(self).operand(*a.message))
                    }),
                Expr::ByteString(b) => r matches Ok(SimValue::String(v)) && v@ == "0x"@ + hex_lower(b@),
                Expr::Range(_) => r matches Ok(SimValue::Symbolic { ty, description }) && ty@ == "range"@ && description@
                    == "range"@,
                Expr::Match(_) => r matches Ok(SimValue::Symbolic { ty, description }) && ty@ == "match"@
                    && description@ == "match expression"@,
                Expr::CreateUnique(_) => r matches Err(SimulateError::Unsupported { description }) && description@
                    == "create_unique"@,
                Expr::ReplaceUnique(_) => r matches Err(SimulateError::Unsupported { description }) && description@
                    == "replace_unique"@,
                Expr::Require(_) => r matches Err(SimulateError::Unsupported { description }) && description@
                    == "require"@,
                Expr::RequireBlock(_) => r matches Err(SimulateError::Unsupported { description }) && description@
                    == "require block"@,
                Expr::Preserve(_) => r matches Err(SimulateError::Unsupported { description }) && description@
                    == "preserve"@,
                Expr::StdlibCall(_) => r matches Err(SimulateError::Unsupported { description }) && description@
                    == "standard library call"@,
                Expr::ReplaceRelation(_) => r matches Err(SimulateError::Unsupported { description }) && description@
                    == "replace relation"@,
                _ => true,
            },
            pure_value(env_view(old(self).env@), *expr) matches Some(v) ==> (old(self).steps + pure_cost(*expr)
                <= old(self).max_steps ==> r == Ok::<SimValue, SimulateError>(v) && final(self).env@ == old(self).env@
                && final(self).trace@ == old(self).trace@ && final(self).steps == old(self).steps + pure_cost(*expr)
                && final(self).has_cell_ops == old(self).has_cell_ops),
        decreases old(self).fuel(), 0nat,
    {
        self.bump_steps()?;
        match expr {
            Expr::Integer(n) => {
                if *n <= u64::MAX as u128 {
                    Ok(SimValue::Integer(*n as u64))
                } else {
                    Err(Self::unsupported("integer literal wider than 64 bits"))
                }
            },
            Expr::Bool(b) => Ok(SimValue::Bool(*b)),
            Expr::String(s) => Ok(SimValue::String(s.clone())),
            Expr::ByteString(bytes) => {
                let digits = hex_encode(bytes.as_slice());
                Ok(SimValue::String(concat2("0x", digits.as_str())))
            },
            Expr::Identifier(name) => match self.env_get(name.as_str()) {
                Some(value) => Ok(value),
                None => Err(SimulateError::UndefinedVariable { name: name.clone() }),
            },
            Expr::Binary(bin) => {
                let left = self.eval_expr(&bin.left)?;
                let right = self.eval_expr(&bin.right)?;
                match eval_binary(bin.op, &left, &right) {
                    Ok(v) => Ok(v),
                    Err(e) => Err(e),
                }
            },
            Expr::Unary(unary) => {
                let value = self.eval_expr(&unary.expr)?;
                Ok(eval_unary(unary.op, &value))
            },
            Expr::Call(call) => self.eval_call(call),
            Expr::FieldAccess(access) => {
                let obj = self.eval_expr(&access.expr)?;
                match &obj {
                    SimValue::Struct { fields, .. } => {
                        let mut i: usize = 0;
                        while i < fields.len()
                            invariant
                                i <= fields@.len(),
                                *expr is FieldAccess,
                                old(self).steps < old(self).max_steps,
                                self.steps >= old(self).steps + 1,
                                self.progressed(old(self)),
                            decreases fields@.len() - i,
                        {
                            if str_eq(fields[i].0.as_str(), access.field.as_str()) {
                                return Ok(fields[i].1.duplicate());
                            }
                            i += 1;
                        }
                        Err(SimulateError::UndefinedVariable { name: access.field.clone() })
                    },
                    _ => {
                        let shown = obj.display();
                        let description = concat3(shown.as_str(), ".", access.field.as_str());
                        Ok(SimValue::Symbolic { ty: "field".to_owned(), description })
                    },
                }
            },
            Expr::Index(index) => {
                let obj = self.eval_expr(&index.expr)?;
                let idx = self.eval_expr(&index.index)?;
                match (&obj, &idx) {
                    (SimValue::Array(items), SimValue::Integer(i)) => {
                        if (*i as u128) < (items.len() as u128) {
                            Ok(items[*i as usize].duplicate())
                        } else {
                            let digits = decimal_string(*i as u128);
                            Err(SimulateError::UndefinedVariable { name: concat3("[", digits.as_str(), "]") })
                        }
                    },
                    _ => {
                        let o = obj.display();
                        let x = idx.display();
                        let mut description = concat3(o.as_str(), "[", x.as_str());
                        description.append("]");
                        Ok(SimValue::Symbolic { ty: "index".to_owned(), description })
                    },
                }
            },
            Expr::Create(create) => {
                self.mark_cell_op();
                let values = self.eval_fields(&create.fields);
                let mut fields: Vec<(String, String)> = Vec::new();
                let mut i: usize = 0;
                while i < values.len()
                    invariant
                        i <= values@.len(),
                    decreases values@.len() - i,
                {
                    fields.push((values[i].0.clone(), values[i].1.display()));
                    i += 1;
                }
                self.record(TraceEvent::Create { ty: create.ty.clone(), fields });
                Ok(SimValue::Symbolic { ty: create.ty.clone(), description: "created cell".to_owned() })
            },
            Expr::Consume(consume) => {
                self.mark_cell_op();
                let value = self.eval_expr(&consume.expr)?;
                let description = value.display();
                self.record(TraceEvent::Consume { description: description.clone() });
                Ok(SimValue::Symbolic { ty: "consumed".to_owned(), description })
            },
            Expr::Transfer(transfer) => {
                self.mark_cell_op();
                let value = self.eval_expr(&transfer.expr)?;
                let to = self.eval_expr(&transfer.to)?;
                self.record(TraceEvent::Transfer { description: value.display(), to: to.display() });
                Ok(SimValue::Symbolic { ty: "transferred".to_owned(), description: "transfer".to_owned() })
            },
                        Expr::Destroy(destroy) => {
                self.mark_cell_op();
                let value = self.eval_expr(&destroy.expr)?;
                self.record(TraceEvent::Destroy { description: value.display() });
                Ok(SimValue::Unit)
            },
            Expr::ReadRef(read_ref) => {
                self.mark_cell_op();
                self.record(TraceEvent::ReadRef { ty: read_ref.ty.clone() });
                Ok(SimValue::Symbolic { ty: read_ref.ty.clone(), description: "read_ref cell dep".to_owned() })
            },
            Expr::Claim(claim) => {
                self.mark_cell_op();
                let value = self.eval_expr(&claim.receipt)?;
                self.record(TraceEvent::Claim { description: value.display() });
                Ok(SimValue::Symbolic { ty: "claimed".to_owned(), description: "claim".to_owned() })
            },
            Expr::Settle(settle) => {
                self.mark_cell_op();
                let value = self.eval_expr(&settle.expr)?;
                self.record(TraceEvent::Settle { description: value.display() });
                Ok(SimValue::Symbolic { ty: "settled".to_owned(), description: "settle".to_owned() })
            },
            Expr::Assert(assert_expr) => {
                let cond = self.eval_expr(&assert_expr.condition)?;
                let msg = self.eval_expr(&assert_expr.message)?;
                let message = msg.display();
                let truthy = is_truthy(&cond);
                self.record(TraceEvent::Assert { condition: cond, message: message.clone() });
                if !truthy {
                    Ok(SimValue::Symbolic { ty: "assert_failed".to_owned(), description: message })
                } else {
                    Ok(SimValue::Unit)
                }
            },
            Expr::Block(stmts) => {
                let result = self.exec_stmts(stmts)?;
                match result {
                    Some(v) => Ok(v),
                    None => Ok(SimValue::Unit),
                }
            },
            Expr::Tuple(exprs) => {
                let values = self.eval_list(exprs)?;
                Ok(SimValue::Tuple(values))
            },
            Expr::Array(exprs) => {
                let values = self.eval_list(exprs)?;
                Ok(SimValue::Array(values))
            },
            Expr::If(if_expr) => {
                let cond = self.eval_expr(&if_expr.condition)?;
                if is_truthy(&cond) {
                    self.eval_expr(&if_expr.then_branch)
                } else {
                    self.eval_expr(&if_expr.else_branch)
                }
            },
            Expr::Cast(cast) => self.eval_expr(&cast.expr),
            Expr::Range(_) => Ok(SimValue::Symbolic { ty: "range".to_owned(), description: "range".to_owned() }),
            Expr::StructInit(init) => {
                let fields = self.eval_fields(&init.fields);
                Ok(SimValue::Struct { name: init.ty.clone(), fields })
            },
            Expr::Match(_) => Ok(
                SimValue::Symbolic { ty: "match".to_owned(), description: "match expression".to_owned() },
            ),
            Expr::Assign(assign) => {
                if assign.op != crate::ast::AssignOp::Assign {
                    return Err(Self::unsupported("compound assignment"));
                }
                let value = self.eval_expr(&assign.value)?;
                if let Expr::Identifier(name) = &*assign.target {
                    self.env_insert(name.clone(), value.duplicate());
                }
                Ok(value)
            },
            Expr::CreateUnique(_) => Err(Self::unsupported("create_unique")),
            Expr::ReplaceUnique(_) => Err(Self::unsupported("replace_unique")),
            Expr::Require(_) => Err(Self::unsupported("require")),
            Expr::RequireBlock(_) => Err(Self::unsupported("require block")),
            Expr::Preserve(_) => Err(Self::unsupported("preserve")),
            Expr::StdlibCall(_) => Err(Self::unsupported("standard library call")),
            Expr::ReplaceRelation(_) => Err(Self::unsupported("replace relation")),
        }
    }
}

} // verus!
