//! A symbolic simulator for actions, functions and locks: it runs what the source determines
//! and records cell operations as a trace of symbolic events.

pub mod interpreter;
pub mod value;

pub use interpreter::SimulateInterpreter;
pub use value::{SimValue, TraceEvent};

use crate::ast::{BinaryOp, BindingPattern, CallExpr, Expr, Item, Module, Param, Stmt, UnaryOp};
use crate::simulate::value::{join_strings, spec_debug, spec_display, spec_event_display};
use crate::text::{concat2, concat3, decimal, decimal_string, hex_encode, str_eq};
use vstd::prelude::*;
use vstd::string::StringExecFns;

verus! {

/// What a simulation run produced.
#[derive(Debug)]
pub struct SimulateResult {
    pub entry_name: String,
    pub return_value: SimValue,
    pub trace: Vec<TraceEvent>,
    pub has_cell_ops: bool,
    pub steps: u64,
}

/// Why a simulation run stopped.
#[derive(Debug)]
pub enum SimulateError {
    StepLimitExceeded { max: u64 },
    UndefinedVariable { name: String },
    UndefinedFunction { name: String },
    TypeError { expected: String, got: String },
    Unsupported { description: String },
}

/// How a simulation error is reported.
pub open spec fn spec_error_message(e: SimulateError) -> Seq<char> {
    match e {
        SimulateError::StepLimitExceeded { max } => "simulation exceeded maximum step limit ("@ + decimal(max as nat)
            + ")"@,
        SimulateError::UndefinedVariable { name } => "undefined variable '"@ + name@ + "'"@,
        SimulateError::UndefinedFunction { name } => "undefined function '"@ + name@ + "'"@,
        SimulateError::TypeError { expected, got } => "type error: expected "@ + expected@ + ", got "@ + got@,
        SimulateError::Unsupported { description } => "unsupported: "@ + description@,
    }
}

impl SimulateError {
    /// The error as it is reported.
    pub fn message(&self) -> (s: String)
        ensures
            s@ == spec_error_message(*self),
    {
        match self {
            SimulateError::StepLimitExceeded { max } => {
                let digits = decimal_string(*max as u128);
                concat3("simulation exceeded maximum step limit (", digits.as_str(), ")")
            },
            SimulateError::UndefinedVariable { name } => concat3("undefined variable '", name.as_str(), "'"),
            SimulateError::UndefinedFunction { name } => concat3("undefined function '", name.as_str(), "'"),
            SimulateError::TypeError { expected, got } => {
                let mut s = concat3("type error: expected ", expected.as_str(), ", got ");
                s.append(got.as_str());
                s
            },
            SimulateError::Unsupported { description } => concat2("unsupported: ", description.as_str()),
        }
    }
}

/// The lines of a simulation report after its header: one per trace event.
pub open spec fn spec_trace_lines(trace: Seq<TraceEvent>, k: int) -> Seq<char>
    decreases k,
{
    if k <= 0 || k > trace.len() {
        Seq::empty()
    } else {
        spec_trace_lines(trace, k - 1) + spec_event_display(trace[k - 1]) + "\n"@
    }
}

/// How a simulation result is reported.
pub open spec fn spec_result_display(r: SimulateResult) -> Seq<char> {
    "Simulated entry: "@ + r.entry_name@ + "\n"@ + "Steps: "@ + decimal(r.steps as nat) + "\n"@ + (if r.has_cell_ops {
        "Cell operations: yes (symbolic)\n"@
    } else {
        "Cell operations: none (pure computation)\n"@
    }) + "Trace:\n"@ + spec_trace_lines(r.trace@, r.trace@.len() as int) + "Result: "@ + spec_display(r.return_value)
}

impl SimulateResult {
    /// The result as a report: entry, steps, whether cells were touched, the trace and the
    /// result value.
    pub fn display(&self) -> (s: String)
        ensures
            s@ == spec_result_display(*self),
    {
        let mut s = concat3("Simulated entry: ", self.entry_name.as_str(), "\n");
        s.append("Steps: ");
        let steps = decimal_string(self.steps as u128);
        s.append(steps.as_str());
        s.append("\n");
        if self.has_cell_ops {
            s.append("Cell operations: yes (symbolic)\n");
        } else {
            s.append("Cell operations: none (pure computation)\n");
        }
        s.append("Trace:\n");
        let ghost head = s@;
        let mut i: usize = 0;
        while i < self.trace.len()
            invariant
                i <= self.trace@.len(),
                s@ == head + spec_trace_lines(self.trace@, i as int),
            decreases self.trace@.len() - i,
        {
            let line = self.trace[i].display();
            s.append(line.as_str());
            s.append("\n");
            i += 1;
        }
        s.append("Result: ");
        let v = self.return_value.display();
        s.append(v.as_str());
        s
    }
}

/// Whether `item` is the entry that `key` names: a function by its name, an action as
/// `action::name`, a lock as `lock::name`.
pub open spec fn entry_key_matches(item: Item, key: Seq<char>) -> bool {
    match item {
        Item::Function(f) => f.name@ == key,
        Item::Action(a) => "action::"@ + a.name@ == key,
        Item::Lock(l) => "lock::"@ + l.name@ == key,
        _ => false,
    }
}

/// Whether the module has an entry that `key` names.
pub open spec fn has_entry(module: Module, key: Seq<char>) -> bool {
    exists|i: int| 0 <= i < module.items@.len() && entry_key_matches(#[trigger] module.items@[i], key)
}

/// Whether a value counts as true for a branch.
pub open spec fn spec_is_truthy(v: SimValue) -> bool {
    match v {
        SimValue::Bool(b) => b,
        SimValue::Integer(n) => n != 0,
        SimValue::Unit => false,
        _ => true,
    }
}

/// A symbolic value of the given kind.
pub open spec fn is_symbolic(v: SimValue, ty: Seq<char>) -> bool {
    v matches SimValue::Symbolic { ty: t, .. } && t@ == ty
}

/// What a binary operation gives on two integers; `None` where it gives a symbolic value.
pub open spec fn spec_integer_binary(op: BinaryOp, l: u64, r: u64) -> Option<SimValue> {
    match op {
        BinaryOp::Add => Some(SimValue::Integer(vstd::wrapping::u64_specs::wrapping_add(l, r))),
        BinaryOp::Sub => Some(SimValue::Integer(vstd::wrapping::u64_specs::wrapping_sub(l, r))),
        BinaryOp::Mul => Some(SimValue::Integer(vstd::wrapping::u64_specs::wrapping_mul(l, r))),
        BinaryOp::Div => if r == 0 {
            None
        } else {
            Some(SimValue::Integer(l / r))
        },
        BinaryOp::Mod => if r == 0 {
            None
        } else {
            Some(SimValue::Integer(l % r))
        },
        BinaryOp::Eq => Some(SimValue::Bool(l == r)),
        BinaryOp::Ne => Some(SimValue::Bool(l != r)),
        BinaryOp::Lt => Some(SimValue::Bool(l < r)),
        BinaryOp::Le => Some(SimValue::Bool(l <= r)),
        BinaryOp::Gt => Some(SimValue::Bool(l > r)),
        BinaryOp::Ge => Some(SimValue::Bool(l >= r)),
        BinaryOp::And => Some(SimValue::Bool(l != 0 && r != 0)),
        BinaryOp::Or => Some(SimValue::Bool(l != 0 || r != 0)),
        _ => None,
    }
}

/// Integer operations in the simulator mean what they mean on numbers: comparisons give the
/// truth of the comparison, `+`, `-` and `*` wrap around 2^64, `/` and `%` divide by a nonzero
/// divisor and give no number for a zero one, `&&` and `||` read a nonzero number as true.
pub proof fn lemma_integer_operations_are_arithmetic(l: u64, r: u64)
    ensures
        spec_integer_binary(BinaryOp::Eq, l, r) == Some(SimValue::Bool(l == r)),
        spec_integer_binary(BinaryOp::Ne, l, r) == Some(SimValue::Bool(l != r)),
        spec_integer_binary(BinaryOp::Lt, l, r) == Some(SimValue::Bool(l < r)),
        spec_integer_binary(BinaryOp::Le, l, r) == Some(SimValue::Bool(l <= r)),
        spec_integer_binary(BinaryOp::Gt, l, r) == Some(SimValue::Bool(l > r)),
        spec_integer_binary(BinaryOp::Ge, l, r) == Some(SimValue::Bool(l >= r)),
        spec_integer_binary(BinaryOp::Add, l, r) == Some(SimValue::Integer(((l as int + r as int) % 0x1_0000_0000_0000_0000) as u64)),
        spec_integer_binary(BinaryOp::Sub, l, r) == Some(SimValue::Integer(((l as int - r as int + 0x1_0000_0000_0000_0000) % 0x1_0000_0000_0000_0000) as u64)),
        spec_integer_binary(BinaryOp::Mul, l, r) == Some(SimValue::Integer(((l as int * r as int) % 0x1_0000_0000_0000_0000) as u64)),
        r == 0 ==> spec_integer_binary(BinaryOp::Div, l, r) is None && spec_integer_binary(BinaryOp::Mod, l, r) is None,
        r != 0 ==> spec_integer_binary(BinaryOp::Div, l, r) == Some(SimValue::Integer(l / r)),
        r != 0 ==> spec_integer_binary(BinaryOp::Mod, l, r) == Some(SimValue::Integer(l % r)),
        spec_integer_binary(BinaryOp::And, l, r) == Some(SimValue::Bool(l != 0 && r != 0)),
        spec_integer_binary(BinaryOp::Or, l, r) == Some(SimValue::Bool(l != 0 || r != 0)),
        l <= r <==> spec_integer_binary(BinaryOp::Le, l, r) == Some(SimValue::Bool(true)),
        l < r <==> spec_integer_binary(BinaryOp::Lt, l, r) == Some(SimValue::Bool(true)),
        spec_integer_binary(BinaryOp::Le, l, r) == Some(SimValue::Bool(true)) <==> spec_integer_binary(BinaryOp::Ge, r, l) == Some(SimValue::Bool(true)),
        spec_integer_binary(BinaryOp::Lt, l, r) == Some(SimValue::Bool(true)) <==> spec_integer_binary(BinaryOp::Gt, r, l) == Some(SimValue::Bool(true)),
{
}

/// What a binary operation gives on two booleans; `None` for the operators booleans lack.
pub open spec fn spec_bool_binary(op: BinaryOp, l: bool, r: bool) -> Option<SimValue> {
    match op {
        BinaryOp::Eq => Some(SimValue::Bool(l == r)),
        BinaryOp::Ne => Some(SimValue::Bool(l != r)),
        BinaryOp::And => Some(SimValue::Bool(l && r)),
        BinaryOp::Or => Some(SimValue::Bool(l || r)),
        _ => None,
    }
}

/// The name of a binary operator, as std's derived `Debug` formatting shows it.
pub open spec fn binary_op_name(op: BinaryOp) -> Seq<char> {
    match op {
        BinaryOp::Add => "Add"@,
        BinaryOp::Sub => "Sub"@,
        BinaryOp::Mul => "Mul"@,
        BinaryOp::Div => "Div"@,
        BinaryOp::Mod => "Mod"@,
        BinaryOp::Eq => "Eq"@,
        BinaryOp::Ne => "Ne"@,
        BinaryOp::Lt => "Lt"@,
        BinaryOp::Le => "Le"@,
        BinaryOp::Gt => "Gt"@,
        BinaryOp::Ge => "Ge"@,
        BinaryOp::And => "And"@,
        BinaryOp::Or => "Or"@,
        BinaryOp::BitAnd => "BitAnd"@,
        BinaryOp::BitOr => "BitOr"@,
        BinaryOp::BitXor => "BitXor"@,
        BinaryOp::Shl => "Shl"@,
        BinaryOp::Shr => "Shr"@,
    }
}

fn binary_op_name_str(op: BinaryOp) -> (s: &'static str)
    ensures
        s@ == binary_op_name(op),
{
    match op {
        BinaryOp::Add => "Add",
        BinaryOp::Sub => "Sub",
        BinaryOp::Mul => "Mul",
        BinaryOp::Div => "Div",
        BinaryOp::Mod => "Mod",
        BinaryOp::Eq => "Eq",
        BinaryOp::Ne => "Ne",
        BinaryOp::Lt => "Lt",
        BinaryOp::Le => "Le",
        BinaryOp::Gt => "Gt",
        BinaryOp::Ge => "Ge",
        BinaryOp::And => "And",
        BinaryOp::Or => "Or",
        BinaryOp::BitAnd => "BitAnd",
        BinaryOp::BitOr => "BitOr",
        BinaryOp::BitXor => "BitXor",
        BinaryOp::Shl => "Shl",
        BinaryOp::Shr => "Shr",
    }
}

/// The name of a unary operator, as std's derived `Debug` formatting shows it.
pub open spec fn unary_op_name(op: UnaryOp) -> Seq<char> {
    match op {
        UnaryOp::Neg => "Neg"@,
        UnaryOp::Not => "Not"@,
        UnaryOp::Ref => "Ref"@,
        UnaryOp::Deref => "Deref"@,
    }
}

fn unary_op_name_str(op: UnaryOp) -> (s: &'static str)
    ensures
        s@ == unary_op_name(op),
{
    match op {
        UnaryOp::Neg => "Neg",
        UnaryOp::Not => "Not",
        UnaryOp::Ref => "Ref",
        UnaryOp::Deref => "Deref",
    }
}

/// `left op right` in `Debug` form.
fn debug_binary(left: &SimValue, op: BinaryOp, right: &SimValue) -> (s: String)
    ensures
        s@ == spec_debug(*left) + " "@ + binary_op_name(op) + " "@ + spec_debug(*right),
{
    let l = left.debug_text();
    let r = right.debug_text();
    let mut s = concat3(l.as_str(), " ", binary_op_name_str(op));
    s.append(" ");
    s.append(r.as_str());
    s
}

/// `op value` in `Debug` form.
fn debug_unary(op: UnaryOp, value: &SimValue) -> (s: String)
    ensures
        s@ == unary_op_name(op) + " "@ + spec_debug(*value),
{
    let v = value.debug_text();
    concat3(unary_op_name_str(op), " ", v.as_str())
}

/// `v` is a symbolic value of type `ty` described by `description`.
pub open spec fn symbolic_text(v: SimValue, ty: Seq<char>, description: Seq<char>) -> bool {
    v matches SimValue::Symbolic { ty: t, description: d } && t@ == ty && d@ == description
}

fn symbolic(ty: &str, description: String) -> (v: SimValue)
    ensures
        v matches SimValue::Symbolic { ty: t, description: d } && t@ == ty@ && d@ == description@,
{
    SimValue::Symbolic { ty: ty.to_owned(), description }
}

/// The value of a binary operation: wrapping arithmetic and comparisons on integers, logic on
/// booleans, a symbolic value for division by zero and for operands of other kinds.
pub fn eval_binary(op: BinaryOp, left: &SimValue, right: &SimValue) -> (r: Result<SimValue, SimulateError>)
    ensures
        (left, right) matches (SimValue::Integer(l), SimValue::Integer(rr)) ==> {
            &&& op is Eq ==> r == Ok::<SimValue, SimulateError>(SimValue::Bool(*l == *rr))
            &&& op is Ne ==> r == Ok::<SimValue, SimulateError>(SimValue::Bool(*l != *rr))
            &&& op is Lt ==> r == Ok::<SimValue, SimulateError>(SimValue::Bool(*l < *rr))
            &&& op is Le ==> r == Ok::<SimValue, SimulateError>(SimValue::Bool(*l <= *rr))
            &&& op is Gt ==> r == Ok::<SimValue, SimulateError>(SimValue::Bool(*l > *rr))
            &&& op is Ge ==> r == Ok::<SimValue, SimulateError>(SimValue::Bool(*l >= *rr))
            &&& op is Add ==> r == Ok::<SimValue, SimulateError>(SimValue::Integer(((*l as int + *rr as int) % 0x1_0000_0000_0000_0000) as u64))
            &&& op is Sub ==> r == Ok::<SimValue, SimulateError>(SimValue::Integer(((*l as int - *rr as int + 0x1_0000_0000_0000_0000) % 0x1_0000_0000_0000_0000) as u64))
            &&& op is Div && *rr != 0 ==> r == Ok::<SimValue, SimulateError>(SimValue::Integer(*l / *rr))
            &&& op is Mod && *rr != 0 ==> r == Ok::<SimValue, SimulateError>(SimValue::Integer(*l % *rr))
            &&& op is Mul ==> r == Ok::<SimValue, SimulateError>(SimValue::Integer(((*l as int * *rr as int) % 0x1_0000_0000_0000_0000) as u64))
            &&& op is Div && *rr == 0 ==> (r matches Ok(v) && is_symbolic(v, "div_zero"@))
            &&& op is Mod && *rr == 0 ==> (r matches Ok(v) && is_symbolic(v, "mod_zero"@))
            &&& op is And ==> r == Ok::<SimValue, SimulateError>(SimValue::Bool(*l != 0 && *rr != 0))
            &&& op is Or ==> r == Ok::<SimValue, SimulateError>(SimValue::Bool(*l != 0 || *rr != 0))
        },
        (left, right) matches (SimValue::Bool(l), SimValue::Bool(rr)) ==> {
            &&& op is Eq ==> r == Ok::<SimValue, SimulateError>(SimValue::Bool(*l == *rr))
            &&& op is Ne ==> r == Ok::<SimValue, SimulateError>(SimValue::Bool(*l != *rr))
            &&& op is And ==> r == Ok::<SimValue, SimulateError>(SimValue::Bool(*l && *rr))
            &&& op is Or ==> r == Ok::<SimValue, SimulateError>(SimValue::Bool(*l || *rr))
        },
        (left, right) matches (SimValue::Integer(l), SimValue::Integer(rr)) ==> match spec_integer_binary(op, *l, *rr) {
            Some(v) => r == Ok::<SimValue, SimulateError>(v),
            None => (r matches Ok(v) && (if op is Div && *rr == 0 {
                is_symbolic(v, "div_zero"@)
            } else if op is Mod && *rr == 0 {
                is_symbolic(v, "mod_zero"@)
            } else {
                is_symbolic(v, "binary"@)
            })),
        },
        (left, right) matches (SimValue::Bool(l), SimValue::Bool(rr)) ==> match spec_bool_binary(op, *l, *rr) {
            Some(v) => r == Ok::<SimValue, SimulateError>(v),
            None => (r matches Err(SimulateError::TypeError { expected, got }) && expected@ == "integer"@ && got@
                == "bool"@),
        },
        !(left is Integer && right is Integer) && !(left is Bool && right is Bool) ==> (r matches Ok(v)
            && symbolic_text(v, "binary"@, spec_debug(*left) + " "@ + binary_op_name(op) + " "@ + spec_debug(*right))),
{
    match (left, right) {
        (SimValue::Integer(l), SimValue::Integer(r)) => {
            let l = *l;
            let r = *r;
            match op {
                BinaryOp::Add => Ok(SimValue::Integer(l.wrapping_add(r))),
                BinaryOp::Sub => Ok(SimValue::Integer(l.wrapping_sub(r))),
                BinaryOp::Mul => Ok(SimValue::Integer(l.wrapping_mul(r))),
                BinaryOp::Div => {
                    if r == 0 {
                        Ok(symbolic("div_zero", "division by zero".to_owned()))
                    } else {
                        Ok(SimValue::Integer(l / r))
                    }
                },
                BinaryOp::Mod => {
                    if r == 0 {
                        Ok(symbolic("mod_zero", "modulo by zero".to_owned()))
                    } else {
                        Ok(SimValue::Integer(l % r))
                    }
                },
                BinaryOp::Eq => Ok(SimValue::Bool(l == r)),
                BinaryOp::Ne => Ok(SimValue::Bool(l != r)),
                BinaryOp::Lt => Ok(SimValue::Bool(l < r)),
                BinaryOp::Le => Ok(SimValue::Bool(l <= r)),
                BinaryOp::Gt => Ok(SimValue::Bool(l > r)),
                BinaryOp::Ge => Ok(SimValue::Bool(l >= r)),
                BinaryOp::And => Ok(SimValue::Bool(l != 0 && r != 0)),
                BinaryOp::Or => Ok(SimValue::Bool(l != 0 || r != 0)),
                _ => Ok(symbolic("binary", debug_binary(left, op, right))),
            }
        },
        (SimValue::Bool(l), SimValue::Bool(r)) => {
            let l = *l;
            let r = *r;
            match op {
                BinaryOp::Eq => Ok(SimValue::Bool(l == r)),
                BinaryOp::Ne => Ok(SimValue::Bool(l != r)),
                BinaryOp::And => Ok(SimValue::Bool(l && r)),
                BinaryOp::Or => Ok(SimValue::Bool(l || r)),
                _ => Err(SimulateError::TypeError { expected: "integer".to_owned(), got: "bool".to_owned() }),
            }
        },
        _ => Ok(symbolic("binary", debug_binary(left, op, right))),
    }
}

/// The value of a unary operation: wrapping negation of integers, negation of booleans, `== 0`
/// of integers under `!`, a symbolic value otherwise.
pub fn eval_unary(op: UnaryOp, value: &SimValue) -> (r: SimValue)
    ensures
        (op, value) matches (UnaryOp::Neg, SimValue::Integer(n)) ==> r == SimValue::Integer(
            vstd::wrapping::u64_specs::wrapping_sub(0, *n),
        ),
        (op, value) matches (UnaryOp::Not, SimValue::Bool(b)) ==> r == SimValue::Bool(!*b),
        (op, value) matches (UnaryOp::Not, SimValue::Integer(n)) ==> r == SimValue::Bool(*n == 0),
        !(op is Neg && value is Integer) && !(op is Not && (value is Bool || value is Integer)) ==> symbolic_text(
            r,
            "unary"@,
            unary_op_name(op) + " "@ + spec_debug(*value),
        ),
{
    match (op, value) {
        (UnaryOp::Neg, SimValue::Integer(n)) => SimValue::Integer(0u64.wrapping_sub(*n)),
        (UnaryOp::Not, SimValue::Bool(b)) => SimValue::Bool(!*b),
        (UnaryOp::Not, SimValue::Integer(n)) => SimValue::Bool(*n == 0),
        _ => symbolic("unary", debug_unary(op, value)),
    }
}

/// Whether a value counts as true for a branch.
pub fn is_truthy(value: &SimValue) -> (r: bool)
    ensures
        r == spec_is_truthy(*value),
{
    match value {
        SimValue::Bool(b) => *b,
        SimValue::Integer(n) => *n != 0,
        SimValue::Unit => false,
        _ => true,
    }
}

} // verus!
