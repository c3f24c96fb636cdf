//! Simulated values, trace events and their text.

use crate::text::{concat2, concat3, debug_quote, debug_rendering, decimal, decimal_string};
use vstd::prelude::*;
use vstd::string::StringExecFns;

verus! {

/// A value the simulator computes: concrete where the source determines it, symbolic where it
/// stands for something on chain.
#[derive(Debug, PartialEq)]
pub enum SimValue {
    Integer(u64),
    Bool(bool),
    String(String),
    Unit,
    Symbolic { ty: String, description: String },
    Struct { name: String, fields: Vec<(String, SimValue)> },
    Array(Vec<SimValue>),
    Tuple(Vec<SimValue>),
}

/// How a simulated value is shown.
pub open spec fn spec_display(v: SimValue) -> Seq<char>
    decreases v, 0int,
{
    match v {
        SimValue::Integer(n) => decimal(n as nat),
        SimValue::Bool(b) => if b {
            "true"@
        } else {
            "false"@
        },
        SimValue::String(s) => "\""@ + s@ + "\""@,
        SimValue::Unit => "()"@,
        SimValue::Symbolic { ty, description } => "<simulated "@ + ty@ + " ("@ + description@ + ")>"@,
        SimValue::Struct { name, fields } => {
            proof {
                assert(decreases_to!(fields => fields@));
            }
            name@ + " { "@ + spec_display_fields(fields@, fields@.len() as int) + " }"@
        },
        SimValue::Array(items) => {
            proof {
                assert(decreases_to!(items => items@));
            }
            "["@ + spec_display_list(items@, items@.len() as int) + "]"@
        },
        SimValue::Tuple(items) => {
            proof {
                assert(decreases_to!(items => items@));
            }
            "("@ + spec_display_list(items@, items@.len() as int) + ")"@
        },
    }
}

/// The first `k` values shown and joined by `", "`.
pub open spec fn spec_display_list(items: Seq<SimValue>, k: int) -> Seq<char>
    decreases items, k,
{
    if k <= 0 || k > items.len() {
        Seq::empty()
    } else if k == 1 {
        spec_display(items[0])
    } else {
        spec_display_list(items, k - 1) + ", "@ + spec_display(items[k - 1])
    }
}

/// The first `k` fields shown as `name: value` and joined by `", "`.
pub open spec fn spec_display_fields(fields: Seq<(String, SimValue)>, k: int) -> Seq<char>
    decreases fields, k,
{
    if k <= 0 || k > fields.len() {
        Seq::empty()
    } else {
        proof {
            assert(decreases_to!(fields => fields[k - 1]));
            assert(decreases_to!(fields[k - 1] => fields[k - 1].1));
        }
        let shown = fields[k - 1].0@ + ": "@ + spec_display(fields[k - 1].1);
        if k == 1 {
            shown
        } else {
            spec_display_fields(fields, k - 1) + ", "@ + shown
        }
    }
}

impl SimValue {
    /// The value as the simulator shows it.
    pub fn display(&self) -> (s: String)
        ensures
            s@ == spec_display(*self),
        decreases self,
    {
        match self {
            SimValue::Integer(n) => decimal_string(*n as u128),
            SimValue::Bool(b) => if *b {
                "true".to_owned()
            } else {
                "false".to_owned()
            },
            SimValue::String(s) => concat3("\"", s.as_str(), "\""),
            SimValue::Unit => "()".to_owned(),
            SimValue::Symbolic { ty, description } => {
                let mut s = concat3("<simulated ", ty.as_str(), " (");
                s.append(description.as_str());
                s.append(")>");
                s
            },
            SimValue::Struct { name, fields } => {
                let joined = display_fields(fields);
                let mut s = concat3(name.as_str(), " { ", joined.as_str());
                s.append(" }");
                s
            },
            SimValue::Array(items) => {
                let joined = display_list(items);
                concat3("[", joined.as_str(), "]")
            },
            SimValue::Tuple(items) => {
                let joined = display_list(items);
                concat3("(", joined.as_str(), ")")
            },
        }
    }

    /// A copy of the value; scalar values are copied exactly.
    pub fn duplicate(&self) -> (r: SimValue)
        ensures
            !(self is Struct || self is Array || self is Tuple) ==> r == *self,
            self is Struct <==> r is Struct,
            self is Array <==> r is Array,
            self is Tuple <==> r is Tuple,
            spec_display(r) == spec_display(*self),
        decreases self,
    {
        match self {
            SimValue::Integer(n) => SimValue::Integer(*n),
            SimValue::Bool(b) => SimValue::Bool(*b),
            SimValue::String(s) => SimValue::String(s.clone()),
            SimValue::Unit => SimValue::Unit,
            SimValue::Symbolic { ty, description } => SimValue::Symbolic {
                ty: ty.clone(),
                description: description.clone(),
            },
            SimValue::Struct { name, fields } => {
                let copied = duplicate_fields(fields);
                SimValue::Struct { name: name.clone(), fields: copied }
            },
            SimValue::Array(items) => SimValue::Array(duplicate_list(items)),
            SimValue::Tuple(items) => SimValue::Tuple(duplicate_list(items)),
        }
    }
}

fn display_list(items: &Vec<SimValue>) -> (s: String)
    ensures
        s@ == spec_display_list(items@, items@.len() as int),
    decreases items,
{
    let mut s = String::new();
    let mut i: usize = 0;
    while i < items.len()
        invariant
            i <= items@.len(),
            s@ == spec_display_list(items@, i as int),
        decreases items@.len() - i,
    {
        if i > 0 {
            s.append(", ");
        }
        proof {
            assert(decreases_to!(items => items@));
            assert(decreases_to!(items@ => items@[i as int]));
        }
        let shown = items[i].display();
        s.append(shown.as_str());
        i += 1;
    }
    s
}

fn display_fields(fields: &Vec<(String, SimValue)>) -> (s: String)
    ensures
        s@ == spec_display_fields(fields@, fields@.len() as int),
    decreases fields,
{
    let mut s = String::new();
    let mut i: usize = 0;
    while i < fields.len()
        invariant
            i <= fields@.len(),
            s@ == spec_display_fields(fields@, i as int),
        decreases fields@.len() - i,
    {
        if i > 0 {
            s.append(", ");
        }
        proof {
            assert(decreases_to!(fields => fields@));
            assert(decreases_to!(fields@ => fields@[i as int]));
            assert(decreases_to!(fields@[i as int] => fields@[i as int].1));
        }
        let value = fields[i].1.display();
        s.append(fields[i].0.as_str());
        s.append(": ");
        s.append(value.as_str());
        i += 1;
    }
    s
}

/// How std's derived `Debug` formatting shows a simulated value.
pub open spec fn spec_debug(v: SimValue) -> Seq<char>
    decreases v, 0int,
{
    match v {
        SimValue::Integer(n) => "Integer("@ + decimal(n as nat) + ")"@,
        SimValue::Bool(b) => if b {
            "Bool(true)"@
        } else {
            "Bool(false)"@
        },
        SimValue::String(s) => "String("@ + debug_rendering(s@) + ")"@,
        SimValue::Unit => "Unit"@,
        SimValue::Symbolic { ty, description } => "Symbolic { ty: "@ + debug_rendering(ty@) + ", description: "@
            + debug_rendering(description@) + " }"@,
        SimValue::Struct { name, fields } => {
            proof {
                assert(decreases_to!(fields => fields@));
            }
            "Struct { name: "@ + debug_rendering(name@) + ", fields: ["@ + spec_debug_fields(fields@, fields@.len() as int)
                + "] }"@
        },
        SimValue::Array(items) => {
            proof {
                assert(decreases_to!(items => items@));
            }
            "Array(["@ + spec_debug_list(items@, items@.len() as int) + "])"@
        },
        SimValue::Tuple(items) => {
            proof {
                assert(decreases_to!(items => items@));
            }
            "Tuple(["@ + spec_debug_list(items@, items@.len() as int) + "])"@
        },
    }
}

/// The first `k` values in `Debug` form, joined by `", "`.
pub open spec fn spec_debug_list(items: Seq<SimValue>, k: int) -> Seq<char>
    decreases items, k,
{
    if k <= 0 || k > items.len() {
        Seq::empty()
    } else if k == 1 {
        spec_debug(items[0])
    } else {
        spec_debug_list(items, k - 1) + ", "@ + spec_debug(items[k - 1])
    }
}

/// The first `k` fields in `Debug` form, each as a pair `("name", value)`, joined by `", "`.
pub open spec fn spec_debug_fields(fields: Seq<(String, SimValue)>, k: int) -> Seq<char>
    decreases fields, k,
{
    if k <= 0 || k > fields.len() {
        Seq::empty()
    } else {
        proof {
            assert(decreases_to!(fields => fields[k - 1]));
            assert(decreases_to!(fields[k - 1] => fields[k - 1].1));
        }
        let shown = "("@ + debug_rendering(fields[k - 1].0@) + ", "@ + spec_debug(fields[k - 1].1) + ")"@;
        if k == 1 {
            shown
        } else {
            spec_debug_fields(fields, k - 1) + ", "@ + shown
        }
    }
}

impl SimValue {
    /// The value as std's derived `Debug` formatting shows it.
    pub fn debug_text(&self) -> (s: String)
        ensures
            s@ == spec_debug(*self),
        decreases self,
    {
        match self {
            SimValue::Integer(n) => {
                let d = decimal_string(*n as u128);
                concat3("Integer(", d.as_str(), ")")
            },
            SimValue::Bool(b) => if *b {
                "Bool(true)".to_owned()
            } else {
                "Bool(false)".to_owned()
            },
            SimValue::String(s) => {
                let q = debug_quote(s.as_str());
                concat3("String(", q.as_str(), ")")
            },
            SimValue::Unit => "Unit".to_owned(),
            SimValue::Symbolic { ty, description } => {
                let t = debug_quote(ty.as_str());
                let d = debug_quote(description.as_str());
                let mut s = concat3("Symbolic { ty: ", t.as_str(), ", description: ");
                s.append(d.as_str());
                s.append(" }");
                s
            },
            SimValue::Struct { name, fields } => {
                let n = debug_quote(name.as_str());
                let joined = debug_fields(fields);
                let mut s = concat3("Struct { name: ", n.as_str(), ", fields: [");
                s.append(joined.as_str());
                s.append("] }");
                s
            },
            SimValue::Array(items) => {
                let joined = debug_list(items);
                concat3("Array([", joined.as_str(), "])")
            },
            SimValue::Tuple(items) => {
                let joined = debug_list(items);
                concat3("Tuple([", joined.as_str(), "])")
            },
        }
    }
}

fn debug_list(items: &Vec<SimValue>) -> (s: String)
    ensures
        s@ == spec_debug_list(items@, items@.len() as int),
    decreases items,
{
    let mut s = String::new();
    let mut i: usize = 0;
    while i < items.len()
        invariant
            i <= items@.len(),
            s@ == spec_debug_list(items@, i as int),
        decreases items@.len() - i,
    {
        if i > 0 {
            s.append(", ");
        }
        proof {
            assert(decreases_to!(items => items@));
            assert(decreases_to!(items@ => items@[i as int]));
        }
        let shown = items[i].debug_text();
        s.append(shown.as_str());
        i += 1;
    }
    s
}

fn debug_fields(fields: &Vec<(String, SimValue)>) -> (s: String)
    ensures
        s@ == spec_debug_fields(fields@, fields@.len() as int),
    decreases fields,
{
    let mut s = String::new();
    let mut i: usize = 0;
    while i < fields.len()
        invariant
            i <= fields@.len(),
            s@ == spec_debug_fields(fields@, i as int),
        decreases fields@.len() - i,
    {
        if i > 0 {
            s.append(", ");
        }
        proof {
            assert(decreases_to!(fields => fields@));
            assert(decreases_to!(fields@ => fields@[i as int]));
            assert(decreases_to!(fields@[i as int] => fields@[i as int].1));
        }
        let value = fields[i].1.debug_text();
        let name = debug_quote(fields[i].0.as_str());
        s.append("(");
        s.append(name.as_str());
        s.append(", ");
        s.append(value.as_str());
        s.append(")");
        i += 1;
    }
    s
}

fn duplicate_list(items: &Vec<SimValue>) -> (r: Vec<SimValue>)
    ensures
        r@.len() == items@.len(),
        spec_display_list(r@, r@.len() as int) == spec_display_list(items@, items@.len() as int),
    decreases items,
{
    let mut r: Vec<SimValue> = Vec::new();
    let mut i: usize = 0;
    while i < items.len()
        invariant
            i <= items@.len(),
            r@.len() == i,
            forall|j: int| 0 <= j < i ==> spec_display(#[trigger] r@[j]) == spec_display(items@[j]),
        decreases items@.len() - i,
    {
        proof {
            assert(decreases_to!(items => items@));
            assert(decreases_to!(items@ => items@[i as int]));
        }
        r.push(items[i].duplicate());
        i += 1;
    }
    proof {
        lemma_display_list_congruent(r@, items@, r@.len() as int);
    }
    r
}

fn duplicate_fields(fields: &Vec<(String, SimValue)>) -> (r: Vec<(String, SimValue)>)
    ensures
        r@.len() == fields@.len(),
        spec_display_fields(r@, r@.len() as int) == spec_display_fields(fields@, fields@.len() as int),
    decreases fields,
{
    let mut r: Vec<(String, SimValue)> = Vec::new();
    let mut i: usize = 0;
    while i < fields.len()
        invariant
            i <= fields@.len(),
            r@.len() == i,
            forall|j: int| 0 <= j < i ==> (#[trigger] r@[j]).0@ == fields@[j].0@ && spec_display(r@[j].1) == spec_display(
                fields@[j].1,
            ),
        decreases fields@.len() - i,
    {
        proof {
            assert(decreases_to!(fields => fields@));
            assert(decreases_to!(fields@ => fields@[i as int]));
            assert(decreases_to!(fields@[i as int] => fields@[i as int].1));
        }
        let value = fields[i].1.duplicate();
        r.push((fields[i].0.clone(), value));
        i += 1;
    }
    proof {
        lemma_display_fields_congruent(r@, fields@, r@.len() as int);
    }
    r
}

proof fn lemma_display_list_congruent(a: Seq<SimValue>, b: Seq<SimValue>, k: int)
    requires
        a.len() == b.len(),
        forall|j: int| 0 <= j < a.len() ==> spec_display(#[trigger] a[j]) == spec_display(b[j]),
    ensures
        spec_display_list(a, k) == spec_display_list(b, k),
    decreases k,
{
    if k > 1 && k <= a.len() {
        lemma_display_list_congruent(a, b, k - 1);
        assert(spec_display(a[k - 1]) == spec_display(b[k - 1]));
    } else if k == 1 && a.len() >= 1 {
        assert(spec_display(a[0]) == spec_display(b[0]));
    }
}

proof fn lemma_display_fields_congruent(a: Seq<(String, SimValue)>, b: Seq<(String, SimValue)>, k: int)
    requires
        a.len() == b.len(),
        forall|j: int| 0 <= j < a.len() ==> (#[trigger] a[j]).0@ == b[j].0@ && spec_display(a[j].1) == spec_display(b[j].1),
    ensures
        spec_display_fields(a, k) == spec_display_fields(b, k),
    decreases k,
{
    if k >= 1 && k <= a.len() {
        assert(a[k - 1].0@ == b[k - 1].0@ && spec_display(a[k - 1].1) == spec_display(b[k - 1].1));
        if k > 1 {
            lemma_display_fields_congruent(a, b, k - 1);
        }
    }
}

/// One step the simulator records.
#[derive(Debug)]
pub enum TraceEvent {
    Bind { name: String, value: SimValue },
    Create { ty: String, fields: Vec<(String, String)> },
    Consume { description: String },
    Transfer { description: String, to: String },
    Destroy { description: String },
    ReadRef { ty: String },
    Claim { description: String },
    Settle { description: String },
    Call { name: String, args: Vec<String> },
    Return { value: SimValue },
    Branch { condition: SimValue, taken: bool },
    Assert { condition: SimValue, message: String },
}

/// The first `k` strings joined by `", "`.
pub open spec fn spec_join(items: Seq<String>, k: int) -> Seq<char>
    decreases k,
{
    if k <= 0 || k > items.len() {
        Seq::empty()
    } else if k == 1 {
        items[0]@
    } else {
        spec_join(items, k - 1) + ", "@ + items[k - 1]@
    }
}

/// The first `k` pairs shown as `name: value` and joined by `", "`.
pub open spec fn spec_join_pairs(items: Seq<(String, String)>, k: int) -> Seq<char>
    decreases k,
{
    if k <= 0 || k > items.len() {
        Seq::empty()
    } else if k == 1 {
        items[0].0@ + ": "@ + items[0].1@
    } else {
        spec_join_pairs(items, k - 1) + ", "@ + items[k - 1].0@ + ": "@ + items[k - 1].1@
    }
}

/// How a trace event is shown: indented by two spaces, in source-like syntax.
pub open spec fn spec_event_display(e: TraceEvent) -> Seq<char> {
    match e {
        TraceEvent::Bind { name, value } => "  let "@ + name@ + " = "@ + spec_display(value),
        TraceEvent::Create { ty, fields } => "  create "@ + ty@ + " { "@ + spec_join_pairs(fields@, fields@.len() as int)
            + " }"@,
        TraceEvent::Consume { description } => "  consume "@ + description@,
        TraceEvent::Transfer { description, to } => "  transfer "@ + description@ + " to "@ + to@,
        TraceEvent::Destroy { description } => "  destroy "@ + description@,
        TraceEvent::ReadRef { ty } => "  read_ref<"@ + ty@ + ">()"@,
        TraceEvent::Claim { description } => "  claim "@ + description@,
        TraceEvent::Settle { description } => "  settle "@ + description@,
        TraceEvent::Call { name, args } => "  call "@ + name@ + "("@ + spec_join(args@, args@.len() as int) + ")"@,
        TraceEvent::Return { value } => "  return "@ + spec_display(value),
        TraceEvent::Branch { condition, taken } => "  if "@ + spec_display(condition) + " -> "@ + (if taken {
            "then"@
        } else {
            "else"@
        }),
        TraceEvent::Assert { condition, message } => "  assert!("@ + spec_display(condition) + ", \""@ + message@
            + "\")"@,
    }
}

/// The strings joined by `", "`.
pub fn join_strings(items: &Vec<String>) -> (s: String)
    ensures
        s@ == spec_join(items@, items@.len() as int),
{
    let mut s = String::new();
    let mut i: usize = 0;
    while i < items.len()
        invariant
            i <= items@.len(),
            s@ == spec_join(items@, i as int),
        decreases items@.len() - i,
    {
        if i > 0 {
            s.append(", ");
        }
        s.append(items[i].as_str());
        i += 1;
    }
    s
}

fn join_pairs(items: &Vec<(String, String)>) -> (s: String)
    ensures
        s@ == spec_join_pairs(items@, items@.len() as int),
{
    let mut s = String::new();
    let mut i: usize = 0;
    while i < items.len()
        invariant
            i <= items@.len(),
            s@ == spec_join_pairs(items@, i as int),
        decreases items@.len() - i,
    {
        if i > 0 {
            s.append(", ");
        }
        s.append(items[i].0.as_str());
        s.append(": ");
        s.append(items[i].1.as_str());
        i += 1;
    }
    s
}

fn copy_pairs(items: &Vec<(String, String)>) -> (r: Vec<(String, String)>)
    ensures
        r@.len() == items@.len(),
        forall|j: int| 0 <= j < r@.len() ==> (#[trigger] r@[j]).0@ == items@[j].0@ && r@[j].1@ == items@[j].1@,
{
    let mut r: Vec<(String, String)> = Vec::new();
    let mut i: usize = 0;
    while i < items.len()
        invariant
            i <= items@.len(),
            r@.len() == i,
            forall|j: int| 0 <= j < i ==> (#[trigger] r@[j]).0@ == items@[j].0@ && r@[j].1@ == items@[j].1@,
        decreases items@.len() - i,
    {
        r.push((items[i].0.clone(), items[i].1.clone()));
        i += 1;
    }
    r
}

fn copy_strings(items: &Vec<String>) -> (r: Vec<String>)
    ensures
        r@.len() == items@.len(),
        forall|j: int| 0 <= j < r@.len() ==> (#[trigger] r@[j])@ == items@[j]@,
{
    let mut r: Vec<String> = Vec::new();
    let mut i: usize = 0;
    while i < items.len()
        invariant
            i <= items@.len(),
            r@.len() == i,
            forall|j: int| 0 <= j < i ==> (#[trigger] r@[j])@ == items@[j]@,
        decreases items@.len() - i,
    {
        r.push(items[i].clone());
        i += 1;
    }
    r
}

proof fn lemma_join_congruent(a: Seq<String>, b: Seq<String>, k: int)
    requires
        a.len() == b.len(),
        forall|j: int| 0 <= j < a.len() ==> (#[trigger] a[j])@ == b[j]@,
    ensures
        spec_join(a, k) == spec_join(b, k),
    decreases k,
{
    if k > 1 && k <= a.len() {
        lemma_join_congruent(a, b, k - 1);
        assert(a[k - 1]@ == b[k - 1]@);
    } else if k == 1 && a.len() >= 1 {
        assert(a[0]@ == b[0]@);
    }
}

proof fn lemma_join_pairs_congruent(a: Seq<(String, String)>, b: Seq<(String, String)>, k: int)
    requires
        a.len() == b.len(),
        forall|j: int| 0 <= j < a.len() ==> (#[trigger] a[j]).0@ == b[j].0@ && a[j].1@ == b[j].1@,
    ensures
        spec_join_pairs(a, k) == spec_join_pairs(b, k),
    decreases k,
{
    if k > 1 && k <= a.len() {
        lemma_join_pairs_congruent(a, b, k - 1);
        assert(a[k - 1].0@ == b[k - 1].0@ && a[k - 1].1@ == b[k - 1].1@);
    } else if k == 1 && a.len() >= 1 {
        assert(a[0].0@ == b[0].0@ && a[0].1@ == b[0].1@);
    }
}

impl TraceEvent {
    /// The event as the simulator shows it.
    pub fn display(&self) -> (s: String)
        ensures
            s@ == spec_event_display(*self),
    {
        match self {
            TraceEvent::Bind { name, value } => {
                let v = value.display();
                let mut s = concat3("  let ", name.as_str(), " = ");
                s.append(v.as_str());
                s
            },
            TraceEvent::Create { ty, fields } => {
                let joined = join_pairs(fields);
                let mut s = concat3("  create ", ty.as_str(), " { ");
                s.append(joined.as_str());
                s.append(" }");
                s
            },
            TraceEvent::Consume { description } => concat2("  consume ", description.as_str()),
            TraceEvent::Transfer { description, to } => {
                let mut s = concat3("  transfer ", description.as_str(), " to ");
                s.append(to.as_str());
                s
            },
            TraceEvent::Destroy { description } => concat2("  destroy ", description.as_str()),
            TraceEvent::ReadRef { ty } => concat3("  read_ref<", ty.as_str(), ">()"),
            TraceEvent::Claim { description } => concat2("  claim ", description.as_str()),
            TraceEvent::Settle { description } => concat2("  settle ", description.as_str()),
            TraceEvent::Call { name, args } => {
                let joined = join_strings(args);
                let mut s = concat3("  call ", name.as_str(), "(");
                s.append(joined.as_str());
                s.append(")");
                s
            },
            TraceEvent::Return { value } => {
                let v = value.display();
                concat2("  return ", v.as_str())
            },
            TraceEvent::Branch { condition, taken } => {
                let c = condition.display();
                let mut s = concat3("  if ", c.as_str(), " -> ");
                s.append(if *taken { "then" } else { "else" });
                s
            },
            TraceEvent::Assert { condition, message } => {
                let c = condition.display();
                let mut s = concat3("  assert!(", c.as_str(), ", \"");
                s.append(message.as_str());
                s.append("\")");
                s
            },
        }
    }

    /// A copy of the event that shows the same.
    pub fn duplicate(&self) -> (r: TraceEvent)
        ensures
            spec_event_display(r) == spec_event_display(*self),
            (self is Create) == (r is Create),
            (self is Consume) == (r is Consume),
            (self is ReadRef) == (r is ReadRef),
            (self is Call) == (r is Call),
            (self is Return) == (r is Return),
    {
        match self {
            TraceEvent::Bind { name, value } => TraceEvent::Bind { name: name.clone(), value: value.duplicate() },
            TraceEvent::Create { ty, fields } => {
                let copied = copy_pairs(fields);
                proof {
                    lemma_join_pairs_congruent(copied@, fields@, copied@.len() as int);
                }
                TraceEvent::Create { ty: ty.clone(), fields: copied }
            },
            TraceEvent::Consume { description } => TraceEvent::Consume { description: description.clone() },
            TraceEvent::Transfer { description, to } => TraceEvent::Transfer {
                description: description.clone(),
                to: to.clone(),
            },
            TraceEvent::Destroy { description } => TraceEvent::Destroy { description: description.clone() },
            TraceEvent::ReadRef { ty } => TraceEvent::ReadRef { ty: ty.clone() },
            TraceEvent::Claim { description } => TraceEvent::Claim { description: description.clone() },
            TraceEvent::Settle { description } => TraceEvent::Settle { description: description.clone() },
            TraceEvent::Call { name, args } => {
                let copied = copy_strings(args);
                proof {
                    lemma_join_congruent(copied@, args@, copied@.len() as int);
                }
                TraceEvent::Call { name: name.clone(), args: copied }
            },
            TraceEvent::Return { value } => TraceEvent::Return { value: value.duplicate() },
            TraceEvent::Branch { condition, taken } => TraceEvent::Branch {
                condition: condition.duplicate(),
                taken: *taken,
            },
            TraceEvent::Assert { condition, message } => TraceEvent::Assert {
                condition: condition.duplicate(),
                message: message.clone(),
            },
        }
    }
}

} // verus!
