use cellscript::ast::Module;
use cellscript::lexer::lex;
use cellscript::parser::{parse_with_entry_grammar, EntryBodyGrammar};
use cellscript::simulate::{SimValue, SimulateError, SimulateInterpreter, TraceEvent};

fn parse_module(source: &str) -> Module {
    let tokens = lex(source).expect("lex");
    parse_with_entry_grammar(&tokens, EntryBodyGrammar::ConstraintBlock).expect("parse")
}

#[test]
fn simulate_pure_arithmetic_action() {
    let source = r#"
module sim_test

action add(a: u64, b: u64) -> u64 {
    let result = a + b
    return result
}
"#;
    let module = parse_module(source);
    let mut interp = SimulateInterpreter::new(&module, 1000);
    let result = interp.simulate_action("add", &[SimValue::Integer(3), SimValue::Integer(5)]).unwrap();
    assert_eq!(result.return_value, SimValue::Integer(8));
    assert!(!result.has_cell_ops);
}

#[test]
fn simulate_cell_operation_traces() {
    let source = r#"
module cell_test

resource Token has store, transfer, destroy {
    amount: u64,
}

action mint(amount: u64) -> u64 {
    let token = create Token { amount: amount }
    consume token
    return amount
}
"#;
    let module = parse_module(source);
    let mut interp = SimulateInterpreter::new(&module, 1000);
    let result = interp.simulate_action("mint", &[SimValue::Integer(100)]).unwrap();
    assert!(result.has_cell_ops);
    assert!(result.trace.iter().any(|e| matches!(e, TraceEvent::Create { .. })));
    assert!(result.trace.iter().any(|e| matches!(e, TraceEvent::Consume { .. })));
}

#[test]
fn simulate_read_ref_traces() {
    let source = r#"
module ref_test

shared Config {
    threshold: u64,
}

action check() -> u64 {
    let cfg = read_ref<Config>()
    cfg.threshold
}
"#;
    let module = parse_module(source);
    let mut interp = SimulateInterpreter::new(&module, 1000);
    let result = interp.simulate_action("check", &[]).unwrap();
    assert!(result.has_cell_ops);
    assert!(result.trace.iter().any(|e| matches!(e, TraceEvent::ReadRef { .. })));
}

#[test]
fn simulate_if_branch() {
    let source = r#"
module branch_test

action classify(x: u64) -> u64 {
    let result = 0
    if x > 10 {
        return 1
    }
    return 0
}
"#;
    let module = parse_module(source);
    let mut interp = SimulateInterpreter::new(&module, 1000);
    let result = interp.simulate_action("classify", &[SimValue::Integer(15)]).unwrap();
    assert_eq!(result.return_value, SimValue::Integer(1));
}

#[test]
fn simulate_step_limit() {
    let source = r#"
module limit_test

action infinite() -> u64 {
    let x = 0
    return x
}
"#;
    let module = parse_module(source);
    let mut interp = SimulateInterpreter::new(&module, 2);
    let result = interp.simulate_action("infinite", &[]);
    match result {
        Ok(r) => assert!(r.steps <= 3),
        Err(SimulateError::StepLimitExceeded { .. }) => {}
        Err(e) => panic!("unexpected error: {}", e.message()),
    }
}

#[test]
fn simulate_undefined_action_is_reported_by_name() {
    let module = parse_module("module empty\n");
    let mut interp = SimulateInterpreter::new(&module, 10);
    match interp.simulate_action("missing", &[]) {
        Err(error @ SimulateError::UndefinedFunction { .. }) => {
            assert_eq!(error.message(), "undefined function 'action::missing'");
        }
        Ok(_) => panic!("a missing action must not run"),
        Err(other) => panic!("unexpected error: {}", other.message()),
    }
}

#[test]
fn simulation_error_messages_are_exact() {
    assert_eq!(SimulateError::StepLimitExceeded { max: 7 }.message(), "simulation exceeded maximum step limit (7)");
    assert_eq!(SimulateError::UndefinedVariable { name: "x".to_string() }.message(), "undefined variable 'x'");
    assert_eq!(
        SimulateError::TypeError { expected: "u64".to_string(), got: "bool".to_string() }.message(),
        "type error: expected u64, got bool"
    );
    assert_eq!(SimulateError::Unsupported { description: "loops".to_string() }.message(), "unsupported: loops");
}

#[test]
fn simulation_values_display_like_source_literals() {
    assert_eq!(SimValue::Integer(42).display(), "42");
    assert_eq!(SimValue::Bool(true).display(), "true");
    assert_eq!(SimValue::Unit.display(), "()");
}

#[test]
fn simulate_consume_of_a_bound_value_returns_the_consumed_cell() {
    let source = r#"
module burn_test

action burn(amount: u64) -> u64 {
    consume amount
    return amount
}
"#;
    let module = parse_module(source);
    let mut interp = SimulateInterpreter::new(&module, 100);
    let result = interp.simulate_action("burn", &[SimValue::Integer(100)]).unwrap();
    assert_eq!(
        result.return_value,
        SimValue::Symbolic { ty: "consumed".to_string(), description: "100".to_string() }
    );
    assert!(result.has_cell_ops);
    assert_eq!(result.trace.len(), 1);
    assert!(matches!(&result.trace[0], TraceEvent::Consume { description } if description == "100"));
    assert_eq!(result.steps, 3);
}

#[test]
fn simulate_pure_body_counts_one_step_per_node() {
    let source = r#"
module steps_test

action pair() -> u64 {
    let x = 1
    return x
}
"#;
    let module = parse_module(source);
    let mut exact = SimulateInterpreter::new(&module, 4);
    let result = exact.simulate_action("pair", &[]).unwrap();
    assert_eq!(result.return_value, SimValue::Integer(1));
    assert_eq!(result.steps, 4);
    let mut short = SimulateInterpreter::new(&module, 3);
    match short.simulate_action("pair", &[]) {
        Err(SimulateError::StepLimitExceeded { max }) => assert_eq!(max, 3),
        Ok(_) => panic!("a budget of three steps cannot cover four"),
        Err(other) => panic!("unexpected error: {}", other.message()),
    }
}

#[test]
fn simulate_function_returns_its_body_value() {
    let source = r#"
module fn_test

fn double(x: u64) -> u64 {
    return x * 2
}
"#;
    let module = parse_module(source);
    let mut interp = SimulateInterpreter::new(&module, 100);
    assert_eq!(interp.simulate_function("double", &[SimValue::Integer(21)]).unwrap(), SimValue::Integer(42));
    match interp.simulate_function("triple", &[]) {
        Err(SimulateError::UndefinedFunction { name }) => assert_eq!(name, "triple"),
        _ => panic!("an unknown function must be reported"),
    }
}

#[test]
fn simulate_unary_and_comparison_operators() {
    let source = r#"
module ops_test

action check(a: u64, b: u64) -> bool {
    let small = a < b
    return !small
}
"#;
    let module = parse_module(source);
    let mut interp = SimulateInterpreter::new(&module, 100);
    let result = interp.simulate_action("check", &[SimValue::Integer(3), SimValue::Integer(5)]).unwrap();
    assert_eq!(result.return_value, SimValue::Bool(false));
}

#[test]
fn simulate_branch_and_loop_bodies() {
    let source = r#"
module flow_test

action pick(a: u64, b: u64) -> u64 {
    if a < b {
        return a
    } else {
        return b
    }
}

action count(n: u64) -> u64 {
    let i = 0
    while i < n {
        let i = i + 1
    }
    return i
}
"#;
    let module = parse_module(source);
    let mut interp = SimulateInterpreter::new(&module, 1000);
    assert_eq!(interp.simulate_action("pick", &[SimValue::Integer(3), SimValue::Integer(5)]).unwrap().return_value, SimValue::Integer(3));
    let mut interp = SimulateInterpreter::new(&module, 1000);
    assert_eq!(interp.simulate_action("pick", &[SimValue::Integer(7), SimValue::Integer(2)]).unwrap().return_value, SimValue::Integer(2));
    let mut interp = SimulateInterpreter::new(&module, 1000);
    assert_eq!(interp.simulate_action("count", &[SimValue::Integer(5)]).unwrap().return_value, SimValue::Integer(5));
}

#[test]
fn rebinding_a_name_reads_back_the_new_value_and_keeps_others() {
    let source = r#"
module rebind_test

action shadow(a: u64, b: u64) -> u64 {
    let a = 10
    let c = a + b
    return c
}
"#;
    let module = parse_module(source);
    let mut interp = SimulateInterpreter::new(&module, 1000);
    let result = interp.simulate_action("shadow", &[SimValue::Integer(1), SimValue::Integer(4)]).unwrap();
    assert_eq!(result.return_value, SimValue::Integer(14));
}

#[test]
fn mixed_operands_render_their_debug_forms() {
    let v = cellscript::simulate::eval_binary(
        cellscript::ast::BinaryOp::Add,
        &SimValue::Integer(1),
        &SimValue::String("a\"b".to_string()),
    )
    .unwrap();
    assert_eq!(
        v,
        SimValue::Symbolic { ty: "binary".to_string(), description: "Integer(1) Add String(\"a\\\"b\")".to_string() }
    );
    let v = cellscript::simulate::eval_unary(cellscript::ast::UnaryOp::Neg, &SimValue::Tuple(vec![SimValue::Unit, SimValue::Bool(true)]));
    assert_eq!(v, SimValue::Symbolic { ty: "unary".to_string(), description: "Neg Tuple([Unit, Bool(true)])".to_string() });
}
