use cellscript::ast::{Expr, Item, Stmt};
use cellscript::lexer::lex;
use cellscript::parser::{parse_with_entry_grammar, EntryBodyGrammar};
use cellscript::simulate::{SimValue, SimulateInterpreter};
use cellscript::text::{decimal_string, lines_of, parse_u64, split_whitespace, str_contains, to_ascii_lowercase, trim};

#[test]
fn decimal_and_parse_round_trip() {
    assert_eq!(decimal_string(0), "0");
    assert_eq!(decimal_string(1234567890), "1234567890");
    assert_eq!(parse_u64("18446744073709551615"), Some(u64::MAX));
    assert_eq!(parse_u64("18446744073709551616"), None);
    assert_eq!(parse_u64("+7"), Some(7));
    assert_eq!(parse_u64(""), None);
    assert_eq!(parse_u64("1a"), None);
}

#[test]
fn whitespace_helpers_follow_std() {
    assert_eq!(trim("\t a b \n"), "a b");
    assert_eq!(split_whitespace("  a  b\tc "), vec!["a", "b", "c"]);
    assert_eq!(lines_of("a\r\nb\n\nc\n"), vec!["a", "b", "", "c"]);
    assert_eq!(to_ascii_lowercase("MiXeD-Ä"), "mixed-Ä");
    assert!(str_contains("hello world", "o w"));
    assert!(!str_contains("hello", "world"));
}

#[test]
fn byte_strings_simulate_as_lowercase_hex() {
    let source = "module bytes\naction tag() -> u64 {\n    return b\"O~\\n\"\n}\n";
    let tokens = lex(source).expect("lex");
    let module = parse_with_entry_grammar(&tokens, EntryBodyGrammar::ConstraintBlock).expect("parse");
    let Item::Action(action) = &module.items[0] else { panic!("expected action") };
    let Stmt::Return(ret) = &action.body[0] else { panic!("expected return") };
    assert!(matches!(ret.value, Some(Expr::ByteString(_))));
    let mut interp = SimulateInterpreter::new(&module, 100);
    let result = interp.simulate_action("tag", &[]).unwrap();
    assert_eq!(result.return_value, SimValue::String("0x4f7e0a".to_string()));
}
