use cellscript::repl::{Repl, ReplAction};

#[test]
fn blank_lines_do_nothing_and_leave_no_history() {
    let mut repl = Repl::new();
    assert_eq!(repl.handle_line("   "), ReplAction::Nothing);
    assert!(repl.history().is_empty());
}

#[test]
fn commands_toggle_displays_and_quit() {
    let mut repl = Repl::new();
    assert_eq!(repl.handle_line(":show ir"), ReplAction::ShowIr(true));
    assert!(repl.show_ir());
    assert_eq!(repl.handle_line(":show ir"), ReplAction::ShowIr(false));
    assert_eq!(repl.handle_line(":show asm"), ReplAction::ShowAsm(true));
    assert!(repl.show_asm());
    assert_eq!(repl.handle_line(":show bytes"), ReplAction::UnknownShowOption("bytes".to_string()));
    assert_eq!(repl.handle_line(":frobnicate"), ReplAction::UnknownCommand(":frobnicate".to_string()));
    assert_eq!(repl.handle_line(":q"), ReplAction::Quit);
    assert_eq!(repl.history().len(), 6);
}

#[test]
fn lex_and_parse_commands_wrap_their_argument_in_a_module() {
    let mut repl = Repl::new();
    assert_eq!(repl.handle_line(":lex  let   x = 1"), ReplAction::Lex("module repl\nlet x = 1".to_string()));
    assert_eq!(repl.handle_line(":parse const A: u64 = 1"), ReplAction::Parse("module repl\nconst A: u64 = 1".to_string()));
    assert_eq!(repl.handle_line(":lex"), ReplAction::Nothing);
}

#[test]
fn evaluated_lines_accumulate_context_until_cleared() {
    let mut repl = Repl::new();
    assert_eq!(repl.handle_line("  const A: u64 = 1  "), ReplAction::Evaluate("module repl\nconst A: u64 = 1".to_string()));
    repl.accept_evaluated("const A: u64 = 1");
    repl.accept_evaluated("action f() -> u64 { return A }");
    assert_eq!(repl.full_code("const B: u64 = 2"), "module repl\nconst A: u64 = 1\n\nconst B: u64 = 2");
    assert_eq!(repl.handle_line(":clear"), ReplAction::Cleared);
    assert_eq!(repl.full_code("x"), "module repl\nx");
}
