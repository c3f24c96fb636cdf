//! The interactive shell's state and decisions: what each input line asks for, and how the
//! accumulated context grows. Reading lines and printing answers is left to the caller.

use crate::text::{concat2, concat3, has_prefix, split_whitespace, str_eq, str_starts_with, trim, trimmed, words};
use vstd::prelude::*;
use vstd::string::{StrSliceExecFns, StringExecFns};

verus! {

/// The shell's state: input history, accumulated source context, and display switches.
pub struct Repl {
    history: Vec<String>,
    context: String,
    show_ir: bool,
    show_asm: bool,
}

/// What an input line asks the shell to do.
#[derive(Debug, PartialEq)]
pub enum ReplAction {
    /// Nothing: an empty line, or a command that lacks its argument.
    Nothing,
    /// Leave the shell.
    Quit,
    /// Show the command list.
    Help,
    /// Show the input history.
    History,
    /// The context was cleared.
    Cleared,
    /// The IR display is now on or off.
    ShowIr(bool),
    /// The assembly display is now on or off.
    ShowAsm(bool),
    /// `:show` with an option it does not know.
    UnknownShowOption(String),
    /// Tokenize this code, given as `module repl` source.
    Lex(String),
    /// Parse this code, given as `module repl` source.
    Parse(String),
    /// A command the shell does not know.
    UnknownCommand(String),
    /// Compile this module source, made of the context and the new line.
    Evaluate(String),
}

/// The words `1..` of a command, joined by single spaces.
pub open spec fn join_words(ws: Seq<Seq<char>>, from: int) -> Seq<char>
    decreases ws.len() - from,
{
    if from >= ws.len() {
        Seq::empty()
    } else if from == ws.len() - 1 {
        ws[from]
    } else {
        ws[from] + " "@ + join_words(ws, from + 1)
    }
}

/// The module source that `input` is compiled in, after `context`.
pub open spec fn spec_full_code(context: Seq<char>, input: Seq<char>) -> Seq<char> {
    if context.len() == 0 {
        "module repl\n"@ + input
    } else {
        "module repl\n"@ + context + "\n"@ + input
    }
}

fn join_from(ws: &Vec<String>, from: usize) -> (r: String)
    requires
        from <= ws@.len(),
    ensures
        r@ == join_words(ws@.map_values(|w: String| w@), from as int),
    decreases ws@.len() - from,
{
    let ghost v = ws@.map_values(|w: String| w@);
    if from >= ws.len() {
        String::new()
    } else if from == ws.len() - 1 {
        ws[from].clone()
    } else {
        let rest = join_from(ws, from + 1);
        concat3(ws[from].as_str(), " ", rest.as_str())
    }
}

impl Repl {
    /// Lines entered so far, trimmed, in order.
    pub closed spec fn spec_history(&self) -> Seq<String> {
        self.history@
    }

    /// The source accumulated so far.
    pub closed spec fn spec_context(&self) -> Seq<char> {
        self.context@
    }

    /// Whether the IR is shown.
    pub closed spec fn spec_show_ir(&self) -> bool {
        self.show_ir
    }

    /// Whether the assembly is shown.
    pub closed spec fn spec_show_asm(&self) -> bool {
        self.show_asm
    }

    /// A shell with no history, no context and both displays off.
    pub fn new() -> (r: Self)
        ensures
            r.spec_history().len() == 0,
            r.spec_context().len() == 0,
            !r.spec_show_ir(),
            !r.spec_show_asm(),
    {
        Repl { history: Vec::new(), context: String::new(), show_ir: false, show_asm: false }
    }

    /// The lines entered so far.
    pub fn history(&self) -> (r: &Vec<String>)
        ensures
            r@ == self.spec_history(),
    {
        &self.history
    }

    /// Whether the IR is shown.
    pub fn show_ir(&self) -> (r: bool)
        ensures
            r == self.spec_show_ir(),
    {
        self.show_ir
    }

    /// Whether the assembly is shown.
    pub fn show_asm(&self) -> (r: bool)
        ensures
            r == self.spec_show_asm(),
    {
        self.show_asm
    }

    /// The module source that `input` is compiled in: `module repl`, the context, then the line.
    pub fn full_code(&self, input: &str) -> (r: String)
        ensures
            r@ == spec_full_code(self.spec_context(), input@),
    {
        if self.context.as_str().unicode_len() == 0 {
            concat2("module repl\n", input)
        } else {
            let mut code = concat3("module repl\n", self.context.as_str(), "\n");
            code.append(input);
            code
        }
    }

    /// Decides what one input line asks for. The line is trimmed; a non-empty line joins the
    /// history; a line that starts with `:` is a command, any other is compiled in context.
    pub fn handle_line(&mut self, line: &str) -> (r: ReplAction)
        ensures
            trimmed(line@).len() == 0 ==> r == ReplAction::Nothing && *final(self) == *old(self),
            trimmed(line@).len() > 0 ==> final(self).spec_history().len() == old(self).spec_history().len() + 1
                && final(self).spec_history().last()@ == trimmed(line@),
            trimmed(line@).len() > 0 && trimmed(line@)[0] == ':' ==> Self::command_effect(
                *old(self),
                trimmed(line@),
                r,
                *final(self),
            ),
            trimmed(line@).len() > 0 && trimmed(line@)[0] != ':' ==> (r matches ReplAction::Evaluate(code) && code@
                == spec_full_code(old(self).spec_context(), trimmed(line@))) && final(self).spec_context() == old(
                self,
            ).spec_context(),
    {
        let input = trim(line);
        if input.as_str().unicode_len() == 0 {
            return ReplAction::Nothing;
        }
        self.history.push(input.clone());
        proof {
            reveal_strlit(":");
        }
        if str_starts_with(input.as_str(), ":") {
            proof {
                reveal_strlit(":");
                assert(input@.take(1)[0] == input@[0]);
            }
            let ghost mid = *self;
            assert(Self::same_settings(*old(self), mid));
            let r = self.handle_command(input.as_str());
            assert(Self::command_effect(mid, input@, r, *self));
            return r;
        }
        assert(input@[0] != ':') by {
            assert(":"@.len() == 1 && ":"@[0] == ':');
            assert(input@.len() >= 1);
            if input@[0] == ':' {
                assert(has_prefix(input@, ":"@)) by {
                    assert(input@.take(1) =~= ":"@);
                }
            }
        }
        ReplAction::Evaluate(self.full_code(input.as_str()))
    }

    /// What a command line `input` gives, and the settings it leaves, from the state `before`.
    pub open spec fn command_effect(before: Repl, input: Seq<char>, r: ReplAction, after: Repl) -> bool {
        &&& words(input).len() == 0 ==> r == ReplAction::Nothing
        &&& words(input).len() > 0 ==> {
            let ws = words(input);
            let cmd = ws[0];
            if cmd == ":quit"@ || cmd == ":q"@ {
                r == ReplAction::Quit && Self::same_settings(before, after)
            } else if cmd == ":help"@ || cmd == ":h"@ {
                r == ReplAction::Help && Self::same_settings(before, after)
            } else if cmd == ":history"@ {
                r == ReplAction::History && Self::same_settings(before, after)
            } else if cmd == ":clear"@ {
                r == ReplAction::Cleared && after.spec_context().len() == 0
            } else if cmd == ":show"@ {
                if ws.len() > 1 && ws[1] == "ir"@ {
                    r == ReplAction::ShowIr(!before.spec_show_ir()) && after.spec_show_ir()
                        == !before.spec_show_ir()
                } else if ws.len() > 1 && ws[1] == "asm"@ {
                    r == ReplAction::ShowAsm(!before.spec_show_asm()) && after.spec_show_asm()
                        == !before.spec_show_asm()
                } else if ws.len() > 1 {
                    r matches ReplAction::UnknownShowOption(o) && o@ == ws[1]
                } else {
                    r == ReplAction::Nothing
                }
            } else if cmd == ":lex"@ || cmd == ":parse"@ {
                if ws.len() > 1 {
                    let code = "module repl\n"@ + join_words(ws, 1);
                    if cmd == ":lex"@ {
                        r matches ReplAction::Lex(c) && c@ == code
                    } else {
                        r matches ReplAction::Parse(c) && c@ == code
                    }
                } else {
                    r == ReplAction::Nothing
                }
            } else {
                r matches ReplAction::UnknownCommand(c) && c@ == cmd
            }
        }
    }

    /// The state `after` keeps the context and display settings of `before`.
    pub open spec fn same_settings(before: Repl, after: Repl) -> bool {
        &&& after.spec_context() == before.spec_context()
        &&& after.spec_show_ir() == before.spec_show_ir()
        &&& after.spec_show_asm() == before.spec_show_asm()
    }

    /// Decides what a command asks for and applies its effect on the shell's state.
    pub fn handle_command(&mut self, input: &str) -> (r: ReplAction)
        ensures
            final(self).spec_history() == old(self).spec_history(),
            Self::command_effect(*old(self), input@, r, *final(self)),
    {
        let parts = split_whitespace(input);
        let ghost ws = words(input@);
        proof {
            assert(parts@.map_values(|w: String| w@) =~= ws);
        }
        if parts.len() == 0 {
            return ReplAction::Nothing;
        }
        let cmd = parts[0].as_str();
        if str_eq(cmd, ":quit") || str_eq(cmd, ":q") {
            ReplAction::Quit
        } else if str_eq(cmd, ":help") || str_eq(cmd, ":h") {
            ReplAction::Help
        } else if str_eq(cmd, ":history") {
            ReplAction::History
        } else if str_eq(cmd, ":clear") {
            self.context = String::new();
            ReplAction::Cleared
        } else if str_eq(cmd, ":show") {
            if parts.len() > 1 {
                if str_eq(parts[1].as_str(), "ir") {
                    self.show_ir = !self.show_ir;
                    ReplAction::ShowIr(self.show_ir)
                } else if str_eq(parts[1].as_str(), "asm") {
                    self.show_asm = !self.show_asm;
                    ReplAction::ShowAsm(self.show_asm)
                } else {
                    ReplAction::UnknownShowOption(parts[1].clone())
                }
            } else {
                ReplAction::Nothing
            }
        } else if str_eq(cmd, ":lex") || str_eq(cmd, ":parse") {
            if parts.len() > 1 {
                let code = join_from(&parts, 1);
                let full = concat2("module repl\n", code.as_str());
                if str_eq(cmd, ":lex") {
                    ReplAction::Lex(full)
                } else {
                    ReplAction::Parse(full)
                }
            } else {
                ReplAction::Nothing
            }
        } else {
            ReplAction::UnknownCommand(parts[0].clone())
        }
    }

    /// Keeps a line that compiled in the context, unless it declares an action or a resource.
    pub fn accept_evaluated(&mut self, input: &str)
        ensures
            final(self).spec_history() == old(self).spec_history(),
            !has_prefix(input@, "action"@) && !has_prefix(input@, "resource"@) ==> final(self).spec_context() == old(
                self,
            ).spec_context() + input@ + "\n"@,
            has_prefix(input@, "action"@) || has_prefix(input@, "resource"@) ==> final(self).spec_context() == old(
                self,
            ).spec_context(),
    {
        if !str_starts_with(input, "action") && !str_starts_with(input, "resource") {
            self.context.append(input);
            self.context.append("\n");
        }
    }
}

impl Default for Repl {
    fn default() -> (r: Self)
        ensures
            r.spec_history().len() == 0,
            r.spec_context().len() == 0,
            !r.spec_show_ir(),
            !r.spec_show_asm(),
    {
        Self::new()
    }
}

} // verus!
