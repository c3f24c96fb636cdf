pub mod token;

use crate::error::{CompileError, Span};
use crate::text::{chars_of, push_char, str_eq};
use token::{Token, TokenKind};
use vstd::prelude::*;

verus! {

/// Whether `c` may begin an identifier or keyword.
pub open spec fn is_ident_start(c: char) -> bool {
    ('a' <= c && c <= 'z') || ('A' <= c && c <= 'Z') || c == '_'
}

/// Whether `c` may continue an identifier or keyword.
pub open spec fn is_ident_continue(c: char) -> bool {
    is_ident_start(c) || ('0' <= c && c <= '9')
}

fn ident_start(c: char) -> (r: bool)
    ensures
        r == is_ident_start(c),
{
    ('a' <= c && c <= 'z') || ('A' <= c && c <= 'Z') || c == '_'
}

fn ident_continue(c: char) -> (r: bool)
    ensures
        r == is_ident_continue(c),
{
    ident_start(c) || ('0' <= c && c <= '9')
}

/// The value of `c` as a digit in base `radix` (10 or 16).
pub open spec fn digit_value(c: char, radix: u128) -> Option<u128> {
    if '0' <= c && c <= '9' {
        Some((c as u32 - '0' as u32) as u128)
    } else if radix == 16 && 'a' <= c && c <= 'f' {
        Some((c as u32 - 'a' as u32 + 10) as u128)
    } else if radix == 16 && 'A' <= c && c <= 'F' {
        Some((c as u32 - 'A' as u32 + 10) as u128)
    } else {
        None
    }
}

fn digit_of(c: char, radix: u128) -> (r: Option<u128>)
    requires
        radix == 10 || radix == 16,
    ensures
        r == digit_value(c, radix),
        r matches Some(d) ==> d < radix,
{
    if '0' <= c && c <= '9' {
        Some((c as u32 - '0' as u32) as u128)
    } else if radix == 16 && 'a' <= c && c <= 'f' {
        Some((c as u32 - 'a' as u32 + 10) as u128)
    } else if radix == 16 && 'A' <= c && c <= 'F' {
        Some((c as u32 - 'A' as u32 + 10) as u128)
    } else {
        None
    }
}

/// The characters `cs[start..end]` as a string.
fn text_of(cs: &Vec<char>, start: usize, end: usize) -> (s: String)
    requires
        start <= end <= cs@.len(),
    ensures
        s@ == cs@.subrange(start as int, end as int),
{
    let mut s = String::new();
    let mut k = start;
    while k < end
        invariant
            start <= k <= end <= cs@.len(),
            s@ == cs@.subrange(start as int, k as int),
        decreases end - k,
    {
        push_char(&mut s, cs[k]);
        k += 1;
        assert(s@ =~= cs@.subrange(start as int, k as int));
    }
    s
}

/// The keyword token numbered `id` in the keyword table (any number past the table: `_`).
pub open spec fn keyword_of_id(id: u8) -> TokenKind {
    match id {
        0 => TokenKind::Module,
        1 => TokenKind::Use,
        2 => TokenKind::Resource,
        3 => TokenKind::Shared,
        4 => TokenKind::Receipt,
        5 => TokenKind::Struct,
        6 => TokenKind::Const,
        7 => TokenKind::Enum,
        8 => TokenKind::Invariant,
        9 => TokenKind::Action,
        10 => TokenKind::Fn,
        11 => TokenKind::Lock,
        12 => TokenKind::Transition,
        13 => TokenKind::Verification,
        14 => TokenKind::Has,
        15 => TokenKind::Store,
        16 => TokenKind::DestroyKw,
        17 => TokenKind::Launch,
        18 => TokenKind::Assert,
        19 => TokenKind::Preserve,
        20 => TokenKind::Address,
        21 => TokenKind::Hash,
        22 => TokenKind::Env,
        23 => TokenKind::Std,
        24 => TokenKind::Self_,
        25 => TokenKind::Private,
        26 => TokenKind::Public,
        27 => TokenKind::For,
        28 => TokenKind::In,
        29 => TokenKind::If,
        30 => TokenKind::Else,
        31 => TokenKind::While,
        32 => TokenKind::Break,
        33 => TokenKind::Continue,
        34 => TokenKind::Label,
        35 => TokenKind::Borrow,
        36 => TokenKind::Let,
        37 => TokenKind::Mut,
        38 => TokenKind::Return,
        39 => TokenKind::Ref,
        40 => TokenKind::ReadRef,
        41 => TokenKind::Create,
        42 => TokenKind::Consume,
        43 => TokenKind::Require,
        44 => TokenKind::Match,
        45 => TokenKind::True,
        46 => TokenKind::False,
        47 => TokenKind::U8,
        48 => TokenKind::U16,
        49 => TokenKind::U32,
        50 => TokenKind::I32,
        51 => TokenKind::U64,
        52 => TokenKind::U128,
        53 => TokenKind::Bool,
        _ => TokenKind::Underscore,
    }
}

/// The keyword a word spells, if any.
pub open spec fn keyword_spec(word: Seq<char>) -> Option<TokenKind> {
    if word == "module"@ {
        Some(keyword_of_id(0))
    } else if word == "use"@ {
        Some(keyword_of_id(1))
    } else if word == "resource"@ {
        Some(keyword_of_id(2))
    } else if word == "shared"@ {
        Some(keyword_of_id(3))
    } else if word == "receipt"@ {
        Some(keyword_of_id(4))
    } else if word == "struct"@ {
        Some(keyword_of_id(5))
    } else if word == "const"@ {
        Some(keyword_of_id(6))
    } else if word == "enum"@ {
        Some(keyword_of_id(7))
    } else if word == "invariant"@ {
        Some(keyword_of_id(8))
    } else if word == "action"@ {
        Some(keyword_of_id(9))
    } else if word == "fn"@ {
        Some(keyword_of_id(10))
    } else if word == "lock"@ {
        Some(keyword_of_id(11))
    } else if word == "transition"@ {
        Some(keyword_of_id(12))
    } else if word == "verification"@ {
        Some(keyword_of_id(13))
    } else if word == "has"@ {
        Some(keyword_of_id(14))
    } else if word == "store"@ {
        Some(keyword_of_id(15))
    } else if word == "destroy"@ {
        Some(keyword_of_id(16))
    } else if word == "launch"@ {
        Some(keyword_of_id(17))
    } else if word == "assert"@ {
        Some(keyword_of_id(18))
    } else if word == "assert_invariant"@ {
        Some(keyword_of_id(18))
    } else if word == "preserve"@ {
        Some(keyword_of_id(19))
    } else if word == "Address"@ {
        Some(keyword_of_id(20))
    } else if word == "Hash"@ {
        Some(keyword_of_id(21))
    } else if word == "env"@ {
        Some(keyword_of_id(22))
    } else if word == "std"@ {
        Some(keyword_of_id(23))
    } else if word == "self"@ {
        Some(keyword_of_id(24))
    } else if word == "private"@ {
        Some(keyword_of_id(25))
    } else if word == "public"@ {
        Some(keyword_of_id(26))
    } else if word == "for"@ {
        Some(keyword_of_id(27))
    } else if word == "in"@ {
        Some(keyword_of_id(28))
    } else if word == "if"@ {
        Some(keyword_of_id(29))
    } else if word == "else"@ {
        Some(keyword_of_id(30))
    } else if word == "while"@ {
        Some(keyword_of_id(31))
    } else if word == "break"@ {
        Some(keyword_of_id(32))
    } else if word == "continue"@ {
        Some(keyword_of_id(33))
    } else if word == "label"@ {
        Some(keyword_of_id(34))
    } else if word == "borrow"@ {
        Some(keyword_of_id(35))
    } else if word == "let"@ {
        Some(keyword_of_id(36))
    } else if word == "mut"@ {
        Some(keyword_of_id(37))
    } else if word == "return"@ {
        Some(keyword_of_id(38))
    } else if word == "ref"@ {
        Some(keyword_of_id(39))
    } else if word == "read_ref"@ {
        Some(keyword_of_id(40))
    } else if word == "create"@ {
        Some(keyword_of_id(41))
    } else if word == "consume"@ {
        Some(keyword_of_id(42))
    } else if word == "require"@ {
        Some(keyword_of_id(43))
    } else if word == "match"@ {
        Some(keyword_of_id(44))
    } else if word == "true"@ {
        Some(keyword_of_id(45))
    } else if word == "false"@ {
        Some(keyword_of_id(46))
    } else if word == "u8"@ {
        Some(keyword_of_id(47))
    } else if word == "u16"@ {
        Some(keyword_of_id(48))
    } else if word == "u32"@ {
        Some(keyword_of_id(49))
    } else if word == "i32"@ {
        Some(keyword_of_id(50))
    } else if word == "u64"@ {
        Some(keyword_of_id(51))
    } else if word == "u128"@ {
        Some(keyword_of_id(52))
    } else if word == "bool"@ {
        Some(keyword_of_id(53))
    } else if word == "_"@ {
        Some(keyword_of_id(54))
    } else {
        None
    }
}

/// The keyword a word spells, if any.
pub fn keyword_kind(word: &str) -> (k: Option<TokenKind>)
    ensures
        k == keyword_spec(word@),
        k matches Some(kind) ==> !(kind is Identifier) && !(kind is Eof),
{
    if str_eq(word, "module") {
        return Some(keyword_from_id(0));
    }
    if str_eq(word, "use") {
        return Some(keyword_from_id(1));
    }
    if str_eq(word, "resource") {
        return Some(keyword_from_id(2));
    }
    if str_eq(word, "shared") {
        return Some(keyword_from_id(3));
    }
    if str_eq(word, "receipt") {
        return Some(keyword_from_id(4));
    }
    if str_eq(word, "struct") {
        return Some(keyword_from_id(5));
    }
    if str_eq(word, "const") {
        return Some(keyword_from_id(6));
    }
    if str_eq(word, "enum") {
        return Some(keyword_from_id(7));
    }
    if str_eq(word, "invariant") {
        return Some(keyword_from_id(8));
    }
    if str_eq(word, "action") {
        return Some(keyword_from_id(9));
    }
    if str_eq(word, "fn") {
        return Some(keyword_from_id(10));
    }
    if str_eq(word, "lock") {
        return Some(keyword_from_id(11));
    }
    if str_eq(word, "transition") {
        return Some(keyword_from_id(12));
    }
    if str_eq(word, "verification") {
        return Some(keyword_from_id(13));
    }
    if str_eq(word, "has") {
        return Some(keyword_from_id(14));
    }
    if str_eq(word, "store") {
        return Some(keyword_from_id(15));
    }
    if str_eq(word, "destroy") {
        return Some(keyword_from_id(16));
    }
    if str_eq(word, "launch") {
        return Some(keyword_from_id(17));
    }
    if str_eq(word, "assert") {
        return Some(keyword_from_id(18));
    }
    if str_eq(word, "assert_invariant") {
        return Some(keyword_from_id(18));
    }
    if str_eq(word, "preserve") {
        return Some(keyword_from_id(19));
    }
    if str_eq(word, "Address") {
        return Some(keyword_from_id(20));
    }
    if str_eq(word, "Hash") {
        return Some(keyword_from_id(21));
    }
    if str_eq(word, "env") {
        return Some(keyword_from_id(22));
    }
    if str_eq(word, "std") {
        return Some(keyword_from_id(23));
    }
    if str_eq(word, "self") {
        return Some(keyword_from_id(24));
    }
    if str_eq(word, "private") {
        return Some(keyword_from_id(25));
    }
    if str_eq(word, "public") {
        return Some(keyword_from_id(26));
    }
    if str_eq(word, "for") {
        return Some(keyword_from_id(27));
    }
    if str_eq(word, "in") {
        return Some(keyword_from_id(28));
    }
    if str_eq(word, "if") {
        return Some(keyword_from_id(29));
    }
    if str_eq(word, "else") {
        return Some(keyword_from_id(30));
    }
    if str_eq(word, "while") {
        return Some(keyword_from_id(31));
    }
    if str_eq(word, "break") {
        return Some(keyword_from_id(32));
    }
    if str_eq(word, "continue") {
        return Some(keyword_from_id(33));
    }
    if str_eq(word, "label") {
        return Some(keyword_from_id(34));
    }
    if str_eq(word, "borrow") {
        return Some(keyword_from_id(35));
    }
    if str_eq(word, "let") {
        return Some(keyword_from_id(36));
    }
    if str_eq(word, "mut") {
        return Some(keyword_from_id(37));
    }
    if str_eq(word, "return") {
        return Some(keyword_from_id(38));
    }
    if str_eq(word, "ref") {
        return Some(keyword_from_id(39));
    }
    if str_eq(word, "read_ref") {
        return Some(keyword_from_id(40));
    }
    if str_eq(word, "create") {
        return Some(keyword_from_id(41));
    }
    if str_eq(word, "consume") {
        return Some(keyword_from_id(42));
    }
    if str_eq(word, "require") {
        return Some(keyword_from_id(43));
    }
    if str_eq(word, "match") {
        return Some(keyword_from_id(44));
    }
    if str_eq(word, "true") {
        return Some(keyword_from_id(45));
    }
    if str_eq(word, "false") {
        return Some(keyword_from_id(46));
    }
    if str_eq(word, "u8") {
        return Some(keyword_from_id(47));
    }
    if str_eq(word, "u16") {
        return Some(keyword_from_id(48));
    }
    if str_eq(word, "u32") {
        return Some(keyword_from_id(49));
    }
    if str_eq(word, "i32") {
        return Some(keyword_from_id(50));
    }
    if str_eq(word, "u64") {
        return Some(keyword_from_id(51));
    }
    if str_eq(word, "u128") {
        return Some(keyword_from_id(52));
    }
    if str_eq(word, "bool") {
        return Some(keyword_from_id(53));
    }
    if str_eq(word, "_") {
        return Some(keyword_from_id(54));
    }
    None
}

fn keyword_from_id(id: u8) -> (k: TokenKind)
    ensures
        k == keyword_of_id(id),
        !(k is Identifier) && !(k is Eof),
{
    match id {
        0 => TokenKind::Module,
        1 => TokenKind::Use,
        2 => TokenKind::Resource,
        3 => TokenKind::Shared,
        4 => TokenKind::Receipt,
        5 => TokenKind::Struct,
        6 => TokenKind::Const,
        7 => TokenKind::Enum,
        8 => TokenKind::Invariant,
        9 => TokenKind::Action,
        10 => TokenKind::Fn,
        11 => TokenKind::Lock,
        12 => TokenKind::Transition,
        13 => TokenKind::Verification,
        14 => TokenKind::Has,
        15 => TokenKind::Store,
        16 => TokenKind::DestroyKw,
        17 => TokenKind::Launch,
        18 => TokenKind::Assert,
        19 => TokenKind::Preserve,
        20 => TokenKind::Address,
        21 => TokenKind::Hash,
        22 => TokenKind::Env,
        23 => TokenKind::Std,
        24 => TokenKind::Self_,
        25 => TokenKind::Private,
        26 => TokenKind::Public,
        27 => TokenKind::For,
        28 => TokenKind::In,
        29 => TokenKind::If,
        30 => TokenKind::Else,
        31 => TokenKind::While,
        32 => TokenKind::Break,
        33 => TokenKind::Continue,
        34 => TokenKind::Label,
        35 => TokenKind::Borrow,
        36 => TokenKind::Let,
        37 => TokenKind::Mut,
        38 => TokenKind::Return,
        39 => TokenKind::Ref,
        40 => TokenKind::ReadRef,
        41 => TokenKind::Create,
        42 => TokenKind::Consume,
        43 => TokenKind::Require,
        44 => TokenKind::Match,
        45 => TokenKind::True,
        46 => TokenKind::False,
        47 => TokenKind::U8,
        48 => TokenKind::U16,
        49 => TokenKind::U32,
        50 => TokenKind::I32,
        51 => TokenKind::U64,
        52 => TokenKind::U128,
        53 => TokenKind::Bool,
        _ => TokenKind::Underscore,
    }
}

/// A token list as the parser needs it: never empty, ending in exactly one end-of-file token.
pub open spec fn well_terminated(tokens: Seq<Token>) -> bool {
    &&& tokens.len() > 0
    &&& tokens.last().kind is Eof
    &&& forall|i: int| 0 <= i < tokens.len() - 1 ==> !(#[trigger] tokens[i].kind is Eof)
}

/// The character an escape `\\e` stands for, if `e` is a known escape.
pub open spec fn escape_char(e: char) -> Option<char> {
    if e == 'n' {
        Some('\n')
    } else if e == 't' {
        Some('\t')
    } else if e == 'r' {
        Some('\r')
    } else if e == '0' {
        Some('\0')
    } else if e == '\\' || e == '"' || e == '\'' {
        Some(e)
    } else {
        None
    }
}

/// The body of a quoted literal that starts at `i`, just past its opening quote: the
/// characters it stands for, escapes decoded, and the position just past its closing quote;
/// nothing where the literal is unterminated or holds an unknown escape.
pub open spec fn quoted_from(cs: Seq<char>, i: int) -> Option<(Seq<char>, int)>
    decreases cs.len() - i,
{
    if i < 0 || i >= cs.len() {
        None
    } else if cs[i] == '"' {
        Some((Seq::empty(), i + 1))
    } else if cs[i] == '\\' {
        if i + 1 >= cs.len() {
            None
        } else {
            match escape_char(cs[i + 1]) {
                None => None,
                Some(x) => match quoted_from(cs, i + 2) {
                    Some(q) => Some((seq![x] + q.0, q.1)),
                    None => None,
                },
            }
        }
    } else {
        match quoted_from(cs, i + 1) {
            Some(q) => Some((seq![cs[i]] + q.0, q.1)),
            None => None,
        }
    }
}

/// A space, tab, carriage return or line break.
pub open spec fn is_blank(c: char) -> bool {
    c == ' ' || c == '\t' || c == '\r' || c == '\n'
}

/// How many line breaks a text holds.
pub open spec fn line_breaks(cs: Seq<char>) -> nat
    decreases cs.len(),
{
    if cs.len() == 0 {
        0
    } else {
        line_breaks(cs.drop_last()) + if cs.last() == '\n' {
            1nat
        } else {
            0nat
        }
    }
}

struct Lexer {
    cs: Vec<char>,
    pos: usize,
    line: usize,
    column: usize,
    tokens: Vec<Token>,
}

impl Lexer {
    spec fn inv(&self) -> bool {
        &&& self.pos <= self.cs@.len()
        &&& self.cs@.len() < usize::MAX
        &&& 1 <= self.line <= self.pos + 1
        &&& 1 <= self.column <= self.pos + 1
        &&& forall|i: int| 0 <= i < self.tokens@.len() ==> !(#[trigger] self.tokens@[i].kind is Eof)
    }

    fn span_from(&self, start: usize, line: usize, column: usize) -> (s: Span)
        ensures
            s == Span::new_spec(start, self.pos, line, column),
    {
        Span::new(start, self.pos, line, column)
    }

    fn peek(&self, offset: usize) -> (c: Option<char>)
        requires
            self.inv(),
        ensures
            self.pos + offset < self.cs@.len() ==> c == Some(self.cs@[self.pos + offset]),
            self.pos + offset >= self.cs@.len() ==> c is None,
    {
        if offset < self.cs.len() - self.pos {
            Some(self.cs[self.pos + offset])
        } else {
            None
        }
    }

    /// Moves past one character that is not a newline.
    fn bump(&mut self)
        requires
            old(self).inv(),
            old(self).pos < old(self).cs@.len(),
        ensures
            final(self).inv(),
            final(self).pos == old(self).pos + 1,
            final(self).cs == old(self).cs,
            final(self).tokens == old(self).tokens,
            final(self).line == old(self).line,
    {
        self.pos += 1;
        self.column += 1;
    }

    /// Moves past one character, which may be a newline.
    fn bump_any(&mut self)
        requires
            old(self).inv(),
            old(self).pos < old(self).cs@.len(),
        ensures
            final(self).inv(),
            final(self).pos == old(self).pos + 1,
            final(self).cs == old(self).cs,
            final(self).tokens == old(self).tokens,
    {
        if self.cs[self.pos] == '\n' {
            self.pos += 1;
            self.line += 1;
            self.column = 1;
        } else {
            self.bump();
        }
    }

    fn push(&mut self, kind: TokenKind, start: usize, line: usize, column: usize)
        requires
            old(self).inv(),
            start <= old(self).pos,
            !(kind is Eof),
        ensures
            final(self).inv(),
            final(self).pos == old(self).pos,
            final(self).cs == old(self).cs,
            final(self).tokens@.len() == old(self).tokens@.len() + 1,
    {
        let text = text_of(&self.cs, start, self.pos);
        let span = Span::new(start, self.pos, line, column);
        self.tokens.push(Token::new(kind, span, text));
    }

    fn error(&self, message: &str, start: usize, line: usize, column: usize) -> (e: CompileError)
        ensures
            e.message@ == message@,
    {
        CompileError::at(message, Span::new(start, self.pos, line, column))
    }

    fn lex_word(&mut self, start: usize, line: usize, column: usize)
        requires
            old(self).inv(),
            old(self).pos < old(self).cs@.len(),
            start == old(self).pos,
        ensures
            final(self).inv(),
            final(self).pos > old(self).pos,
            final(self).cs == old(self).cs,
    {
        self.bump();
        while self.pos < self.cs.len() && ident_continue(self.cs[self.pos])
            invariant
                self.inv(),
                start < self.pos,
                self.cs == old(self).cs,
            decreases self.cs@.len() - self.pos,
        {
            self.bump();
        }
        let word = text_of(&self.cs, start, self.pos);
        let kind = match keyword_kind(word.as_str()) {
            Some(kind) => kind,
            None => TokenKind::Identifier(word),
        };
        self.push(kind, start, line, column);
    }

    fn lex_number(&mut self, start: usize, line: usize, column: usize) -> (r: Result<(), CompileError>)
        requires
            old(self).inv(),
            old(self).pos < old(self).cs@.len(),
            start == old(self).pos,
        ensures
            final(self).inv(),
            final(self).pos > old(self).pos,
            final(self).cs == old(self).cs,
    {
        let mut radix: u128 = 10;
        if self.cs[self.pos] == '0' && (self.peek(1) == Some('x') || self.peek(1) == Some('X')) {
            self.bump();
            self.bump();
            radix = 16;
        }
        let mut value: u128 = 0;
        let mut digits: usize = 0;
        while self.pos < self.cs.len()
            invariant
                self.inv(),
                start <= self.pos,
                start == old(self).pos,
                digits > 0 ==> self.pos > start,
                radix == 10 || radix == 16,
                self.cs == old(self).cs,
            decreases self.cs@.len() - self.pos,
        {
            let c = self.cs[self.pos];
            if c == '_' {
                self.bump();
                continue;
            }
            match digit_of(c, radix) {
                Some(d) => {
                    let shifted = match value.checked_mul(radix) {
                        Some(v) => v,
                        None => {
                            self.bump();
                            return Err(self.error("integer literal does not fit in 128 bits", start, line, column));
                        }
                    };
                    value = match shifted.checked_add(d) {
                        Some(v) => v,
                        None => {
                            self.bump();
                            return Err(self.error("integer literal does not fit in 128 bits", start, line, column));
                        }
                    };
                    digits = if digits < usize::MAX { digits + 1 } else { digits };
                    self.bump();
                }
                None => {
                    break;
                }
            }
        }
        if digits == 0 {
            if self.pos == start {
                self.bump();
            }
            return Err(self.error("expected digits in integer literal", start, line, column));
        }
        self.push(TokenKind::Integer(value), start, line, column);
        Ok(())
    }

    /// Reads the body of a quoted literal; the opening quote has been consumed.
    fn lex_quoted(&mut self, start: usize, line: usize, column: usize) -> (r: Result<Vec<char>, CompileError>)
        requires
            old(self).inv(),
            start < old(self).pos,
        ensures
            final(self).inv(),
            final(self).pos >= old(self).pos,
            final(self).cs == old(self).cs,
            final(self).tokens == old(self).tokens,
            r is Ok <==> quoted_from(old(self).cs@, old(self).pos as int) is Some,
            r matches Ok(v) ==> quoted_from(old(self).cs@, old(self).pos as int) == Some(
                (v@, final(self).pos as int),
            ),
    {
        let mut value: Vec<char> = Vec::new();
        loop
            invariant
                self.inv(),
                start < self.pos,
                self.cs == old(self).cs,
                self.tokens == old(self).tokens,
                self.pos >= old(self).pos,
                quoted_from(self.cs@, old(self).pos as int) == match quoted_from(self.cs@, self.pos as int) {
                    Some(q) => Some((value@ + q.0, q.1)),
                    None => None::<(Seq<char>, int)>,
                },
            decreases self.cs@.len() - self.pos,
        {
            let ghost at = self.pos as int;
            let ghost before = value@;
            if self.pos >= self.cs.len() {
                return Err(self.error("unterminated string literal", start, line, column));
            }
            let c = self.cs[self.pos];
            if c == '"' {
                self.bump();
                assert(value@ + Seq::<char>::empty() =~= value@);
                return Ok(value);
            }
            if c == '\\' {
                self.bump();
                if self.pos >= self.cs.len() {
                    return Err(self.error("unterminated string literal", start, line, column));
                }
                let e = self.cs[self.pos];
                let escaped = if e == 'n' {
                    '\n'
                } else if e == 't' {
                    '\t'
                } else if e == 'r' {
                    '\r'
                } else if e == '0' {
                    '\0'
                } else if e == '\\' || e == '"' || e == '\'' {
                    e
                } else {
                    return Err(self.error("unknown escape sequence in string literal", start, line, column));
                };
                value.push(escaped);
                self.bump_any();
                proof {
                    assert(escape_char(e) == Some(escaped));
                    match quoted_from(self.cs@, self.pos as int) {
                        Some(q) => {
                            assert(value@ + q.0 =~= before + (seq![escaped] + q.0));
                        },
                        None => {},
                    }
                }
            } else {
                value.push(c);
                self.bump_any();
                proof {
                    match quoted_from(self.cs@, self.pos as int) {
                        Some(q) => {
                            assert(value@ + q.0 =~= before + (seq![c] + q.0));
                        },
                        None => {},
                    }
                }
            }
        }
    }

    fn lex_string(&mut self, start: usize, line: usize, column: usize) -> (r: Result<(), CompileError>)
        requires
            old(self).inv(),
            old(self).pos < old(self).cs@.len(),
            start == old(self).pos,
        ensures
            final(self).inv(),
            final(self).pos > old(self).pos,
            final(self).cs == old(self).cs,
    {
        self.bump();
        let chars = self.lex_quoted(start, line, column)?;
        let mut value = String::new();
        let mut k: usize = 0;
        while k < chars.len()
            invariant
                k <= chars@.len(),
            decreases chars@.len() - k,
        {
            push_char(&mut value, chars[k]);
            k += 1;
        }
        self.push(TokenKind::String(value), start, line, column);
        Ok(())
    }

    fn lex_byte_string(&mut self, start: usize, line: usize, column: usize) -> (r: Result<(), CompileError>)
        requires
            old(self).inv(),
            old(self).pos + 1 < old(self).cs@.len(),
            start == old(self).pos,
        ensures
            final(self).inv(),
            final(self).pos > old(self).pos,
            final(self).cs == old(self).cs,
    {
        self.bump();
        self.bump();
        let chars = self.lex_quoted(start, line, column)?;
        let mut bytes: Vec<u8> = Vec::new();
        let mut k: usize = 0;
        while k < chars.len()
            invariant
                k <= chars@.len(),
                self.inv(),
                self.pos > old(self).pos,
                self.cs == old(self).cs,
            decreases chars@.len() - k,
        {
            let code: u32 = chars[k] as u32;
            if code >= 128 {
                return Err(self.error("byte string literal must be ASCII", start, line, column));
            }
            bytes.push(code as u8);
            k += 1;
        }
        self.push(TokenKind::ByteString(bytes), start, line, column);
        Ok(())
    }

    /// Skips a `/* ... */` comment whose opening has not been consumed yet.
    fn skip_block_comment(&mut self, start: usize, line: usize, column: usize) -> (r: Result<(), CompileError>)
        requires
            old(self).inv(),
            old(self).pos + 1 < old(self).cs@.len(),
        ensures
            final(self).inv(),
            final(self).pos > old(self).pos,
            final(self).cs == old(self).cs,
            final(self).tokens == old(self).tokens,
    {
        self.bump();
        self.bump();
        loop
            invariant
                self.inv(),
                self.pos > old(self).pos,
                self.cs == old(self).cs,
                self.tokens == old(self).tokens,
            decreases self.cs@.len() - self.pos,
        {
            if self.pos >= self.cs.len() {
                return Err(self.error("unterminated block comment", start, line, column));
            }
            if self.cs[self.pos] == '*' && self.peek(1) == Some('/') {
                self.bump();
                self.bump();
                return Ok(());
            }
            self.bump_any();
        }
    }

    /// Reads one punctuation token.
    fn lex_punct(&mut self, start: usize, line: usize, column: usize) -> (r: Result<(), CompileError>)
        requires
            old(self).inv(),
            old(self).pos < old(self).cs@.len(),
            start == old(self).pos,
        ensures
            final(self).inv(),
            final(self).pos > old(self).pos,
            final(self).cs == old(self).cs,
    {
        let c = self.cs[self.pos];
        let next = self.peek(1);
        let (kind, width): (TokenKind, usize) = if c == ':' && next == Some(':') {
            (TokenKind::ColonColon, 2)
        } else if c == '-' && next == Some('>') {
            (TokenKind::Arrow, 2)
        } else if c == '=' && next == Some('>') {
            (TokenKind::FatArrow, 2)
        } else if c == '=' && next == Some('=') {
            (TokenKind::EqEq, 2)
        } else if c == '!' && next == Some('=') {
            (TokenKind::NotEq, 2)
        } else if c == '<' && next == Some('=') {
            (TokenKind::Le, 2)
        } else if c == '>' && next == Some('=') {
            (TokenKind::Ge, 2)
        } else if c == '&' && next == Some('&') {
            (TokenKind::And, 2)
        } else if c == '|' && next == Some('|') {
            (TokenKind::Or, 2)
        } else if c == '#' {
            (TokenKind::Pound, 1)
        } else if c == ';' {
            (TokenKind::Semi, 1)
        } else if c == ',' {
            (TokenKind::Comma, 1)
        } else if c == ':' {
            (TokenKind::Colon, 1)
        } else if c == '.' {
            (TokenKind::Dot, 1)
        } else if c == '{' {
            (TokenKind::LBrace, 1)
        } else if c == '}' {
            (TokenKind::RBrace, 1)
        } else if c == '(' {
            (TokenKind::LParen, 1)
        } else if c == ')' {
            (TokenKind::RParen, 1)
        } else if c == '[' {
            (TokenKind::LBracket, 1)
        } else if c == ']' {
            (TokenKind::RBracket, 1)
        } else if c == '<' {
            (TokenKind::Lt, 1)
        } else if c == '>' {
            (TokenKind::Gt, 1)
        } else if c == '=' {
            (TokenKind::Eq, 1)
        } else if c == '+' {
            (TokenKind::Plus, 1)
        } else if c == '-' {
            (TokenKind::Minus, 1)
        } else if c == '*' {
            (TokenKind::Star, 1)
        } else if c == '/' {
            (TokenKind::Slash, 1)
        } else if c == '%' {
            (TokenKind::Percent, 1)
        } else if c == '&' {
            (TokenKind::Ampersand, 1)
        } else if c == '|' {
            (TokenKind::Pipe, 1)
        } else if c == '^' {
            (TokenKind::Caret, 1)
        } else if c == '!' {
            (TokenKind::Not, 1)
        } else {
            self.bump_any();
            return Err(self.error("unexpected character", start, line, column));
        };
        self.bump();
        if width == 2 {
            self.bump();
        }
        self.push(kind, start, line, column);
        Ok(())
    }
}

/// Splits CellScript source text into tokens.
///
/// Every line break becomes a `Newline` token; spaces, tabs, carriage returns and
/// comments are dropped. The list ends with one `Eof` token.
pub fn lex(source: &str) -> (r: Result<Vec<Token>, CompileError>)
    ensures
        r matches Ok(tokens) ==> well_terminated(tokens@),
        source@.len() < usize::MAX && (forall|i: int| 0 <= i < source@.len() ==> is_blank(#[trigger] source@[i]))
            ==> (r matches Ok(tokens) && tokens@.len() == line_breaks(source@) + 1 && forall|j: int|
            0 <= j < tokens@.len() - 1 ==> (#[trigger] tokens@[j]).kind is Newline),
{
    let cs = chars_of(source);
    if cs.len() >= usize::MAX {
        return Err(CompileError::at("source text is too long", Span::new(0, 0, 1, 1)));
    }
    let mut lx = Lexer { cs, pos: 0, line: 1, column: 1, tokens: Vec::new() };
    let ghost n = lx.cs@.len();
    let ghost blank = forall|i: int| 0 <= i < source@.len() ==> is_blank(#[trigger] source@[i]);
    assert(lx.cs@.take(0) =~= Seq::<char>::empty());
    while lx.pos < lx.cs.len()
        invariant
            lx.inv(),
            lx.cs@.len() == n,
            lx.cs@ == source@,
            blank == forall|i: int| 0 <= i < source@.len() ==> is_blank(#[trigger] source@[i]),
            blank ==> lx.tokens@.len() == line_breaks(lx.cs@.take(lx.pos as int)) && forall|j: int|
                0 <= j < lx.tokens@.len() ==> (#[trigger] lx.tokens@[j]).kind is Newline,
        decreases n - lx.pos,
    {
        let start = lx.pos;
        let line = lx.line;
        let column = lx.column;
        let c = lx.cs[lx.pos];
        proof {
            assert(lx.cs@.take(start + 1).drop_last() =~= lx.cs@.take(start as int));
            if blank {
                assert(is_blank(source@[start as int]));
            }
        }
        if c == ' ' || c == '\t' || c == '\r' {
            lx.bump();
        } else if c == '\n' {
            lx.bump_any();
            let text = text_of(&lx.cs, start, lx.pos);
            lx.tokens.push(Token::new(TokenKind::Newline, Span::new(start, lx.pos, line, column), text));
        } else if c == '/' && lx.peek(1) == Some('/') {
            lx.bump();
            lx.bump();
            while lx.pos < lx.cs.len() && lx.cs[lx.pos] != '\n'
                invariant
                    lx.inv(),
                    lx.pos > start,
                    lx.cs@.len() == n,
                    lx.cs@ == source@,
                decreases lx.cs@.len() - lx.pos,
            {
                lx.bump();
            }
        } else if c == '/' && lx.peek(1) == Some('*') {
            lx.skip_block_comment(start, line, column)?;
        } else if c == 'b' && lx.peek(1) == Some('"') {
            lx.lex_byte_string(start, line, column)?;
        } else if ident_start(c) {
            lx.lex_word(start, line, column);
        } else if '0' <= c && c <= '9' {
            lx.lex_number(start, line, column)?;
        } else if c == '"' {
            lx.lex_string(start, line, column)?;
        } else {
            lx.lex_punct(start, line, column)?;
        }
    }
    proof {
        assert(lx.cs@.take(lx.pos as int) =~= source@);
    }
    let eof_span = Span::new(lx.pos, lx.pos, lx.line, lx.column);
    let ghost before = lx.tokens@;
    lx.tokens.push(Token::new(TokenKind::Eof, eof_span, String::new()));
    assert(lx.tokens@.last().kind is Eof);
    assert forall|i: int| 0 <= i < lx.tokens@.len() - 1 implies !(#[trigger] lx.tokens@[i].kind is Eof) by {
        assert(lx.tokens@[i] == before[i]);
    }
    Ok(lx.tokens)
}

} // verus!
