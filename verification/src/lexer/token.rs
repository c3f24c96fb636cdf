use crate::error::Span;
use vstd::prelude::*;

verus! {

/// The lexical categories of CellScript source text.
#[derive(Debug, Clone, PartialEq)]
pub enum TokenKind {
    Identifier(String),
    Integer(u128),
    String(String),
    ByteString(Vec<u8>),
    Module,
    Use,
    Resource,
    Shared,
    Receipt,
    Struct,
    Const,
    Enum,
    Invariant,
    Action,
    Fn,
    Lock,
    Transition,
    Verification,
    Has,
    Store,
    Destroy,
    DestroyKw,
    Launch,
    Assert,
    Preserve,
    Address,
    Hash,
    Env,
    Std,
    Self_,
    Private,
    Public,
    For,
    In,
    If,
    Else,
    While,
    Break,
    Continue,
    Label,
    Borrow,
    Let,
    Mut,
    Return,
    Ref,
    ReadRef,
    Create,
    Consume,
    Require,
    Match,
    True,
    False,
    U8,
    U16,
    U32,
    I32,
    U64,
    U128,
    Bool,
    Underscore,
    Pound,
    Newline,
    Semi,
    Comma,
    Colon,
    ColonColon,
    Dot,
    LBrace,
    RBrace,
    LParen,
    RParen,
    LBracket,
    RBracket,
    Lt,
    Gt,
    Le,
    Ge,
    EqEq,
    NotEq,
    Eq,
    Plus,
    Minus,
    Star,
    Slash,
    Percent,
    Ampersand,
    Pipe,
    Caret,
    Not,
    And,
    Or,
    Arrow,
    FatArrow,
    Eof,
}

/// One lexeme: its category, where it stands, and its source text.
#[derive(Debug, Clone, PartialEq)]
pub struct Token {
    pub kind: TokenKind,
    pub span: Span,
    pub text: String,
}

impl Token {
    pub fn new(kind: TokenKind, span: Span, text: String) -> (t: Token)
        ensures
            t.kind == kind,
            t.span == span,
            t.text == text,
    {
        Token { kind, span, text }
    }
}

impl TokenKind {
    /// The variant of a kind, payload ignored.
    pub open spec fn spec_tag(&self) -> u8 {
        match self {
            TokenKind::Identifier(_) => 0,
            TokenKind::Integer(_) => 1,
            TokenKind::String(_) => 2,
            TokenKind::ByteString(_) => 3,
            TokenKind::Module => 4,
            TokenKind::Use => 5,
            TokenKind::Resource => 6,
            TokenKind::Shared => 7,
            TokenKind::Receipt => 8,
            TokenKind::Struct => 9,
            TokenKind::Const => 10,
            TokenKind::Enum => 11,
            TokenKind::Invariant => 12,
            TokenKind::Action => 13,
            TokenKind::Fn => 14,
            TokenKind::Lock => 15,
            TokenKind::Transition => 16,
            TokenKind::Verification => 17,
            TokenKind::Has => 18,
            TokenKind::Store => 19,
            TokenKind::Destroy => 20,
            TokenKind::DestroyKw => 21,
            TokenKind::Launch => 22,
            TokenKind::Assert => 23,
            TokenKind::Preserve => 24,
            TokenKind::Address => 25,
            TokenKind::Hash => 26,
            TokenKind::Env => 27,
            TokenKind::Std => 28,
            TokenKind::Self_ => 29,
            TokenKind::Private => 30,
            TokenKind::Public => 31,
            TokenKind::For => 32,
            TokenKind::In => 33,
            TokenKind::If => 34,
            TokenKind::Else => 35,
            TokenKind::While => 36,
            TokenKind::Break => 37,
            TokenKind::Continue => 38,
            TokenKind::Label => 39,
            TokenKind::Borrow => 40,
            TokenKind::Let => 41,
            TokenKind::Mut => 42,
            TokenKind::Return => 43,
            TokenKind::Ref => 44,
            TokenKind::ReadRef => 45,
            TokenKind::Create => 46,
            TokenKind::Consume => 47,
            TokenKind::Require => 48,
            TokenKind::Match => 49,
            TokenKind::True => 50,
            TokenKind::False => 51,
            TokenKind::U8 => 52,
            TokenKind::U16 => 53,
            TokenKind::U32 => 54,
            TokenKind::I32 => 55,
            TokenKind::U64 => 56,
            TokenKind::U128 => 57,
            TokenKind::Bool => 58,
            TokenKind::Underscore => 59,
            TokenKind::Pound => 60,
            TokenKind::Newline => 61,
            TokenKind::Semi => 62,
            TokenKind::Comma => 63,
            TokenKind::Colon => 64,
            TokenKind::ColonColon => 65,
            TokenKind::Dot => 66,
            TokenKind::LBrace => 67,
            TokenKind::RBrace => 68,
            TokenKind::LParen => 69,
            TokenKind::RParen => 70,
            TokenKind::LBracket => 71,
            TokenKind::RBracket => 72,
            TokenKind::Lt => 73,
            TokenKind::Gt => 74,
            TokenKind::Le => 75,
            TokenKind::Ge => 76,
            TokenKind::EqEq => 77,
            TokenKind::NotEq => 78,
            TokenKind::Eq => 79,
            TokenKind::Plus => 80,
            TokenKind::Minus => 81,
            TokenKind::Star => 82,
            TokenKind::Slash => 83,
            TokenKind::Percent => 84,
            TokenKind::Ampersand => 85,
            TokenKind::Pipe => 86,
            TokenKind::Caret => 87,
            TokenKind::Not => 88,
            TokenKind::And => 89,
            TokenKind::Or => 90,
            TokenKind::Arrow => 91,
            TokenKind::FatArrow => 92,
            TokenKind::Eof => 93,
        }
    }

    /// The variant of this kind as a number; two kinds share it exactly when they are the same variant.
    pub fn tag(&self) -> (t: u8)
        ensures
            t == self.spec_tag(),
    {
        match self {
            TokenKind::Identifier(_) => 0,
            TokenKind::Integer(_) => 1,
            TokenKind::String(_) => 2,
            TokenKind::ByteString(_) => 3,
            TokenKind::Module => 4,
            TokenKind::Use => 5,
            TokenKind::Resource => 6,
            TokenKind::Shared => 7,
            TokenKind::Receipt => 8,
            TokenKind::Struct => 9,
            TokenKind::Const => 10,
            TokenKind::Enum => 11,
            TokenKind::Invariant => 12,
            TokenKind::Action => 13,
            TokenKind::Fn => 14,
            TokenKind::Lock => 15,
            TokenKind::Transition => 16,
            TokenKind::Verification => 17,
            TokenKind::Has => 18,
            TokenKind::Store => 19,
            TokenKind::Destroy => 20,
            TokenKind::DestroyKw => 21,
            TokenKind::Launch => 22,
            TokenKind::Assert => 23,
            TokenKind::Preserve => 24,
            TokenKind::Address => 25,
            TokenKind::Hash => 26,
            TokenKind::Env => 27,
            TokenKind::Std => 28,
            TokenKind::Self_ => 29,
            TokenKind::Private => 30,
            TokenKind::Public => 31,
            TokenKind::For => 32,
            TokenKind::In => 33,
            TokenKind::If => 34,
            TokenKind::Else => 35,
            TokenKind::While => 36,
            TokenKind::Break => 37,
            TokenKind::Continue => 38,
            TokenKind::Label => 39,
            TokenKind::Borrow => 40,
            TokenKind::Let => 41,
            TokenKind::Mut => 42,
            TokenKind::Return => 43,
            TokenKind::Ref => 44,
            TokenKind::ReadRef => 45,
            TokenKind::Create => 46,
            TokenKind::Consume => 47,
            TokenKind::Require => 48,
            TokenKind::Match => 49,
            TokenKind::True => 50,
            TokenKind::False => 51,
            TokenKind::U8 => 52,
            TokenKind::U16 => 53,
            TokenKind::U32 => 54,
            TokenKind::I32 => 55,
            TokenKind::U64 => 56,
            TokenKind::U128 => 57,
            TokenKind::Bool => 58,
            TokenKind::Underscore => 59,
            TokenKind::Pound => 60,
            TokenKind::Newline => 61,
            TokenKind::Semi => 62,
            TokenKind::Comma => 63,
            TokenKind::Colon => 64,
            TokenKind::ColonColon => 65,
            TokenKind::Dot => 66,
            TokenKind::LBrace => 67,
            TokenKind::RBrace => 68,
            TokenKind::LParen => 69,
            TokenKind::RParen => 70,
            TokenKind::LBracket => 71,
            TokenKind::RBracket => 72,
            TokenKind::Lt => 73,
            TokenKind::Gt => 74,
            TokenKind::Le => 75,
            TokenKind::Ge => 76,
            TokenKind::EqEq => 77,
            TokenKind::NotEq => 78,
            TokenKind::Eq => 79,
            TokenKind::Plus => 80,
            TokenKind::Minus => 81,
            TokenKind::Star => 82,
            TokenKind::Slash => 83,
            TokenKind::Percent => 84,
            TokenKind::Ampersand => 85,
            TokenKind::Pipe => 86,
            TokenKind::Caret => 87,
            TokenKind::Not => 88,
            TokenKind::And => 89,
            TokenKind::Or => 90,
            TokenKind::Arrow => 91,
            TokenKind::FatArrow => 92,
            TokenKind::Eof => 93,
        }
    }

    /// How a kind without payload is quoted in diagnostics.
    pub open spec fn spec_spelling(&self) -> Seq<char> {
        match self {
            TokenKind::Identifier(_) => "identifier"@,
            TokenKind::Integer(_) => "integer"@,
            TokenKind::String(_) => "string literal"@,
            TokenKind::ByteString(_) => "byte string literal"@,
            TokenKind::Module => "'module'"@,
            TokenKind::Use => "'use'"@,
            TokenKind::Resource => "'resource'"@,
            TokenKind::Shared => "'shared'"@,
            TokenKind::Receipt => "'receipt'"@,
            TokenKind::Struct => "'struct'"@,
            TokenKind::Const => "'const'"@,
            TokenKind::Enum => "'enum'"@,
            TokenKind::Invariant => "'invariant'"@,
            TokenKind::Action => "'action'"@,
            TokenKind::Fn => "'fn'"@,
            TokenKind::Lock => "'lock'"@,
            TokenKind::Transition => "'transition'"@,
            TokenKind::Verification => "'verification'"@,
            TokenKind::Has => "'has'"@,
            TokenKind::Store => "'store'"@,
            TokenKind::Destroy => "'destroy'"@,
            TokenKind::DestroyKw => "'destroy'"@,
            TokenKind::Launch => "'launch'"@,
            TokenKind::Assert => "'assert'"@,
            TokenKind::Preserve => "'preserve'"@,
            TokenKind::Address => "'Address'"@,
            TokenKind::Hash => "'Hash'"@,
            TokenKind::Env => "'env'"@,
            TokenKind::Std => "'std'"@,
            TokenKind::Self_ => "'self'"@,
            TokenKind::Private => "'private'"@,
            TokenKind::Public => "'public'"@,
            TokenKind::For => "'for'"@,
            TokenKind::In => "'in'"@,
            TokenKind::If => "'if'"@,
            TokenKind::Else => "'else'"@,
            TokenKind::While => "'while'"@,
            TokenKind::Break => "'break'"@,
            TokenKind::Continue => "'continue'"@,
            TokenKind::Label => "'label'"@,
            TokenKind::Borrow => "'borrow'"@,
            TokenKind::Let => "'let'"@,
            TokenKind::Mut => "'mut'"@,
            TokenKind::Return => "'return'"@,
            TokenKind::Ref => "'ref'"@,
            TokenKind::ReadRef => "'read_ref'"@,
            TokenKind::Create => "'create'"@,
            TokenKind::Consume => "'consume'"@,
            TokenKind::Require => "'require'"@,
            TokenKind::Match => "'match'"@,
            TokenKind::True => "'true'"@,
            TokenKind::False => "'false'"@,
            TokenKind::U8 => "'u8'"@,
            TokenKind::U16 => "'u16'"@,
            TokenKind::U32 => "'u32'"@,
            TokenKind::I32 => "'i32'"@,
            TokenKind::U64 => "'u64'"@,
            TokenKind::U128 => "'u128'"@,
            TokenKind::Bool => "'bool'"@,
            TokenKind::Underscore => "'_'"@,
            TokenKind::Pound => "'#'"@,
            TokenKind::Newline => "newline"@,
            TokenKind::Semi => "';'"@,
            TokenKind::Comma => "','"@,
            TokenKind::Colon => "':'"@,
            TokenKind::ColonColon => "'::'"@,
            TokenKind::Dot => "'.'"@,
            TokenKind::LBrace => "'{'"@,
            TokenKind::RBrace => "'}'"@,
            TokenKind::LParen => "'('"@,
            TokenKind::RParen => "')'"@,
            TokenKind::LBracket => "'['"@,
            TokenKind::RBracket => "']'"@,
            TokenKind::Lt => "'<'"@,
            TokenKind::Gt => "'>'"@,
            TokenKind::Le => "'<='"@,
            TokenKind::Ge => "'>='"@,
            TokenKind::EqEq => "'=='"@,
            TokenKind::NotEq => "'!='"@,
            TokenKind::Eq => "'='"@,
            TokenKind::Plus => "'+'"@,
            TokenKind::Minus => "'-'"@,
            TokenKind::Star => "'*'"@,
            TokenKind::Slash => "'/'"@,
            TokenKind::Percent => "'%'"@,
            TokenKind::Ampersand => "'&'"@,
            TokenKind::Pipe => "'|'"@,
            TokenKind::Caret => "'^'"@,
            TokenKind::Not => "'!'"@,
            TokenKind::And => "'&&'"@,
            TokenKind::Or => "'||'"@,
            TokenKind::Arrow => "'->'"@,
            TokenKind::FatArrow => "'=>'"@,
            TokenKind::Eof => "end of file"@,
        }
    }

    /// How this kind is quoted in diagnostics, payload left out.
    pub fn spelling(&self) -> (s: &'static str)
        ensures
            s@ == self.spec_spelling(),
    {
        match self {
            TokenKind::Identifier(_) => "identifier",
            TokenKind::Integer(_) => "integer",
            TokenKind::String(_) => "string literal",
            TokenKind::ByteString(_) => "byte string literal",
            TokenKind::Module => "'module'",
            TokenKind::Use => "'use'",
            TokenKind::Resource => "'resource'",
            TokenKind::Shared => "'shared'",
            TokenKind::Receipt => "'receipt'",
            TokenKind::Struct => "'struct'",
            TokenKind::Const => "'const'",
            TokenKind::Enum => "'enum'",
            TokenKind::Invariant => "'invariant'",
            TokenKind::Action => "'action'",
            TokenKind::Fn => "'fn'",
            TokenKind::Lock => "'lock'",
            TokenKind::Transition => "'transition'",
            TokenKind::Verification => "'verification'",
            TokenKind::Has => "'has'",
            TokenKind::Store => "'store'",
            TokenKind::Destroy => "'destroy'",
            TokenKind::DestroyKw => "'destroy'",
            TokenKind::Launch => "'launch'",
            TokenKind::Assert => "'assert'",
            TokenKind::Preserve => "'preserve'",
            TokenKind::Address => "'Address'",
            TokenKind::Hash => "'Hash'",
            TokenKind::Env => "'env'",
            TokenKind::Std => "'std'",
            TokenKind::Self_ => "'self'",
            TokenKind::Private => "'private'",
            TokenKind::Public => "'public'",
            TokenKind::For => "'for'",
            TokenKind::In => "'in'",
            TokenKind::If => "'if'",
            TokenKind::Else => "'else'",
            TokenKind::While => "'while'",
            TokenKind::Break => "'break'",
            TokenKind::Continue => "'continue'",
            TokenKind::Label => "'label'",
            TokenKind::Borrow => "'borrow'",
            TokenKind::Let => "'let'",
            TokenKind::Mut => "'mut'",
            TokenKind::Return => "'return'",
            TokenKind::Ref => "'ref'",
            TokenKind::ReadRef => "'read_ref'",
            TokenKind::Create => "'create'",
            TokenKind::Consume => "'consume'",
            TokenKind::Require => "'require'",
            TokenKind::Match => "'match'",
            TokenKind::True => "'true'",
            TokenKind::False => "'false'",
            TokenKind::U8 => "'u8'",
            TokenKind::U16 => "'u16'",
            TokenKind::U32 => "'u32'",
            TokenKind::I32 => "'i32'",
            TokenKind::U64 => "'u64'",
            TokenKind::U128 => "'u128'",
            TokenKind::Bool => "'bool'",
            TokenKind::Underscore => "'_'",
            TokenKind::Pound => "'#'",
            TokenKind::Newline => "newline",
            TokenKind::Semi => "';'",
            TokenKind::Comma => "','",
            TokenKind::Colon => "':'",
            TokenKind::ColonColon => "'::'",
            TokenKind::Dot => "'.'",
            TokenKind::LBrace => "'{'",
            TokenKind::RBrace => "'}'",
            TokenKind::LParen => "'('",
            TokenKind::RParen => "')'",
            TokenKind::LBracket => "'['",
            TokenKind::RBracket => "']'",
            TokenKind::Lt => "'<'",
            TokenKind::Gt => "'>'",
            TokenKind::Le => "'<='",
            TokenKind::Ge => "'>='",
            TokenKind::EqEq => "'=='",
            TokenKind::NotEq => "'!='",
            TokenKind::Eq => "'='",
            TokenKind::Plus => "'+'",
            TokenKind::Minus => "'-'",
            TokenKind::Star => "'*'",
            TokenKind::Slash => "'/'",
            TokenKind::Percent => "'%'",
            TokenKind::Ampersand => "'&'",
            TokenKind::Pipe => "'|'",
            TokenKind::Caret => "'^'",
            TokenKind::Not => "'!'",
            TokenKind::And => "'&&'",
            TokenKind::Or => "'||'",
            TokenKind::Arrow => "'->'",
            TokenKind::FatArrow => "'=>'",
            TokenKind::Eof => "end of file",
        }
    }
}

} // verus!
