use vstd::prelude::*;

verus! {

/// A range of source text together with the 1-based line and column of its start.
#[derive(Debug, Clone, Copy, PartialEq, Eq, Default)]
pub struct Span {
    pub start: usize,
    pub end: usize,
    pub line: usize,
    pub column: usize,
}

impl Span {
    pub fn new(start: usize, end: usize, line: usize, column: usize) -> (s: Span)
        ensures
            s == (Span { start, end, line, column }),
    {
        Span { start, end, line, column }
    }

    /// The span that stands for "no particular place".
    pub fn empty() -> (s: Span)
        ensures
            s == (Span { start: 0, end: 0, line: 0, column: 0 }),
    {
        Span { start: 0, end: 0, line: 0, column: 0 }
    }
}

/// A diagnostic: a message, where it applies, and an optional stable code.
#[derive(Debug, Clone)]
pub struct CompileError {
    pub message: String,
    pub span: Span,
    pub code: Option<String>,
}

impl CompileError {
    /// A diagnostic with the given message at the given place, without a code.
    pub fn new(message: String, span: Span) -> (e: CompileError)
        ensures
            e.message@ == message@,
            e.span == span,
            e.code is None,
    {
        CompileError { message, span, code: None }
    }

    /// A diagnostic whose message is a string slice.
    pub fn at(message: &str, span: Span) -> (e: CompileError)
        ensures
            e.message@ == message@,
            e.span == span,
            e.code is None,
    {
        CompileError { message: message.to_owned(), span, code: None }
    }

    /// A diagnostic that points at no particular place.
    pub fn without_span(message: &str) -> (e: CompileError)
        ensures
            e.message@ == message@,
            e.span == Span::default_spec(),
            e.code is None,
    {
        CompileError { message: message.to_owned(), span: Span::empty(), code: None }
    }

    /// The same diagnostic carrying a stable code.
    pub fn with_code(self, code: &str) -> (e: CompileError)
        ensures
            e.message == self.message,
            e.span == self.span,
            e.code matches Some(c) && c@ == code@,
    {
        CompileError { message: self.message, span: self.span, code: Some(code.to_owned()) }
    }
}

impl Span {
    pub open spec fn new_spec(start: usize, end: usize, line: usize, column: usize) -> Span {
        Span { start, end, line, column }
    }

    pub open spec fn default_spec() -> Span {
        Span { start: 0, end: 0, line: 0, column: 0 }
    }
}

/// The result of a compiler stage.
pub type Result<T> = core::result::Result<T, CompileError>;

} // verus!
