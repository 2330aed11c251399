//! Structured error records with builder-style construction. Each record
//! carries its position, an optional span, and a fixed message, and can
//! report itself into an [`Emitter`].

use vstd::prelude::*;

use crate::diag::{Diagnostic, Emitter, ErrorKind, Level, SpanKind};
use crate::nodes::Span;

verus! {

/// What every structured error record can do: give its position, message
/// and severity, and push itself onto an emitter.
pub trait Reportable: Sized {
    fn line(&self) -> u32;

    fn column(&self) -> u32;

    fn message(&self) -> Option<&'static str>;

    fn level(&self) -> Level;

    fn span(&self) -> Option<(Span, SpanKind)>;

    fn report(self, emitter: &mut Emitter);
}

/// An identifier was expected at a position and is not there.
#[derive(Debug)]
pub struct MissingIdent {
    pub span: Option<(Span, SpanKind)>,
    pub line: u32,
    pub column: u32,
    pub message: Option<&'static str>,
}

impl MissingIdent {
    /// An empty record, to be filled in builder style.
    pub fn builder() -> (r: MissingIdent)
        ensures
            r.line == 0,
            r.column == 0,
            r.span is None,
            r.message is None,
    {
        MissingIdent { span: None, line: 0, column: 0, message: None }
    }

    pub fn line(self, line: u32) -> (r: MissingIdent)
        ensures
            r.line == line,
            r.column == self.column,
            r.span == self.span,
            r.message == self.message,
    {
        MissingIdent { line, ..self }
    }

    pub fn column(self, column: u32) -> (r: MissingIdent)
        ensures
            r.column == column,
            r.line == self.line,
            r.span == self.span,
            r.message == self.message,
    {
        MissingIdent { column, ..self }
    }

    pub fn span(self, span: Span, kind: SpanKind) -> (r: MissingIdent)
        ensures
            r.span == Some((span, kind)),
            r.line == self.line,
            r.column == self.column,
            r.message == self.message,
    {
        MissingIdent { span: Some((span, kind)), ..self }
    }

    pub fn message(self, message: &'static str) -> (r: MissingIdent)
        ensures
            r.message == Some(message),
            r.line == self.line,
            r.column == self.column,
            r.span == self.span,
    {
        MissingIdent { message: Some(message), ..self }
    }
}

impl Reportable for MissingIdent {
    fn line(&self) -> (r: u32)
        ensures
            r == self.line,
    {
        self.line
    }

    fn column(&self) -> (r: u32)
        ensures
            r == self.column,
    {
        self.column
    }

    fn message(&self) -> (r: Option<&'static str>)
        ensures
            r == self.message,
    {
        self.message
    }

    fn level(&self) -> (r: Level)
        ensures
            r == Level::HardError,
    {
        Level::HardError
    }

    fn span(&self) -> (r: Option<(Span, SpanKind)>)
        ensures
            r == self.span,
    {
        self.span
    }

    fn report(self, emitter: &mut Emitter)
        ensures
            final(emitter)@.len() == old(emitter)@.len() + 1,
            old(emitter)@.is_prefix_of(final(emitter)@),
            final(emitter)@.last().line == self.line,
            final(emitter)@.last().column == self.column,
            final(emitter)@.last().kind == ErrorKind::Syntactic,
            final(emitter)@.last().level == Level::HardError,
    {
        emitter.report(
            Diagnostic {
                line: self.line,
                column: self.column,
                kind: ErrorKind::Syntactic,
                level: Level::HardError,
                message: match self.message {
                    Some(m) => m,
                    None => "an identifier is missing",
                },
                token: None,
            },
        );
        proof {
            assert(emitter@.subrange(0, old(emitter)@.len() as int) =~= old(emitter)@);
        }
    }
}

/// A token appeared where its shape is not allowed.
#[derive(Debug)]
pub struct UnexpectedTokenInInput {
    pub span: Option<(Span, SpanKind)>,
    pub line: u32,
    pub column: u32,
    pub message: Option<&'static str>,
}

impl UnexpectedTokenInInput {
    /// An empty record, to be filled in builder style.
    pub fn builder() -> (r: UnexpectedTokenInInput)
        ensures
            r.line == 0,
            r.column == 0,
            r.span is None,
            r.message is None,
    {
        UnexpectedTokenInInput { span: None, line: 0, column: 0, message: None }
    }

    pub fn line(self, line: u32) -> (r: UnexpectedTokenInInput)
        ensures
            r.line == line,
            r.column == self.column,
            r.span == self.span,
            r.message == self.message,
    {
        UnexpectedTokenInInput { line, ..self }
    }

    pub fn column(self, column: u32) -> (r: UnexpectedTokenInInput)
        ensures
            r.column == column,
            r.line == self.line,
            r.span == self.span,
            r.message == self.message,
    {
        UnexpectedTokenInInput { column, ..self }
    }

    pub fn span(self, span: Span, kind: SpanKind) -> (r: UnexpectedTokenInInput)
        ensures
            r.span == Some((span, kind)),
            r.line == self.line,
            r.column == self.column,
            r.message == self.message,
    {
        UnexpectedTokenInInput { span: Some((span, kind)), ..self }
    }

    pub fn message(self, message: &'static str) -> (r: UnexpectedTokenInInput)
        ensures
            r.message == Some(message),
            r.line == self.line,
            r.column == self.column,
            r.span == self.span,
    {
        UnexpectedTokenInInput { message: Some(message), ..self }
    }
}

impl Reportable for UnexpectedTokenInInput {
    fn line(&self) -> (r: u32)
        ensures
            r == self.line,
    {
        self.line
    }

    fn column(&self) -> (r: u32)
        ensures
            r == self.column,
    {
        self.column
    }

    fn message(&self) -> (r: Option<&'static str>)
        ensures
            r == self.message,
    {
        self.message
    }

    fn level(&self) -> (r: Level)
        ensures
            r == Level::HardError,
    {
        Level::HardError
    }

    fn span(&self) -> (r: Option<(Span, SpanKind)>)
        ensures
            r == self.span,
    {
        self.span
    }

    fn report(self, emitter: &mut Emitter)
        ensures
            final(emitter)@.len() == old(emitter)@.len() + 1,
            old(emitter)@.is_prefix_of(final(emitter)@),
            final(emitter)@.last().line == self.line,
            final(emitter)@.last().column == self.column,
            final(emitter)@.last().kind == ErrorKind::Syntactic,
            final(emitter)@.last().level == Level::HardError,
    {
        emitter.report(
            Diagnostic {
                line: self.line,
                column: self.column,
                kind: ErrorKind::Syntactic,
                level: Level::HardError,
                message: match self.message {
                    Some(m) => m,
                    None => "unexpected token in the input",
                },
                token: None,
            },
        );
        proof {
            assert(emitter@.subrange(0, old(emitter)@.len() as int) =~= old(emitter)@);
        }
    }
}

/// A directive name the preprocessor does not know.
#[derive(Debug)]
pub struct UnrecognizedPreprocMacro {
    pub span: Option<(Span, SpanKind)>,
    pub line: u32,
    pub column: u32,
    pub message: Option<&'static str>,
}

impl UnrecognizedPreprocMacro {
    /// An empty record, to be filled in builder style.
    pub fn builder() -> (r: UnrecognizedPreprocMacro)
        ensures
            r.line == 0,
            r.column == 0,
            r.span is None,
            r.message is None,
    {
        UnrecognizedPreprocMacro { span: None, line: 0, column: 0, message: None }
    }

    pub fn line(self, line: u32) -> (r: UnrecognizedPreprocMacro)
        ensures
            r.line == line,
            r.column == self.column,
            r.span == self.span,
            r.message == self.message,
    {
        UnrecognizedPreprocMacro { line, ..self }
    }

    pub fn column(self, column: u32) -> (r: UnrecognizedPreprocMacro)
        ensures
            r.column == column,
            r.line == self.line,
            r.span == self.span,
            r.message == self.message,
    {
        UnrecognizedPreprocMacro { column, ..self }
    }

    pub fn span(self, span: Span, kind: SpanKind) -> (r: UnrecognizedPreprocMacro)
        ensures
            r.span == Some((span, kind)),
            r.line == self.line,
            r.column == self.column,
            r.message == self.message,
    {
        UnrecognizedPreprocMacro { span: Some((span, kind)), ..self }
    }

    pub fn message(self, message: &'static str) -> (r: UnrecognizedPreprocMacro)
        ensures
            r.message == Some(message),
            r.line == self.line,
            r.column == self.column,
            r.span == self.span,
    {
        UnrecognizedPreprocMacro { message: Some(message), ..self }
    }
}

impl Reportable for UnrecognizedPreprocMacro {
    fn line(&self) -> (r: u32)
        ensures
            r == self.line,
    {
        self.line
    }

    fn column(&self) -> (r: u32)
        ensures
            r == self.column,
    {
        self.column
    }

    fn message(&self) -> (r: Option<&'static str>)
        ensures
            r == self.message,
    {
        self.message
    }

    fn level(&self) -> (r: Level)
        ensures
            r == Level::HardError,
    {
        Level::HardError
    }

    fn span(&self) -> (r: Option<(Span, SpanKind)>)
        ensures
            r == self.span,
    {
        self.span
    }

    fn report(self, emitter: &mut Emitter)
        ensures
            final(emitter)@.len() == old(emitter)@.len() + 1,
            old(emitter)@.is_prefix_of(final(emitter)@),
            final(emitter)@.last().line == self.line,
            final(emitter)@.last().column == self.column,
            final(emitter)@.last().kind == ErrorKind::Lexical,
            final(emitter)@.last().level == Level::HardError,
    {
        emitter.report(
            Diagnostic {
                line: self.line,
                column: self.column,
                kind: ErrorKind::Lexical,
                level: Level::HardError,
                message: match self.message {
                    Some(m) => m,
                    None => "unrecognized preprocessor directive",
                },
                token: None,
            },
        );
        proof {
            assert(emitter@.subrange(0, old(emitter)@.len() as int) =~= old(emitter)@);
        }
    }
}

/// An operation produced a shape its caller cannot use.
#[derive(Debug)]
pub struct UnexpectedResult {
    pub span: Option<(Span, SpanKind)>,
    pub line: u32,
    pub column: u32,
    pub message: Option<&'static str>,
}

impl UnexpectedResult {
    /// An empty record, to be filled in builder style.
    pub fn builder() -> (r: UnexpectedResult)
        ensures
            r.line == 0,
            r.column == 0,
            r.span is None,
            r.message is None,
    {
        UnexpectedResult { span: None, line: 0, column: 0, message: None }
    }

    pub fn line(self, line: u32) -> (r: UnexpectedResult)
        ensures
            r.line == line,
            r.column == self.column,
            r.span == self.span,
            r.message == self.message,
    {
        UnexpectedResult { line, ..self }
    }

    pub fn column(self, column: u32) -> (r: UnexpectedResult)
        ensures
            r.column == column,
            r.line == self.line,
            r.span == self.span,
            r.message == self.message,
    {
        UnexpectedResult { column, ..self }
    }

    pub fn span(self, span: Span, kind: SpanKind) -> (r: UnexpectedResult)
        ensures
            r.span == Some((span, kind)),
            r.line == self.line,
            r.column == self.column,
            r.message == self.message,
    {
        UnexpectedResult { span: Some((span, kind)), ..self }
    }

    pub fn message(self, message: &'static str) -> (r: UnexpectedResult)
        ensures
            r.message == Some(message),
            r.line == self.line,
            r.column == self.column,
            r.span == self.span,
    {
        UnexpectedResult { message: Some(message), ..self }
    }
}

impl Reportable for UnexpectedResult {
    fn line(&self) -> (r: u32)
        ensures
            r == self.line,
    {
        self.line
    }

    fn column(&self) -> (r: u32)
        ensures
            r == self.column,
    {
        self.column
    }

    fn message(&self) -> (r: Option<&'static str>)
        ensures
            r == self.message,
    {
        self.message
    }

    fn level(&self) -> (r: Level)
        ensures
            r == Level::HardError,
    {
        Level::HardError
    }

    fn span(&self) -> (r: Option<(Span, SpanKind)>)
        ensures
            r == self.span,
    {
        self.span
    }

    fn report(self, emitter: &mut Emitter)
        ensures
            final(emitter)@.len() == old(emitter)@.len() + 1,
            old(emitter)@.is_prefix_of(final(emitter)@),
            final(emitter)@.last().line == self.line,
            final(emitter)@.last().column == self.column,
            final(emitter)@.last().kind == ErrorKind::Semantic,
            final(emitter)@.last().level == Level::HardError,
    {
        emitter.report(
            Diagnostic {
                line: self.line,
                column: self.column,
                kind: ErrorKind::Semantic,
                level: Level::HardError,
                message: match self.message {
                    Some(m) => m,
                    None => "unexpected result",
                },
                token: None,
            },
        );
        proof {
            assert(emitter@.subrange(0, old(emitter)@.len() as int) =~= old(emitter)@);
        }
    }
}

} // verus!
