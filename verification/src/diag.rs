//! Structured diagnostics. Every diagnosable condition is recorded here and
//! parsing resynchronizes at the next statement boundary; records are kept in
//! the order they were produced and handed out at the end of the run.

use vstd::prelude::*;

use crate::ast::{Token, TokenView};

verus! {

/// How severe a diagnostic is. Only hard errors suppress handoff of the
/// finished tree to the backend.
#[derive(Debug, Clone, Copy, PartialEq, Eq, Structural)]
pub enum Level {
    Warning,
    SoftError,
    HardError,
}

/// The taxonomy of diagnosable conditions.
#[derive(Debug, Clone, Copy, PartialEq, Eq, Structural)]
pub enum ErrorKind {
    /// An unrecognized character or byte sequence.
    Lexical,
    /// An expected token, keyword or shape not found at its position.
    Syntactic,
    /// A name or type rule violated: duplicate declaration, unresolved
    /// identifier, calling a non-function, incompatible operand types.
    Semantic,
}

/// Whether a span carries metadata.
#[derive(Debug, Clone, Copy, PartialEq, Eq, Structural)]
pub enum SpanKind {
    Meta,
    NoMeta,
    Unset,
}

/// One recorded diagnostic: position, classification, severity, a fixed
/// human-readable message, and the offending token if one was at hand.
#[derive(Debug)]
pub struct Diagnostic {
    pub line: u32,
    pub column: u32,
    pub kind: ErrorKind,
    pub level: Level,
    pub message: &'static str,
    pub token: Option<Token>,
}

/// The mathematical value of a [`Diagnostic`], with the message left out.
pub struct DiagnosticView {
    pub line: u32,
    pub column: u32,
    pub kind: ErrorKind,
    pub level: Level,
    pub token: Option<TokenView>,
}

impl View for Diagnostic {
    type V = DiagnosticView;

    open spec fn view(&self) -> DiagnosticView {
        DiagnosticView {
            line: self.line,
            column: self.column,
            kind: self.kind,
            level: self.level,
            token: match self.token {
                Some(ref t) => Some(t@),
                None => None,
            },
        }
    }
}

/// Collects diagnostics in the order they are reported.
pub struct Emitter {
    errors: Vec<Diagnostic>,
}

impl View for Emitter {
    type V = Seq<DiagnosticView>;

    closed spec fn view(&self) -> Seq<DiagnosticView> {
        self.errors@.map_values(|d: Diagnostic| d@)
    }
}

impl Emitter {
    pub fn new() -> (r: Emitter)
        ensures
            r@ == Seq::<DiagnosticView>::empty(),
    {
        let r = Emitter { errors: Vec::new() };
        proof {
            assert(r@ =~= Seq::<DiagnosticView>::empty());
        }
        r
    }

    pub fn len(&self) -> (n: usize)
        ensures
            n == self@.len(),
    {
        self.errors.len()
    }

    /// Records one diagnostic at the end of the list.
    pub fn report(&mut self, d: Diagnostic)
        ensures
            final(self)@ == old(self)@.push(d@),
    {
        let ghost oldv = self@;
        let ghost dv = d@;
        self.errors.push(d);
        proof {
            assert(self@ =~= oldv.push(dv));
        }
    }

    /// Read access to the record at a position.
    pub fn get(&self, i: usize) -> (r: &Diagnostic)
        requires
            i < self@.len(),
        ensures
            r@ == self@[i as int],
    {
        &self.errors[i]
    }

    /// Whether any recorded diagnostic is a hard error; such a run must not
    /// hand its tree to the backend.
    pub fn has_hard_error(&self) -> (r: bool)
        ensures
            r == exists|i: int| 0 <= i < self@.len() && self@[i].level == Level::HardError,
    {
        let n = self.errors.len();
        let mut i: usize = 0;
        while i < n
            invariant
                i <= n,
                n == self@.len(),
                forall|j: int| 0 <= j < i ==> self@[j].level != Level::HardError,
            decreases n - i,
        {
            if matches!(self.errors[i].level, Level::HardError) {
                proof {
                    assert(self@[i as int].level == Level::HardError);
                }
                return true;
            }
            i = i + 1;
        }
        false
    }

    /// Hands out all records in the order reported and leaves the emitter
    /// empty.
    pub fn flush(&mut self) -> (r: Vec<Diagnostic>)
        ensures
            r@.map_values(|d: Diagnostic| d@) == old(self)@,
            final(self)@ == Seq::<DiagnosticView>::empty(),
    {
        let mut out: Vec<Diagnostic> = Vec::new();
        std::mem::swap(&mut out, &mut self.errors);
        proof {
            assert(final(self)@ =~= Seq::<DiagnosticView>::empty());
        }
        out
    }
}

/// Records one hard positional-mismatch diagnostic.
pub fn report_syntactic(emitter: &mut Emitter, line: u32, column: u32, message: &'static str)
    ensures
        final(emitter)@.len() == old(emitter)@.len() + 1,
        old(emitter)@.is_prefix_of(final(emitter)@),
        final(emitter)@.last().kind == ErrorKind::Syntactic,
        final(emitter)@.last().level == Level::HardError,
{
    emitter.report(
        Diagnostic {
            line,
            column,
            kind: ErrorKind::Syntactic,
            level: Level::HardError,
            message,
            token: None,
        },
    );
    proof {
        assert(emitter@.subrange(0, old(emitter)@.len() as int) =~= old(emitter)@);
    }
}

/// Records one hard semantic diagnostic.
pub fn report_semantic(emitter: &mut Emitter, line: u32, column: u32, message: &'static str)
    ensures
        final(emitter)@.len() == old(emitter)@.len() + 1,
        old(emitter)@.is_prefix_of(final(emitter)@),
        final(emitter)@.last().kind == ErrorKind::Semantic,
        final(emitter)@.last().level == Level::HardError,
{
    emitter.report(
        Diagnostic {
            line,
            column,
            kind: ErrorKind::Semantic,
            level: Level::HardError,
            message,
            token: None,
        },
    );
    proof {
        assert(emitter@.subrange(0, old(emitter)@.len() as int) =~= old(emitter)@);
    }
}

/// Records one hard diagnostic for an unrecognized byte in the input.
pub fn report_lexical(emitter: &mut Emitter, line: u32, column: u32, message: &'static str)
    ensures
        final(emitter)@.len() == old(emitter)@.len() + 1,
        old(emitter)@.is_prefix_of(final(emitter)@),
        final(emitter)@.last().kind == ErrorKind::Lexical,
        final(emitter)@.last().level == Level::HardError,
{
    emitter.report(
        Diagnostic {
            line,
            column,
            kind: ErrorKind::Lexical,
            level: Level::HardError,
            message,
            token: None,
        },
    );
    proof {
        assert(emitter@.subrange(0, old(emitter)@.len() as int) =~= old(emitter)@);
    }
}

/// Records one recoverable-redefinition warning: the first definition is
/// kept.
pub fn report_warning(emitter: &mut Emitter, line: u32, column: u32, message: &'static str)
    ensures
        final(emitter)@.len() == old(emitter)@.len() + 1,
        old(emitter)@.is_prefix_of(final(emitter)@),
        final(emitter)@.last().kind == ErrorKind::Semantic,
        final(emitter)@.last().level == Level::Warning,
{
    emitter.report(
        Diagnostic {
            line,
            column,
            kind: ErrorKind::Semantic,
            level: Level::Warning,
            message,
            token: None,
        },
    );
    proof {
        assert(emitter@.subrange(0, old(emitter)@.len() as int) =~= old(emitter)@);
    }
}

} // verus!
