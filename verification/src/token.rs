//! The compact token shape used by the arena syntax tree: a kind plus the
//! byte offset where the token starts. Such tokens own no text; the source
//! buffer is sliced on demand between neighbouring offsets.

use vstd::prelude::*;

verus! {

/// The closed set of compact token kinds: single- and double-character
/// punctuation, literals, identifiers, whitespace, newline, end of input,
/// and an unknown fallback.
#[derive(Debug, Clone, Copy, PartialEq, Eq, Structural)]
pub enum TokenKind {
    At,
    Ampersand,
    Pipe,
    Star,
    Eq,
    Not,
    Lt,
    Gt,
    LeftParen,
    RightParen,
    LeftBrace,
    RightBrace,
    LeftBracket,
    RightBracket,
    Semi,
    Colon,
    Comma,
    Whitespace,
    Quote,
    Pound,
    Dollar,
    Question,
    Percent,
    SingleQuote,
    Minus,
    Dot,
    ForwardSlash,
    BackSlash,
    Carat,
    Underscore,
    Backtick,
    Tilde,
    Eof,
    AndAnd,
    PipePipe,
    FatArrow,
    CastOp,
    EqEq,
    NotEq,
    LtEq,
    GtEq,
    Path,
    Ident,
    Lifetime,
    Literal,
    NewLine,
    Unknown,
}

/// A compact token: its kind and the offset where it starts.
#[derive(Debug, Clone, Copy, PartialEq, Eq, Structural)]
pub struct Token {
    pub kind: TokenKind,
    pub start: u16,
}

/// The fixed width of a kind whose spelling never varies: one byte for the
/// single-character kinds, two for the double-character operators, nothing
/// for kinds whose spelling the source decides.
pub open spec fn spec_fixed_len(kind: TokenKind) -> Option<u16> {
    match kind {
        TokenKind::At | TokenKind::Eq | TokenKind::LeftBrace | TokenKind::RightBrace
            | TokenKind::LeftParen | TokenKind::RightParen | TokenKind::LeftBracket
            | TokenKind::RightBracket | TokenKind::Ampersand | TokenKind::Pipe | TokenKind::Star
            | TokenKind::Semi | TokenKind::Colon | TokenKind::Comma | TokenKind::Whitespace
            | TokenKind::Lt | TokenKind::Gt | TokenKind::Eof => Some(1u16),
        TokenKind::AndAnd | TokenKind::PipePipe | TokenKind::FatArrow | TokenKind::EqEq
            | TokenKind::NotEq | TokenKind::LtEq | TokenKind::GtEq => Some(2u16),
        _ => None,
    }
}

impl Token {
    /// A placeholder token: end of input at offset zero.
    pub fn dummy() -> (t: Token)
        ensures
            t.kind == TokenKind::Eof,
            t.start == 0,
    {
        Token { kind: TokenKind::Eof, start: 0 }
    }

    /// The width of this token where its kind alone decides it.
    pub fn len(&self) -> (r: Option<u16>)
        ensures
            r == spec_fixed_len(self.kind),
    {
        match self.kind {
            TokenKind::At | TokenKind::Eq | TokenKind::LeftBrace | TokenKind::RightBrace
                | TokenKind::LeftParen | TokenKind::RightParen | TokenKind::LeftBracket
                | TokenKind::RightBracket | TokenKind::Ampersand | TokenKind::Pipe
                | TokenKind::Star | TokenKind::Semi | TokenKind::Colon | TokenKind::Comma
                | TokenKind::Whitespace | TokenKind::Lt | TokenKind::Gt | TokenKind::Eof => Some(
                1,
            ),
            TokenKind::AndAnd | TokenKind::PipePipe | TokenKind::FatArrow | TokenKind::EqEq
                | TokenKind::NotEq | TokenKind::LtEq | TokenKind::GtEq => Some(2),
            _ => None,
        }
    }

    pub fn kind(&self) -> (k: TokenKind)
        ensures
            k == self.kind,
    {
        self.kind
    }

    /// Whether this token carries no syntax of its own: padding or the end
    /// of the stream.
    pub fn is_whitespace_or_newline(&self) -> (r: bool)
        ensures
            r == (self.kind == TokenKind::Eof || self.kind == TokenKind::Whitespace),
    {
        matches!(self.kind, TokenKind::Eof | TokenKind::Whitespace)
    }
}

} // verus!
