//! Core data model of the parser: tokens, interned type ids, construct
//! metadata, and the typed expression tree, together with the
//! widening-conversion relation between integer types.

use vstd::prelude::*;

use crate::pack::Vis;
use crate::scope::ContextKind;

verus! {

/// Number of reserved built-in type ids; user-registered types get ids at or
/// above this offset.
pub const OFFSET_FROM_BUILTIN: usize = 10;

pub const TY_INT8: usize = 0;

pub const TY_INT16: usize = 1;

pub const TY_INT32: usize = 2;

pub const TY_INT64: usize = 3;

pub const TY_UINT8: usize = 4;

pub const TY_UINT16: usize = 5;

pub const TY_UINT32: usize = 6;

pub const TY_UINT64: usize = 7;

pub const TY_STR: usize = 8;

pub const TY_BOOL: usize = 9;

/// The id used before inference has assigned a real type.
pub const TY_UNKNOWN: usize = usize::MAX;

/// An interned type id. Ids below [`OFFSET_FROM_BUILTIN`] are the built-in
/// types; ids at or above it are user-registered and resolved through the
/// session's type table. Equality is by id.
#[derive(Debug, Clone, Copy, PartialEq, Eq, Structural)]
pub struct Ty(pub usize);

impl Ty {
    /// The widening-conversion relation: a type converts to itself, and a
    /// built-in integer type converts to the next wider integer type of the
    /// same signedness. No conversion crosses signedness or leaves the
    /// integer types.
    pub open spec fn spec_can_widen(self, other: Ty) -> bool {
        self == other || (self.0 == TY_INT16 && other.0 == TY_INT32) || (self.0 == TY_INT32
            && other.0 == TY_INT64) || (self.0 == TY_UINT16 && other.0 == TY_UINT32) || (self.0
            == TY_UINT32 && other.0 == TY_UINT64)
    }

    /// Whether this id is one of the built-in integer types.
    pub open spec fn spec_is_number(self) -> bool {
        self.0 <= TY_UINT64
    }

    pub fn can_be_implicitly_converted(&self, other: Ty) -> (r: bool)
        ensures
            r == self.spec_can_widen(other),
    {
        if self.0 == other.0 {
            return true;
        }
        match (self.0, other.0) {
            (1, 2) => true,
            (2, 3) => true,
            (5, 6) => true,
            (6, 7) => true,
            _ => false,
        }
    }

    pub fn is_number(&self) -> (r: bool)
        ensures
            r == self.spec_is_number(),
    {
        self.0 <= TY_UINT64
    }
}

// Flag bits carried by construct metadata. A name with both the public and
// the private bit set is package-scoped public.
pub const STATIC: u8 = 2;

pub const CONSTEXPR: u8 = 4;

pub const MUTABLE: u8 = 8;

pub const PUBLIC: u8 = 16;

pub const CONSUMER: u8 = 32;

pub const PRIVATE: u8 = 64;

/// The visibility derived from a metadata flag byte.
pub open spec fn spec_vis_of(flags: u8) -> Vis {
    if flags & PUBLIC != 0 && flags & PRIVATE != 0 {
        Vis::PackPub
    } else if flags & PUBLIC != 0 {
        Vis::Public
    } else {
        Vis::Private
    }
}

/// A fixed bit-set of modifier flags attached to a construct, accessed only
/// through named predicates.
pub trait Metadata: Sized + Copy {
    /// The raw flag byte this metadata value carries.
    spec fn spec_flags(&self) -> u8;

    fn init() -> (r: Self)
        ensures
            r.spec_flags() == 0,
    ;

    fn add_flag(self, flag: u8) -> (r: Self)
        ensures
            r.spec_flags() == (self.spec_flags() | flag),
    ;

    fn flag_set(&self, flag: u8) -> (r: bool)
        ensures
            r == (self.spec_flags() & flag != 0),
    ;

    fn is_public(&self) -> (r: bool)
        ensures
            r == (self.spec_flags() & PUBLIC != 0),
    {
        self.flag_set(PUBLIC)
    }

    fn is_constexpr(&self) -> (r: bool)
        ensures
            r == (self.spec_flags() & CONSTEXPR != 0),
    {
        self.flag_set(CONSTEXPR)
    }

    fn is_mutable(&self) -> (r: bool)
        ensures
            r == (self.spec_flags() & MUTABLE != 0),
    {
        self.flag_set(MUTABLE)
    }

    fn is_static(&self) -> (r: bool)
        ensures
            r == (self.spec_flags() & STATIC != 0),
    {
        self.flag_set(STATIC)
    }

    fn to_vis(self) -> (v: Vis)
        ensures
            v == spec_vis_of(self.spec_flags()),
    {
        if self.flag_set(PUBLIC) && self.flag_set(PRIVATE) {
            Vis::PackPub
        } else if self.flag_set(PUBLIC) {
            Vis::Public
        } else {
            Vis::Private
        }
    }
}

/// Modifier flags of a value binding.
#[derive(Debug, Clone, Copy, PartialEq, Eq, Structural)]
pub struct AssignmentMeta(pub u8);

impl Metadata for AssignmentMeta {
    open spec fn spec_flags(&self) -> u8 {
        self.0
    }

    fn init() -> (r: Self) {
        AssignmentMeta(0)
    }

    fn add_flag(self, flag: u8) -> (r: Self) {
        AssignmentMeta(self.0 | flag)
    }

    fn flag_set(&self, flag: u8) -> (r: bool) {
        self.0 & flag != 0
    }
}

/// Modifier flags of a function definition.
#[derive(Debug, Clone, Copy, PartialEq, Eq, Structural)]
pub struct DefunMeta(pub u8);

impl Metadata for DefunMeta {
    open spec fn spec_flags(&self) -> u8 {
        self.0
    }

    fn init() -> (r: Self) {
        DefunMeta(0)
    }

    fn add_flag(self, flag: u8) -> (r: Self) {
        DefunMeta(self.0 | flag)
    }

    fn flag_set(&self, flag: u8) -> (r: bool) {
        self.0 & flag != 0
    }
}

/// Modifier flags of a module import.
#[derive(Debug, Clone, Copy, PartialEq, Eq, Structural)]
pub struct ImportMeta(pub u8);

impl Metadata for ImportMeta {
    open spec fn spec_flags(&self) -> u8 {
        self.0
    }

    fn init() -> (r: Self) {
        ImportMeta(0)
    }

    fn add_flag(self, flag: u8) -> (r: Self) {
        ImportMeta(self.0 | flag)
    }

    fn flag_set(&self, flag: u8) -> (r: bool) {
        self.0 & flag != 0
    }
}

/// Flags accumulated before the parser knows which construct they modify;
/// converted to the construct's own metadata once the keyword is reached.
#[derive(Debug, Clone, Copy, PartialEq, Eq, Structural)]
pub struct AnyMetadata(pub u8);

impl AnyMetadata {
    pub fn to_defun(self) -> (r: DefunMeta)
        ensures
            r.spec_flags() == self.0,
    {
        DefunMeta(self.0)
    }

    pub fn to_assignment(self) -> (r: AssignmentMeta)
        ensures
            r.spec_flags() == self.0,
    {
        AssignmentMeta(self.0)
    }

    pub fn to_import(self) -> (r: ImportMeta)
        ensures
            r.spec_flags() == self.0,
    {
        ImportMeta(self.0)
    }
}

impl Metadata for AnyMetadata {
    open spec fn spec_flags(&self) -> u8 {
        self.0
    }

    fn init() -> (r: Self) {
        AnyMetadata(0)
    }

    fn add_flag(self, flag: u8) -> (r: Self) {
        AnyMetadata(self.0 | flag)
    }

    fn flag_set(&self, flag: u8) -> (r: bool) {
        self.0 & flag != 0
    }
}

// Keywords and modifiers are plain identifiers at the token layer; the parser
// reinterprets them by their spelling. These are those spellings as byte
// sequences.
pub open spec fn spec_kw_let() -> Seq<u8> {
    seq!['l' as u8, 'e' as u8, 't' as u8]
}

pub open spec fn spec_kw_obj() -> Seq<u8> {
    seq!['o' as u8, 'b' as u8, 'j' as u8]
}

pub open spec fn spec_kw_mut() -> Seq<u8> {
    seq!['m' as u8, 'u' as u8, 't' as u8]
}

pub open spec fn spec_kw_pub() -> Seq<u8> {
    seq!['p' as u8, 'u' as u8, 'b' as u8]
}

pub open spec fn spec_kw_comp() -> Seq<u8> {
    seq!['c' as u8, 'o' as u8, 'm' as u8, 'p' as u8]
}

pub open spec fn spec_kw_pack() -> Seq<u8> {
    seq!['p' as u8, 'a' as u8, 'c' as u8, 'k' as u8]
}

pub open spec fn spec_kw_priv() -> Seq<u8> {
    seq!['p' as u8, 'r' as u8, 'i' as u8, 'v' as u8]
}

pub open spec fn spec_kw_defun() -> Seq<u8> {
    seq!['d' as u8, 'e' as u8, 'f' as u8, 'u' as u8, 'n' as u8]
}

pub open spec fn spec_kw_import() -> Seq<u8> {
    seq!['i' as u8, 'm' as u8, 'p' as u8, 'o' as u8, 'r' as u8, 't' as u8]
}

pub open spec fn spec_kw_static() -> Seq<u8> {
    seq!['s' as u8, 't' as u8, 'a' as u8, 't' as u8, 'i' as u8, 'c' as u8]
}

pub open spec fn spec_kw_consumer() -> Seq<u8> {
    seq!['c' as u8, 'o' as u8, 'n' as u8, 's' as u8, 'u' as u8, 'm' as u8, 'e' as u8, 'r' as u8]
}

pub open spec fn spec_kw_constexpr() -> Seq<u8> {
    seq![
        'c' as u8,
        'o' as u8,
        'n' as u8,
        's' as u8,
        't' as u8,
        'e' as u8,
        'x' as u8,
        'p' as u8,
        'r' as u8,
    ]
}

/// An identifier spelling that begins a construct.
pub open spec fn spec_is_expr_start_word(id: Seq<u8>) -> bool {
    id == spec_kw_import() || id == spec_kw_let() || id == spec_kw_obj() || id == spec_kw_comp()
        || id == spec_kw_defun() || id == spec_kw_pack() || id == spec_kw_constexpr()
}

/// An identifier spelling that acts as a modifier in front of a construct.
pub open spec fn spec_is_modifier_word(id: Seq<u8>) -> bool {
    id == spec_kw_constexpr() || id == spec_kw_mut() || id == spec_kw_static() || id
        == spec_kw_pub() || id == spec_kw_consumer() || id == spec_kw_priv()
}

/// The shape of one lexed token. Identifier, number and string tokens carry
/// their spelling; keywords are not distinguished at this layer.
#[derive(Debug)]
pub enum RawToken {
    Plus,
    Minus,
    Star,
    Assign,
    CastOp,
    AndAnd,
    PipePipe,
    NotEq,
    LtEq,
    GtEq,
    Lt,
    Gt,
    Not,
    Ampersand,
    Pipe,
    Ident(Vec<u8>),
    Number(Vec<u8>),
    LitStr(Vec<u8>),
    OneEq(u8),
    EqEq([u8; 2]),
    Whitespace,
    Colon,
    Path,
    Semi,
    Eof,
    LeftBrace,
    RightBrace,
    LeftBracket,
    RightBracket,
    LeftParen,
    RightParen,
    Comma,
    NewLine,
    Unknown(u8),
}

/// The mathematical shape of a [`RawToken`]: payloads abstracted to byte
/// sequences.
pub enum RawTokenView {
    Plus,
    Minus,
    Star,
    Assign,
    CastOp,
    AndAnd,
    PipePipe,
    NotEq,
    LtEq,
    GtEq,
    Lt,
    Gt,
    Not,
    Ampersand,
    Pipe,
    Ident(Seq<u8>),
    Number(Seq<u8>),
    LitStr(Seq<u8>),
    OneEq(u8),
    EqEq(Seq<u8>),
    Whitespace,
    Colon,
    Path,
    Semi,
    Eof,
    LeftBrace,
    RightBrace,
    LeftBracket,
    RightBracket,
    LeftParen,
    RightParen,
    Comma,
    NewLine,
    Unknown(u8),
}

impl View for RawToken {
    type V = RawTokenView;

    open spec fn view(&self) -> RawTokenView {
        match self {
            RawToken::Plus => RawTokenView::Plus,
            RawToken::Minus => RawTokenView::Minus,
            RawToken::Star => RawTokenView::Star,
            RawToken::Assign => RawTokenView::Assign,
            RawToken::CastOp => RawTokenView::CastOp,
            RawToken::AndAnd => RawTokenView::AndAnd,
            RawToken::PipePipe => RawTokenView::PipePipe,
            RawToken::NotEq => RawTokenView::NotEq,
            RawToken::LtEq => RawTokenView::LtEq,
            RawToken::GtEq => RawTokenView::GtEq,
            RawToken::Lt => RawTokenView::Lt,
            RawToken::Gt => RawTokenView::Gt,
            RawToken::Not => RawTokenView::Not,
            RawToken::Ampersand => RawTokenView::Ampersand,
            RawToken::Pipe => RawTokenView::Pipe,
            RawToken::Ident(id) => RawTokenView::Ident(id@),
            RawToken::Number(n) => RawTokenView::Number(n@),
            RawToken::LitStr(s) => RawTokenView::LitStr(s@),
            RawToken::OneEq(b) => RawTokenView::OneEq(*b),
            RawToken::EqEq(bs) => RawTokenView::EqEq(bs@),
            RawToken::Whitespace => RawTokenView::Whitespace,
            RawToken::Colon => RawTokenView::Colon,
            RawToken::Path => RawTokenView::Path,
            RawToken::Semi => RawTokenView::Semi,
            RawToken::Eof => RawTokenView::Eof,
            RawToken::LeftBrace => RawTokenView::LeftBrace,
            RawToken::RightBrace => RawTokenView::RightBrace,
            RawToken::LeftBracket => RawTokenView::LeftBracket,
            RawToken::RightBracket => RawTokenView::RightBracket,
            RawToken::LeftParen => RawTokenView::LeftParen,
            RawToken::RightParen => RawTokenView::RightParen,
            RawToken::Comma => RawTokenView::Comma,
            RawToken::NewLine => RawTokenView::NewLine,
            RawToken::Unknown(b) => RawTokenView::Unknown(*b),
        }
    }
}

impl RawToken {
    /// A copy of this token shape with the same view.
    pub fn duplicate(&self) -> (r: RawToken)
        ensures
            r@ == self@,
    {
        match self {
            RawToken::Plus => RawToken::Plus,
            RawToken::Minus => RawToken::Minus,
            RawToken::Star => RawToken::Star,
            RawToken::Assign => RawToken::Assign,
            RawToken::CastOp => RawToken::CastOp,
            RawToken::AndAnd => RawToken::AndAnd,
            RawToken::PipePipe => RawToken::PipePipe,
            RawToken::NotEq => RawToken::NotEq,
            RawToken::LtEq => RawToken::LtEq,
            RawToken::GtEq => RawToken::GtEq,
            RawToken::Lt => RawToken::Lt,
            RawToken::Gt => RawToken::Gt,
            RawToken::Not => RawToken::Not,
            RawToken::Ampersand => RawToken::Ampersand,
            RawToken::Pipe => RawToken::Pipe,
            RawToken::Ident(id) => RawToken::Ident(vstd::slice::slice_to_vec(id.as_slice())),
            RawToken::Number(n) => RawToken::Number(vstd::slice::slice_to_vec(n.as_slice())),
            RawToken::LitStr(s) => RawToken::LitStr(vstd::slice::slice_to_vec(s.as_slice())),
            RawToken::OneEq(b) => RawToken::OneEq(*b),
            RawToken::EqEq(bs) => {
                let r = RawToken::EqEq([bs[0], bs[1]]);
                proof {
                    assert(r@->EqEq_0 =~= bs@);
                }
                r
            },
            RawToken::Whitespace => RawToken::Whitespace,
            RawToken::Colon => RawToken::Colon,
            RawToken::Path => RawToken::Path,
            RawToken::Semi => RawToken::Semi,
            RawToken::Eof => RawToken::Eof,
            RawToken::LeftBrace => RawToken::LeftBrace,
            RawToken::RightBrace => RawToken::RightBrace,
            RawToken::LeftBracket => RawToken::LeftBracket,
            RawToken::RightBracket => RawToken::RightBracket,
            RawToken::LeftParen => RawToken::LeftParen,
            RawToken::RightParen => RawToken::RightParen,
            RawToken::Comma => RawToken::Comma,
            RawToken::NewLine => RawToken::NewLine,
            RawToken::Unknown(b) => RawToken::Unknown(*b),
        }
    }
}

/// One token of the source stream: a shape plus the byte offsets it spans and
/// the line and column where it started.
#[derive(Debug)]
pub struct Token {
    pub start: u32,
    pub end: u32,
    pub inner: RawToken,
    pub line: u32,
    pub column: u32,
}

/// The mathematical value of a [`Token`].
pub struct TokenView {
    pub start: u32,
    pub end: u32,
    pub inner: RawTokenView,
    pub line: u32,
    pub column: u32,
}

impl View for Token {
    type V = TokenView;

    open spec fn view(&self) -> TokenView {
        TokenView {
            start: self.start,
            end: self.end,
            inner: self.inner@,
            line: self.line,
            column: self.column,
        }
    }
}

/// An argument of a function definition: its name and its resolved type.
pub type Argument = (Vec<u8>, Ty);

/// A token payload that may serve as an operand: an identifier, a numeric
/// literal, or a string literal.
#[derive(Debug)]
pub enum IdentOrLit {
    Ident(Vec<u8>),
    Number(Vec<u8>),
    Str(Vec<u8>),
}

/// Binary operators of the expression layer.
#[derive(Debug, Clone, Copy, PartialEq, Eq, Structural)]
pub enum BinOp {
    Plus,
    Minus,
    Mul,
    Div,
    EqEq,
    Ne,
    Or,
    And,
}

impl Token {
    pub fn new(raw: RawToken, start: u32, end: u32, line: u32, column: u32) -> (t: Token)
        ensures
            t.inner == raw,
            t.start == start,
            t.end == end,
            t.line == line,
            t.column == column,
    {
        Token { start, end, inner: raw, line, column }
    }

    /// A copy of this token with the same view.
    pub fn duplicate(&self) -> (t: Token)
        ensures
            t@ == self@,
    {
        Token {
            start: self.start,
            end: self.end,
            inner: self.inner.duplicate(),
            line: self.line,
            column: self.column,
        }
    }

    pub fn as_raw(&self) -> (r: &RawToken)
        ensures
            r == &self.inner,
    {
        &self.inner
    }

    pub fn is_ident(&self) -> (r: bool)
        ensures
            r == (self.inner is Ident),
    {
        match &self.inner {
            RawToken::Ident(_) => true,
            _ => false,
        }
    }

    pub fn is_whitespace(&self) -> (r: bool)
        ensures
            r == (self.inner is Whitespace),
    {
        match &self.inner {
            RawToken::Whitespace => true,
            _ => false,
        }
    }

    pub fn as_span(&self) -> (r: (usize, usize))
        ensures
            r.0 == self.start as usize,
            r.1 == self.end as usize,
    {
        (self.start as usize, self.end as usize)
    }

    /// Whether this token separates sibling elements inside a construct.
    pub fn is_sep(&self) -> (r: bool)
        ensures
            r == (self.inner is Whitespace || self.inner is Colon || self.inner is Semi
                || self.inner is Comma || self.inner is RightParen),
    {
        match self.inner {
            RawToken::Whitespace | RawToken::Colon | RawToken::Semi | RawToken::Comma
                | RawToken::RightParen => true,
            _ => false,
        }
    }

    /// Whether this token can close a statement or region.
    pub fn is_end(&self) -> (r: bool)
        ensures
            r == (self.inner is Eof || self.inner is RightBrace || self.inner is RightBracket
                || self.inner is Semi),
    {
        match self.inner {
            RawToken::Eof | RawToken::RightBrace | RawToken::RightBracket | RawToken::Semi => true,
            _ => false,
        }
    }

    pub fn number_or_ident(&self) -> (r: Option<IdentOrLit>)
        ensures
            match self.inner {
                RawToken::Ident(ref id) => r matches Some(IdentOrLit::Ident(v)) && v@ == id@,
                RawToken::LitStr(ref s) => r matches Some(IdentOrLit::Str(v)) && v@ == s@,
                RawToken::Number(ref n) => r matches Some(IdentOrLit::Number(v)) && v@ == n@,
                _ => r is None,
            },
    {
        match &self.inner {
            RawToken::Ident(id) => Some(IdentOrLit::Ident(vstd::slice::slice_to_vec(id.as_slice()))),
            RawToken::LitStr(s) => Some(IdentOrLit::Str(vstd::slice::slice_to_vec(s.as_slice()))),
            RawToken::Number(n) => Some(IdentOrLit::Number(vstd::slice::slice_to_vec(n.as_slice()))),
            _ => None,
        }
    }

    pub fn is_operator(&self) -> (r: bool)
        ensures
            r == (self.inner is Plus || self.inner is Minus),
    {
        match self.inner {
            RawToken::Plus | RawToken::Minus => true,
            _ => false,
        }
    }

    pub fn as_ident(&self) -> (r: Option<&Vec<u8>>)
        ensures
            match self.inner {
                RawToken::Ident(ref id) => r matches Some(v) && v == id,
                _ => r is None,
            },
    {
        match &self.inner {
            RawToken::Ident(id) => Some(id),
            _ => None,
        }
    }

    pub fn as_number(&self) -> (r: Option<&Vec<u8>>)
        ensures
            match self.inner {
                RawToken::Number(ref n) => r matches Some(v) && v == n,
                _ => r is None,
            },
    {
        match &self.inner {
            RawToken::Number(n) => Some(n),
            _ => None,
        }
    }

    pub fn as_binop(&self) -> (r: Option<BinOp>)
        ensures
            match self.inner {
                RawToken::Plus => r == Some(BinOp::Plus),
                RawToken::Minus => r == Some(BinOp::Minus),
                _ => r is None,
            },
    {
        match &self.inner {
            RawToken::Plus => Some(BinOp::Plus),
            RawToken::Minus => Some(BinOp::Minus),
            _ => None,
        }
    }

    /// Whether this token is an identifier spelled like a construct keyword.
    pub fn ident_is_expr_start(&self) -> (r: bool)
        ensures
            r == (self.inner matches RawToken::Ident(id) && spec_is_expr_start_word(id@)),
    {
        match &self.inner {
            RawToken::Ident(id) => {
                let s = id.as_slice();
                crate::util::eq6(
                    s,
                    'i' as u8,
                    'm' as u8,
                    'p' as u8,
                    'o' as u8,
                    'r' as u8,
                    't' as u8,
                ) || crate::util::eq3(s, 'l' as u8, 'e' as u8, 't' as u8) || crate::util::eq3(
                    s,
                    'o' as u8,
                    'b' as u8,
                    'j' as u8,
                ) || crate::util::eq4(s, 'c' as u8, 'o' as u8, 'm' as u8, 'p' as u8)
                    || crate::util::eq5(s, 'd' as u8, 'e' as u8, 'f' as u8, 'u' as u8, 'n' as u8)
                    || crate::util::eq4(s, 'p' as u8, 'a' as u8, 'c' as u8, 'k' as u8)
                    || crate::util::eq9(
                    s,
                    'c' as u8,
                    'o' as u8,
                    'n' as u8,
                    's' as u8,
                    't' as u8,
                    'e' as u8,
                    'x' as u8,
                    'p' as u8,
                    'r' as u8,
                )
            },
            _ => false,
        }
    }

    /// Whether this token is an identifier spelled like a modifier.
    pub fn ident_is_modifier(&self) -> (r: bool)
        ensures
            r == (self.inner matches RawToken::Ident(id) && spec_is_modifier_word(id@)),
    {
        match &self.inner {
            RawToken::Ident(id) => {
                let s = id.as_slice();
                crate::util::eq9(
                    s,
                    'c' as u8,
                    'o' as u8,
                    'n' as u8,
                    's' as u8,
                    't' as u8,
                    'e' as u8,
                    'x' as u8,
                    'p' as u8,
                    'r' as u8,
                ) || crate::util::eq3(s, 'm' as u8, 'u' as u8, 't' as u8) || crate::util::eq6(
                    s,
                    's' as u8,
                    't' as u8,
                    'a' as u8,
                    't' as u8,
                    'i' as u8,
                    'c' as u8,
                ) || crate::util::eq3(s, 'p' as u8, 'u' as u8, 'b' as u8) || crate::util::eq8(
                    s,
                    'c' as u8,
                    'o' as u8,
                    'n' as u8,
                    's' as u8,
                    'u' as u8,
                    'm' as u8,
                    'e' as u8,
                    'r' as u8,
                ) || crate::util::eq4(s, 'p' as u8, 'r' as u8, 'i' as u8, 'v' as u8)
            },
            _ => false,
        }
    }

    /// Whether this token is an identifier spelled like any keyword, modifier
    /// or construct alike.
    pub fn ident_is_keyword(&self) -> (r: bool)
        ensures
            r == (self.inner matches RawToken::Ident(id) && (spec_is_expr_start_word(id@)
                || spec_is_modifier_word(id@))),
    {
        self.ident_is_expr_start() || self.ident_is_modifier()
    }
}

/// A node of the typed expression tree. The variant set is closed: every
/// consumer switches on the tag, and children are built strictly before the
/// parent that owns them.
#[derive(Debug)]
#[allow(inconsistent_fields)]
pub enum Expr {
    Assignment { ident: Vec<u8>, ty: Ty, value: Box<Expr>, meta: AssignmentMeta },
    Binary { lhs: Box<Expr>, op: BinOp, rhs: Box<Expr>, ty: Ty, context_kind: ContextKind },
    Literal(Vec<u8>),
    LitOrIdent(Vec<u8>, Ty),
    Copy(Vec<u8>),
    Call { ident: Vec<u8>, args: Vec<Vec<u8>>, ret_ty: Ty },
    Defun {
        meta: DefunMeta,
        args: Vec<Argument>,
        expressions: Vec<Expr>,
        return_ty: Ty,
        ident: Vec<u8>,
    },
    Import { meta: ImportMeta, root: Vec<u8>, rest: Vec<Vec<u8>> },
    Eof,
}

} // verus!
