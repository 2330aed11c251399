//! The arena-friendly node records of the syntax tree: plain spans, a small
//! metadata flag set with named predicates, and one record per construct,
//! unified by a closed tagged sum — a node's concrete shape is always
//! recovered by matching on the tag, never by reinterpreting memory.

use vstd::prelude::*;

use crate::token::{Token, TokenKind};

verus! {

/// The flag bit for a static declaration.
pub const NODE_STATIC: u8 = 1;

/// A fixed bit-set of flags attached to a node, read only through named
/// predicates.
#[derive(Debug, Clone, Copy, PartialEq, Eq, Structural)]
pub struct Metadata(pub u8);

impl Metadata {
    pub fn is_static(&self) -> (r: bool)
        ensures
            r == (self.0 & NODE_STATIC != 0),
    {
        self.0 & NODE_STATIC != 0
    }
}

/// A source region as a plain record: the decoded start, length and
/// metadata, with no shared storage.
#[derive(Debug, Clone, Copy, PartialEq, Eq, Structural)]
pub struct Span {
    pub start_pos: u16,
    pub len: u8,
    pub meta: Metadata,
}

impl Span {
    /// The placeholder span.
    pub fn dummy() -> (s: Span)
        ensures
            s.start_pos == 0,
            s.len == 0,
            s.meta.0 == 0,
    {
        Span { start_pos: 0, len: 0, meta: Metadata(0) }
    }
}

/// A value binding node: the tokens naming the binding and its type, plus
/// the region it covers.
#[derive(Debug, Clone, Copy, PartialEq, Eq, Structural)]
pub struct Assign {
    pub id_name: Token,
    pub id_type: Token,
    pub span: Span,
}

impl Assign {
    /// The placeholder binding node.
    pub fn dummy() -> (r: Assign)
        ensures
            r.id_name.kind == TokenKind::Eof,
            r.id_type.kind == TokenKind::Eof,
    {
        Assign { id_name: Token::dummy(), id_type: Token::dummy(), span: Span::dummy() }
    }

    pub fn new(id_name: Token, id_type: Token, meta: Metadata, start_pos: u16, len: u8) -> (r:
        Assign)
        ensures
            r.id_name == id_name,
            r.id_type == id_type,
            r.span.start_pos == start_pos,
            r.span.len == len,
            r.span.meta == meta,
    {
        Assign { id_name, id_type, span: Span { start_pos, len, meta } }
    }
}

/// The flat part of a definition node: offsets of its name and return
/// type, the region of its parameter list, and its flags.
#[derive(Debug, Clone, Copy, PartialEq, Eq, Structural)]
pub struct DefunInner {
    pub id_name: u16,
    pub id_ret: u16,
    pub args_start: u16,
    pub args_len: u8,
    pub metadata: Metadata,
    pub requires_span: Span,
}

impl DefunInner {
    /// The placeholder definition record.
    pub fn dummy() -> (r: DefunInner)
        ensures
            r.id_name == 0,
            r.id_ret == 0,
            r.args_start == 0,
            r.args_len == 0,
    {
        DefunInner {
            id_name: 0,
            id_ret: 0,
            args_start: 0,
            args_len: 0,
            metadata: Metadata(0),
            requires_span: Span { start_pos: 0, len: 0, meta: Metadata(0) },
        }
    }
}

/// A definition node: its flat record plus the child nodes of its body.
#[derive(Debug)]
pub struct Defun {
    pub inner: DefunInner,
    pub id_name_end: u16,
    pub children: Vec<AstToken>,
}

impl Defun {
    pub fn new(
        id_name: u16,
        id_name_end: u16,
        id_ret: u16,
        args_start: u16,
        args_len: u8,
        meta: Metadata,
        requires_span: Span,
        children: Vec<AstToken>,
    ) -> (r: Defun)
        ensures
            r.inner.id_name == id_name,
            r.id_name_end == id_name_end,
            r.inner.id_ret == id_ret,
            r.inner.args_start == args_start,
            r.inner.args_len == args_len,
            r.inner.metadata == meta,
            r.inner.requires_span == requires_span,
            r.children == children,
    {
        Defun {
            inner: DefunInner {
                id_name,
                id_ret,
                args_start,
                args_len,
                metadata: meta,
                requires_span,
            },
            id_name_end,
            children,
        }
    }
}

/// A newline in the stream, kept for position tracking.
#[derive(Debug, Clone, Copy, PartialEq, Eq, Structural)]
pub struct Newline {
    pub inner: Token,
}

impl Newline {
    pub fn new(inner: Token) -> (r: Newline)
        ensures
            r.inner == inner,
    {
        Newline { inner }
    }
}

/// A run of whitespace in the stream, kept for position tracking.
#[derive(Debug, Clone, Copy, PartialEq, Eq, Structural)]
pub struct Whitespace {
    pub inner: Token,
}

impl Whitespace {
    pub fn new(inner: Token) -> (r: Whitespace)
        ensures
            r.inner == inner,
    {
        Whitespace { inner }
    }
}

/// The end of the stream.
#[derive(Debug, Clone, Copy, PartialEq, Eq, Structural)]
pub struct Eof {
    pub inner: Token,
}

impl Eof {
    pub fn new(inner: Token) -> (r: Eof)
        ensures
            r.inner == inner,
    {
        Eof { inner }
    }
}

/// The directive family a preprocessor statement belongs to.
#[derive(Debug, Clone, Copy, PartialEq, Eq, Structural)]
pub enum PprocType {
    Start,
    Def,
    Eval,
    Macro,
}

/// One preprocessor statement as the parser records it.
#[derive(Debug, Clone, Copy, PartialEq, Eq, Structural)]
pub enum PreprocKind {
    AtStart { start_id_name: Token, len: u16 },
    AtDef { ident_name: Token, len: u16 },
    AtEval { eval_span: Span },
    AtMacro { args_span: Span },
}

/// A preprocessor statement node.
#[derive(Debug, Clone, Copy, PartialEq, Eq, Structural)]
pub struct PreprocessorStmt {
    pub kind: PreprocKind,
}

impl PreprocessorStmt {
    /// The placeholder preprocessor node.
    pub fn dummy() -> (r: PreprocessorStmt)
        ensures
            r.kind matches PreprocKind::AtStart { start_id_name, len } && len == 0,
    {
        PreprocessorStmt { kind: PreprocKind::AtStart { start_id_name: Token::dummy(), len: 0 } }
    }

    pub fn new(kind: PreprocKind) -> (r: PreprocessorStmt)
        ensures
            r.kind == kind,
    {
        PreprocessorStmt { kind }
    }

    /// Which directive family this node records.
    pub fn pproc_type(&self) -> (t: PprocType)
        ensures
            t == match self.kind {
                PreprocKind::AtStart { .. } => PprocType::Start,
                PreprocKind::AtDef { .. } => PprocType::Def,
                PreprocKind::AtEval { .. } => PprocType::Eval,
                PreprocKind::AtMacro { .. } => PprocType::Macro,
            },
    {
        match self.kind {
            PreprocKind::AtStart { .. } => PprocType::Start,
            PreprocKind::AtDef { .. } => PprocType::Def,
            PreprocKind::AtEval { .. } => PprocType::Eval,
            PreprocKind::AtMacro { .. } => PprocType::Macro,
        }
    }
}

/// A node that records nothing: produced where a statement dissolved into
/// flags or padding.
#[derive(Debug, Clone, Copy, PartialEq, Eq, Structural)]
pub struct NoOp;

/// The closed sum of node shapes a tree slot can hold.
#[derive(Debug)]
#[allow(inconsistent_fields)]
pub enum AstData {
    Assign(Assign),
    Defun(Defun),
    Preproc(PreprocessorStmt),
    Newline(Newline),
    Whitespace(Whitespace),
    Eof(Eof),
    NoOp(NoOp),
}

/// One slot of the arena syntax tree.
#[derive(Debug)]
pub struct AstToken {
    pub data: AstData,
}

impl AstToken {
    /// Whether this slot holds no recorded construct.
    pub fn is_dummy(&self) -> (r: bool)
        ensures
            r == (self.data is NoOp),
    {
        matches!(self.data, AstData::NoOp(_))
    }
}

/// Flags accumulated while the parser walks modifiers, before it knows
/// which construct they belong to.
#[derive(Debug, Clone, Copy, PartialEq, Eq, Structural)]
pub struct AtomicMetadata(pub u8);

impl AtomicMetadata {
    /// The raw accumulated flags.
    pub fn get(&self) -> (r: u8)
        ensures
            r == self.0,
    {
        self.0
    }

    pub fn add_flag(&mut self, flag: u8)
        ensures
            final(self).0 == (old(self).0 | flag),
    {
        self.0 = self.0 | flag;
    }

    pub fn to_metadata(&self) -> (r: Metadata)
        ensures
            r.0 == self.0,
    {
        Metadata(self.0)
    }
}

/// What every node record can report of itself.
pub trait AstNode {
    fn span(&self) -> Span;

    fn metadata(&self) -> Option<Metadata>;

    fn is_dummy_node(&self) -> bool;
}

impl AstNode for NoOp {
    fn span(&self) -> Span {
        Span { start_pos: 0, len: 0, meta: Metadata(0) }
    }

    fn metadata(&self) -> Option<Metadata> {
        None
    }

    fn is_dummy_node(&self) -> bool {
        true
    }
}

impl AstNode for Assign {
    fn span(&self) -> Span {
        self.span
    }

    fn metadata(&self) -> Option<Metadata> {
        Some(self.span.meta)
    }

    fn is_dummy_node(&self) -> bool {
        self.id_name.kind() == TokenKind::Eof && self.id_type.kind() == TokenKind::Eof
    }
}

impl AstNode for PreprocessorStmt {
    fn span(&self) -> Span {
        match self.kind {
            PreprocKind::AtEval { eval_span } => eval_span,
            PreprocKind::AtMacro { args_span } => args_span,
            _ => Span { start_pos: 0, len: 0, meta: Metadata(0) },
        }
    }

    fn metadata(&self) -> Option<Metadata> {
        None
    }

    fn is_dummy_node(&self) -> bool {
        false
    }
}

} // verus!
