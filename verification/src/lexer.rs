//! The token reader: it turns the source bytes into a stream of
//! [`Token`]s, one token per call, with exact offsets, line and column
//! information. Whitespace and newlines are first-class tokens here; the
//! parser layer above skips them after using them for position tracking.

use vstd::prelude::*;

use crate::ast::{Metadata, RawToken, RawTokenView, Token};
use crate::diag::{Diagnostic, Emitter, ErrorKind, Level};
use crate::util::{
    spec_is_digit, spec_is_id_continue, spec_is_id_start, spec_is_whitespace, is_digit,
    is_id_continue, is_id_start, is_whitespace,
};

verus! {

/// An ASCII hexadecimal digit.
pub open spec fn spec_is_hex_digit(b: u8) -> bool {
    spec_is_digit(b) || (65 <= b <= 70) || (97 <= b <= 102)
}

/// An ASCII binary digit.
pub open spec fn spec_is_bin_digit(b: u8) -> bool {
    b == 48 || b == 49
}

pub fn is_hex_digit(b: u8) -> (r: bool)
    ensures
        r == spec_is_hex_digit(b),
{
    is_digit(b) || (65 <= b && b <= 70) || (97 <= b && b <= 102)
}

pub fn is_bin_digit(b: u8) -> (r: bool)
    ensures
        r == spec_is_bin_digit(b),
{
    b == 48 || b == 49
}

/// The end of the maximal identifier-continuation run starting at `pos`.
pub open spec fn spec_ident_end(input: Seq<u8>, pos: int) -> int
    decreases input.len() - pos,
    when 0 <= pos
{
    if pos >= input.len() || !spec_is_id_continue(input[pos]) {
        pos
    } else {
        spec_ident_end(input, pos + 1)
    }
}

/// The end of the maximal decimal-digit run starting at `pos`.
pub open spec fn spec_dec_end(input: Seq<u8>, pos: int) -> int
    decreases input.len() - pos,
    when 0 <= pos
{
    if pos >= input.len() || !spec_is_digit(input[pos]) {
        pos
    } else {
        spec_dec_end(input, pos + 1)
    }
}

/// The end of the maximal hexadecimal-digit run starting at `pos`.
pub open spec fn spec_hex_end(input: Seq<u8>, pos: int) -> int
    decreases input.len() - pos,
    when 0 <= pos
{
    if pos >= input.len() || !spec_is_hex_digit(input[pos]) {
        pos
    } else {
        spec_hex_end(input, pos + 1)
    }
}

/// The end of the maximal binary-digit run starting at `pos`.
pub open spec fn spec_bin_end(input: Seq<u8>, pos: int) -> int
    decreases input.len() - pos,
    when 0 <= pos
{
    if pos >= input.len() || !spec_is_bin_digit(input[pos]) {
        pos
    } else {
        spec_bin_end(input, pos + 1)
    }
}

/// The end of the numeric literal starting at `pos`: after a `0x` or `0b`
/// prefix the scan stops at the first byte that is not a valid digit for
/// that base, otherwise at the first byte that is not a decimal digit.
pub open spec fn spec_number_end(input: Seq<u8>, pos: int) -> int {
    if input[pos] == 48 && pos + 1 < input.len() && (input[pos + 1] == 120 || input[pos + 1]
        == 88) {
        spec_hex_end(input, pos + 2)
    } else if input[pos] == 48 && pos + 1 < input.len() && (input[pos + 1] == 98 || input[pos + 1]
        == 66) {
        spec_bin_end(input, pos + 2)
    } else {
        spec_dec_end(input, pos)
    }
}

/// The shape of the token that starts at `pos`. End of input yields `Eof`,
/// and a byte matching no rule yields `Unknown` rather than stopping the
/// scan.
pub open spec fn spec_token_at(input: Seq<u8>, pos: int) -> RawTokenView {
    if pos >= input.len() {
        RawTokenView::Eof
    } else {
        let b = input[pos];
        if b == 40 {
            RawTokenView::LeftParen
        } else if b == 41 {
            RawTokenView::RightParen
        } else if b == 123 {
            RawTokenView::LeftBrace
        } else if b == 125 {
            RawTokenView::RightBrace
        } else if b == 91 {
            RawTokenView::LeftBracket
        } else if b == 93 {
            RawTokenView::RightBracket
        } else if b == 58 {
            if pos + 1 < input.len() && input[pos + 1] == 58 {
                RawTokenView::Path
            } else {
                RawTokenView::Colon
            }
        } else if b == 59 {
            RawTokenView::Semi
        } else if b == 61 {
            if pos + 1 < input.len() && input[pos + 1] == 62 {
                RawTokenView::Assign
            } else if pos + 1 < input.len() && input[pos + 1] == 61 {
                RawTokenView::EqEq(seq![61u8, 61u8])
            } else {
                RawTokenView::OneEq(61)
            }
        } else if b == 10 {
            RawTokenView::NewLine
        } else if b == 44 {
            RawTokenView::Comma
        } else if b == 43 {
            RawTokenView::Plus
        } else if b == 45 {
            if pos + 1 < input.len() && input[pos + 1] == 62 {
                RawTokenView::CastOp
            } else {
                RawTokenView::Minus
            }
        } else if b == 42 {
            RawTokenView::Star
        } else if b == 38 {
            if pos + 1 < input.len() && input[pos + 1] == 38 {
                RawTokenView::AndAnd
            } else {
                RawTokenView::Ampersand
            }
        } else if b == 124 {
            if pos + 1 < input.len() && input[pos + 1] == 124 {
                RawTokenView::PipePipe
            } else {
                RawTokenView::Pipe
            }
        } else if b == 33 {
            if pos + 1 < input.len() && input[pos + 1] == 61 {
                RawTokenView::NotEq
            } else {
                RawTokenView::Not
            }
        } else if b == 60 {
            if pos + 1 < input.len() && input[pos + 1] == 61 {
                RawTokenView::LtEq
            } else {
                RawTokenView::Lt
            }
        } else if b == 62 {
            if pos + 1 < input.len() && input[pos + 1] == 61 {
                RawTokenView::GtEq
            } else {
                RawTokenView::Gt
            }
        } else if spec_is_digit(b) {
            RawTokenView::Number(input.subrange(pos, spec_number_end(input, pos)))
        } else if spec_is_whitespace(b) {
            RawTokenView::Whitespace
        } else if spec_is_id_start(b) {
            RawTokenView::Ident(input.subrange(pos, spec_ident_end(input, pos)))
        } else {
            RawTokenView::Unknown(b)
        }
    }
}

/// The position just past the token that starts at `pos`.
pub open spec fn spec_token_end(input: Seq<u8>, pos: int) -> int {
    if pos >= input.len() {
        pos
    } else {
        let b = input[pos];
        if b == 58 && pos + 1 < input.len() && input[pos + 1] == 58 {
            pos + 2
        } else if b == 61 && pos + 1 < input.len() && (input[pos + 1] == 62 || input[pos + 1]
            == 61) {
            pos + 2
        } else if b == 45 && pos + 1 < input.len() && input[pos + 1] == 62 {
            pos + 2
        } else if b == 38 && pos + 1 < input.len() && input[pos + 1] == 38 {
            pos + 2
        } else if b == 124 && pos + 1 < input.len() && input[pos + 1] == 124 {
            pos + 2
        } else if (b == 33 || b == 60 || b == 62) && pos + 1 < input.len() && input[pos + 1]
            == 61 {
            pos + 2
        } else if spec_is_digit(b) {
            spec_number_end(input, pos)
        } else if spec_is_id_start(b) {
            spec_ident_end(input, pos)
        } else {
            pos + 1
        }
    }
}

proof fn lemma_ident_end_bounds(input: Seq<u8>, pos: int)
    requires
        0 <= pos <= input.len(),
    ensures
        pos <= spec_ident_end(input, pos) <= input.len(),
    decreases input.len() - pos,
{
    if pos < input.len() && spec_is_id_continue(input[pos]) {
        lemma_ident_end_bounds(input, pos + 1);
    }
}

proof fn lemma_dec_end_bounds(input: Seq<u8>, pos: int)
    requires
        0 <= pos <= input.len(),
    ensures
        pos <= spec_dec_end(input, pos) <= input.len(),
    decreases input.len() - pos,
{
    if pos < input.len() && spec_is_digit(input[pos]) {
        lemma_dec_end_bounds(input, pos + 1);
    }
}

proof fn lemma_hex_end_bounds(input: Seq<u8>, pos: int)
    requires
        0 <= pos <= input.len(),
    ensures
        pos <= spec_hex_end(input, pos) <= input.len(),
    decreases input.len() - pos,
{
    if pos < input.len() && spec_is_hex_digit(input[pos]) {
        lemma_hex_end_bounds(input, pos + 1);
    }
}

proof fn lemma_bin_end_bounds(input: Seq<u8>, pos: int)
    requires
        0 <= pos <= input.len(),
    ensures
        pos <= spec_bin_end(input, pos) <= input.len(),
    decreases input.len() - pos,
{
    if pos < input.len() && spec_is_bin_digit(input[pos]) {
        lemma_bin_end_bounds(input, pos + 1);
    }
}

/// Every token ends past where it starts (except at end of input) and
/// within the input.
pub proof fn lemma_token_end_bounds(input: Seq<u8>, pos: int)
    requires
        0 <= pos <= input.len(),
    ensures
        pos <= spec_token_end(input, pos) <= input.len(),
        pos < input.len() ==> pos < spec_token_end(input, pos),
{
    if pos < input.len() {
        let b = input[pos];
        if spec_is_digit(b) {
            if b == 48 && pos + 1 < input.len() && (input[pos + 1] == 120 || input[pos + 1]
                == 88) {
                lemma_hex_end_bounds(input, pos + 2);
            } else if b == 48 && pos + 1 < input.len() && (input[pos + 1] == 98 || input[pos + 1]
                == 66) {
                lemma_bin_end_bounds(input, pos + 2);
            } else {
                lemma_dec_end_bounds(input, pos + 1);
            }
        } else if spec_is_id_start(b) {
            lemma_ident_end_bounds(input, pos + 1);
        }
    }
}

/// How many newline bytes lie in `input[0 .. end)`.
pub open spec fn spec_count_newlines(input: Seq<u8>, end: int) -> int
    decreases end,
    when end <= input.len()
{
    if end <= 0 {
        0
    } else {
        spec_count_newlines(input, end - 1) + if input[end - 1] == 10 {
            1int
        } else {
            0int
        }
    }
}

/// A region without newline bytes adds nothing to the count.
proof fn lemma_count_run(input: Seq<u8>, a: int, b: int)
    requires
        0 <= a <= b <= input.len(),
        forall|j: int| a <= j < b ==> input[j] != 10,
    ensures
        spec_count_newlines(input, b) == spec_count_newlines(input, a),
    decreases b - a,
{
    if a < b {
        lemma_count_run(input, a, b - 1);
    }
}

proof fn lemma_ident_run_bytes(input: Seq<u8>, pos: int)
    requires
        0 <= pos <= input.len(),
    ensures
        forall|j: int|
            pos <= j < spec_ident_end(input, pos) ==> spec_is_id_continue(#[trigger] input[j]),
    decreases input.len() - pos,
{
    if pos < input.len() && spec_is_id_continue(input[pos]) {
        lemma_ident_run_bytes(input, pos + 1);
    }
}

proof fn lemma_dec_run_bytes(input: Seq<u8>, pos: int)
    requires
        0 <= pos <= input.len(),
    ensures
        forall|j: int| pos <= j < spec_dec_end(input, pos) ==> spec_is_digit(#[trigger] input[j]),
    decreases input.len() - pos,
{
    if pos < input.len() && spec_is_digit(input[pos]) {
        lemma_dec_run_bytes(input, pos + 1);
    }
}

proof fn lemma_hex_run_bytes(input: Seq<u8>, pos: int)
    requires
        0 <= pos <= input.len(),
    ensures
        forall|j: int|
            pos <= j < spec_hex_end(input, pos) ==> spec_is_hex_digit(#[trigger] input[j]),
    decreases input.len() - pos,
{
    if pos < input.len() && spec_is_hex_digit(input[pos]) {
        lemma_hex_run_bytes(input, pos + 1);
    }
}

proof fn lemma_bin_run_bytes(input: Seq<u8>, pos: int)
    requires
        0 <= pos <= input.len(),
    ensures
        forall|j: int|
            pos <= j < spec_bin_end(input, pos) ==> spec_is_bin_digit(#[trigger] input[j]),
    decreases input.len() - pos,
{
    if pos < input.len() && spec_is_bin_digit(input[pos]) {
        lemma_bin_run_bytes(input, pos + 1);
    }
}

/// One token moves the newline count by one exactly when it is a newline
/// token: no other token spans a newline byte.
pub proof fn lemma_token_newlines(input: Seq<u8>, pos: int)
    requires
        0 <= pos <= input.len(),
    ensures
        spec_count_newlines(input, spec_token_end(input, pos)) == spec_count_newlines(input, pos)
            + if spec_token_at(input, pos) is NewLine {
            1int
        } else {
            0int
        },
{
    lemma_token_end_bounds(input, pos);
    if pos < input.len() {
        let b = input[pos];
        let end = spec_token_end(input, pos);
        if spec_token_at(input, pos) is NewLine {
            assert(end == pos + 1);
        } else if spec_is_digit(b) {
            if b == 48 && pos + 1 < input.len() && (input[pos + 1] == 120 || input[pos + 1]
                == 88) {
                lemma_hex_run_bytes(input, pos + 2);
                lemma_count_run(input, pos, end);
            } else if b == 48 && pos + 1 < input.len() && (input[pos + 1] == 98 || input[pos + 1]
                == 66) {
                lemma_bin_run_bytes(input, pos + 2);
                lemma_count_run(input, pos, end);
            } else {
                lemma_dec_run_bytes(input, pos);
                lemma_count_run(input, pos, end);
            }
        } else if spec_is_id_start(b) {
            lemma_ident_run_bytes(input, pos);
            lemma_count_run(input, pos, end);
        } else {
            // Punctuation: one or two bytes, none of them a newline.
            lemma_count_run(input, pos, end);
        }
    }
}

/// A reader over the source bytes that materializes one token per call and
/// tracks the current column.
pub struct SourceCodeReader {
    input: Vec<u8>,
    pos: usize,
    column: u32,
}

impl SourceCodeReader {
    /// The source buffer this reader walks.
    pub closed spec fn input_view(&self) -> Seq<u8> {
        self.input@
    }

    /// The current byte position.
    pub closed spec fn pos_view(&self) -> int {
        self.pos as int
    }

    /// The position stays within the buffer, the buffer is small enough for
    /// offsets to fit the token fields, and the column never runs ahead of
    /// the position.
    pub closed spec fn wf(&self) -> bool {
        self.pos <= self.input@.len() && self.input@.len() <= u32::MAX && self.column
            <= self.pos
    }

    pub fn init(input: Vec<u8>) -> (r: SourceCodeReader)
        requires
            input@.len() <= u32::MAX,
        ensures
            r.wf(),
            r.input_view() == input@,
            r.pos_view() == 0,
    {
        SourceCodeReader { input, pos: 0, column: 0 }
    }

    pub fn column(&self) -> (c: u32)
        requires
            self.wf(),
        ensures
            c as int <= self.pos_view(),
    {
        self.column
    }

    /// The current column without any well-formedness demand, for
    /// diagnostics.
    pub(crate) fn column_raw(&self) -> u32 {
        self.column
    }

    /// Whether the reader has consumed all input.
    pub fn is_at_end(&self) -> (r: bool)
        ensures
            r == (self.pos_view() >= self.input_view().len()),
    {
        self.pos >= self.input.len()
    }

    /// The end of the maximal identifier run from `from`.
    fn scan_ident_end(&self, from: usize) -> (end: usize)
        requires
            self.wf(),
            from <= self.input_view().len(),
        ensures
            end == spec_ident_end(self.input_view(), from as int),
            from <= end <= self.input_view().len(),
    {
        let n = self.input.len();
        let mut cur = from;
        proof {
            lemma_ident_end_bounds(self.input_view(), from as int);
        }
        while cur < n && is_id_continue(self.input[cur])
            invariant
                from <= cur <= n,
                n == self.input_view().len(),
                self.wf(),
                spec_ident_end(self.input_view(), from as int) == spec_ident_end(
                    self.input_view(),
                    cur as int,
                ),
            decreases n - cur,
        {
            cur = cur + 1;
        }
        cur
    }

    /// The end of the maximal decimal-digit run from `from`.
    fn scan_dec_end(&self, from: usize) -> (end: usize)
        requires
            self.wf(),
            from <= self.input_view().len(),
        ensures
            end == spec_dec_end(self.input_view(), from as int),
            from <= end <= self.input_view().len(),
    {
        let n = self.input.len();
        let mut cur = from;
        while cur < n && is_digit(self.input[cur])
            invariant
                from <= cur <= n,
                n == self.input_view().len(),
                self.wf(),
                spec_dec_end(self.input_view(), from as int) == spec_dec_end(
                    self.input_view(),
                    cur as int,
                ),
            decreases n - cur,
        {
            cur = cur + 1;
        }
        cur
    }

    /// The end of the maximal hexadecimal-digit run from `from`.
    fn scan_hex_end(&self, from: usize) -> (end: usize)
        requires
            self.wf(),
            from <= self.input_view().len(),
        ensures
            end == spec_hex_end(self.input_view(), from as int),
            from <= end <= self.input_view().len(),
    {
        let n = self.input.len();
        let mut cur = from;
        while cur < n && is_hex_digit(self.input[cur])
            invariant
                from <= cur <= n,
                n == self.input_view().len(),
                self.wf(),
                spec_hex_end(self.input_view(), from as int) == spec_hex_end(
                    self.input_view(),
                    cur as int,
                ),
            decreases n - cur,
        {
            cur = cur + 1;
        }
        cur
    }

    /// The end of the maximal binary-digit run from `from`.
    fn scan_bin_end(&self, from: usize) -> (end: usize)
        requires
            self.wf(),
            from <= self.input_view().len(),
        ensures
            end == spec_bin_end(self.input_view(), from as int),
            from <= end <= self.input_view().len(),
    {
        let n = self.input.len();
        let mut cur = from;
        while cur < n && is_bin_digit(self.input[cur])
            invariant
                from <= cur <= n,
                n == self.input_view().len(),
                self.wf(),
                spec_bin_end(self.input_view(), from as int) == spec_bin_end(
                    self.input_view(),
                    cur as int,
                ),
            decreases n - cur,
        {
            cur = cur + 1;
        }
        cur
    }

    /// A copy of the bytes `from..to` of the input.
    fn copy_range(&self, from: usize, to: usize) -> (r: Vec<u8>)
        requires
            from <= to <= self.input_view().len(),
        ensures
            r@ == self.input_view().subrange(from as int, to as int),
    {
        vstd::slice::slice_to_vec(vstd::slice::slice_subrange(self.input.as_slice(), from, to))
    }

    /// Produces exactly the token that starts at the current position and
    /// advances past it. At end of input it repeatedly yields `Eof` without
    /// moving. The token records the offsets it spans, the line count that
    /// the caller passes in, and the column just past the token.
    pub fn next_token(&mut self, nl_count: u32) -> (t: Token)
        requires
            old(self).wf(),
        ensures
            final(self).wf(),
            final(self).input_view() == old(self).input_view(),
            t@.inner == spec_token_at(old(self).input_view(), old(self).pos_view()),
            final(self).pos_view() == spec_token_end(old(self).input_view(), old(self).pos_view()),
            t@.start == old(self).pos_view(),
            t@.end == final(self).pos_view(),
            t@.line == nl_count,
    {
        let ghost input = self.input_view();
        let start = self.pos;
        proof {
            lemma_token_end_bounds(input, start as int);
        }
        if self.pos >= self.input.len() {
            return Token::new(RawToken::Eof, start as u32, start as u32, nl_count, self.column);
        }
        let b = self.input[self.pos];
        let raw: RawToken = if b == 40 {
            self.pos = self.pos + 1;
            RawToken::LeftParen
        } else if b == 41 {
            self.pos = self.pos + 1;
            RawToken::RightParen
        } else if b == 123 {
            self.pos = self.pos + 1;
            RawToken::LeftBrace
        } else if b == 125 {
            self.pos = self.pos + 1;
            RawToken::RightBrace
        } else if b == 91 {
            self.pos = self.pos + 1;
            RawToken::LeftBracket
        } else if b == 93 {
            self.pos = self.pos + 1;
            RawToken::RightBracket
        } else if b == 58 {
            if self.pos + 1 < self.input.len() && self.input[self.pos + 1] == 58 {
                self.pos = self.pos + 2;
                RawToken::Path
            } else {
                self.pos = self.pos + 1;
                RawToken::Colon
            }
        } else if b == 59 {
            self.pos = self.pos + 1;
            RawToken::Semi
        } else if b == 61 {
            if self.pos + 1 < self.input.len() && self.input[self.pos + 1] == 62 {
                self.pos = self.pos + 2;
                RawToken::Assign
            } else if self.pos + 1 < self.input.len() && self.input[self.pos + 1] == 61 {
                self.pos = self.pos + 2;
                let eq = RawToken::EqEq([61, 61]);
                proof {
                    assert(eq@->EqEq_0 =~= seq![61u8, 61u8]);
                }
                eq
            } else {
                self.pos = self.pos + 1;
                RawToken::OneEq(61)
            }
        } else if b == 10 {
            self.pos = self.pos + 1;
            RawToken::NewLine
        } else if b == 44 {
            self.pos = self.pos + 1;
            RawToken::Comma
        } else if b == 43 {
            self.pos = self.pos + 1;
            RawToken::Plus
        } else if b == 45 {
            if self.pos + 1 < self.input.len() && self.input[self.pos + 1] == 62 {
                self.pos = self.pos + 2;
                RawToken::CastOp
            } else {
                self.pos = self.pos + 1;
                RawToken::Minus
            }
        } else if b == 42 {
            self.pos = self.pos + 1;
            RawToken::Star
        } else if b == 38 {
            if self.pos + 1 < self.input.len() && self.input[self.pos + 1] == 38 {
                self.pos = self.pos + 2;
                RawToken::AndAnd
            } else {
                self.pos = self.pos + 1;
                RawToken::Ampersand
            }
        } else if b == 124 {
            if self.pos + 1 < self.input.len() && self.input[self.pos + 1] == 124 {
                self.pos = self.pos + 2;
                RawToken::PipePipe
            } else {
                self.pos = self.pos + 1;
                RawToken::Pipe
            }
        } else if b == 33 {
            if self.pos + 1 < self.input.len() && self.input[self.pos + 1] == 61 {
                self.pos = self.pos + 2;
                RawToken::NotEq
            } else {
                self.pos = self.pos + 1;
                RawToken::Not
            }
        } else if b == 60 {
            if self.pos + 1 < self.input.len() && self.input[self.pos + 1] == 61 {
                self.pos = self.pos + 2;
                RawToken::LtEq
            } else {
                self.pos = self.pos + 1;
                RawToken::Lt
            }
        } else if b == 62 {
            if self.pos + 1 < self.input.len() && self.input[self.pos + 1] == 61 {
                self.pos = self.pos + 2;
                RawToken::GtEq
            } else {
                self.pos = self.pos + 1;
                RawToken::Gt
            }
        } else if is_digit(b) {
            let end: usize = if b == 48 && self.pos + 1 < self.input.len() && (self.input[self.pos
                + 1] == 120 || self.input[self.pos + 1] == 88) {
                self.scan_hex_end(self.pos + 2)
            } else if b == 48 && self.pos + 1 < self.input.len() && (self.input[self.pos + 1] == 98
                || self.input[self.pos + 1] == 66) {
                self.scan_bin_end(self.pos + 2)
            } else {
                self.scan_dec_end(self.pos)
            };
            let payload = self.copy_range(self.pos, end);
            self.pos = end;
            RawToken::Number(payload)
        } else if is_whitespace(b) {
            self.pos = self.pos + 1;
            RawToken::Whitespace
        } else if is_id_start(b) {
            let end = self.scan_ident_end(self.pos);
            proof {
                assert(spec_ident_end(input, start as int) == spec_ident_end(
                    input,
                    start as int + 1,
                ));
            }
            let payload = self.copy_range(self.pos, end);
            self.pos = end;
            RawToken::Ident(payload)
        } else {
            self.pos = self.pos + 1;
            RawToken::Unknown(b)
        };
        // Track the column: a newline restarts it, any other token moves it
        // past the bytes just consumed.
        if self.pos > start {
            let consumed = (self.pos - start) as u32;
            if matches!(raw, RawToken::NewLine) {
                self.column = 0;
            } else {
                self.column = self.column + consumed;
            }
        }
        Token::new(raw, start as u32, self.pos as u32, nl_count, self.column)
    }
}

/// One step of statement collection: the nesting depths after the token at
/// `pos` has been processed. A stray closer never drives a depth negative.
pub open spec fn spec_depth_step(tok: RawTokenView, depth: int, open: RawTokenView) -> int {
    if tok == open {
        depth + 1
    } else if (open is LeftBrace && tok is RightBrace && depth > 0) || (open is LeftParen
        && tok is RightParen && depth > 0) {
        depth - 1
    } else {
        depth
    }
}

/// The statement run that starts at `pos`: the token shapes collected up to
/// (but not including) the terminator, and the position just past the
/// terminator. A token equal to `delim`, or a semicolon, ends the run once
/// both nesting depths are back to zero, so a brace- or paren-containing
/// value is not cut short; end of input always ends it.
pub open spec fn spec_collect(
    input: Seq<u8>,
    pos: int,
    brace: int,
    paren: int,
    delim: RawTokenView,
) -> (Seq<RawTokenView>, int)
    decreases input.len() - pos,
    when 0 <= pos <= input.len()
    via spec_collect_decreases
{
    if pos >= input.len() {
        (Seq::<RawTokenView>::empty(), pos)
    } else {
        let tok = spec_token_at(input, pos);
        let end = spec_token_end(input, pos);
        let brace2 = spec_depth_step(tok, brace, RawTokenView::LeftBrace);
        let paren2 = spec_depth_step(tok, paren, RawTokenView::LeftParen);
        if (tok == delim || tok is Semi) && brace2 == 0 && paren2 == 0 {
            (Seq::<RawTokenView>::empty(), end)
        } else {
            let rest = spec_collect(input, end, brace2, paren2, delim);
            (seq![tok] + rest.0, rest.1)
        }
    }
}

#[via_fn]
proof fn spec_collect_decreases(
    input: Seq<u8>,
    pos: int,
    brace: int,
    paren: int,
    delim: RawTokenView,
) {
    if pos < input.len() {
        lemma_token_end_bounds(input, pos);
    }
}

/// The statement run always ends within the input, and past its start
/// whenever any input is left there.
pub proof fn lemma_collect_end_bounds(
    input: Seq<u8>,
    pos: int,
    brace: int,
    paren: int,
    delim: RawTokenView,
)
    requires
        0 <= pos <= input.len(),
    ensures
        pos <= spec_collect(input, pos, brace, paren, delim).1 <= input.len(),
        pos < input.len() ==> pos < spec_collect(input, pos, brace, paren, delim).1,
    decreases input.len() - pos,
{
    if pos < input.len() {
        lemma_token_end_bounds(input, pos);
        let tok = spec_token_at(input, pos);
        let end = spec_token_end(input, pos);
        let brace2 = spec_depth_step(tok, brace, RawTokenView::LeftBrace);
        let paren2 = spec_depth_step(tok, paren, RawTokenView::LeftParen);
        if !((tok == delim || tok is Semi) && brace2 == 0 && paren2 == 0) {
            lemma_collect_end_bounds(input, end, brace2, paren2, delim);
        }
    }
}

/// Whether any token from `pos` on is significant: neither whitespace nor
/// a newline nor the end of input.
pub open spec fn spec_has_significant(input: Seq<u8>, pos: int) -> bool
    decreases input.len() - pos,
    when 0 <= pos
    via spec_has_significant_decreases
{
    if pos >= input.len() {
        false
    } else {
        let tok = spec_token_at(input, pos);
        if tok is Whitespace || tok is NewLine {
            spec_has_significant(input, spec_token_end(input, pos))
        } else {
            true
        }
    }
}

#[via_fn]
proof fn spec_has_significant_decreases(input: Seq<u8>, pos: int) {
    if pos < input.len() {
        lemma_token_end_bounds(input, pos);
    }
}

/// The token shapes of a run with whitespace and newline tokens removed:
/// they have served their purpose for position tracking in the reader.
pub open spec fn spec_significant(s: Seq<RawTokenView>) -> Seq<RawTokenView>
    decreases s.len(),
{
    if s.len() == 0 {
        Seq::<RawTokenView>::empty()
    } else if s[0] is Whitespace || s[0] is NewLine {
        spec_significant(s.drop_first())
    } else {
        seq![s[0]] + spec_significant(s.drop_first())
    }
}

/// The shapes of a sequence of tokens.
pub open spec fn spec_shapes(toks: Seq<Token>) -> Seq<RawTokenView> {
    toks.map_values(|t: Token| t@.inner)
}

/// The stateful parser driver: it holds the reader, the token under
/// evaluation and the most recent significant token, counts newlines for
/// diagnostics, and collects diagnostics into its emitter.
pub struct Lexer {
    token_reader: SourceCodeReader,
    last_significant_token: Token,
    currently_evaluated_token: Token,
    nl_count: usize,
    /// The diagnostics recorded so far.
    pub errors: Emitter,
}

impl Lexer {
    /// The source buffer being parsed.
    pub closed spec fn input_view(&self) -> Seq<u8> {
        self.token_reader.input_view()
    }

    /// The reader's position, just past the current token.
    pub closed spec fn pos_view(&self) -> int {
        self.token_reader.pos_view()
    }

    /// The token under evaluation.
    pub closed spec fn cur(&self) -> crate::ast::TokenView {
        self.currently_evaluated_token@
    }

    /// The most recent non-whitespace token before the current one.
    pub closed spec fn last_significant(&self) -> crate::ast::TokenView {
        self.last_significant_token@
    }

    /// The diagnostics recorded so far, in order.
    pub closed spec fn errors_view(&self) -> Seq<crate::diag::DiagnosticView> {
        self.errors@
    }

    /// The running newline count.
    pub closed spec fn spec_nl(&self) -> usize {
        self.nl_count
    }

    /// The reader is sound and the current token is exactly the token that
    /// starts at its recorded offset, with the reader just past it.
    pub closed spec fn wf(&self) -> bool {
        &&& self.token_reader.wf()
        &&& self.nl_count <= self.token_reader.pos_view()
        &&& self.nl_count == spec_count_newlines(self.input_view(), self.pos_view())
        &&& 0 <= self.cur().start as int <= self.input_view().len()
        &&& self.cur().inner == spec_token_at(self.input_view(), self.cur().start as int)
        &&& self.pos_view() == spec_token_end(self.input_view(), self.cur().start as int)
    }

    pub fn init(input: Vec<u8>) -> (r: Lexer)
        requires
            input@.len() <= u32::MAX,
        ensures
            r.wf(),
            r.input_view() == input@,
            r.cur().start == 0,
            r.cur().inner == spec_token_at(input@, 0),
            r.errors_view() == Seq::<crate::diag::DiagnosticView>::empty(),
            r.spec_nl() == spec_count_newlines(input@, r.pos_view()),
            r.last_significant().inner is Eof,
            r.last_significant().start == 0,
    {
        proof {
            lemma_token_newlines(input@, 0);
        }
        let mut token_reader = SourceCodeReader::init(input);
        let currently_evaluated_token = token_reader.next_token(0);
        let nl_count: usize = if matches!(currently_evaluated_token.as_raw(), RawToken::NewLine) {
            1
        } else {
            0
        };
        Lexer {
            token_reader,
            last_significant_token: Token::new(RawToken::Eof, 0, 0, 0, 0),
            currently_evaluated_token,
            nl_count,
            errors: Emitter::new(),
        }
    }

    /// How many newline tokens the reader has passed: exactly the newline
    /// bytes in the consumed prefix of the input, the current token
    /// included.
    pub fn nl_count(&self) -> (n: usize)
        requires
            self.wf(),
        ensures
            n == spec_count_newlines(self.input_view(), self.pos_view()),
            n <= self.pos_view(),
    {
        self.nl_count
    }

    /// The column just past the current token.
    pub fn column(&self) -> (c: usize)
        requires
            self.wf(),
        ensures
            c <= self.pos_view(),
    {
        self.token_reader.column() as usize
    }

    /// Steps to the next token, remembering the one just left behind if it
    /// was significant and counting newlines.
    fn advance(&mut self)
        requires
            old(self).wf(),
        ensures
            final(self).wf(),
            final(self).input_view() == old(self).input_view(),
            final(self).errors_view() == old(self).errors_view(),
            final(self).cur().start == old(self).pos_view(),
            final(self).cur().inner == spec_token_at(old(self).input_view(), old(self).pos_view()),
            final(self).pos_view() == spec_token_end(old(self).input_view(), old(self).pos_view()),
            old(self).pos_view() < old(self).input_view().len() ==> final(self).pos_view() > old(self).pos_view(),
            old(self).pos_view() >= old(self).input_view().len() ==> final(self).pos_view() == old(self).pos_view() && final(self).cur().inner is Eof,
            !(old(self).cur().inner is Whitespace) ==> final(self).last_significant() == old(self).cur(),
            old(self).cur().inner is Whitespace ==> final(self).last_significant() == old(self).last_significant(),
    {
        proof {
            lemma_token_end_bounds(self.input_view(), self.cur().start as int);
            lemma_token_end_bounds(self.input_view(), self.pos_view());
            lemma_token_newlines(self.input_view(), self.pos_view());
        }
        if !self.currently_evaluated_token.is_whitespace() {
            self.last_significant_token = self.currently_evaluated_token.duplicate();
        }
        let nl = if self.nl_count <= u32::MAX as usize {
            self.nl_count as u32
        } else {
            u32::MAX
        };
        let t = self.token_reader.next_token(nl);
        let is_nl = matches!(t.as_raw(), RawToken::NewLine);
        self.currently_evaluated_token = t;
        if is_nl {
            self.nl_count = self.nl_count + 1;
        }
    }

    /// Collects the statement run that starts at the current token:
    /// everything up to (but not including) the terminator, which is
    /// consumed. A token equal to `delim`, or a semicolon, terminates once
    /// the brace and paren depths are back to zero; end of input always
    /// terminates. One independent depth counter is kept per delimiter
    /// kind.
    pub fn expr_loop(&mut self, delim: RawToken) -> (toks: Vec<Token>)
        requires
            old(self).wf(),
            delim@ is Semi || delim@ is RightBrace,
        ensures
            final(self).wf(),
            final(self).input_view() == old(self).input_view(),
            final(self).errors_view() == old(self).errors_view(),
            spec_shapes(toks@) == spec_collect(
                old(self).input_view(),
                old(self).cur().start as int,
                0,
                0,
                delim@,
            ).0,
            final(self).cur().start as int == spec_collect(
                old(self).input_view(),
                old(self).cur().start as int,
                0,
                0,
                delim@,
            ).1,
            toks@.len() <= old(self).input_view().len(),
            final(self).cur().start as int >= old(self).cur().start as int,
            !(old(self).cur().inner is Eof) ==> final(self).cur().start as int > old(self).cur().start as int,
    {
        let ghost input = self.input_view();
        let ghost p0 = self.cur().start as int;
        proof {
            lemma_collect_end_bounds(input, p0, 0, 0, delim@);
        }
        let mut toks: Vec<Token> = Vec::new();
        let mut brace: usize = 0;
        let mut paren: usize = 0;
        proof {
            assert(spec_shapes(toks@) =~= Seq::<RawTokenView>::empty());
        }
        loop
            invariant
                self.wf(),
                self.input_view() == input,
                self.errors_view() == old(self).errors_view(),
                brace + paren <= self.cur().start as int - p0,
                toks@.len() <= self.cur().start as int - p0,
                0 <= p0 <= self.cur().start as int <= input.len(),
                spec_collect(input, p0, 0, 0, delim@).0 == spec_shapes(toks@) + spec_collect(
                    input,
                    self.cur().start as int,
                    brace as int,
                    paren as int,
                    delim@,
                ).0,
                spec_collect(input, p0, 0, 0, delim@).1 == spec_collect(
                    input,
                    self.cur().start as int,
                    brace as int,
                    paren as int,
                    delim@,
                ).1,
            decreases input.len() - self.cur().start as int + (if self.cur().inner is Eof {
                0int
            } else {
                1int
            }),
        {
            let ghost pc = self.cur().start as int;
            let ghost tok = spec_token_at(input, pc);
            if matches!(self.currently_evaluated_token.as_raw(), RawToken::Eof) {
                proof {
                    assert(spec_collect(input, pc, brace as int, paren as int, delim@).0
                        =~= Seq::<RawTokenView>::empty());
                    assert(spec_shapes(toks@) + Seq::<RawTokenView>::empty() =~= spec_shapes(
                        toks@,
                    ));
                }
                return toks;
            }
            proof {
                assert(pc < input.len());
            }
            let cur = &self.currently_evaluated_token;
            let brace2: usize = if matches!(cur.as_raw(), RawToken::LeftBrace) {
                brace + 1
            } else if matches!(cur.as_raw(), RawToken::RightBrace) && brace > 0 {
                brace - 1
            } else {
                brace
            };
            let paren2: usize = if matches!(cur.as_raw(), RawToken::LeftParen) {
                paren + 1
            } else if matches!(cur.as_raw(), RawToken::RightParen) && paren > 0 {
                paren - 1
            } else {
                paren
            };
            proof {
                assert(brace2 as int == spec_depth_step(tok, brace as int, RawTokenView::LeftBrace));
                assert(paren2 as int == spec_depth_step(tok, paren as int, RawTokenView::LeftParen));
            }
            let is_delim = match (self.currently_evaluated_token.as_raw(), &delim) {
                (RawToken::Semi, _) => true,
                (RawToken::RightBrace, RawToken::RightBrace) => true,
                _ => false,
            };
            if is_delim && brace2 == 0 && paren2 == 0 {
                proof {
                    assert(tok == delim@ || tok is Semi);
                    assert(spec_collect(input, pc, brace as int, paren as int, delim@).0
                        =~= Seq::<RawTokenView>::empty());
                    assert(spec_shapes(toks@) + Seq::<RawTokenView>::empty() =~= spec_shapes(
                        toks@,
                    ));
                }
                self.advance();
                return toks;
            }
            proof {
                assert(!((tok == delim@ || tok is Semi) && brace2 as int == 0 && paren2 as int
                    == 0));
            }
            let ghost old_shapes = spec_shapes(toks@);
            toks.push(self.currently_evaluated_token.duplicate());
            brace = brace2;
            paren = paren2;
            proof {
                assert(spec_shapes(toks@) =~= old_shapes.push(tok));
                assert(old_shapes.push(tok) =~= old_shapes + seq![tok]);
            }
            self.advance();
            proof {
                lemma_token_end_bounds(input, pc);
                let rest = spec_collect(
                    input,
                    self.cur().start as int,
                    brace as int,
                    paren as int,
                    delim@,
                );
                assert(spec_collect(input, pc, 0, 0, delim@).0 == spec_collect(
                    input,
                    pc,
                    0,
                    0,
                    delim@,
                ).0);
                assert(spec_shapes(toks@) + rest.0 =~= old_shapes + (seq![tok] + rest.0));
            }
        }
    }

    /// The line count for a diagnostic, clamped to the field width.
    pub(crate) fn nl_count_raw(&self) -> u32 {
        if self.nl_count <= u32::MAX as usize {
            self.nl_count as u32
        } else {
            u32::MAX
        }
    }

    /// The column for a diagnostic.
    pub(crate) fn column_raw(&self) -> u32 {
        self.token_reader.column_raw()
    }

    /// Records one hard positional-mismatch diagnostic for this statement.
    pub(crate) fn report_syntactic(&mut self, message: &'static str)
        ensures
            final(self).wf() == old(self).wf(),
            final(self).input_view() == old(self).input_view(),
            final(self).cur() == old(self).cur(),
            final(self).pos_view() == old(self).pos_view(),
            final(self).errors_view().len() == old(self).errors_view().len() + 1,
            old(self).errors_view().is_prefix_of(final(self).errors_view()),
            final(self).errors_view().last().kind == ErrorKind::Syntactic,
            final(self).errors_view().last().level == Level::HardError,
    {
        let line = self.nl_count_raw();
        let column = self.column_raw();
        self.errors.report(
            Diagnostic {
                line,
                column,
                kind: ErrorKind::Syntactic,
                level: Level::HardError,
                message,
                token: None,
            },
        );
        proof {
            assert(self.errors_view().subrange(0, old(self).errors_view().len() as int)
                =~= old(self).errors_view());
        }
    }

    /// Records one hard semantic diagnostic for this statement.
    pub(crate) fn report_semantic(&mut self, message: &'static str)
        ensures
            final(self).wf() == old(self).wf(),
            final(self).input_view() == old(self).input_view(),
            final(self).cur() == old(self).cur(),
            final(self).pos_view() == old(self).pos_view(),
            final(self).errors_view().len() == old(self).errors_view().len() + 1,
            old(self).errors_view().is_prefix_of(final(self).errors_view()),
            final(self).errors_view().last().kind == ErrorKind::Semantic,
            final(self).errors_view().last().level == Level::HardError,
    {
        let line = self.nl_count_raw();
        let column = self.column_raw();
        self.errors.report(
            Diagnostic {
                line,
                column,
                kind: ErrorKind::Semantic,
                level: Level::HardError,
                message,
                token: None,
            },
        );
        proof {
            assert(self.errors_view().subrange(0, old(self).errors_view().len() as int)
                =~= old(self).errors_view());
        }
    }

    /// Parses one binding statement starting at the current token: collects
    /// the run up to the semicolon, drops whitespace, and validates it
    /// positionally. On the valid shape with a fresh name the name enters
    /// the scope behind `h`; otherwise one diagnostic is recorded and the
    /// scope stays as it was.
    pub fn assignment(
        &mut self,
        meta: crate::ast::AssignmentMeta,
        tree: &mut crate::scope::ScopeTree,
        h: usize,
        session: &crate::session::Session,
    ) -> (r: Option<crate::ast::Expr>)
        requires
            old(self).wf(),
            old(tree).wf(),
            old(tree).valid_handle(h),
        ensures
            final(self).wf(),
            final(self).input_view() == old(self).input_view(),
            final(tree).wf(),
            final(tree).scope_count() == old(tree).scope_count(),
            old(self).errors_view().is_prefix_of(final(self).errors_view()),
            forall|h2: usize|
                old(tree).valid_handle(h2) ==> final(tree).spec_parent_of(h2) == old(tree).spec_parent_of(h2) && final(tree).spec_kind_of(h2) == old(tree).spec_kind_of(h2),
            forall|h2: usize|
                old(tree).valid_handle(h2) && h2 != h ==> final(tree).local(h2) == old(tree).local(
                    h2,
                ),
            crate::assign::spec_assignment_post(
                spec_significant(
                    spec_collect(
                        old(self).input_view(),
                        old(self).cur().start as int,
                        0,
                        0,
                        RawTokenView::Semi,
                    ).0,
                ),
                session.table_view(),
                meta.spec_flags(),
                old(tree).local(h),
                final(tree).local(h),
                old(self).errors_view(),
                final(self).errors_view(),
                r,
            ),
            final(self).cur().start as int >= old(self).cur().start as int,
            !(old(self).cur().inner is Eof) ==> final(self).cur().start as int > old(self).cur().start as int,
    {
        let toks = self.expr_loop(RawToken::Semi);
        let toks = filter_significant(toks);
        crate::assign::parse_assignment_tokens(&toks, meta, tree, h, session, &mut self.errors)
    }

    /// The current token, for dispatching without consuming it.
    pub fn current(&self) -> (t: &Token)
        ensures
            t@ == self.cur(),
    {
        &self.currently_evaluated_token
    }

    /// The most recent non-whitespace token before the current one, for
    /// one-token lookback.
    pub fn last_significant_token(&self) -> (t: &Token)
        ensures
            t@ == self.last_significant(),
    {
        &self.last_significant_token
    }
}

/// Runs the front end to completion over one compilation unit: parses
/// top-level statements until end of input, building the scope tree and
/// collecting diagnostics along the way. A failed statement leaves its
/// diagnostic behind and parsing resumes at the next statement boundary;
/// the loop provably terminates. Any input with a significant token yields
/// a node or a diagnostic, and a binding statement at the head of the
/// input yields exactly its node and its scope entry, first in their
/// lists.
pub fn parse_program(input: Vec<u8>, session: &crate::session::Session) -> (r: (
    Vec<crate::ast::Expr>,
    crate::scope::ScopeTree,
    Emitter,
))
    requires
        input@.len() < u32::MAX,
    ensures
        r.1.wf(),
        r.1.valid_handle(0),
        spec_has_significant(input@, 0) ==> r.0@.len() + r.2@.len() >= 1,
        ({
            let ts = spec_significant(spec_collect(input@, 0, 0, 0, RawTokenView::Semi).0);
            spec_token_at(input@, 0) == RawTokenView::Ident(crate::ast::spec_kw_let())
                && crate::assign::spec_let_shape(ts, session.table_view()) ==> r.0@.len() >= 1 && (
            r.0@[0] matches crate::ast::Expr::Assignment { ident, ty, .. } && ident@
                == crate::assign::spec_let_ident(ts) && ty == crate::assign::spec_let_ty(
                ts,
                session.table_view(),
            )) && r.1.local(0).len() >= 1 && r.1.local(0)[0] == (
            crate::assign::spec_let_ident(ts),
            crate::scope::SymbolKindView::Assignment(
                crate::assign::spec_let_ty(ts, session.table_view()),
                crate::ast::spec_vis_of(crate::assign::spec_let_meta(ts, 0)),
            ),
            )
        }),
{
    let ghost inseq = input@;
    let ghost len = input@.len() as int;
    let ghost table = session.table_view();
    let ghost ts0 = spec_significant(spec_collect(inseq, 0, 0, 0, RawTokenView::Semi).0);
    let ghost flh = spec_token_at(inseq, 0) == RawTokenView::Ident(crate::ast::spec_kw_let())
        && crate::assign::spec_let_shape(ts0, table);
    let mut lexer = Lexer::init(input);
    let mut tree = crate::scope::ScopeTree::init();
    let mut program: Vec<crate::ast::Expr> = Vec::new();
    loop
        invariant
            lexer.wf(),
            tree.wf(),
            lexer.input_view() == inseq,
            inseq.len() == len,
            len < u32::MAX,
            tree.valid_handle(0),
            tree.scope_count() <= 1 + lexer.cur().start as int,
            spec_has_significant(inseq, 0) ==> program@.len() + lexer.errors_view().len() >= 1
                || spec_has_significant(inseq, lexer.cur().start as int),
            flh ==> (lexer.cur().start == 0 && tree.local(0) == Seq::<
                (Seq<u8>, crate::scope::SymbolKindView),
            >::empty() && program@.len() == 0) || (program@.len() >= 1 && (
            program@[0] matches crate::ast::Expr::Assignment { ident, ty, .. } && ident@
                == crate::assign::spec_let_ident(ts0) && ty == crate::assign::spec_let_ty(
                ts0,
                table,
            )) && tree.local(0).len() >= 1 && tree.local(0)[0] == (
            crate::assign::spec_let_ident(ts0),
            crate::scope::SymbolKindView::Assignment(
                crate::assign::spec_let_ty(ts0, table),
                crate::ast::spec_vis_of(crate::assign::spec_let_meta(ts0, 0)),
            ),
            )),
        decreases len - lexer.cur().start as int,
    {
        if matches!(lexer.current().as_raw(), RawToken::Eof) {
            proof {
                assert(!spec_has_significant(inseq, lexer.cur().start as int));
            }
            break;
        }
        proof {
            // A token that is not end-of-input starts inside the buffer,
            // so the scope count stays within the machine's range and the
            // statement ahead makes progress.
            assert((lexer.cur().start as int) < len);
            if flh {
                if !(program@.len() >= 1) {
                    assert(lexer.cur().inner == spec_token_at(inseq, 0));
                }
            }
        }
        match lexer.parse_next_expr(&mut tree, FnCtxOrGlobalCtx::Global, session) {
            Some(e) => {
                if matches!(e, crate::ast::Expr::Eof) {
                    break;
                }
                program.push(e);
            },
            None => {},
        }
    }
    (program, tree, lexer.errors)
}

/// Drops whitespace and newline tokens from a collected run, keeping every
/// other token in order.
pub fn filter_significant(toks: Vec<Token>) -> (r: Vec<Token>)
    ensures
        spec_shapes(r@) == spec_significant(spec_shapes(toks@)),
        r@.len() <= toks@.len(),
{
    let ghost all = spec_shapes(toks@);
    let n = toks.len();
    let mut out: Vec<Token> = Vec::new();
    let mut i: usize = 0;
    proof {
        assert(spec_shapes(out@) =~= Seq::<RawTokenView>::empty());
        assert(all.skip(0) =~= all);
    }
    while i < n
        invariant
            i <= n,
            n == toks@.len(),
            out@.len() <= i,
            all == spec_shapes(toks@),
            spec_significant(all) == spec_shapes(out@) + spec_significant(all.skip(i as int)),
        decreases n - i,
    {
        let ghost tail = all.skip(i as int);
        proof {
            assert(tail[0] == all[i as int]);
            assert(tail.drop_first() =~= all.skip(i as int + 1));
        }
        let t = &toks[i];
        if !(matches!(t.as_raw(), RawToken::Whitespace) || matches!(
            t.as_raw(),
            RawToken::NewLine,
        )) {
            let ghost old_shapes = spec_shapes(out@);
            out.push(t.duplicate());
            proof {
                assert(spec_shapes(out@) =~= old_shapes.push(all[i as int]));
                assert(old_shapes.push(all[i as int]) + spec_significant(
                    all.skip(i as int + 1),
                ) =~= old_shapes + (seq![all[i as int]] + spec_significant(
                    all.skip(i as int + 1),
                )));
            }
        }
        i = i + 1;
    }
    proof {
        assert(all.skip(n as int) =~= Seq::<RawTokenView>::empty());
        assert(spec_shapes(out@) + Seq::<RawTokenView>::empty() =~= spec_shapes(out@));
    }
    out
}


/// How the dispatcher classifies the identifier that opens a statement.
enum Word {
    Let,
    Import,
    Defun,
    OtherConstruct,
    Modifier(u8),
    Plain,
}

/// Which scope a statement is parsed into: a function's child scope or the
/// global scope of the compilation unit.
#[derive(Debug, Clone, Copy, PartialEq, Eq, Structural)]
pub enum FnCtxOrGlobalCtx {
    Fn(usize),
    Global,
}

impl FnCtxOrGlobalCtx {
    /// The scope-tree handle this context stands for.
    pub open spec fn spec_handle(self) -> usize {
        match self {
            FnCtxOrGlobalCtx::Fn(h) => h,
            FnCtxOrGlobalCtx::Global => 0,
        }
    }

    pub fn handle(self) -> (h: usize)
        ensures
            h == self.spec_handle(),
    {
        match self {
            FnCtxOrGlobalCtx::Fn(h) => h,
            FnCtxOrGlobalCtx::Global => 0,
        }
    }
}

impl Lexer {
    /// Parses one definition statement starting at the current token:
    /// collects the run up to the closing brace (or a bare semicolon for
    /// the declaration-only form), drops whitespace, and hands it to the
    /// definition parser.
    pub fn defun(
        &mut self,
        meta: crate::ast::DefunMeta,
        tree: &mut crate::scope::ScopeTree,
        h: usize,
        session: &crate::session::Session,
    ) -> (r: Option<crate::ast::Expr>)
        requires
            old(self).wf(),
            old(tree).wf(),
            old(tree).valid_handle(h),
            old(tree).scope_count() < usize::MAX,
        ensures
            final(self).wf(),
            final(self).input_view() == old(self).input_view(),
            final(tree).wf(),
            old(self).errors_view().is_prefix_of(final(self).errors_view()),
            r is None ==> final(self).errors_view().len() > old(self).errors_view().len(),
            old(tree).scope_count() <= final(tree).scope_count() <= old(tree).scope_count() + 1,
            forall|h2: usize|
                old(tree).valid_handle(h2) ==> final(tree).valid_handle(h2) && final(tree).spec_parent_of(h2) == old(tree).spec_parent_of(h2) && final(tree).spec_kind_of(
                    h2,
                ) == old(tree).spec_kind_of(h2),
            forall|h2: usize|
                old(tree).valid_handle(h2) && h2 != h && (h2 as int) != old(tree).scope_count()
                    ==> final(tree).local(h2) == old(tree).local(h2),
            crate::defun::spec_defun_post(
                spec_significant(
                    spec_collect(
                        old(self).input_view(),
                        old(self).cur().start as int,
                        0,
                        0,
                        RawTokenView::RightBrace,
                    ).0,
                ),
                session.table_view(),
                meta,
                old(tree).local(h),
                old(tree).scope_count(),
                *final(tree),
                h,
                old(self).errors_view(),
                final(self).errors_view(),
                r,
            ),
            final(self).cur().start as int >= old(self).cur().start as int,
            !(old(self).cur().inner is Eof) ==> final(self).cur().start as int > old(self).cur().start as int,
    {
        let toks = self.expr_loop(RawToken::RightBrace);
        let toks = filter_significant(toks);
        crate::defun::defun_from_tokens(&toks, meta, tree, h, session, &mut self.errors)
    }

    /// Parses one import statement starting at the current token.
    pub fn import(&mut self, meta: crate::ast::ImportMeta) -> (r: Option<crate::ast::Expr>)
        requires
            old(self).wf(),
        ensures
            final(self).wf(),
            final(self).input_view() == old(self).input_view(),
            old(self).errors_view().is_prefix_of(final(self).errors_view()),
            r is None ==> final(self).errors_view().len() > old(self).errors_view().len(),
            crate::import::spec_import_post(
                spec_significant(
                    spec_collect(
                        old(self).input_view(),
                        old(self).cur().start as int,
                        0,
                        0,
                        RawTokenView::Semi,
                    ).0,
                ),
                meta,
                old(self).errors_view(),
                final(self).errors_view(),
                r,
            ),
            final(self).cur().start as int >= old(self).cur().start as int,
            !(old(self).cur().inner is Eof) ==> final(self).cur().start as int > old(self).cur().start as int,
    {
        let toks = self.expr_loop(RawToken::Semi);
        let toks = filter_significant(toks);
        crate::import::parse_import_tokens(&toks, meta, &mut self.errors)
    }

    /// The top-level dispatch: skips whitespace and newlines, folds
    /// modifier words into an accumulating flag set, and routes the
    /// construct keywords `let`, `import` and `defun` to their parsers.
    /// Any other identifier or number starts a standalone expression
    /// statement. End of input yields the terminal node, repeatedly. An
    /// unrecognized byte is a lexical diagnostic; a construct this front
    /// end does not model, or modifiers with no construct after them, is a
    /// syntactic diagnostic; either way parsing resynchronizes at the next
    /// statement boundary.
    pub fn parse_next_expr(
        &mut self,
        tree: &mut crate::scope::ScopeTree,
        fn_context: FnCtxOrGlobalCtx,
        session: &crate::session::Session,
    ) -> (r: Option<crate::ast::Expr>)
        requires
            old(self).wf(),
            old(tree).wf(),
            old(tree).valid_handle(fn_context.spec_handle()),
            old(tree).scope_count() < usize::MAX,
        ensures
            final(self).wf(),
            final(self).input_view() == old(self).input_view(),
            final(tree).wf(),
            old(self).errors_view().is_prefix_of(final(self).errors_view()),
            r is None ==> final(self).errors_view().len() > old(self).errors_view().len(),
            old(tree).scope_count() <= final(tree).scope_count() <= old(tree).scope_count() + 1,
            forall|h2: usize|
                old(tree).valid_handle(h2) ==> final(tree).valid_handle(h2) && final(tree).spec_parent_of(h2) == old(tree).spec_parent_of(h2) && final(tree).spec_kind_of(
                    h2,
                ) == old(tree).spec_kind_of(h2),
            forall|h2: usize|
                old(tree).valid_handle(h2) && h2 != fn_context.spec_handle() && (h2 as int) != old(tree).scope_count() ==> final(tree).local(h2) == old(tree).local(h2),
            old(self).cur().inner is Eof ==> (r matches Some(e) && e is Eof) && final(self).pos_view() == old(self).pos_view() && *final(tree) == *old(tree),
            final(self).cur().start as int >= old(self).cur().start as int,
            !(old(self).cur().inner is Eof) ==> final(self).cur().start as int > old(self).cur().start as int,
            r is None ==> final(self).errors_view().len() > old(self).errors_view().len(),
            (r matches Some(e) && e is Eof) ==> !spec_has_significant(
                old(self).input_view(),
                old(self).cur().start as int,
            ),
            final(tree).local(fn_context.spec_handle()).len() >= old(tree).local(
                fn_context.spec_handle(),
            ).len(),
            forall|j: int|
                0 <= j < old(tree).local(fn_context.spec_handle()).len() ==> final(tree).local(
                    fn_context.spec_handle(),
                )[j] == old(tree).local(fn_context.spec_handle())[j],
            old(self).cur().inner == RawTokenView::Ident(crate::ast::spec_kw_let())
                ==> crate::assign::spec_assignment_post(
                spec_significant(
                    spec_collect(
                        old(self).input_view(),
                        old(self).cur().start as int,
                        0,
                        0,
                        RawTokenView::Semi,
                    ).0,
                ),
                session.table_view(),
                0u8,
                old(tree).local(fn_context.spec_handle()),
                final(tree).local(fn_context.spec_handle()),
                old(self).errors_view(),
                final(self).errors_view(),
                r,
            ),
            old(self).cur().inner == RawTokenView::Ident(crate::ast::spec_kw_import())
                ==> crate::import::spec_import_post(
                spec_significant(
                    spec_collect(
                        old(self).input_view(),
                        old(self).cur().start as int,
                        0,
                        0,
                        RawTokenView::Semi,
                    ).0,
                ),
                crate::ast::ImportMeta(0),
                old(self).errors_view(),
                final(self).errors_view(),
                r,
            ) && *final(tree) == *old(tree),
            old(self).cur().inner == RawTokenView::Ident(crate::ast::spec_kw_defun())
                ==> crate::defun::spec_defun_post(
                spec_significant(
                    spec_collect(
                        old(self).input_view(),
                        old(self).cur().start as int,
                        0,
                        0,
                        RawTokenView::RightBrace,
                    ).0,
                ),
                session.table_view(),
                crate::ast::DefunMeta(0),
                old(tree).local(fn_context.spec_handle()),
                old(tree).scope_count(),
                *final(tree),
                fn_context.spec_handle(),
                old(self).errors_view(),
                final(self).errors_view(),
                r,
            ),
            (old(self).cur().inner matches RawTokenView::Ident(id)
                && !crate::ast::spec_is_expr_start_word(id) && !crate::ast::spec_is_modifier_word(
                id,
            )) || old(self).cur().inner is Number ==> crate::binary::spec_ident_statement_post(
                spec_significant(
                    spec_collect(
                        old(self).input_view(),
                        old(self).cur().start as int,
                        0,
                        0,
                        RawTokenView::Semi,
                    ).0,
                ),
                *old(tree),
                fn_context.spec_handle(),
                old(self).errors_view(),
                final(self).errors_view(),
                r,
            ) && *final(tree) == *old(tree),
    {
        let h = fn_context.handle();
        let mut meta = crate::ast::AnyMetadata(0);
        let mut saw_modifier = false;
        let ghost input = self.input_view();
        loop
            invariant
                self.wf(),
                self.input_view() == input,
                input == old(self).input_view(),
                self.errors_view() == old(self).errors_view(),
                *tree == *old(tree),
                tree.wf(),
                tree.valid_handle(h),
                h == fn_context.spec_handle(),
                tree.scope_count() < usize::MAX,
                old(self).cur().inner is Eof ==> self.cur() == old(self).cur() && self.pos_view()
                    == old(self).pos_view() && !saw_modifier,
                old(self).cur().inner == RawTokenView::Ident(crate::ast::spec_kw_let())
                    ==> self.cur() == old(self).cur() && meta.spec_flags() == 0,
                old(self).cur().inner == RawTokenView::Ident(crate::ast::spec_kw_import())
                    ==> self.cur() == old(self).cur() && meta.spec_flags() == 0,
                old(self).cur().inner == RawTokenView::Ident(crate::ast::spec_kw_defun())
                    ==> self.cur() == old(self).cur() && meta.spec_flags() == 0,
                (old(self).cur().inner matches RawTokenView::Ident(id)
                    && !crate::ast::spec_is_expr_start_word(id)
                    && !crate::ast::spec_is_modifier_word(id)) || old(self).cur().inner is Number
                    ==> self.cur() == old(self).cur(),
                spec_has_significant(input, self.cur().start as int) == spec_has_significant(
                    input,
                    old(self).cur().start as int,
                ) || saw_modifier,
                self.cur().start as int >= old(self).cur().start as int,
                !(old(self).cur().inner is Eof) ==> self.cur().start as int > old(self).cur().start as int || self.cur() == old(self).cur(),
            decreases input.len() - self.cur().start as int + (if self.cur().inner is Eof {
                0int
            } else {
                1int
            }),
        {
            if matches!(self.currently_evaluated_token.as_raw(), RawToken::Eof) {
                if saw_modifier {
                    // Modifiers arrived but no construct followed them.
                    self.report_syntactic("modifiers without a construct");
                    return None;
                }
                proof {
                    assert(!spec_has_significant(input, self.cur().start as int));
                }
                return Some(crate::ast::Expr::Eof);
            }
            if self.currently_evaluated_token.is_whitespace() || matches!(
                self.currently_evaluated_token.as_raw(),
                RawToken::NewLine,
            ) {
                proof {
                    lemma_token_end_bounds(input, self.cur().start as int);
                }
                self.advance();
                continue;
            }
            let cur = &self.currently_evaluated_token;
            if cur.is_ident() {
                let word: Word = match cur.as_ident() {
                    Some(id) => {
                        let s = id.as_slice();
                        if crate::util::eq3(s, 'l' as u8, 'e' as u8, 't' as u8) {
                            Word::Let
                        } else if crate::util::eq6(
                            s,
                            'i' as u8,
                            'm' as u8,
                            'p' as u8,
                            'o' as u8,
                            'r' as u8,
                            't' as u8,
                        ) {
                            Word::Import
                        } else if crate::util::eq5(s, 'd' as u8, 'e' as u8, 'f' as u8, 'u' as u8, 'n' as u8) {
                            Word::Defun
                        } else if crate::util::eq3(s, 'o' as u8, 'b' as u8, 'j' as u8)
                            || crate::util::eq4(s, 'c' as u8, 'o' as u8, 'm' as u8, 'p' as u8)
                            || crate::util::eq4(s, 'p' as u8, 'a' as u8, 'c' as u8, 'k' as u8) {
                            Word::OtherConstruct
                        } else if crate::util::eq3(s, 'p' as u8, 'u' as u8, 'b' as u8) {
                            Word::Modifier(crate::ast::PUBLIC)
                        } else if crate::util::eq9(
                            s,
                            'c' as u8,
                            'o' as u8,
                            'n' as u8,
                            's' as u8,
                            't' as u8,
                            'e' as u8,
                            'x' as u8,
                            'p' as u8,
                            'r' as u8,
                        ) {
                            Word::Modifier(crate::ast::CONSTEXPR)
                        } else if crate::util::eq6(
                            s,
                            's' as u8,
                            't' as u8,
                            'a' as u8,
                            't' as u8,
                            'i' as u8,
                            'c' as u8,
                        ) {
                            Word::Modifier(crate::ast::STATIC)
                        } else if crate::util::eq8(
                            s,
                            'c' as u8,
                            'o' as u8,
                            'n' as u8,
                            's' as u8,
                            'u' as u8,
                            'm' as u8,
                            'e' as u8,
                            'r' as u8,
                        ) {
                            Word::Modifier(crate::ast::CONSUMER)
                        } else if crate::util::eq3(s, 'm' as u8, 'u' as u8, 't' as u8) {
                            Word::Modifier(crate::ast::MUTABLE)
                        } else if crate::util::eq4(s, 'p' as u8, 'r' as u8, 'i' as u8, 'v' as u8) {
                            Word::Modifier(crate::ast::PRIVATE)
                        } else {
                            Word::Plain
                        }
                    },
                    None => Word::Plain,
                };
                match word {
                    Word::Let => {
                        return self.assignment(meta.to_assignment(), tree, h, session);
                    },
                    Word::Import => {
                        return self.import(meta.to_import());
                    },
                    Word::Defun => {
                        return self.defun(meta.to_defun(), tree, h, session);
                    },
                    Word::OtherConstruct => {
                        let _ = self.expr_loop(RawToken::Semi);
                        self.report_syntactic("this construct is not part of the core language");
                        return None;
                    },
                    Word::Modifier(flag) => {
                        meta = meta.add_flag(flag);
                        saw_modifier = true;
                        proof {
                            lemma_token_end_bounds(input, self.cur().start as int);
                        }
                        self.advance();
                        continue;
                    },
                    Word::Plain => {
                        let toks = self.expr_loop(RawToken::Semi);
                        let toks = filter_significant(toks);
                        return crate::binary::resolve_ident_statement(
                            &toks,
                            tree,
                            h,
                            &mut self.errors,
                        );
                    },
                }
            }
            if matches!(self.currently_evaluated_token.as_raw(), RawToken::Number(_)) {
                let toks = self.expr_loop(RawToken::Semi);
                let toks = filter_significant(toks);
                return crate::binary::resolve_ident_statement(&toks, tree, h, &mut self.errors);
            }
            if matches!(self.currently_evaluated_token.as_raw(), RawToken::Unknown(_)) {
                self.report_lexical_here("unrecognized byte in the input");
                proof {
                    lemma_token_end_bounds(input, self.cur().start as int);
                }
                self.advance();
                return None;
            }
            let _ = self.expr_loop(RawToken::Semi);
            self.report_syntactic("a statement cannot start with this token");
            return None;
        }
    }

    /// Records one lexical diagnostic at the current position.
    pub(crate) fn report_lexical_here(&mut self, message: &'static str)
        ensures
            final(self).wf() == old(self).wf(),
            final(self).input_view() == old(self).input_view(),
            final(self).cur() == old(self).cur(),
            final(self).pos_view() == old(self).pos_view(),
            final(self).errors_view().len() == old(self).errors_view().len() + 1,
            old(self).errors_view().is_prefix_of(final(self).errors_view()),
            final(self).errors_view().last().kind == ErrorKind::Lexical,
            final(self).errors_view().last().level == Level::HardError,
    {
        let line = self.nl_count_raw();
        let column = self.column_raw();
        self.errors.report(
            Diagnostic {
                line,
                column,
                kind: ErrorKind::Lexical,
                level: Level::HardError,
                message,
                token: None,
            },
        );
        proof {
            assert(self.errors_view().subrange(0, old(self).errors_view().len() as int)
                =~= old(self).errors_view());
        }
    }
}

} // verus!
