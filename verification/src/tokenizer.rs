//! The character cursor: a minimal lookahead abstraction over the source
//! bytes. It can report the byte just left behind, peek any distance ahead
//! without consuming, and step forward one byte at a time — the leaf the
//! token reader is built on.

use vstd::prelude::*;

verus! {

/// A lookahead cursor over a byte buffer.
pub struct Tokenizer {
    input: Vec<u8>,
    idx: usize,
}

impl Tokenizer {
    /// The buffer being walked.
    pub closed spec fn input_view(&self) -> Seq<u8> {
        self.input@
    }

    /// The position of the next byte to consume.
    pub closed spec fn idx_view(&self) -> int {
        self.idx as int
    }

    /// The position never runs past the buffer.
    pub closed spec fn wf(&self) -> bool {
        self.idx <= self.input@.len()
    }

    pub fn new(input: Vec<u8>) -> (r: Tokenizer)
        ensures
            r.wf(),
            r.input_view() == input@,
            r.idx_view() == 0,
    {
        Tokenizer { input, idx: 0 }
    }

    /// The byte one past the current position, or zero at the end.
    pub fn next(&self) -> (b: u8)
        requires
            self.wf(),
        ensures
            self.idx_view() + 1 < self.input_view().len() ==> b == self.input_view()[self.idx_view()
                + 1],
            self.idx_view() + 1 >= self.input_view().len() ==> b == 0,
    {
        let n = self.input.len();
        if n - self.idx > 1 {
            self.input[self.idx + 1]
        } else {
            0
        }
    }

    /// The byte just left behind.
    pub fn prev(&self) -> (b: u8)
        requires
            self.wf(),
            self.idx_view() > 0,
        ensures
            b == self.input_view()[self.idx_view() - 1],
    {
        self.input[self.idx - 1]
    }

    /// The byte `pos` places ahead of the current position.
    pub fn nth_next(&self, pos: usize) -> (b: u8)
        requires
            self.wf(),
            self.idx_view() + pos < self.input_view().len(),
        ensures
            b == self.input_view()[self.idx_view() + pos],
    {
        let n = self.input.len();
        self.input[self.idx + pos]
    }

    /// The byte `pos` places ahead, or zero where the buffer ends first.
    pub fn nth_prev(&self, pos: usize) -> (b: u8)
        requires
            self.wf(),
            self.idx_view() + pos <= usize::MAX,
        ensures
            self.idx_view() + pos < self.input_view().len() ==> b == self.input_view()[self.idx_view()
                + pos],
            self.idx_view() + pos >= self.input_view().len() ==> b == 0,
    {
        if self.idx + pos < self.input.len() {
            self.input[self.idx + pos]
        } else {
            0
        }
    }

    /// Consumes and returns the byte at the current position, if any.
    pub fn bump(&mut self) -> (r: Option<u8>)
        requires
            old(self).wf(),
        ensures
            final(self).wf(),
            final(self).input_view() == old(self).input_view(),
            old(self).idx_view() < old(self).input_view().len() ==> (r matches Some(b) && b == old(self).input_view()[old(self).idx_view()]) && final(self).idx_view() == old(self).idx_view()
                + 1,
            old(self).idx_view() >= old(self).input_view().len() ==> r is None && final(self).idx_view() == old(self).idx_view(),
    {
        if self.idx < self.input.len() {
            let b = self.input[self.idx];
            self.idx = self.idx + 1;
            Some(b)
        } else {
            None
        }
    }

    /// Whether every byte has been consumed.
    pub fn is_eof(&self) -> (r: bool)
        ensures
            r == (self.idx_view() >= self.input_view().len()),
    {
        self.idx >= self.input.len()
    }
}

} // verus!
