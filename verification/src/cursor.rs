//! The cursor: a short-lived walker over one buffer.  Each step looks at
//! one position, consults the rulebook, and reports whether a
//! substitution site exists there.

use vstd::prelude::*;

verus! {

use crate::api::{book_view, book_wf, Rulebook};
use crate::cells::{cell_bytes, Cell};
use crate::unit::Permutation;

/// What one cursor step found at the current position.
#[derive(Debug, PartialEq)]
pub enum Output {
    /// A substitution site: the buffer, the matched rule and the position,
    /// wrapped into an enumerator over the site's alternatives.
    Permute(Permutation),
    /// No rule matches the byte at this position.
    NoPermute(usize),
    /// The walk ran past the end of the buffer.
    EndOfLine,
}

/// Walks one buffer position by position against one rulebook.  A cursor
/// serves exactly one buffer; it is created, stepped to `EndOfLine`, and
/// dropped.
#[derive(Debug)]
pub struct Cursor<'buf, 'rules> {
    pub buf: &'buf Cell,
    pub rule_lookup: &'rules Rulebook,
    pub cell_idx: usize,
    pub reset_flag: bool,
}

impl<'b, 'r> Cursor<'b, 'r> {
    /// The bytes of the buffer being walked.
    pub open spec fn buf_seq(&self) -> Seq<u8> {
        cell_bytes(*self.buf)
    }

    /// The rulebook consulted at each position.
    pub open spec fn book(&self) -> Map<u8, Seq<u8>> {
        book_view(*self.rule_lookup)
    }

    /// A cursor is well formed while its rulebook is and its position has
    /// not run past the point where the walk reports the end.
    pub open spec fn wf(&self) -> bool {
        &&& book_wf(self.book())
        &&& self.cell_idx <= self.buf_seq().len()
    }

    pub fn new(buf: &'b Cell, rule_lookup: &'r Rulebook) -> (r: Cursor<'b, 'r>)
        requires
            book_wf(book_view(*rule_lookup)),
        ensures
            r.wf(),
            r.buf == buf,
            r.rule_lookup == rule_lookup,
            r.cell_idx == 0,
            !r.reset_flag,
    {
        Cursor { buf, cell_idx: 0, rule_lookup, reset_flag: false }
    }

    /// The buffer this cursor walks.
    pub fn buffer(&self) -> (r: &'b Cell)
        ensures
            r == self.buf,
    {
        self.buf
    }

    /// One step: inspect the current position and advance past it, or
    /// report the end of the buffer and arm the one-shot reset flag.
    pub fn step(&mut self) -> (r: Output)
        requires
            old(self).wf(),
        ensures
            final(self).wf(),
            final(self).buf == old(self).buf,
            final(self).rule_lookup == old(self).rule_lookup,
            if old(self).cell_idx == old(self).buf_seq().len() {
                &&& r is EndOfLine
                &&& final(self).cell_idx == 0
                &&& final(self).reset_flag
            } else {
                &&& final(self).cell_idx == old(self).cell_idx + 1
                &&& final(self).reset_flag == old(self).reset_flag
                &&& if old(self).book().dom().contains(
                    old(self).buf_seq()[old(self).cell_idx as int],
                ) {
                    r matches Output::Permute(p) && p.wf() && p.cell_seq() == old(self).buf_seq()
                        && p.cell_idx == old(self).cell_idx && p.rule_idx == 0 && p.rule_seq()
                        == old(self).book()[old(self).buf_seq()[old(self).cell_idx as int]]
                } else {
                    r matches Output::NoPermute(i) && i == old(self).cell_idx
                }
            },
    {
        if self.cell_idx >= self.buf.len() {
            self.cell_idx = 0;
            self.reset_flag = true;
            return Output::EndOfLine;
        }
        let byte = self.buf.byte_at(self.cell_idx);

        let output = match self.rule_lookup.lookup(byte) {
            Some(entry) => Output::Permute(
                Permutation::new(self.buf.duplicate(), entry.duplicate(), self.cell_idx),
            ),
            None => Output::NoPermute(self.cell_idx),
        };

        self.cell_idx = self.cell_idx + 1;
        output
    }
}

} // verus!
