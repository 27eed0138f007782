//! The byte buffers the engine works on: `Cell` for one candidate sequence,
//! `RuleCell` for the replacement alternatives of one rule.  Both hold an
//! inline-optimised vector from the `smallvec` crate; the verified logic
//! sees their contents only through the two sequence abstractions below.

use vstd::prelude::*;

verus! {

/// One candidate byte sequence under expansion; short strings stay inline.
#[verifier::external_body]
#[derive(Debug, PartialEq)]
pub struct Cell {
    pub(crate) buf: smallvec::SmallVec<[u8; 32]>,
}

/// The ordered replacement bytes of one rule.
#[verifier::external_body]
#[derive(Debug, PartialEq)]
pub struct RuleCell {
    pub(crate) buf: smallvec::SmallVec<[u8; 8]>,
}

/// The bytes a `Cell` holds, in order.
pub uninterp spec fn cell_bytes(c: Cell) -> Seq<u8>;

/// The bytes a `RuleCell` holds, in order.
pub uninterp spec fn rule_bytes(c: RuleCell) -> Seq<u8>;

impl Cell {
    /// Relies on `SmallVec::from_slice`: the new vector holds exactly the
    /// slice's elements, in order.
    #[verifier::external_body]
    pub fn from_slice(v: &[u8]) -> (r: Cell)
        ensures
            cell_bytes(r) == v@,
    {
        Cell { buf: smallvec::SmallVec::from_slice(v) }
    }

    /// Relies on `SmallVec::len`: the number of elements held.
    #[verifier::external_body]
    pub fn len(&self) -> (r: usize)
        ensures
            r == cell_bytes(*self).len(),
    {
        self.buf.len()
    }

    /// Relies on `SmallVec`'s `Index` impl (through `Deref` to a slice):
    /// reading position `i` yields the `i`-th element.
    #[verifier::external_body]
    pub fn byte_at(&self, i: usize) -> (r: u8)
        requires
            i < cell_bytes(*self).len(),
        ensures
            r == cell_bytes(*self)[i as int],
    {
        self.buf[i]
    }

    /// Relies on `SmallVec`'s `IndexMut` impl: writing position `i`
    /// replaces the `i`-th element and leaves the rest unchanged.
    #[verifier::external_body]
    pub fn set_byte(&mut self, i: usize, b: u8)
        requires
            i < cell_bytes(*old(self)).len(),
        ensures
            cell_bytes(*final(self)) == cell_bytes(*old(self)).update(i as int, b),
    {
        self.buf[i] = b;
    }

    /// Relies on `SmallVec::clone`: the copy holds the same elements, in
    /// order.
    #[verifier::external_body]
    pub fn duplicate(&self) -> (r: Cell)
        ensures
            cell_bytes(r) == cell_bytes(*self),
    {
        Cell { buf: self.buf.clone() }
    }
}

impl RuleCell {
    /// Relies on `SmallVec::new`: the new vector is empty.
    #[verifier::external_body]
    pub fn empty() -> (r: RuleCell)
        ensures
            rule_bytes(r) == Seq::<u8>::empty(),
    {
        RuleCell { buf: smallvec::SmallVec::new() }
    }

    /// Relies on `SmallVec::from_slice`: the new vector holds exactly the
    /// slice's elements, in order.
    #[verifier::external_body]
    pub fn from_slice(v: &[u8]) -> (r: RuleCell)
        ensures
            rule_bytes(r) == v@,
    {
        RuleCell { buf: smallvec::SmallVec::from_slice(v) }
    }

    /// Relies on `SmallVec::push`: the element is appended at the end.
    #[verifier::external_body]
    pub fn append(&mut self, b: u8)
        ensures
            rule_bytes(*final(self)) == rule_bytes(*old(self)).push(b),
    {
        self.buf.push(b);
    }

    /// Relies on `SmallVec::len`: the number of elements held.
    #[verifier::external_body]
    pub fn len(&self) -> (r: usize)
        ensures
            r == rule_bytes(*self).len(),
    {
        self.buf.len()
    }

    /// Relies on `SmallVec`'s `Index` impl (through `Deref` to a slice):
    /// reading position `i` yields the `i`-th element.
    #[verifier::external_body]
    pub fn byte_at(&self, i: usize) -> (r: u8)
        requires
            i < rule_bytes(*self).len(),
        ensures
            r == rule_bytes(*self)[i as int],
    {
        self.buf[i]
    }

    /// Relies on `SmallVec::clone`: the copy holds the same elements, in
    /// order.
    #[verifier::external_body]
    pub fn duplicate(&self) -> (r: RuleCell)
        ensures
            rule_bytes(r) == rule_bytes(*self),
    {
        RuleCell { buf: self.buf.clone() }
    }
}

} // verus!
