//! The deduplicated result set: every variant discovered so far, compared
//! and hashed by content.  It wraps a hash set from the `hashbrown`
//! crate; the verified logic sees its contents only as a set of byte
//! sequences.

use vstd::prelude::*;

verus! {

use crate::cells::{cell_bytes, Cell};

/// A set of [`Cell`]s, deduplicated by content.
#[verifier::external_body]
#[derive(Debug)]
pub struct CellSet {
    pub(crate) set: hashbrown::HashSet<smallvec::SmallVec<[u8; 32]>>,
}

/// The byte sequences a `CellSet` holds.
pub uninterp spec fn set_cells(s: CellSet) -> Set<Seq<u8>>;

impl CellSet {
    /// Relies on `hashbrown::HashSet::new`: the new set is empty.
    #[verifier::external_body]
    pub fn new() -> (r: CellSet)
        ensures
            set_cells(r) == Set::<Seq<u8>>::empty(),
    {
        CellSet { set: hashbrown::HashSet::new() }
    }

    /// Relies on `hashbrown::HashSet::insert`: the element joins the set,
    /// and the call reports whether it was new.  `SmallVec` is compared
    /// and hashed by its contents, so membership is by byte sequence.
    #[verifier::external_body]
    pub fn insert(&mut self, c: Cell) -> (r: bool)
        ensures
            set_cells(*final(self)) == set_cells(*old(self)).insert(cell_bytes(c)),
            r == !set_cells(*old(self)).contains(cell_bytes(c)),
    {
        self.set.insert(c.buf)
    }

    /// Relies on `hashbrown::HashSet::contains`: whether an element with
    /// these bytes is held.
    #[verifier::external_body]
    pub fn contains(&self, c: &Cell) -> (r: bool)
        ensures
            r == set_cells(*self).contains(cell_bytes(*c)),
    {
        self.set.contains(&c.buf)
    }

    /// Relies on `hashbrown::HashSet::len`: how many distinct elements
    /// are held.
    #[verifier::external_body]
    pub fn len(&self) -> (r: usize)
        ensures
            r == set_cells(*self).len(),
    {
        self.set.len()
    }

    /// Relies on `hashbrown::HashSet::drain`: every held element is moved
    /// out, each exactly once, in no particular order, leaving the set
    /// empty.
    #[verifier::external_body]
    pub fn drain_to_vec(&mut self) -> (r: Vec<Cell>)
        ensures
            set_cells(*final(self)) == Set::<Seq<u8>>::empty(),
            (forall|i: int|
                0 <= i < r@.len() ==> set_cells(*old(self)).contains(cell_bytes(r@[i]))),
            (forall|v: Seq<u8>|
                set_cells(*old(self)).contains(v) ==> exists|i: int|
                    0 <= i < r@.len() && cell_bytes(r@[i]) == v),
            (forall|i: int, j: int|
                0 <= i < j < r@.len() ==> cell_bytes(r@[i]) != cell_bytes(r@[j])),
    {
        self.set.drain().map(|b| Cell { buf: b }).collect()
    }

    /// Relies on `hashbrown::HashSet::iter` and `SmallVec::clone`: a copy
    /// of every held element, each exactly once, in no particular order.
    #[verifier::external_body]
    pub fn to_vec(&self) -> (r: Vec<Cell>)
        ensures
            (forall|i: int| 0 <= i < r@.len() ==> set_cells(*self).contains(cell_bytes(r@[i]))),
            (forall|v: Seq<u8>|
                set_cells(*self).contains(v) ==> exists|i: int|
                    0 <= i < r@.len() && cell_bytes(r@[i]) == v),
            (forall|i: int, j: int|
                0 <= i < j < r@.len() ==> cell_bytes(r@[i]) != cell_bytes(r@[j])),
    {
        self.set.iter().map(|b| Cell { buf: b.clone() }).collect()
    }
}

} // verus!
