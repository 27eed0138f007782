//! The permutation unit: a pull-based enumerator over the concrete byte
//! sequences produced by applying each alternative of one rule at one
//! position of one buffer.

use vstd::prelude::*;

verus! {

use crate::cells::{Cell, cell_bytes};
use crate::patterns::{RuleEntry, rule_view};

/// One substitution site: a private clone of the buffer, the matched rule,
/// and the position the rule fires at.  Pulling with [`Permutation::commit`]
/// yields the buffer with each alternative substituted, in declared order,
/// then reports exhaustion.
#[derive(Debug, PartialEq)]
pub struct Permutation {
    pub rule: RuleEntry,
    pub cell: Cell,
    pub rule_idx: usize,
    pub cell_idx: usize,
}

impl Permutation {
    /// The alternatives of the matched rule, in declared order.
    pub open spec fn rule_seq(&self) -> Seq<u8> {
        rule_view(self.rule)
    }

    /// The bytes of the unit's private buffer.
    pub open spec fn cell_seq(&self) -> Seq<u8> {
        cell_bytes(self.cell)
    }

    /// A unit is well formed when its site lies inside the buffer, its
    /// rule offers at least one alternative, and its pull position has
    /// not run past the alternatives.
    pub open spec fn wf(&self) -> bool {
        &&& self.cell_idx < self.cell_seq().len()
        &&& self.rule_idx <= self.rule_seq().len()
        &&& 1 <= self.rule_seq().len()
    }

    /// The buffer with alternative `k` substituted at the site.  Stable
    /// across pulls: only the site's own position is ever overwritten.
    pub open spec fn variant(&self, k: int) -> Seq<u8> {
        self.cell_seq().update(self.cell_idx as int, self.rule_seq()[k])
    }

    /// Every concrete sequence this site can produce.
    pub open spec fn variants(&self) -> Set<Seq<u8>> {
        Set::new(|v: Seq<u8>| exists|k: int| 0 <= k < self.rule_seq().len() && v == self.variant(k))
    }

    /// The sequences produced by the first `m` pulls.
    pub open spec fn variants_upto(&self, m: int) -> Set<Seq<u8>> {
        Set::new(|v: Seq<u8>| exists|k: int| 0 <= k < m && v == self.variant(k))
    }

    pub fn new(cell: Cell, rule: RuleEntry, cell_idx: usize) -> (r: Permutation)
        requires
            cell_idx < cell_bytes(cell).len(),
            1 <= rule_view(rule).len(),
        ensures
            r.wf(),
            r.cell_seq() == cell_bytes(cell),
            r.rule_seq() == rule_view(rule),
            r.cell_idx == cell_idx,
            r.rule_idx == 0,
    {
        Permutation { cell, rule, cell_idx, rule_idx: 0 }
    }

    /// The rule's branching factor: how many alternatives the site offers.
    pub fn changes(&self) -> (r: usize)
        ensures
            r == self.rule_seq().len(),
    {
        self.rule.len()
    }

    /// The position the rule fires at.
    pub fn index(&self) -> (r: usize)
        ensures
            r == self.cell_idx,
    {
        self.cell_idx
    }

    /// The matched rule.
    pub fn rules(&self) -> (r: &RuleEntry)
        ensures
            *r == self.rule,
            rule_view(*r) == self.rule_seq(),
    {
        &self.rule
    }

    /// The length of the buffer being permuted.
    pub fn len(&self) -> (r: usize)
        ensures
            r == self.cell_seq().len(),
    {
        self.cell.len()
    }

    /// Whether another pull will still yield a buffer.
    pub fn peek_next(&self) -> (r: bool)
        ensures
            r == (self.rule_idx < self.rule_seq().len()),
    {
        match &self.rule {
            RuleEntry::Single(_) => self.rule_idx == 0,
            RuleEntry::Multi(rules) => self.rule_idx < rules.len(),
        }
    }

    /// One pull: on the `k`-th call (counting from zero) the buffer with
    /// alternative `k` substituted at the site, and exhaustion once every
    /// alternative has been yielded.  Pulling after exhaustion stays
    /// exhausted and changes nothing.
    pub fn commit(&mut self) -> (r: Option<Cell>)
        requires
            old(self).wf(),
        ensures
            final(self).wf(),
            final(self).rule_seq() == old(self).rule_seq(),
            final(self).cell_idx == old(self).cell_idx,
            final(self).cell_seq().len() == old(self).cell_seq().len(),
            forall|k: int|
                0 <= k < old(self).rule_seq().len() ==> final(self).variant(k) == old(
                    self,
                ).variant(k),
            if old(self).rule_idx < old(self).rule_seq().len() {
                &&& final(self).rule_idx == old(self).rule_idx + 1
                &&& r matches Some(c) && cell_bytes(c) == old(self).variant(
                    old(self).rule_idx as int,
                )
            } else {
                &&& *final(self) == *old(self)
                &&& r is None
            },
    {
        let byte: u8 = match &self.rule {
            RuleEntry::Single(b) => {
                if self.rule_idx > 0 {
                    return None;
                }
                *b
            },
            RuleEntry::Multi(rules) => {
                if self.rule_idx >= rules.len() {
                    return None;
                }
                rules.byte_at(self.rule_idx)
            },
        };
        let ghost pre = *self;
        self.cell.set_byte(self.cell_idx, byte);
        self.rule_idx = self.rule_idx + 1;
        proof {
            assert forall|k: int| 0 <= k < pre.rule_seq().len() implies self.variant(k)
                == pre.variant(k) by {
                assert(self.variant(k) =~= pre.variant(k));
            }
            assert(cell_bytes(self.cell) =~= pre.variant(pre.rule_idx as int));
        }
        Some(self.cell.duplicate())
    }

    /// Pull until exhaustion, collecting every yielded buffer: the
    /// buffer with each remaining alternative substituted at the site,
    /// in declared order.
    pub fn commit_all(&mut self) -> (r: Vec<Cell>)
        requires
            old(self).wf(),
        ensures
            final(self).wf(),
            r@.len() == old(self).rule_seq().len() - old(self).rule_idx,
            forall|i: int|
                0 <= i < r@.len() ==> cell_bytes(r@[i]) == old(self).variant(
                    old(self).rule_idx + i,
                ),
    {
        let ghost p0 = *self;
        let mut out: Vec<Cell> = Vec::new();
        loop
            invariant_except_break
                self.wf(),
                self.rule_seq() == p0.rule_seq(),
                self.cell_idx == p0.cell_idx,
                self.rule_idx == p0.rule_idx + out@.len(),
                (forall|k: int|
                    0 <= k < p0.rule_seq().len() ==> self.variant(k) == p0.variant(k)),
                (forall|i: int|
                    0 <= i < out@.len() ==> cell_bytes(out@[i]) == p0.variant(p0.rule_idx + i)),
            ensures
                self.wf(),
                out@.len() == p0.rule_seq().len() - p0.rule_idx,
                (forall|i: int|
                    0 <= i < out@.len() ==> cell_bytes(out@[i]) == p0.variant(p0.rule_idx + i)),
            decreases self.rule_seq().len() - self.rule_idx,
        {
            match self.commit() {
                Some(x) => {
                    out.push(x);
                },
                None => {
                    break;
                },
            }
        }
        out
    }
}

} // verus!
