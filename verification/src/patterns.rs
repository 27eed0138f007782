//! Replacement rules and the acceptance policies that gate substitution
//! sites.  A policy is consulted before a site's alternatives are
//! enumerated; it sees only the site's position and branching factor.

use vstd::prelude::*;

verus! {

use crate::cells::{RuleCell, rule_bytes};
use crate::unit::Permutation;

/// One replacement rule: a single byte, or an ordered sequence of two or
/// more alternative bytes.
#[derive(Debug, PartialEq)]
pub enum RuleEntry {
    Single(u8),
    Multi(RuleCell),
}

/// The alternatives a rule offers, in declared order.
pub open spec fn rule_view(e: RuleEntry) -> Seq<u8> {
    match e {
        RuleEntry::Single(b) => seq![b],
        RuleEntry::Multi(rc) => rule_bytes(rc),
    }
}

/// A well-formed rule: `Single` carries exactly one alternative, `Multi`
/// two or more.  Every rule therefore offers at least one alternative.
pub open spec fn rule_wf(e: RuleEntry) -> bool {
    match e {
        RuleEntry::Single(_) => true,
        RuleEntry::Multi(rc) => rule_bytes(rc).len() >= 2,
    }
}

impl RuleEntry {
    /// How many alternatives this rule offers.
    pub fn len(&self) -> (r: usize)
        ensures
            r == rule_view(*self).len(),
    {
        match self {
            RuleEntry::Single(_) => 1,
            RuleEntry::Multi(buf) => buf.len(),
        }
    }

    /// A copy offering the same alternatives.
    pub fn duplicate(&self) -> (r: RuleEntry)
        ensures
            rule_view(r) == rule_view(*self),
            rule_wf(*self) ==> rule_wf(r),
    {
        match self {
            RuleEntry::Single(b) => RuleEntry::Single(*b),
            RuleEntry::Multi(buf) => RuleEntry::Multi(buf.duplicate()),
        }
    }

    /// The alternatives flattened into one byte buffer.
    pub fn into_cell(self) -> (r: RuleCell)
        ensures
            rule_bytes(r) == rule_view(self),
    {
        match self {
            RuleEntry::Multi(buf) => buf,
            RuleEntry::Single(byte) => {
                let mut x = RuleCell::empty();
                x.append(byte);
                proof {
                    assert(rule_bytes(x) =~= seq![byte]);
                }
                x
            },
        }
    }
}

/// An acceptance policy: a stateless predicate over a pending substitution
/// site.  It decides only whether the site may branch, never which
/// alternative is chosen, and sees the site's position and branching
/// factor alone.
pub trait Handler {
    /// Whether a site at position `cell_idx` whose rule offers `changes`
    /// alternatives is allowed to fire.
    spec fn accepts(cell_idx: int, changes: int) -> bool;

    /// Decide the pending site described by `permute`.
    fn handle(permute: &Permutation) -> (r: bool)
        requires
            permute.wf(),
        ensures
            r == Self::accepts(permute.cell_idx as int, permute.rule_seq().len() as int),
    ;
}

/// The passthrough policy: every site fires.
#[derive(Debug, Default)]
pub struct ConstPattern;

impl Handler for ConstPattern {
    open spec fn accepts(cell_idx: int, changes: int) -> bool {
        true
    }

    fn handle(permute: &Permutation) -> (r: bool) {
        true
    }
}

/// The stride-modulo policy: a site fires only when its position is a
/// multiple of the rule's branching factor.  For single-alternative rules
/// it agrees with [`ConstPattern`].
#[derive(Debug, Default)]
pub struct ModulusPattern;

impl Handler for ModulusPattern {
    open spec fn accepts(cell_idx: int, changes: int) -> bool {
        cell_idx % changes == 0
    }

    fn handle(permute: &Permutation) -> (r: bool) {
        permute.index() % permute.changes() == 0
    }
}

/// For a rule with exactly one alternative, the stride-modulo policy and
/// the passthrough policy agree on every position.
pub proof fn lemma_single_alternative_policies_agree(cell_idx: int)
    ensures
        <ModulusPattern as Handler>::accepts(cell_idx, 1)
            == <ConstPattern as Handler>::accepts(cell_idx, 1),
{
}

} // verus!
