//! The rulebook and the generator: what a driver touches to run an
//! expansion.  The rulebook maps a trigger byte to its replacement rule;
//! it is built once, before a run, and only read afterwards.

use vstd::prelude::*;

verus! {

use crate::cells::{rule_bytes, Cell, RuleCell};
use crate::error::Error;
use crate::expansion::generation_step;
use crate::patterns::{Handler, RuleEntry, rule_view};
use crate::result_set::{set_cells, CellSet};
use crate::scheduler::Scheduler;

/// Mapping from trigger byte to replacement rule.  Built once by
/// [`Rulebook::from_pairs`], never written during a run.
#[verifier::external_body]
#[derive(Debug)]
pub struct Rulebook {
    map: hashbrown::HashMap<u8, RuleEntry>,
}

/// The mapping a rulebook holds: each trigger byte to the alternatives of
/// its rule, in declared order.
pub uninterp spec fn book_view(b: Rulebook) -> Map<u8, Seq<u8>>;

/// The mapping of a rulebook with no entries.
pub open spec fn empty_book() -> Map<u8, Seq<u8>> {
    Map::empty()
}

/// A well-formed rulebook mapping: every rule offers at least one
/// alternative.
pub open spec fn book_wf(m: Map<u8, Seq<u8>>) -> bool {
    forall|k: u8| m.dom().contains(k) ==> 1 <= m[k].len()
}

/// The mapping described by a sequence of (trigger, alternatives) pairs,
/// later pairs overwriting earlier ones.
pub open spec fn pairs_map(pairs: Seq<(u8, Seq<u8>)>) -> Map<u8, Seq<u8>>
    decreases pairs.len(),
{
    if pairs.len() == 0 {
        Map::empty()
    } else {
        pairs_map(pairs.drop_last()).insert(pairs.last().0, pairs.last().1)
    }
}

/// The view of each (trigger, replacement) input pair.
pub open spec fn pair_views(pairs: Seq<(u8, RuleCell)>) -> Seq<(u8, Seq<u8>)> {
    pairs.map_values(|p: (u8, RuleCell)| (p.0, rule_bytes(p.1)))
}

impl Rulebook {
    /// Relies on `hashbrown::HashMap::new`: the new map is empty.
    #[verifier::external_body]
    pub(crate) fn empty() -> (r: Rulebook)
        ensures
            book_view(r) == empty_book(),
    {
        Rulebook { map: hashbrown::HashMap::new() }
    }

    /// Relies on `hashbrown::HashMap::insert`: the entry is stored under
    /// its key, replacing any previous entry for that key.  `u8` keys are
    /// compared and hashed by value.
    #[verifier::external_body]
    pub(crate) fn insert_entry(&mut self, k: u8, e: RuleEntry)
        ensures
            book_view(*final(self)) == book_view(*old(self)).insert(k, rule_view(e)),
    {
        self.map.insert(k, e);
    }

    /// Relies on `hashbrown::HashMap::get`: the entry stored under the
    /// key, if any.  `u8` keys are compared and hashed by value.
    #[verifier::external_body]
    pub fn lookup(&self, k: u8) -> (r: Option<&RuleEntry>)
        ensures
            match r {
                Some(e) => book_view(*self).dom().contains(k) && rule_view(*e) == book_view(
                    *self,
                )[k],
                None => !book_view(*self).dom().contains(k),
            },
    {
        self.map.get(&k)
    }

    /// Build a rulebook from (trigger, replacement) pairs.  A later pair
    /// overwrites an earlier one with the same trigger; a pair with an
    /// empty replacement is refused outright.
    pub fn from_pairs(pairs: Vec<(u8, RuleCell)>) -> (r: Result<Rulebook, Error>)
        ensures
            match r {
                Ok(book) => {
                    &&& book_view(book) == pairs_map(pair_views(pairs@))
                    &&& book_wf(book_view(book))
                    &&& forall|i: int|
                        0 <= i < pairs@.len() ==> 1 <= rule_bytes(pairs@[i].1).len()
                },
                Err(e) => {
                    &&& exists|i: int|
                        0 <= i < pairs@.len() && rule_bytes(pairs@[i].1).len() == 0
                    &&& e matches Error::BadInput(_)
                },
            },
    {
        let mut book = Rulebook::empty();
        let n = pairs.len();
        assert(pair_views(pairs@).take(0) =~= Seq::<(u8, Seq<u8>)>::empty());
        for i in 0..n
            invariant
                n == pairs@.len(),
                book_view(book) == pairs_map(pair_views(pairs@).take(i as int)),
                book_wf(book_view(book)),
                forall|j: int| 0 <= j < i ==> 1 <= rule_bytes(pairs@[j].1).len(),
        {
            let len = pairs[i].1.len();
            if len == 0 {
                return Err(Error::BadInput("a rule's replacement must not be empty".to_string()));
            }
            let entry = if len == 1 {
                RuleEntry::Single(pairs[i].1.byte_at(0))
            } else {
                RuleEntry::Multi(pairs[i].1.duplicate())
            };
            proof {
                assert(rule_view(entry) =~= rule_bytes(pairs@[i as int].1));
            }
            book.insert_entry(pairs[i].0, entry);
            proof {
                let pv = pair_views(pairs@);
                assert(pv.take(i + 1).drop_last() =~= pv.take(i as int));
                assert(pv.take(i + 1).last() == pv[i as int]);
            }
        }
        proof {
            assert(pair_views(pairs@).take(n as int) =~= pair_views(pairs@));
        }
        Ok(book)
    }
}

/// Orchestrates a run: holds the rulebook, the chosen scheduler backend
/// and the generation counter, and forwards one generation at a time.
#[derive(Debug)]
pub struct Generator<T> {
    pub rules: Rulebook,
    pub gen_ctr: usize,
    pub scheduler: T,
}

impl<T: Scheduler> Generator<T> {
    /// A generator is well formed while its rulebook is and its backend's
    /// invariant holds.
    pub open spec fn wf(&self) -> bool {
        &&& book_wf(book_view(self.rules))
        &&& self.scheduler.inv()
    }

    pub fn new(rules: Rulebook, scheduler: T) -> (r: Generator<T>)
        requires
            book_wf(book_view(rules)),
            scheduler.inv(),
        ensures
            r.wf(),
            r.rules == rules,
            r.gen_ctr == 0,
            r.scheduler == scheduler,
    {
        Generator { rules, gen_ctr: 0, scheduler }
    }

    /// The rulebook used to replace bytes: each trigger byte maps to the
    /// rule whose alternatives replace it.
    pub fn map(&self) -> (r: &Rulebook)
        ensures
            r == &self.rules,
    {
        &self.rules
    }

    /// Advance one generation under policy `H` and count it.  For a
    /// synchronous backend the result set afterwards is exactly one
    /// generation step; an asynchronous backend only dispatches, and its
    /// caller polls [`Generator::done`] before reading.
    pub fn new_generation<H: Handler>(&mut self)
        requires
            old(self).wf(),
            old(self).gen_ctr < usize::MAX,
        ensures
            final(self).wf(),
            final(self).rules == old(self).rules,
            final(self).gen_ctr == old(self).gen_ctr + 1,
            final(self).scheduler.synchronous() == old(self).scheduler.synchronous(),
            old(self).scheduler.synchronous() ==> final(self).scheduler.contents()
                == generation_step::<H>(
                old(self).scheduler.contents(),
                book_view(old(self).rules),
            ),
    {
        self.scheduler.new_generation::<H>(&self.rules);
        self.gen_ctr = self.gen_ctr + 1;
    }

    /// How many generations have completed.
    pub fn generation(&self) -> (r: usize)
        ensures
            r == self.gen_ctr,
    {
        self.gen_ctr
    }

    /// The number of variants held; meaningful only once [`Generator::done`]
    /// reports a clean state.
    pub fn length(&self) -> (r: usize) where T: Scheduler + Length
        requires
            self.wf(),
        ensures
            self.scheduler.synchronous() ==> r == self.scheduler.contents().len(),
    {
        Scheduler::length(&self.scheduler)
    }

    /// Whether no outstanding asynchronous work could still change the
    /// result set.
    pub fn done(&self) -> (r: bool)
        ensures
            self.scheduler.synchronous() ==> r,
    {
        self.scheduler.clean_state()
    }

    /// Surrender the result set; meaningful only in a clean state.
    pub fn into_set(self) -> (r: CellSet)
        requires
            self.wf(),
        ensures
            self.scheduler.synchronous() ==> set_cells(r) == self.scheduler.contents(),
    {
        self.scheduler.into_set()
    }

    /// Seed the result set with one byte sequence.
    pub fn seed(&mut self, item: &[u8])
        requires
            old(self).wf(),
        ensures
            final(self).wf(),
            final(self).rules == old(self).rules,
            final(self).gen_ctr == old(self).gen_ctr,
            final(self).scheduler.synchronous() == old(self).scheduler.synchronous(),
            old(self).scheduler.synchronous() ==> final(self).scheduler.contents() == old(
                self,
            ).scheduler.contents().insert(item@),
    {
        self.scheduler.push(Cell::from_slice(item));
    }
}

/// Report how many variants a holder of a result set contains.
pub trait Length {
    fn length(&self) -> usize;
}

impl Length for CellSet {
    fn length(&self) -> (r: usize)
        ensures
            r == set_cells(*self).len(),
    {
        self.len()
    }
}

} // verus!
