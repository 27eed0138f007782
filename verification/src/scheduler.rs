//! The scheduler backends: each owns the shared result set and decides
//! how commits from a permutation unit are merged into it.  All backends
//! answer to one contract; only a backend that merges synchronously can
//! promise exact contents between calls.

use vstd::prelude::*;

verus! {

use crate::api::{book_view, book_wf, Rulebook};
use crate::cells::{cell_bytes, Cell};
use crate::cursor::{Cursor, Output};
use crate::expansion::{
    cell_expansion,
    expand_prefix,
    expanded_at,
    generation_step,
    lemma_union_expansions_contains,
    union_expansions,
};
use crate::error::Error;
use crate::patterns::Handler;
use crate::result_set::{set_cells, CellSet};
use crate::shared::{
    pool_execute_merge,
    pool_new,
    runtime_new,
    runtime_spawn_merge,
    SharedSet,
    WorkCounter,
};
use crate::unit::Permutation;

/// A backend that owns the result set and merges committed variants into
/// it.  `contents` and `synchronous` tie the backend to the expansion
/// model: a synchronous backend tracks the set exactly, an asynchronous
/// one only promises that dispatched work eventually merges, and its
/// callers must poll [`Scheduler::clean_state`] before reading.
pub trait Scheduler: Sized {
    /// The result set, as far as this backend tracks it synchronously.
    spec fn contents(&self) -> Set<Seq<u8>>;

    /// Whether every merge has completed by the time a call returns, so
    /// that `contents` is exact between calls.
    spec fn synchronous(&self) -> bool;

    /// The backend's invariant, established by its constructor.
    spec fn inv(&self) -> bool;

    /// Merge every alternative of one accepted site into the result set,
    /// or dispatch that work.
    fn schedule(&mut self, permute: Permutation)
        requires
            old(self).inv(),
            permute.wf(),
            permute.rule_idx == 0,
        ensures
            final(self).inv(),
            final(self).synchronous() == old(self).synchronous(),
            old(self).synchronous() ==> final(self).contents() == old(self).contents().union(
                permute.variants(),
            ),
    ;

    /// Whether no outstanding asynchronous work could still change the
    /// result set.  The set may be read only once this holds.
    fn clean_state(&self) -> (r: bool)
        ensures
            self.synchronous() ==> r,
    ;

    /// One full generation: conceptually drain the current result set,
    /// run the cursor, policy and commit pipeline over every drained
    /// item, and arrange for every accepted variant to be merged back in.
    /// The drained items themselves are kept: variants are additive.
    fn new_generation<H: Handler>(&mut self, rules: &Rulebook)
        requires
            old(self).inv(),
            book_wf(book_view(*rules)),
        ensures
            final(self).inv(),
            final(self).synchronous() == old(self).synchronous(),
            old(self).synchronous() ==> final(self).contents() == generation_step::<H>(
                old(self).contents(),
                book_view(*rules),
            ),
    ;

    /// Seed the result set with one buffer.
    fn push(&mut self, item: Cell)
        requires
            old(self).inv(),
        ensures
            final(self).inv(),
            final(self).synchronous() == old(self).synchronous(),
            old(self).synchronous() ==> final(self).contents() == old(self).contents().insert(
                cell_bytes(item),
            ),
    ;

    /// The number of variants held; meaningful only in a clean state.
    fn length(&self) -> (r: usize)
        requires
            self.inv(),
        ensures
            self.synchronous() ==> r == self.contents().len(),
    ;

    /// Surrender the result set; meaningful only in a clean state.
    fn into_set(self) -> (r: CellSet)
        requires
            self.inv(),
        ensures
            self.synchronous() ==> set_cells(r) == self.contents(),
    ;
}

/// Merge every alternative one fresh site yields into a result set.
pub fn commit_unit(buf: &mut CellSet, permute: Permutation)
    requires
        set_cells(*old(buf)).finite(),
        permute.wf(),
        permute.rule_idx == 0,
    ensures
        set_cells(*final(buf)).finite(),
        set_cells(*final(buf)) == set_cells(*old(buf)).union(permute.variants()),
{
    let mut permute = permute;
    let ghost p0 = permute;
    let ghost orig = set_cells(*buf);
    proof {
        assert(orig.union(p0.variants_upto(0)) =~= orig);
    }
    loop
        invariant_except_break
            set_cells(*buf).finite(),
            permute.wf(),
            permute.rule_seq() == p0.rule_seq(),
            permute.cell_idx == p0.cell_idx,
            (forall|k: int| 0 <= k < p0.rule_seq().len() ==> permute.variant(k) == p0.variant(k)),
            set_cells(*buf) == orig.union(p0.variants_upto(permute.rule_idx as int)),
        ensures
            set_cells(*buf).finite(),
            set_cells(*buf) == orig.union(p0.variants()),
        decreases p0.rule_seq().len() - permute.rule_idx,
    {
        let ghost m = permute.rule_idx as int;
        match permute.commit() {
            Some(x) => {
                buf.insert(x);
                proof {
                    assert(orig.union(p0.variants_upto(m)).insert(p0.variant(m)) =~= orig.union(
                        p0.variants_upto(m + 1),
                    ));
                }
            },
            None => {
                proof {
                    assert(p0.variants_upto(p0.rule_seq().len() as int) =~= p0.variants());
                }
                break;
            },
        }
    }
}

/// Drive one cursor over its whole buffer, committing every site the
/// policy accepts straight into the result set.  This merges exactly the
/// buffer's expansion under the policy.
pub fn permutate_cell<H: Handler>(buf: &mut CellSet, cursor: &mut Cursor)
    requires
        set_cells(*old(buf)).finite(),
        old(cursor).wf(),
        old(cursor).cell_idx == 0,
    ensures
        set_cells(*final(buf)).finite(),
        set_cells(*final(buf)) == set_cells(*old(buf)).union(
            cell_expansion::<H>(old(cursor).buf_seq(), old(cursor).book()),
        ),
{
    let ghost orig = set_cells(*buf);
    let ghost cellv = cursor.buf_seq();
    let ghost book = cursor.book();
    proof {
        assert(orig.union(expand_prefix::<H>(cellv, book, 0)) =~= orig);
    }
    loop
        invariant_except_break
            set_cells(*buf).finite(),
            cursor.wf(),
            cellv == cursor.buf_seq(),
            book == cursor.book(),
            cursor.cell_idx <= cellv.len(),
            set_cells(*buf) == orig.union(
                expand_prefix::<H>(cellv, book, cursor.cell_idx as int),
            ),
        ensures
            set_cells(*buf).finite(),
            set_cells(*buf) == orig.union(cell_expansion::<H>(cellv, book)),
        decreases cellv.len() - cursor.cell_idx,
    {
        let ghost pre_idx = cursor.cell_idx as int;
        match cursor.step() {
            Output::Permute(permute) => {
                let ghost p0 = permute;
                if H::handle(&permute) {
                    proof {
                        let alts = book[cellv[pre_idx]];
                        assert forall|v: Seq<u8>| p0.variants().contains(v) implies expanded_at::<
                            H,
                        >(cellv, book, pre_idx).contains(v) by {
                            let k = choose|k: int|
                                0 <= k < p0.rule_seq().len() && v == p0.variant(k);
                            assert(v == cellv.update(pre_idx, alts[k]));
                        }
                        assert forall|v: Seq<u8>|
                            expanded_at::<H>(cellv, book, pre_idx).contains(v) implies p0.variants(
                        ).contains(v) by {
                            let k = choose|k: int|
                                0 <= k < alts.len() && v == cellv.update(pre_idx, alts[k]);
                            assert(v == p0.variant(k));
                        }
                        assert(p0.variants() =~= expanded_at::<H>(cellv, book, pre_idx));
                    }
                    commit_unit(buf, permute);
                } else {
                    proof {
                        assert(expanded_at::<H>(cellv, book, pre_idx) =~= Set::<Seq<u8>>::empty());
                    }
                }
            },
            Output::NoPermute(_idx) => {
                proof {
                    assert(expanded_at::<H>(cellv, book, pre_idx) =~= Set::<Seq<u8>>::empty());
                }
            },
            Output::EndOfLine => {
                break;
            },
        }
        proof {
            assert(orig.union(expand_prefix::<H>(cellv, book, pre_idx)).union(
                expanded_at::<H>(cellv, book, pre_idx),
            ) =~= orig.union(expand_prefix::<H>(cellv, book, pre_idx + 1)));
        }
    }
}

/// The serial backend: no concurrency at all, every merge happens inline,
/// and the state is clean by construction.
#[derive(Debug)]
pub struct SingleThread {
    pub buf: CellSet,
}

impl SingleThread {
    pub fn new() -> (r: SingleThread)
        ensures
            r.inv(),
            r.synchronous(),
            r.contents() == Set::<Seq<u8>>::empty(),
    {
        SingleThread { buf: CellSet::new() }
    }
}

impl Default for SingleThread {
    fn default() -> (r: SingleThread)
        ensures
            r.inv(),
            r.synchronous(),
            r.contents() == Set::<Seq<u8>>::empty(),
    {
        SingleThread::new()
    }
}

impl crate::api::Length for SingleThread {
    fn length(&self) -> usize {
        CellSet::len(&self.buf)
    }
}

impl Scheduler for SingleThread {
    open spec fn contents(&self) -> Set<Seq<u8>> {
        set_cells(self.buf)
    }

    open spec fn synchronous(&self) -> bool {
        true
    }

    open spec fn inv(&self) -> bool {
        set_cells(self.buf).finite()
    }

    fn schedule(&mut self, permute: Permutation) {
        commit_unit(&mut self.buf, permute);
    }

    fn clean_state(&self) -> (r: bool) {
        true
    }

    fn new_generation<H: Handler>(&mut self, rules: &Rulebook) {
        let ghost orig = set_cells(self.buf);
        let ghost book = book_view(*rules);
        let items = self.buf.drain_to_vec();
        let ghost iseq = items@.map_values(|c: Cell| cell_bytes(c));
        let n = items.len();
        proof {
            assert(set_cells(self.buf) =~= union_expansions::<H>(iseq, book, 0));
        }
        for idx in 0..n
            invariant
                n == items@.len(),
                iseq == items@.map_values(|c: Cell| cell_bytes(c)),
                book == book_view(*rules),
                book_wf(book),
                set_cells(self.buf).finite(),
                set_cells(self.buf) == union_expansions::<H>(iseq, book, idx as int),
        {
            let mut cursor = Cursor::new(&items[idx], rules);
            permutate_cell::<H>(&mut self.buf, &mut cursor);
            proof {
                assert(set_cells(self.buf) == union_expansions::<H>(iseq, book, idx as int).union(
                    cell_expansion::<H>(iseq[idx as int], book),
                ));
            }
        }
        let ghost expanded = union_expansions::<H>(iseq, book, n as int);
        for idx in 0..n
            invariant
                n == items@.len(),
                iseq == items@.map_values(|c: Cell| cell_bytes(c)),
                set_cells(self.buf).finite(),
                set_cells(self.buf) == expanded.union(seq_prefix_set(iseq, idx as int)),
        {
            proof {
                if idx == 0 {
                    assert(expanded.union(seq_prefix_set(iseq, 0)) =~= expanded);
                }
            }
            self.buf.insert(items[idx].duplicate());
            proof {
                assert(expanded.union(seq_prefix_set(iseq, idx as int)).insert(
                    iseq[idx as int],
                ) =~= expanded.union(seq_prefix_set(iseq, idx + 1)));
            }
        }
        proof {
            if n == 0 {
                assert(expanded.union(seq_prefix_set(iseq, 0)) =~= expanded);
            }
            assert forall|v: Seq<u8>| orig.contains(v) implies exists|i: int|
                0 <= i < n && iseq[i] == v by {
                let i = choose|i: int| 0 <= i < items@.len() && cell_bytes(items@[i]) == v;
                assert(iseq[i] == v);
            }
            lemma_drained_step::<H>(orig, book, iseq, n as int, set_cells(self.buf));
        }
    }

    fn push(&mut self, item: Cell) {
        let _ = self.buf.insert(item);
    }

    fn length(&self) -> (r: usize) {
        self.buf.len()
    }

    fn into_set(self) -> (r: CellSet) {
        self.buf
    }
}

/// The thread-pool backend: accepted sites are handed to a fixed-size
/// worker pool, and each worker merges one site's alternatives into a
/// mutex-guarded set under a single lock acquisition.  An atomic counter
/// tracks outstanding tasks, so [`Scheduler::clean_state`] answers
/// honestly; the set may be read only once it does.
#[derive(Debug)]
pub struct MultithreadMutex {
    pool: threadpool::ThreadPool,
    buf: SharedSet,
    pending: WorkCounter,
}

impl MultithreadMutex {
    /// A pool backend with `workers` worker threads.
    pub fn new(workers: usize) -> (r: MultithreadMutex)
        requires
            1 <= workers,
        ensures
            r.inv(),
            !r.synchronous(),
    {
        MultithreadMutex {
            pool: pool_new(workers),
            buf: SharedSet::new(),
            pending: WorkCounter::new(),
        }
    }
}

impl crate::api::Length for MultithreadMutex {
    fn length(&self) -> usize {
        self.buf.len_locked()
    }
}

impl Scheduler for MultithreadMutex {
    open spec fn contents(&self) -> Set<Seq<u8>> {
        Set::empty()
    }

    open spec fn synchronous(&self) -> bool {
        false
    }

    open spec fn inv(&self) -> bool {
        true
    }

    fn schedule(&mut self, permute: Permutation) {
        self.pending.add_one();
        pool_execute_merge(&self.pool, &self.buf, &self.pending, permute);
    }

    fn clean_state(&self) -> (r: bool) {
        self.pending.all_done()
    }

    fn new_generation<H: Handler>(&mut self, rules: &Rulebook) {
        let items = self.buf.drain_locked();
        let n = items.len();
        for idx in 0..n
            invariant
                n == items@.len(),
                book_wf(book_view(*rules)),
        {
            let mut cursor = Cursor::new(&items[idx], rules);
            loop
                invariant
                    cursor.wf(),
                decreases cursor.buf_seq().len() - cursor.cell_idx,
            {
                match cursor.step() {
                    Output::Permute(permute) => {
                        if H::handle(&permute) {
                            self.pending.add_one();
                            pool_execute_merge(&self.pool, &self.buf, &self.pending, permute);
                        }
                    },
                    Output::NoPermute(_idx) => {},
                    Output::EndOfLine => {
                        break;
                    },
                }
            }
        }
        for idx in 0..n
            invariant
                n == items@.len(),
        {
            self.buf.insert_one(items[idx].duplicate());
        }
    }

    fn push(&mut self, item: Cell) {
        self.buf.insert_one(item);
    }

    fn length(&self) -> (r: usize) {
        self.buf.len_locked()
    }

    fn into_set(self) -> (r: CellSet) {
        self.buf.snapshot()
    }
}

/// The runtime-backed backend: identical merge semantics to the pool,
/// but each accepted site becomes one cooperatively scheduled task on an
/// owned runtime.  The same outstanding-task counter answers
/// [`Scheduler::clean_state`].
#[derive(Debug)]
pub struct TokioMutex {
    runtime: tokio::runtime::Runtime,
    buf: SharedSet,
    pending: WorkCounter,
}

impl TokioMutex {
    /// A runtime-backed backend with its own runtime, or the error when
    /// the runtime could not be built.
    pub fn new() -> (r: Result<TokioMutex, Error>)
        ensures
            r matches Ok(t) ==> t.inv() && !t.synchronous(),
    {
        match runtime_new() {
            Ok(rt) => Ok(
                TokioMutex { runtime: rt, buf: SharedSet::new(), pending: WorkCounter::new() },
            ),
            Err(_) => Err(Error::BadInput("the async runtime could not be built".to_string())),
        }
    }
}

impl crate::api::Length for TokioMutex {
    fn length(&self) -> usize {
        self.buf.len_locked()
    }
}

impl Scheduler for TokioMutex {
    open spec fn contents(&self) -> Set<Seq<u8>> {
        Set::empty()
    }

    open spec fn synchronous(&self) -> bool {
        false
    }

    open spec fn inv(&self) -> bool {
        true
    }

    fn schedule(&mut self, permute: Permutation) {
        self.pending.add_one();
        runtime_spawn_merge(&self.runtime, &self.buf, &self.pending, permute);
    }

    fn clean_state(&self) -> (r: bool) {
        self.pending.all_done()
    }

    fn new_generation<H: Handler>(&mut self, rules: &Rulebook) {
        let items = self.buf.drain_locked();
        let n = items.len();
        for idx in 0..n
            invariant
                n == items@.len(),
                book_wf(book_view(*rules)),
        {
            let mut cursor = Cursor::new(&items[idx], rules);
            loop
                invariant
                    cursor.wf(),
                decreases cursor.buf_seq().len() - cursor.cell_idx,
            {
                match cursor.step() {
                    Output::Permute(permute) => {
                        if H::handle(&permute) {
                            self.pending.add_one();
                            runtime_spawn_merge(&self.runtime, &self.buf, &self.pending, permute);
                        }
                    },
                    Output::NoPermute(_idx) => {},
                    Output::EndOfLine => {
                        break;
                    },
                }
            }
        }
        for idx in 0..n
            invariant
                n == items@.len(),
        {
            self.buf.insert_one(items[idx].duplicate());
        }
    }

    fn push(&mut self, item: Cell) {
        self.buf.insert_one(item);
    }

    fn length(&self) -> (r: usize) {
        self.buf.len_locked()
    }

    fn into_set(self) -> (r: CellSet) {
        self.buf.snapshot()
    }
}

/// The byte sequences of the first `n` listed buffers, as a set.
pub open spec fn seq_prefix_set(cells: Seq<Seq<u8>>, n: int) -> Set<Seq<u8>> {
    Set::new(|v: Seq<u8>| exists|i: int| 0 <= i < n && v == cells[i])
}

/// After a drain, an expansion pass over every drained item, and the
/// re-insertion of the drained items, the set holds exactly one
/// generation's step from the drained contents.
proof fn lemma_drained_step<H: Handler>(
    orig: Set<Seq<u8>>,
    book: Map<u8, Seq<u8>>,
    iseq: Seq<Seq<u8>>,
    n: int,
    result: Set<Seq<u8>>,
)
    requires
        n == iseq.len(),
        forall|i: int| 0 <= i < n ==> orig.contains(#[trigger] iseq[i]),
        forall|v: Seq<u8>|
            orig.contains(v) ==> exists|i: int| 0 <= i < n && iseq[i] == v,
        result == union_expansions::<H>(iseq, book, n).union(seq_prefix_set(iseq, n)),
    ensures
        result == generation_step::<H>(orig, book),
{
    assert forall|v: Seq<u8>| result.contains(v) implies generation_step::<H>(
        orig,
        book,
    ).contains(v) by {
        lemma_union_expansions_contains::<H>(iseq, book, n, v);
        if union_expansions::<H>(iseq, book, n).contains(v) {
            let i = choose|i: int|
                0 <= i < n && cell_expansion::<H>(iseq[i], book).contains(v);
            assert(orig.contains(iseq[i]));
        } else {
            let i = choose|i: int| 0 <= i < n && v == iseq[i];
            assert(orig.contains(v));
        }
    }
    assert forall|v: Seq<u8>| generation_step::<H>(orig, book).contains(v) implies result.contains(
        v,
    ) by {
        lemma_union_expansions_contains::<H>(iseq, book, n, v);
        if orig.contains(v) {
            let i = choose|i: int| 0 <= i < n && iseq[i] == v;
            assert(seq_prefix_set(iseq, n).contains(v));
        } else {
            let c = choose|c: Seq<u8>|
                orig.contains(c) && cell_expansion::<H>(c, book).contains(v);
            let i = choose|i: int| 0 <= i < n && iseq[i] == c;
            assert(cell_expansion::<H>(iseq[i], book).contains(v));
        }
    }
    assert(result =~= generation_step::<H>(orig, book));
}

} // verus!
