//! What the concurrent backends share: the mutex-guarded result set, the
//! outstanding-work counter that makes "clean" an honest answer, and the
//! dispatch calls into the thread pool and the async runtime.
//!
//! Nothing here promises anything about the guarded set's contents:
//! between the moment work is dispatched and the moment the counter
//! drains back to zero, other threads may write to it.  Callers read it
//! only once the counter reports no outstanding work.

use vstd::prelude::*;

verus! {

use crate::cells::Cell;
use crate::result_set::CellSet;
use crate::unit::Permutation;

#[verifier::external_type_specification]
#[verifier::external_body]
pub struct ExThreadPool(threadpool::ThreadPool);

#[verifier::external_type_specification]
#[verifier::external_body]
pub struct ExRuntime(tokio::runtime::Runtime);

#[verifier::external_type_specification]
#[verifier::external_body]
pub struct ExIoError(std::io::Error);

/// A handle to a mutex-guarded set of [`Cell`]s shared with dispatched
/// merge tasks.  Every operation takes the lock for its own duration.
#[verifier::external_body]
#[derive(Debug)]
pub struct SharedSet {
    inner: std::sync::Arc<std::sync::Mutex<hashbrown::HashSet<smallvec::SmallVec<[u8; 32]>>>>,
}

impl SharedSet {
    /// Relies on `hashbrown::HashSet::new`, `std::sync::Mutex::new` and
    /// `std::sync::Arc::new`: a fresh, empty guarded set.
    #[verifier::external_body]
    pub fn new() -> SharedSet {
        SharedSet {
            inner: std::sync::Arc::new(std::sync::Mutex::new(hashbrown::HashSet::new())),
        }
    }

    /// Relies on `std::sync::Arc::clone`: another handle to the same
    /// guarded set.
    #[verifier::external_body]
    pub(crate) fn handle(&self) -> SharedSet {
        SharedSet { inner: self.inner.clone() }
    }

    /// Relies on `std::sync::Mutex::lock` and `hashbrown::HashSet::insert`:
    /// the element joins the guarded set, deduplicated by content.
    #[verifier::external_body]
    pub fn insert_one(&self, c: Cell) {
        self.inner.lock().unwrap().insert(c.buf);
    }

    /// Relies on `std::sync::Mutex::lock` and `hashbrown::HashSet::extend`:
    /// all the elements join the guarded set under one lock acquisition,
    /// deduplicated by content.
    #[verifier::external_body]
    pub fn insert_batch(&self, items: Vec<Cell>) {
        self.inner.lock().unwrap().extend(items.into_iter().map(|c| c.buf));
    }

    /// Relies on `std::sync::Mutex::lock` and `hashbrown::HashSet::drain`:
    /// every element held at the moment the lock was taken moves out, in
    /// no particular order, leaving the guarded set empty.
    #[verifier::external_body]
    pub fn drain_locked(&self) -> Vec<Cell> {
        self.inner.lock().unwrap().drain().map(|b| Cell { buf: b }).collect()
    }

    /// Relies on `std::sync::Mutex::lock` and `hashbrown::HashSet::len`:
    /// how many elements were held at the moment the lock was taken.
    #[verifier::external_body]
    pub fn len_locked(&self) -> usize {
        self.inner.lock().unwrap().len()
    }

    /// Relies on `std::sync::Mutex::lock` and `hashbrown::HashSet::clone`:
    /// a snapshot of the elements held at the moment the lock was taken.
    #[verifier::external_body]
    pub fn snapshot(&self) -> CellSet {
        CellSet { set: self.inner.lock().unwrap().clone() }
    }
}

/// Counts dispatched merge tasks that have not finished yet; the pooled
/// and runtime-backed backends answer "clean" only when it reads zero.
#[verifier::external_body]
#[derive(Debug)]
pub struct WorkCounter {
    inner: std::sync::Arc<std::sync::atomic::AtomicUsize>,
}

impl WorkCounter {
    /// Relies on `std::sync::atomic::AtomicUsize::new` and
    /// `std::sync::Arc::new`: a counter starting at zero.
    #[verifier::external_body]
    pub fn new() -> WorkCounter {
        WorkCounter { inner: std::sync::Arc::new(std::sync::atomic::AtomicUsize::new(0)) }
    }

    /// Relies on `std::sync::Arc::clone`: another handle to the same
    /// counter.
    #[verifier::external_body]
    pub(crate) fn handle(&self) -> WorkCounter {
        WorkCounter { inner: self.inner.clone() }
    }

    /// Relies on `AtomicUsize::fetch_add` with sequential consistency:
    /// one more task is outstanding.
    #[verifier::external_body]
    pub(crate) fn add_one(&self) {
        self.inner.fetch_add(1, std::sync::atomic::Ordering::SeqCst);
    }

    /// Relies on `AtomicUsize::fetch_sub` with sequential consistency:
    /// one task has finished.
    #[verifier::external_body]
    pub(crate) fn finish_one(&self) {
        self.inner.fetch_sub(1, std::sync::atomic::Ordering::SeqCst);
    }

    /// Relies on `AtomicUsize::load` with sequential consistency: whether
    /// the counter read zero at that moment.
    #[verifier::external_body]
    pub fn all_done(&self) -> bool {
        self.inner.load(std::sync::atomic::Ordering::SeqCst) == 0
    }
}

/// One dispatched merge: pull every alternative from the unit, insert
/// them all into the guarded set under a single lock acquisition, then
/// mark the task finished.
pub(crate) fn merge_unit(shared: &SharedSet, pending: &WorkCounter, unit: Permutation)
    requires
        unit.wf(),
{
    let mut unit = unit;
    let items = unit.commit_all();
    shared.insert_batch(items);
    pending.finish_one();
}

/// Relies on `threadpool::ThreadPool::new`: a pool with that many worker
/// threads.  A zero worker count is excluded: the call would panic.
#[verifier::external_body]
pub(crate) fn pool_new(workers: usize) -> threadpool::ThreadPool
    requires
        1 <= workers,
{
    threadpool::ThreadPool::new(workers)
}

/// Relies on `threadpool::ThreadPool::execute`: the job runs once on a
/// pool worker.  The job only calls the verified [`merge_unit`].
#[verifier::external_body]
pub(crate) fn pool_execute_merge(
    pool: &threadpool::ThreadPool,
    shared: &SharedSet,
    pending: &WorkCounter,
    unit: Permutation,
)
    requires
        unit.wf(),
{
    let shared = shared.handle();
    let pending = pending.handle();
    pool.execute(move || merge_unit(&shared, &pending, unit));
}

/// Relies on `tokio::runtime::Runtime::new`: a fresh multi-thread
/// runtime, or the I/O error the runtime build reported.
#[verifier::external_body]
pub(crate) fn runtime_new() -> Result<tokio::runtime::Runtime, std::io::Error> {
    tokio::runtime::Runtime::new()
}

/// Relies on `tokio::runtime::Runtime::spawn` and
/// `std::future::poll_fn`: the task runs once, cooperatively scheduled
/// on the runtime.  The task only calls the verified [`merge_unit`].
#[verifier::external_body]
pub(crate) fn runtime_spawn_merge(
    rt: &tokio::runtime::Runtime,
    shared: &SharedSet,
    pending: &WorkCounter,
    unit: Permutation,
)
    requires
        unit.wf(),
{
    let mut job = Some((shared.handle(), pending.handle(), unit));
    rt.spawn(std::future::poll_fn(move |_| {
        if let Some((s, p, u)) = job.take() {
            merge_unit(&s, &p, u);
        }
        std::task::Poll::Ready(())
    }));
}

} // verus!
