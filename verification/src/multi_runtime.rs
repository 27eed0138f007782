//! Translates a driver's configuration value into one concrete backend,
//! held for the whole run behind a single tagged union so the hot path
//! needs no open-ended virtual dispatch.

use vstd::prelude::*;

verus! {

use crate::api::{Length, Rulebook};
use crate::cells::Cell;
use crate::error::Error;
use crate::input::SchedulerInput;
use crate::patterns::Handler;
use crate::result_set::CellSet;
use crate::scheduler::{MultithreadMutex, Scheduler, SingleThread, TokioMutex};
use crate::unit::Permutation;

/// One scheduler backend, selected once at startup.
#[derive(Debug)]
pub enum Schedules {
    Async(TokioMutex),
    Pool(MultithreadMutex),
    SingleThread(SingleThread),
}

impl Schedules {
    /// Build the backend a driver selected; `workers` sizes the thread
    /// pool.  Refused when the pool is selected with no workers, or when
    /// the async runtime cannot be built.
    pub fn from_opt(scheduler: &SchedulerInput, workers: usize) -> (r: Result<Schedules, Error>)
        ensures
            match r {
                Ok(s) => {
                    &&& s.inv()
                    &&& s.synchronous() == (scheduler is SingleThread)
                    &&& (s is SingleThread) == (scheduler is SingleThread)
                    &&& (s is Pool) == (scheduler is ThreadPool)
                    &&& (s is Async) == (scheduler is AsyncRuntime)
                    &&& (scheduler is SingleThread ==> s.contents() =~= Set::<Seq<u8>>::empty())
                },
                Err(e) => {
                    &&& !(scheduler is SingleThread)
                    &&& (scheduler is ThreadPool ==> workers == 0)
                    &&& e matches Error::BadInput(_)
                },
            },
    {
        match scheduler {
            SchedulerInput::AsyncRuntime => match TokioMutex::new() {
                Ok(t) => Ok(Schedules::Async(t)),
                Err(e) => Err(e),
            },
            SchedulerInput::ThreadPool => {
                if workers == 0 {
                    Err(Error::BadInput("the thread pool needs at least one worker".to_string()))
                } else {
                    Ok(Schedules::Pool(MultithreadMutex::new(workers)))
                }
            },
            SchedulerInput::SingleThread => Ok(Schedules::SingleThread(SingleThread::new())),
        }
    }
}

impl Length for Schedules {
    fn length(&self) -> usize {
        match self {
            Schedules::Async(rt) => Length::length(rt),
            Schedules::Pool(pool) => Length::length(pool),
            Schedules::SingleThread(func) => Length::length(func),
        }
    }
}

impl Scheduler for Schedules {
    open spec fn contents(&self) -> Set<Seq<u8>> {
        match self {
            Schedules::Async(rt) => rt.contents(),
            Schedules::Pool(pool) => pool.contents(),
            Schedules::SingleThread(func) => func.contents(),
        }
    }

    open spec fn synchronous(&self) -> bool {
        self matches Schedules::SingleThread(_)
    }

    open spec fn inv(&self) -> bool {
        match self {
            Schedules::Async(rt) => rt.inv(),
            Schedules::Pool(pool) => pool.inv(),
            Schedules::SingleThread(func) => func.inv(),
        }
    }

    fn schedule(&mut self, permute: Permutation) {
        match self {
            Schedules::Async(rt) => rt.schedule(permute),
            Schedules::Pool(pool) => pool.schedule(permute),
            Schedules::SingleThread(func) => func.schedule(permute),
        }
    }

    fn clean_state(&self) -> (r: bool) {
        match self {
            Schedules::Async(rt) => rt.clean_state(),
            Schedules::Pool(pool) => pool.clean_state(),
            Schedules::SingleThread(func) => func.clean_state(),
        }
    }

    fn new_generation<H: Handler>(&mut self, rules: &Rulebook) {
        match self {
            Schedules::Async(rt) => rt.new_generation::<H>(rules),
            Schedules::Pool(pool) => pool.new_generation::<H>(rules),
            Schedules::SingleThread(func) => func.new_generation::<H>(rules),
        }
    }

    fn push(&mut self, item: Cell) {
        match self {
            Schedules::Async(rt) => rt.push(item),
            Schedules::Pool(pool) => pool.push(item),
            Schedules::SingleThread(func) => func.push(item),
        }
    }

    fn length(&self) -> (r: usize) {
        match self {
            Schedules::Async(rt) => Scheduler::length(rt),
            Schedules::Pool(pool) => Scheduler::length(pool),
            Schedules::SingleThread(func) => Scheduler::length(func),
        }
    }

    fn into_set(self) -> (r: CellSet) {
        match self {
            Schedules::Async(rt) => rt.into_set(),
            Schedules::Pool(pool) => pool.into_set(),
            Schedules::SingleThread(func) => func.into_set(),
        }
    }
}

} // verus!
