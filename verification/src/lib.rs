//! Bounded breadth-first expansion of byte sequences under a
//! substitution rulebook.
//!
//! A seed buffer is walked position by position; wherever the rulebook
//! maps the byte there to a rule, and the chosen acceptance policy lets
//! the site fire, one variant per alternative joins a deduplicated
//! result set.  Generations repeat until a pass adds nothing or a
//! caller-chosen limit is reached.  Four pieces cooperate: the cursor
//! walking one buffer, the permutation unit enumerating one site's
//! alternatives, the policy gating sites, and a scheduler backend that
//! owns the result set — serial, thread-pool or async-runtime, all
//! answering to one contract stated over the model in [`expansion`].

pub mod api;
pub mod cells;
pub mod cursor;
pub mod error;
pub mod expansion;
pub mod input;
pub mod multi_runtime;
pub mod patterns;
pub mod result_set;
pub mod scheduler;
pub mod shared;
pub mod unit;

pub use api::{Generator, Length, Rulebook};
pub use cells::{Cell, RuleCell};
pub use cursor::{Cursor, Output};
pub use error::Error;
pub use input::{Pattern, SchedulerInput};
pub use multi_runtime::Schedules;
pub use patterns::{ConstPattern, Handler, ModulusPattern, RuleEntry};
pub use result_set::CellSet;
pub use scheduler::{MultithreadMutex, Scheduler, SingleThread, TokioMutex};
pub use unit::Permutation;
