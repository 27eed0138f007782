//! The crate's error type.  Construction is the only fallible stage: the
//! expansion itself either produces more variants or it does not.

use vstd::prelude::*;

verus! {

/// A rejected input, with a short description of what was wrong.
#[derive(Debug)]
pub enum Error {
    BadInput(String),
}

impl Error {
    /// The description carried by the error.
    pub fn into_message(self) -> (r: String)
        ensures
            self matches Error::BadInput(m) && r == m,
    {
        match self {
            Error::BadInput(m) => m,
        }
    }
}

} // verus!
