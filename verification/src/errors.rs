//! The error type of the statement parsers.

use vstd::prelude::*;

verus! {

/// Why a statement could not be read.
#[derive(Debug)]
pub enum ImportError {
    /// The input is not a statement of the expected format; the text says why.
    InvalidInput(String),
}

impl ImportError {
    /// The text of the error.
    pub fn message(&self) -> (r: String)
        ensures
            r@ == self.message_spec(),
    {
        match self {
            ImportError::InvalidInput(m) => m.clone(),
        }
    }

    pub open spec fn message_spec(&self) -> Seq<char> {
        match self {
            ImportError::InvalidInput(m) => m@,
        }
    }
}

} // verus!
