//! Failures of todo commands.

use crate::text::{around_number, decimal};
use vstd::prelude::*;

verus! {

/// Why a todo command failed.
#[derive(Debug, Clone, Copy, PartialEq, Eq, Structural)]
pub enum AppError {
    /// No todo has the given identifier.
    NotFound(u64),
    /// The todo with the given identifier was completed before.
    AlreadyDone(u64),
}

impl AppError {
    /// The message shown for the failure.
    pub open spec fn message(self) -> Seq<char> {
        match self {
            AppError::NotFound(id) => "Todo #"@ + decimal(id as nat) + " not found"@,
            AppError::AlreadyDone(id) => "Todo #"@ + decimal(id as nat) + " is already done"@,
        }
    }

    /// The message shown for the failure.
    pub fn to_string(&self) -> (s: String)
        ensures
            s@ == self.message(),
    {
        match self {
            AppError::NotFound(id) => around_number("Todo #", *id, " not found"),
            AppError::AlreadyDone(id) => around_number("Todo #", *id, " is already done"),
        }
    }
}

} // verus!
