//! How a handler fails.

use vstd::prelude::*;
use cosmwasm_std::StdError;
use crate::storage::{error_text, error_to_string, not_found, says_not_found};

verus! {

/// The failure of a handler that writes.
#[derive(Debug)]
pub enum ContractError {
    /// The store failed; its error is handed on as it came.
    Std(StdError),
    /// The caller is not the owner.
    Unauthorized {},
    /// The list has been set up before, and is not set up again.
    AlreadyInitialized {},
}

/// The kinds of failure.
#[derive(Clone, Copy, Debug, PartialEq, Eq, Structural)]
pub enum ErrorKind {
    /// The caller is not the owner.
    Unauthorized,
    /// The id that was asked for is not in the table.
    NotFound,
    /// The store failed in some other way.
    StorageFailure,
    /// The list has been set up before.
    AlreadyInitialized,
}

impl ContractError {
    /// The kind of this failure.
    pub open spec fn kind_of(self) -> ErrorKind {
        match self {
            ContractError::Std(error) => if not_found(error) {
                ErrorKind::NotFound
            } else {
                ErrorKind::StorageFailure
            },
            ContractError::Unauthorized {} => ErrorKind::Unauthorized,
            ContractError::AlreadyInitialized {} => ErrorKind::AlreadyInitialized,
        }
    }

    /// Tells which kind of failure this is.
    pub fn kind(&self) -> (kind: ErrorKind)
        ensures
            kind == self.kind_of(),
    {
        match self {
            ContractError::Std(error) => {
                if says_not_found(error) {
                    ErrorKind::NotFound
                } else {
                    ErrorKind::StorageFailure
                }
            },
            ContractError::Unauthorized {} => ErrorKind::Unauthorized,
            ContractError::AlreadyInitialized {} => ErrorKind::AlreadyInitialized,
        }
    }

    /// The caller was not the owner.
    pub open spec fn is_unauthorized(self) -> bool {
        self is Unauthorized
    }

    /// The id that was asked for is not in the table.
    pub open spec fn is_not_found(self) -> bool {
        self matches ContractError::Std(error) && not_found(error)
    }

    /// The store failed in some other way than by not finding an id.
    pub open spec fn is_storage_failure(self) -> bool {
        self matches ContractError::Std(error) && !not_found(error)
    }

    /// The failure in words: `Unauthorized` for a caller who is not the
    /// owner, `Already initialized` for a second setting up, and the store's
    /// own words for a failure of the store.
    pub open spec fn description(self) -> Seq<char> {
        match self {
            ContractError::Std(error) => error_text(error),
            ContractError::Unauthorized {} => "Unauthorized"@,
            ContractError::AlreadyInitialized {} => "Already initialized"@,
        }
    }

    /// Says in words what went wrong.
    pub fn describe(&self) -> (text: String)
        ensures
            text@ == self.description(),
    {
        match self {
            ContractError::Std(error) => error_to_string(error),
            ContractError::Unauthorized {} => "Unauthorized".to_owned(),
            ContractError::AlreadyInitialized {} => "Already initialized".to_owned(),
        }
    }
}

} // verus!
