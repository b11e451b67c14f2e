//! What the ledger reports when it turns an instruction down.

use vstd::prelude::*;
use crate::instructions::{Operation, Transaction, TransactionState};

verus! {

/// A refusal. None of them stops a run: the instruction that caused it has
/// had no effect, and the next one is processed as usual.
#[derive(Debug)]
pub enum TransactionSystemError {
    /// A deposit or a withdrawal was not carried out.
    TransactionError { message: String, transaction: Transaction },
    /// A dispute, a resolve or a chargeback was not carried out.
    OperationError { message: String, operation: Operation },
    /// The dispute life cycle has no step from `oldstate` to `newstate`.
    TransactionStateError { oldstate: TransactionState, newstate: TransactionState },
}

impl TransactionSystemError {
    /// Whether this is a `TransactionError` with the given text about the
    /// given transaction.
    pub open spec fn is_transaction_error(self, text: Seq<char>, about: Transaction) -> bool {
        match self {
            TransactionSystemError::TransactionError { message, transaction } => message@ == text
                && transaction == about,
            _ => false,
        }
    }

    /// Whether this is an `OperationError` with the given text about the given
    /// operation.
    pub open spec fn is_operation_error(self, text: Seq<char>, about: Operation) -> bool {
        match self {
            TransactionSystemError::OperationError { message, operation } => message@ == text
                && operation == about,
            _ => false,
        }
    }

    /// Whether this is a `TransactionStateError` for the step from `from` to
    /// `to`.
    pub open spec fn is_state_error(self, from: TransactionState, to: TransactionState) -> bool {
        self == (TransactionSystemError::TransactionStateError { oldstate: from, newstate: to })
    }

    /// The text of the refusal, as a reader of a log would see it.
    pub fn describe(&self) -> (r: String)
        ensures
            self is TransactionStateError ==> r@ == "Illegal attempt to change state"@,
            self is TransactionError ==> r@ == "Transaction processing failure"@,
            self is OperationError ==> r@ == "Operation executing failure"@,
    {
        match self {
            TransactionSystemError::TransactionError { .. } => {
                "Transaction processing failure".to_string()
            },
            TransactionSystemError::OperationError { .. } => {
                "Operation executing failure".to_string()
            },
            TransactionSystemError::TransactionStateError { .. } => {
                "Illegal attempt to change state".to_string()
            },
        }
    }
}

} // verus!
