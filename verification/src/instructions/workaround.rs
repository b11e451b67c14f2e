//! The loosely typed record that an input row is read into: only deposits and
//! withdrawals carry an amount, so the field is optional here and checked when
//! the record becomes an instruction.

use vstd::prelude::*;
use crate::amount::Amount;

verus! {

/// The type tag of an input row.
#[derive(Clone, Copy, Debug, PartialEq, Eq, Structural)]
pub enum InstructionType {
    Deposit,
    Withdrawal,
    Dispute,
    Resolve,
    Chargeback,
}

/// One input row.
#[derive(Clone, Copy, Debug, PartialEq, Eq, Structural)]
pub struct Instruction {
    pub typ: InstructionType,
    pub client: u16,
    pub tx: u32,
    pub amount: Option<Amount>,
}

/// Why a row is no instruction.
#[derive(Clone, Copy, Debug, PartialEq, Eq, Structural)]
pub enum RecordError {
    /// A deposit or a withdrawal without an amount.
    MissingAmount,
    /// A dispute, a resolve or a chargeback with an amount.
    UnexpectedAmount,
}

impl InstructionType {
    /// Whether rows of this type carry an amount.
    pub open spec fn carries_amount(self) -> bool {
        self is Deposit || self is Withdrawal
    }
}

} // verus!
