//! Instructions, the transactions they record, and the dispute life cycle of
//! a recorded transaction.

use vstd::prelude::*;
use crate::amount::Amount;
use crate::errors::TransactionSystemError;

pub mod workaround;

verus! {

/// Where a recorded transaction stands in its dispute life cycle.
#[derive(Clone, Copy, Debug, PartialEq, Eq, Structural)]
pub enum TransactionState {
    Undisputed,
    Disputed,
    Resolved,
    Chargedback,
}

impl TransactionState {
    /// The legal steps: a dispute opens on an undisputed or a resolved
    /// transaction; an open dispute is resolved or charged back. There are no
    /// others, and no step leads back to `Undisputed`.
    pub open spec fn admits(self, next: TransactionState) -> bool {
        match next {
            TransactionState::Undisputed => false,
            TransactionState::Disputed => self is Undisputed || self is Resolved,
            TransactionState::Resolved => self is Disputed,
            TransactionState::Chargedback => self is Disputed,
        }
    }

    /// The state's name in snake case.
    pub fn name(&self) -> (r: String)
        ensures
            r@ == match *self {
                TransactionState::Undisputed => "undisputed"@,
                TransactionState::Disputed => "disputed"@,
                TransactionState::Resolved => "resolved"@,
                TransactionState::Chargedback => "chargedback"@,
            },
    {
        match self {
            TransactionState::Undisputed => "undisputed".to_string(),
            TransactionState::Disputed => "disputed".to_string(),
            TransactionState::Resolved => "resolved".to_string(),
            TransactionState::Chargedback => "chargedback".to_string(),
        }
    }
}

impl Default for TransactionState {
    fn default() -> (r: Self)
        ensures
            r == TransactionState::Undisputed,
    {
        TransactionState::Undisputed
    }
}

/// A deposit or a withdrawal: who, which, how much, and its dispute state.
#[derive(Clone, Copy, Debug, PartialEq, Eq, Structural)]
pub struct Transaction {
    pub client: u16,
    pub tx: u32,
    pub amount: Amount,
    pub state: TransactionState,
}

impl Transaction {
    /// An undisputed transaction.
    pub fn new(client: u16, tx: u32, amount: Amount) -> (r: Self)
        ensures
            r == (Transaction { client, tx, amount, state: TransactionState::Undisputed }),
    {
        Transaction { client, tx, amount, state: TransactionState::Undisputed }
    }

    pub fn amount(&self) -> (r: Amount)
        ensures
            r == self.amount,
    {
        self.amount
    }

    pub fn client(&self) -> (r: u16)
        ensures
            r == self.client,
    {
        self.client
    }

    pub fn tx(&self) -> (r: u32)
        ensures
            r == self.tx,
    {
        self.tx
    }

    pub fn state(&self) -> (r: TransactionState)
        ensures
            r == self.state,
    {
        self.state
    }

    /// This transaction with `state` in place of its own.
    pub open spec fn with_state(self, state: TransactionState) -> Transaction {
        Transaction { state, ..self }
    }

    /// Turns the amount into its negation; all else stays.
    pub fn negate(&mut self)
        ensures
            *final(self) == (Transaction { amount: old(self).amount.negation(), ..*old(self) }),
            final(self).amount.scaled() == -old(self).amount.scaled(),
    {
        self.amount = self.amount.negated();
    }

    /// What a requested step to `next` does to a transaction `self`: where
    /// the life cycle has the step, `after` is `self` in the new state and `r`
    /// is `Ok`; where it has not, `after` is `self` and `r` names the refused
    /// step.
    pub open spec fn stepped(
        self,
        next: TransactionState,
        after: Transaction,
        r: Result<(), TransactionSystemError>,
    ) -> bool {
        if self.state.admits(next) {
            r is Ok && after == self.with_state(next)
        } else {
            r is Err && r->Err_0.is_state_error(self.state, next) && after == self
        }
    }

    /// Takes the step to `next` if the life cycle has it.
    fn try_set(&mut self, next: TransactionState) -> (r: Result<(), TransactionSystemError>)
        ensures
            old(self).stepped(next, *final(self), r),
    {
        let legal = match next {
            TransactionState::Undisputed => false,
            TransactionState::Disputed => match self.state {
                TransactionState::Undisputed | TransactionState::Resolved => true,
                _ => false,
            },
            _ => match self.state {
                TransactionState::Disputed => true,
                _ => false,
            },
        };
        if legal {
            self.state = next;
            Ok(())
        } else {
            Err(TransactionSystemError::TransactionStateError { oldstate: self.state, newstate: next })
        }
    }

    /// Opens a dispute: legal on an undisputed or a resolved transaction.
    /// Otherwise nothing changes and the refused step is reported.
    pub fn try_set_disputed(&mut self) -> (r: Result<(), TransactionSystemError>)
        ensures
            old(self).stepped(TransactionState::Disputed, *final(self), r),
    {
        self.try_set(TransactionState::Disputed)
    }

    /// Resolves a dispute: legal on a disputed transaction only. Otherwise
    /// nothing changes and the refused step is reported.
    pub fn try_set_resolved(&mut self) -> (r: Result<(), TransactionSystemError>)
        ensures
            old(self).stepped(TransactionState::Resolved, *final(self), r),
    {
        self.try_set(TransactionState::Resolved)
    }

    /// Charges a dispute back: legal on a disputed transaction only.
    /// Otherwise nothing changes and the refused step is reported.
    pub fn try_set_chargedback(&mut self) -> (r: Result<(), TransactionSystemError>)
        ensures
            old(self).stepped(TransactionState::Chargedback, *final(self), r),
    {
        self.try_set(TransactionState::Chargedback)
    }
}

/// A reference to a recorded transaction: the payload of a dispute, a resolve
/// or a chargeback.
#[derive(Clone, Copy, Debug, PartialEq, Eq, Structural)]
pub struct Operation {
    pub client: u16,
    pub tx: u32,
}

impl Operation {
    pub fn new(client: u16, tx: u32) -> (r: Self)
        ensures
            r == (Operation { client, tx }),
    {
        Operation { client, tx }
    }

    pub fn client(&self) -> (r: u16)
        ensures
            r == self.client,
    {
        self.client
    }

    pub fn tx(&self) -> (r: u32)
        ensures
            r == self.tx,
    {
        self.tx
    }
}

/// One unit of input.
#[derive(Clone, Copy, Debug, PartialEq, Eq, Structural)]
pub enum Instruction {
    /// A credit: raises the available and the total funds.
    Deposit(Transaction),
    /// A debit: lowers the available and the total funds, unless the
    /// available funds do not cover it.
    Withdrawal(Transaction),
    /// A claim that a transaction was erroneous: its funds are held.
    Dispute(Operation),
    /// The end of a dispute in the client's favour: the held funds are
    /// released.
    Resolve(Operation),
    /// The end of a dispute by reversal: the held funds leave the account,
    /// which is locked.
    Chargeback(Operation),
}

impl Instruction {
    /// The client whose account the instruction is for.
    pub open spec fn spec_client(&self) -> u16 {
        match *self {
            Instruction::Deposit(t) | Instruction::Withdrawal(t) => t.client,
            Instruction::Dispute(o) | Instruction::Resolve(o) | Instruction::Chargeback(o) => o.client,
        }
    }

    /// The instruction that a well-formed record stands for.
    pub open spec fn of_record(record: workaround::Instruction) -> Instruction {
        let operation = Operation { client: record.client, tx: record.tx };
        match record.typ {
            workaround::InstructionType::Deposit => Instruction::Deposit(
                Transaction {
                    client: record.client,
                    tx: record.tx,
                    amount: record.amount->0,
                    state: TransactionState::Undisputed,
                },
            ),
            workaround::InstructionType::Withdrawal => Instruction::Withdrawal(
                Transaction {
                    client: record.client,
                    tx: record.tx,
                    amount: record.amount->0,
                    state: TransactionState::Undisputed,
                },
            ),
            workaround::InstructionType::Dispute => Instruction::Dispute(operation),
            workaround::InstructionType::Resolve => Instruction::Resolve(operation),
            workaround::InstructionType::Chargeback => Instruction::Chargeback(operation),
        }
    }

    /// The client whose account the instruction is for.
    #[verifier::when_used_as_spec(spec_client)]
    pub fn client(&self) -> (r: u16)
        ensures
            r == self.spec_client(),
    {
        match self {
            Instruction::Deposit(transaction) | Instruction::Withdrawal(transaction) => {
                transaction.client()
            },
            Instruction::Dispute(operation)
            | Instruction::Resolve(operation)
            | Instruction::Chargeback(operation) => operation.client(),
        }
    }

    /// Turns a record into an instruction. A record is well formed when it
    /// carries an amount if and only if it is a deposit or a withdrawal; any
    /// other is refused, with the reason.
    pub fn from_record(record: workaround::Instruction) -> (r: Result<
        Instruction,
        workaround::RecordError,
    >)
        ensures
            record.typ.carries_amount() && record.amount is None ==> r == Err::<Instruction, _>(
                workaround::RecordError::MissingAmount,
            ),
            !record.typ.carries_amount() && record.amount is Some ==> r == Err::<Instruction, _>(
                workaround::RecordError::UnexpectedAmount,
            ),
            record.typ.carries_amount() == (record.amount is Some) ==> r == Ok::<
                _,
                workaround::RecordError,
            >(Instruction::of_record(record)),
    {
        match record.typ {
            workaround::InstructionType::Deposit => match record.amount {
                Some(amount) => Ok(
                    Instruction::Deposit(Transaction::new(record.client, record.tx, amount)),
                ),
                None => Err(workaround::RecordError::MissingAmount),
            },
            workaround::InstructionType::Withdrawal => match record.amount {
                Some(amount) => Ok(
                    Instruction::Withdrawal(Transaction::new(record.client, record.tx, amount)),
                ),
                None => Err(workaround::RecordError::MissingAmount),
            },
            workaround::InstructionType::Dispute => match record.amount {
                Some(_) => Err(workaround::RecordError::UnexpectedAmount),
                None => Ok(Instruction::Dispute(Operation::new(record.client, record.tx))),
            },
            workaround::InstructionType::Resolve => match record.amount {
                Some(_) => Err(workaround::RecordError::UnexpectedAmount),
                None => Ok(Instruction::Resolve(Operation::new(record.client, record.tx))),
            },
            workaround::InstructionType::Chargeback => match record.amount {
                Some(_) => Err(workaround::RecordError::UnexpectedAmount),
                None => Ok(Instruction::Chargeback(Operation::new(record.client, record.tx))),
            },
        }
    }
}

} // verus!
