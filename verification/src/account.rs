//! One client's account: its balances, its lock flag and the transactions it
//! has recorded. An instruction either applies in full or has no effect.

use std::collections::HashMap;
use vstd::prelude::*;
use crate::amount::{
    lemma_exact_back_and_there, lemma_exact_difference_value, lemma_exact_sum_value,
    lemma_exact_there_and_back, lemma_parts_of, pow10, Amount, MAX_SCALE,
};
use crate::errors::TransactionSystemError;
use crate::instructions::{Instruction, Operation, Transaction, TransactionState};

verus! {

broadcast use vstd::std_specs::hash::group_hash_axioms;

/// What becomes of an instruction.
pub enum Verdict {
    /// It is carried out.
    Applied,
    /// A balance would leave the range of the decimal arithmetic.
    OutOfRange,
    /// A withdrawal of more than is available.
    InsufficientFunds,
    /// A dispute, a resolve or a chargeback of a transaction that the account
    /// has not recorded.
    UnknownTransaction,
    /// The dispute life cycle has no step between the two states.
    IllegalTransition { from: TransactionState, to: TransactionState },
}

/// An account as the contracts see it.
pub struct AccountView {
    pub available: Amount,
    pub held: Amount,
    pub total: Amount,
    pub locked: bool,
    pub history: Map<u32, Transaction>,
}

/// The text of the refusal of a balance that would leave the range.
pub open spec fn out_of_range_text() -> Seq<char> {
    "balance out of range"@
}

/// The text of the refusal of a withdrawal that is not covered.
pub open spec fn insufficient_funds_text() -> Seq<char> {
    "attempt to withdraw more than available"@
}

/// The text of the refusal of an operation on an unrecorded transaction.
pub open spec fn unknown_transaction_text(instruction: Instruction) -> Seq<char> {
    match instruction {
        Instruction::Resolve(_) => "attempt to resolve non-existing transaction"@,
        Instruction::Chargeback(_) => "attempt to chargeback non-existing transaction"@,
        _ => "attempt to dispute non-existing transaction"@,
    }
}

/// Whether `r` is how `verdict` on `instruction` is reported: `Ok` where it
/// applied, else the error of the matching kind, with the text of the reason
/// and the instruction's own payload.
pub open spec fn reported(
    verdict: Verdict,
    instruction: Instruction,
    r: Result<(), TransactionSystemError>,
) -> bool {
    match verdict {
        Verdict::Applied => r is Ok,
        Verdict::IllegalTransition { from, to } => r is Err && r->Err_0.is_state_error(from, to),
        Verdict::InsufficientFunds => r is Err && match instruction {
            Instruction::Withdrawal(t) => r->Err_0.is_transaction_error(
                insufficient_funds_text(),
                t,
            ),
            _ => false,
        },
        Verdict::UnknownTransaction => r is Err && match instruction {
            Instruction::Dispute(o) | Instruction::Resolve(o) | Instruction::Chargeback(o) => r->Err_0.is_operation_error(
                unknown_transaction_text(instruction), o),
            _ => false,
        },
        Verdict::OutOfRange => r is Err && match instruction {
            Instruction::Deposit(t) | Instruction::Withdrawal(t) => r->Err_0.is_transaction_error(
                out_of_range_text(),
                t,
            ),
            Instruction::Dispute(o) | Instruction::Resolve(o) | Instruction::Chargeback(o) => r->Err_0.is_operation_error(
                out_of_range_text(), o),
        },
    }
}

impl AccountView {
    /// The account of a client not seen before: nothing in it, unlocked.
    pub open spec fn fresh() -> AccountView {
        AccountView {
            available: Amount::of(0, 0),
            held: Amount::of(0, 0),
            total: Amount::of(0, 0),
            locked: false,
            history: Map::empty(),
        }
    }

    /// The total is what is available plus what is held.
    pub open spec fn balanced(self) -> bool {
        self.total.scaled() == self.available.scaled() + self.held.scaled()
    }

    /// The state that a dispute, a resolve or a chargeback asks for.
    pub open spec fn target(instruction: Instruction) -> TransactionState {
        match instruction {
            Instruction::Resolve(_) => TransactionState::Resolved,
            Instruction::Chargeback(_) => TransactionState::Chargedback,
            _ => TransactionState::Disputed,
        }
    }

    /// The amount that the instruction moves: its own for a deposit or a
    /// withdrawal, the recorded transaction's for the others.
    pub open spec fn moved(self, instruction: Instruction) -> Amount {
        match instruction {
            Instruction::Deposit(t) | Instruction::Withdrawal(t) => t.amount,
            Instruction::Dispute(o) | Instruction::Resolve(o) | Instruction::Chargeback(o) => self.history[o.tx].amount,
        }
    }

    /// The two balances that the instruction changes, as the arithmetic gives
    /// them: available and total for a deposit (sums) and a withdrawal
    /// (differences); available and held for a dispute (less, more) and a
    /// resolve (more, less); total and held for a chargeback (both less).
    pub open spec fn moves(self, instruction: Instruction) -> (Option<Amount>, Option<Amount>) {
        let amount = self.moved(instruction);
        match instruction {
            Instruction::Deposit(_) => (self.available.sum(amount), self.total.sum(amount)),
            Instruction::Withdrawal(_) => (
                self.available.difference(amount),
                self.total.difference(amount),
            ),
            Instruction::Dispute(_) => (self.available.difference(amount), self.held.sum(amount)),
            Instruction::Resolve(_) => (self.available.sum(amount), self.held.difference(amount)),
            Instruction::Chargeback(_) => (
                self.total.difference(amount),
                self.held.difference(amount),
            ),
        }
    }

    /// What [`AccountView::moves`] is where the arithmetic is exact.
    pub open spec fn exact_moves(self, instruction: Instruction) -> (
        Option<Amount>,
        Option<Amount>,
    ) {
        let amount = self.moved(instruction);
        match instruction {
            Instruction::Deposit(_) => (
                Some(self.available.exact_sum(amount)),
                Some(self.total.exact_sum(amount)),
            ),
            Instruction::Withdrawal(_) => (
                Some(self.available.exact_difference(amount)),
                Some(self.total.exact_difference(amount)),
            ),
            Instruction::Dispute(_) => (
                Some(self.available.exact_difference(amount)),
                Some(self.held.exact_sum(amount)),
            ),
            Instruction::Resolve(_) => (
                Some(self.available.exact_sum(amount)),
                Some(self.held.exact_difference(amount)),
            ),
            Instruction::Chargeback(_) => (
                Some(self.total.exact_difference(amount)),
                Some(self.held.exact_difference(amount)),
            ),
        }
    }

    /// The arithmetic of the instruction neither rounds nor overflows.
    pub open spec fn exact(self, instruction: Instruction) -> bool {
        let amount = self.moved(instruction);
        match instruction {
            Instruction::Deposit(_) => self.available.sum_is_exact(amount)
                && self.total.sum_is_exact(amount),
            Instruction::Withdrawal(_) => self.available.difference_is_exact(amount)
                && self.total.difference_is_exact(amount),
            Instruction::Dispute(_) => self.available.difference_is_exact(amount)
                && self.held.sum_is_exact(amount),
            Instruction::Resolve(_) => self.available.sum_is_exact(amount)
                && self.held.difference_is_exact(amount),
            Instruction::Chargeback(_) => self.total.difference_is_exact(amount)
                && self.held.difference_is_exact(amount),
        }
    }

    /// By how much an instruction that applies changes what is available,
    /// what is held and the total, in units of `10^-28`.
    pub open spec fn change(self, instruction: Instruction) -> (int, int, int) {
        let x = self.moved(instruction).scaled();
        match instruction {
            Instruction::Deposit(_) => (x, 0, x),
            Instruction::Withdrawal(_) => (-x, 0, -x),
            Instruction::Dispute(_) => (-x, x, 0),
            Instruction::Resolve(_) => (x, -x, 0),
            Instruction::Chargeback(_) => (0, -x, -x),
        }
    }

    /// The values of the balances of `after` are those of `self`, changed as
    /// `instruction` says.
    pub open spec fn changed_to(self, instruction: Instruction, after: AccountView) -> bool {
        let (available, held, total) = self.change(instruction);
        &&& after.available.scaled() == self.available.scaled() + available
        &&& after.held.scaled() == self.held.scaled() + held
        &&& after.total.scaled() == self.total.scaled() + total
    }

    /// What becomes of `instruction` on this account.
    ///
    /// A deposit applies unless a balance leaves the range. A withdrawal is
    /// refused where what is available less its amount is negative. A dispute,
    /// a resolve or a chargeback needs a recorded transaction and a legal step
    /// of its life cycle; these are tested before the arithmetic.
    pub open spec fn verdict(self, instruction: Instruction) -> Verdict {
        let (first, second) = self.moves(instruction);
        match instruction {
            Instruction::Deposit(_) => if first is Some && second is Some {
                Verdict::Applied
            } else {
                Verdict::OutOfRange
            },
            Instruction::Withdrawal(_) => if first is None {
                Verdict::OutOfRange
            } else if first->0.spec_mantissa() < 0 {
                Verdict::InsufficientFunds
            } else if second is None {
                Verdict::OutOfRange
            } else {
                Verdict::Applied
            },
            Instruction::Dispute(o) | Instruction::Resolve(o) | Instruction::Chargeback(o) => {
                let to = Self::target(instruction);
                if !self.history.contains_key(o.tx) {
                    Verdict::UnknownTransaction
                } else if !self.history[o.tx].state.admits(to) {
                    Verdict::IllegalTransition { from: self.history[o.tx].state, to }
                } else if first is Some && second is Some {
                    Verdict::Applied
                } else {
                    Verdict::OutOfRange
                }
            },
        }
    }

    /// The account after an instruction that is carried out, given the two
    /// balances that it changes. A deposit is recorded as given, undisputed; a
    /// withdrawal with the negation of its amount; a later record with the
    /// same id replaces an earlier one. A dispute, a resolve or a chargeback
    /// moves the recorded transaction on in its life cycle, and a chargeback
    /// locks the account.
    pub open spec fn settled(
        self,
        instruction: Instruction,
        first: Amount,
        second: Amount,
    ) -> AccountView {
        match instruction {
            Instruction::Deposit(t) => AccountView {
                available: first,
                total: second,
                history: self.history.insert(t.tx, t.with_state(TransactionState::Undisputed)),
                ..self
            },
            Instruction::Withdrawal(t) => AccountView {
                available: first,
                total: second,
                history: self.history.insert(
                    t.tx,
                    Transaction {
                        amount: t.amount.negation(),
                        state: TransactionState::Undisputed,
                        ..t
                    },
                ),
                ..self
            },
            Instruction::Dispute(o) | Instruction::Resolve(o) => AccountView {
                available: first,
                held: second,
                history: self.history.insert(
                    o.tx,
                    self.history[o.tx].with_state(Self::target(instruction)),
                ),
                ..self
            },
            Instruction::Chargeback(o) => AccountView {
                total: first,
                held: second,
                locked: true,
                history: self.history.insert(
                    o.tx,
                    self.history[o.tx].with_state(TransactionState::Chargedback),
                ),
                ..self
            },
        }
    }

    /// The account after `instruction`: itself where the instruction is not
    /// carried out.
    pub open spec fn apply(self, instruction: Instruction) -> AccountView {
        let (first, second) = self.moves(instruction);
        if self.verdict(instruction) is Applied {
            self.settled(instruction, first->0, second->0)
        } else {
            self
        }
    }

    /// The account after an instruction that is carried out in exact
    /// arithmetic.
    pub open spec fn exactly_settled(self, instruction: Instruction) -> AccountView {
        let (first, second) = self.exact_moves(instruction);
        self.settled(instruction, first->0, second->0)
    }
}

/// A dispute, a resolve or a chargeback of a transaction that the account has
/// not recorded is reported as unknown and leaves the account as it was.
pub proof fn lemma_unknown_transaction_changes_nothing(account: AccountView, instruction: Instruction)
    requires
        match instruction {
            Instruction::Dispute(o) | Instruction::Resolve(o) | Instruction::Chargeback(o) => !account.history.contains_key(
                o.tx,
            ),
            _ => false,
        },
    ensures
        account.verdict(instruction) is UnknownTransaction,
        account.apply(instruction) == account,
{
}

/// An instruction that is not carried out leaves the account as it was.
pub proof fn lemma_refusal_changes_nothing(account: AccountView, instruction: Instruction)
    requires
        !(account.verdict(instruction) is Applied),
    ensures
        account.apply(instruction) == account,
{
}

/// A dispute right after a dispute of the same transaction that was carried
/// out is refused as an illegal step, and changes nothing.
pub proof fn lemma_second_dispute_is_refused(account: AccountView, operation: Operation)
    requires
        account.verdict(Instruction::Dispute(operation)) is Applied,
    ensures
        ({
            let disputed = account.apply(Instruction::Dispute(operation));
            &&& disputed.verdict(Instruction::Dispute(operation)) == (Verdict::IllegalTransition {
                from: TransactionState::Disputed,
                to: TransactionState::Disputed,
            })
            &&& disputed.apply(Instruction::Dispute(operation)) == disputed
        }),
{
}

/// After a dispute and its resolve, the life cycle admits a new dispute of the
/// same transaction: it is carried out unless a balance leaves the range.
pub proof fn lemma_dispute_after_resolve(account: AccountView, operation: Operation)
    requires
        account.verdict(Instruction::Dispute(operation)) is Applied,
        account.apply(Instruction::Dispute(operation)).verdict(Instruction::Resolve(operation))
            is Applied,
    ensures
        ({
            let resolved = account.apply(Instruction::Dispute(operation)).apply(
                Instruction::Resolve(operation),
            );
            let verdict = resolved.verdict(Instruction::Dispute(operation));
            &&& resolved.history.contains_key(operation.tx)
            &&& resolved.history[operation.tx].state is Resolved
            &&& verdict is Applied || verdict is OutOfRange
            &&& verdict is Applied <==> resolved.moves(Instruction::Dispute(operation)).0 is Some
                && resolved.moves(Instruction::Dispute(operation)).1 is Some
        }),
{
}

/// A chargeback that is carried out locks the account and leaves the
/// transaction charged back.
pub proof fn lemma_chargeback_locks(account: AccountView, operation: Operation)
    requires
        account.verdict(Instruction::Chargeback(operation)) is Applied,
    ensures
        ({
            let after = account.apply(Instruction::Chargeback(operation));
            &&& after.locked
            &&& after.history.contains_key(operation.tx)
            &&& after.history[operation.tx].state is Chargedback
        }),
{
}

/// No instruction unlocks an account.
pub proof fn lemma_lock_is_permanent(account: AccountView, instruction: Instruction)
    requires
        account.locked,
    ensures
        account.apply(instruction).locked,
{
}

/// A dispute, a resolve or a chargeback of a transaction that is charged back
/// is refused as an illegal step, and changes nothing.
pub proof fn lemma_chargeback_is_final(account: AccountView, instruction: Instruction)
    requires
        match instruction {
            Instruction::Dispute(o) | Instruction::Resolve(o) | Instruction::Chargeback(o) => account.history.contains_key(
                o.tx,
            ) && account.history[o.tx].state is Chargedback,
            _ => false,
        },
    ensures
        account.verdict(instruction) == (Verdict::IllegalTransition {
            from: TransactionState::Chargedback,
            to: AccountView::target(instruction),
        }),
        account.apply(instruction) == account,
{
}

/// A transaction that is charged back stays so under every instruction but a
/// deposit or a withdrawal that is recorded under its id.
pub proof fn lemma_charged_back_stays(account: AccountView, tx: u32, instruction: Instruction)
    requires
        account.history.contains_key(tx),
        account.history[tx].state is Chargedback,
        match instruction {
            Instruction::Deposit(t) | Instruction::Withdrawal(t) => t.tx != tx,
            _ => true,
        },
    ensures
        account.apply(instruction).history.contains_key(tx),
        account.apply(instruction).history[tx] == account.history[tx],
{
}

/// In exact arithmetic, an instruction that is carried out on a balanced
/// account changes the values of the balances as it says, and leaves the
/// account balanced.
pub proof fn lemma_exact_settlement_is_balanced(account: AccountView, instruction: Instruction)
    requires
        account.available.in_range(),
        account.held.in_range(),
        account.total.in_range(),
        account.moved(instruction).in_range(),
        account.exact(instruction),
    ensures
        account.changed_to(instruction, account.exactly_settled(instruction)),
        account.balanced() ==> account.exactly_settled(instruction).balanced(),
{
    let amount = account.moved(instruction);
    match instruction {
        Instruction::Deposit(_) => {
            lemma_exact_sum_value(account.available, amount);
            lemma_exact_sum_value(account.total, amount);
        },
        Instruction::Withdrawal(_) => {
            lemma_exact_difference_value(account.available, amount);
            lemma_exact_difference_value(account.total, amount);
        },
        Instruction::Dispute(_) => {
            lemma_exact_difference_value(account.available, amount);
            lemma_exact_sum_value(account.held, amount);
        },
        Instruction::Resolve(_) => {
            lemma_exact_sum_value(account.available, amount);
            lemma_exact_difference_value(account.held, amount);
        },
        Instruction::Chargeback(_) => {
            lemma_exact_difference_value(account.total, amount);
            lemma_exact_difference_value(account.held, amount);
        },
    }
}

/// In exact arithmetic a dispute can be resolved and opened again: where the
/// arithmetic of a legal dispute is exact, so is that of the resolve after it
/// and that of a new dispute after the resolve, both are legal steps, and the
/// resolve gives what is available and what is held their values back.
pub proof fn lemma_exact_dispute_can_be_reopened(account: AccountView, operation: Operation)
    requires
        account.available.in_range(),
        account.held.in_range(),
        account.history.contains_key(operation.tx),
        account.history[operation.tx].amount.in_range(),
        account.history[operation.tx].state.admits(TransactionState::Disputed),
        account.exact(Instruction::Dispute(operation)),
    ensures
        ({
            let disputed = account.exactly_settled(Instruction::Dispute(operation));
            let resolved = disputed.exactly_settled(Instruction::Resolve(operation));
            &&& disputed.history[operation.tx].state.admits(TransactionState::Resolved)
            &&& disputed.exact(Instruction::Resolve(operation))
            &&& resolved.history[operation.tx].state.admits(TransactionState::Disputed)
            &&& resolved.exact(Instruction::Dispute(operation))
            &&& resolved.available.scaled() == account.available.scaled()
            &&& resolved.held.scaled() == account.held.scaled()
            &&& resolved.total == account.total
        }),
{
    let amount = account.history[operation.tx].amount;
    let disputed = account.exactly_settled(Instruction::Dispute(operation));
    lemma_exact_there_and_back(account.available, amount);
    lemma_exact_back_and_there(account.held, amount);
    lemma_exact_difference_value(account.available, amount);
    lemma_exact_sum_value(account.held, amount);
    lemma_exact_sum_value(disputed.available, amount);
    lemma_exact_difference_value(disputed.held, amount);
}

/// A new account is balanced.
pub proof fn lemma_fresh_account_is_balanced()
    ensures
        AccountView::fresh().balanced(),
{
    lemma_parts_of(0, 0);
    assert(0 * pow10(MAX_SCALE as nat) == 0);
}

/// One client's account.
#[derive(Debug)]
pub struct Account {
    available: Amount,
    held: Amount,
    total: Amount,
    locked: bool,
    txhistory: HashMap<u32, Transaction>,
}

impl View for Account {
    type V = AccountView;

    closed spec fn view(&self) -> AccountView {
        AccountView {
            available: self.available,
            held: self.held,
            total: self.total,
            locked: self.locked,
            history: self.txhistory@,
        }
    }
}

impl Default for Account {
    /// The account of a client not seen before.
    fn default() -> (r: Self)
        ensures
            r@ == AccountView::fresh(),
    {
        Account {
            available: Amount::zero(),
            held: Amount::zero(),
            total: Amount::zero(),
            locked: false,
            txhistory: HashMap::new(),
        }
    }
}

impl Account {
    /// An unlocked account with the given balances and nothing recorded.
    pub fn with_balances(available: Amount, held: Amount, total: Amount) -> (r: Self)
        ensures
            r@ == (AccountView { available, held, total, locked: false, history: Map::empty() }),
    {
        Account { available, held, total, locked: false, txhistory: HashMap::new() }
    }

    /// The refusal of a transaction whose balances would leave the range.
    fn transaction_out_of_range(data: Transaction) -> (r: Result<(), TransactionSystemError>)
        ensures
            r is Err,
            r->Err_0.is_transaction_error(out_of_range_text(), data),
    {
        Err(
            TransactionSystemError::TransactionError {
                message: "balance out of range".to_string(),
                transaction: data,
            },
        )
    }

    /// The refusal of an operation whose balances would leave the range.
    fn operation_out_of_range(data: Operation) -> (r: Result<(), TransactionSystemError>)
        ensures
            r is Err,
            r->Err_0.is_operation_error(out_of_range_text(), data),
    {
        Err(
            TransactionSystemError::OperationError {
                message: "balance out of range".to_string(),
                operation: data,
            },
        )
    }

    /// The recorded transaction with the given id, if there is one.
    fn recorded(&self, tx: u32) -> (r: Option<Transaction>)
        ensures
            r is Some <==> self@.history.contains_key(tx),
            r is Some ==> r->0 == self@.history[tx],
    {
        match self.txhistory.get(&tx) {
            Some(entry) => Some(*entry),
            None => None,
        }
    }

    /// Credits the account: what is available and the total grow by the
    /// amount, and the transaction is recorded as undisputed under its id, in
    /// place of any earlier record with that id.
    pub fn deposit(&mut self, data: Transaction) -> (r: Result<(), TransactionSystemError>)
        ensures
            ({
                let before = old(self)@;
                let after = final(self)@;
                let it = Instruction::Deposit(data);
                &&& after == before.apply(it)
                &&& reported(before.verdict(it), it, r)
                &&& before.exact(it) ==> r is Ok
                &&& before.exact(it) && r is Ok ==> after == before.exactly_settled(it)
                    && before.changed_to(it, after)
                &&& before.exact(it) && before.balanced() ==> after.balanced()
            }),
    {
        let available = self.available.checked_add(data.amount);
        let total = self.total.checked_add(data.amount);
        match (available, total) {
            (Some(a), Some(t)) => {
                let mut record = data;
                record.state = TransactionState::Undisputed;
                self.available = a;
                self.total = t;
                self.txhistory.insert(record.tx, record);
                Ok(())
            },
            _ => Self::transaction_out_of_range(data),
        }
    }

    /// Debits the account, unless what is available does not cover the
    /// amount: then nothing changes. A withdrawal that is carried out is
    /// recorded with the negation of its amount.
    pub fn withdrawal(&mut self, data: Transaction) -> (r: Result<(), TransactionSystemError>)
        ensures
            ({
                let before = old(self)@;
                let after = final(self)@;
                let it = Instruction::Withdrawal(data);
                &&& after == before.apply(it)
                &&& reported(before.verdict(it), it, r)
                &&& before.exact(it) ==> (r is Ok <==> before.available.scaled()
                    >= data.amount.scaled())
                &&& before.available.difference_is_exact(data.amount) && before.available.scaled()
                    < data.amount.scaled() ==> before.verdict(it) is InsufficientFunds && after
                    == before
                &&& before.exact(it) && r is Ok ==> after == before.exactly_settled(it)
                    && before.changed_to(it, after)
                &&& before.exact(it) && before.balanced() ==> after.balanced()
            }),
    {
        match self.available.checked_sub(data.amount) {
            None => Self::transaction_out_of_range(data),
            Some(available) => {
                if available.is_negative() {
                    Err(
                        TransactionSystemError::TransactionError {
                            message: "attempt to withdraw more than available".to_string(),
                            transaction: data,
                        },
                    )
                } else {
                    match self.total.checked_sub(data.amount) {
                        None => Self::transaction_out_of_range(data),
                        Some(total) => {
                            let mut record = data;
                            record.state = TransactionState::Undisputed;
                            record.negate();
                            self.available = available;
                            self.total = total;
                            self.txhistory.insert(record.tx, record);
                            Ok(())
                        },
                    }
                }
            },
        }
    }

    /// Opens a dispute on a recorded transaction: its amount moves from what
    /// is available to what is held.
    pub fn dispute(&mut self, data: Operation) -> (r: Result<(), TransactionSystemError>)
        ensures
            ({
                let before = old(self)@;
                let after = final(self)@;
                let it = Instruction::Dispute(data);
                &&& after == before.apply(it)
                &&& reported(before.verdict(it), it, r)
                &&& before.exact(it) ==> !(before.verdict(it) is OutOfRange)
                &&& before.exact(it) && r is Ok ==> after == before.exactly_settled(it)
                    && before.changed_to(it, after)
                &&& before.exact(it) && before.balanced() ==> after.balanced()
            }),
    {
        match self.recorded(data.tx) {
            None => Err(
                TransactionSystemError::OperationError {
                    message: "attempt to dispute non-existing transaction".to_string(),
                    operation: data,
                },
            ),
            Some(entry) => {
                let mut record = entry;
                match record.try_set_disputed() {
                    Err(refusal) => Err(refusal),
                    Ok(()) => {
                        let available = self.available.checked_sub(record.amount);
                        let held = self.held.checked_add(record.amount);
                        match (available, held) {
                            (Some(a), Some(h)) => {
                                self.available = a;
                                self.held = h;
                                self.txhistory.insert(data.tx, record);
                                Ok(())
                            },
                            _ => Self::operation_out_of_range(data),
                        }
                    },
                }
            },
        }
    }

    /// Resolves an open dispute: the transaction's amount moves back from
    /// what is held to what is available.
    pub fn resolve(&mut self, data: Operation) -> (r: Result<(), TransactionSystemError>)
        ensures
            ({
                let before = old(self)@;
                let after = final(self)@;
                let it = Instruction::Resolve(data);
                &&& after == before.apply(it)
                &&& reported(before.verdict(it), it, r)
                &&& before.exact(it) ==> !(before.verdict(it) is OutOfRange)
                &&& before.exact(it) && r is Ok ==> after == before.exactly_settled(it)
                    && before.changed_to(it, after)
                &&& before.exact(it) && before.balanced() ==> after.balanced()
            }),
    {
        match self.recorded(data.tx) {
            None => Err(
                TransactionSystemError::OperationError {
                    message: "attempt to resolve non-existing transaction".to_string(),
                    operation: data,
                },
            ),
            Some(entry) => {
                let mut record = entry;
                match record.try_set_resolved() {
                    Err(refusal) => Err(refusal),
                    Ok(()) => {
                        let available = self.available.checked_add(record.amount);
                        let held = self.held.checked_sub(record.amount);
                        match (available, held) {
                            (Some(a), Some(h)) => {
                                self.available = a;
                                self.held = h;
                                self.txhistory.insert(data.tx, record);
                                Ok(())
                            },
                            _ => Self::operation_out_of_range(data),
                        }
                    },
                }
            },
        }
    }

    /// Charges an open dispute back: the transaction's amount leaves what is
    /// held and the total, and the account is locked.
    pub fn chargeback(&mut self, data: Operation) -> (r: Result<(), TransactionSystemError>)
        ensures
            ({
                let before = old(self)@;
                let after = final(self)@;
                let it = Instruction::Chargeback(data);
                &&& after == before.apply(it)
                &&& reported(before.verdict(it), it, r)
                &&& before.exact(it) ==> !(before.verdict(it) is OutOfRange)
                &&& r is Ok ==> after.locked
                &&& before.exact(it) && r is Ok ==> after == before.exactly_settled(it)
                    && before.changed_to(it, after)
                &&& before.exact(it) && before.balanced() ==> after.balanced()
            }),
    {
        match self.recorded(data.tx) {
            None => Err(
                TransactionSystemError::OperationError {
                    message: "attempt to chargeback non-existing transaction".to_string(),
                    operation: data,
                },
            ),
            Some(entry) => {
                let mut record = entry;
                match record.try_set_chargedback() {
                    Err(refusal) => Err(refusal),
                    Ok(()) => {
                        let total = self.total.checked_sub(record.amount);
                        let held = self.held.checked_sub(record.amount);
                        match (total, held) {
                            (Some(t), Some(h)) => {
                                self.locked = true;
                                self.total = t;
                                self.held = h;
                                self.txhistory.insert(data.tx, record);
                                Ok(())
                            },
                            _ => Self::operation_out_of_range(data),
                        }
                    },
                }
            },
        }
    }

    /// Carries out one instruction, or refuses it and changes nothing.
    pub fn apply(&mut self, instruction: Instruction) -> (r: Result<(), TransactionSystemError>)
        ensures
            ({
                let before = old(self)@;
                let after = final(self)@;
                let it = instruction;
                &&& after == before.apply(it)
                &&& reported(before.verdict(it), it, r)
                &&& before.exact(it) ==> !(before.verdict(it) is OutOfRange)
                &&& before.exact(it) && r is Ok ==> after == before.exactly_settled(it)
                    && before.changed_to(it, after)
                &&& before.exact(it) && before.balanced() ==> after.balanced()
            }),
    {
        match instruction {
            Instruction::Deposit(data) => self.deposit(data),
            Instruction::Withdrawal(data) => self.withdrawal(data),
            Instruction::Dispute(data) => self.dispute(data),
            Instruction::Resolve(data) => self.resolve(data),
            Instruction::Chargeback(data) => self.chargeback(data),
        }
    }

    pub fn available(&self) -> (r: Amount)
        ensures
            r == self@.available,
    {
        self.available
    }

    pub fn held(&self) -> (r: Amount)
        ensures
            r == self@.held,
    {
        self.held
    }

    pub fn total(&self) -> (r: Amount)
        ensures
            r == self@.total,
    {
        self.total
    }

    pub fn locked(&self) -> (r: bool)
        ensures
            r == self@.locked,
    {
        self.locked
    }
}

} // verus!
