//! The register: every client's account, and the routing of instructions to
//! them in the order in which they arrive.

use std::collections::HashMap;
use vstd::prelude::*;
use crate::account::{lemma_fresh_account_is_balanced, reported, Account, AccountView};
use crate::errors::TransactionSystemError;
use crate::instructions::Instruction;
use crate::output::Output;

verus! {

broadcast use vstd::std_specs::hash::group_hash_axioms;

/// The account of `client` in `book`: a fresh one where the book has none.
pub open spec fn account_of(book: Map<u16, AccountView>, client: u16) -> AccountView {
    if book.contains_key(client) {
        book[client]
    } else {
        AccountView::fresh()
    }
}

/// Every account of the book is balanced.
pub open spec fn all_balanced(book: Map<u16, AccountView>) -> bool {
    forall|client: u16| #[trigger] book.contains_key(client) ==> book[client].balanced()
}

/// Every row is the row of an account of the book.
pub open spec fn rows_are_accounts(rows: Seq<Output>, book: Map<u16, AccountView>) -> bool {
    forall|i: int|
        0 <= i < rows.len() ==> book.contains_key((#[trigger] rows[i]).client) && rows[i]
            == Output::of(rows[i].client, book[rows[i].client])
}

/// Every account of the book has a row.
pub open spec fn accounts_have_rows(rows: Seq<Output>, book: Map<u16, AccountView>) -> bool {
    forall|client: u16| #[trigger]
        book.contains_key(client) ==> exists|i: int|
            0 <= i < rows.len() && (#[trigger] rows[i]).client == client
}

/// The rows come by rising client id, so no client has two.
pub open spec fn rows_rise(rows: Seq<Output>) -> bool {
    forall|i: int, j: int|
        0 <= i < j < rows.len() ==> (#[trigger] rows[i]).client < (#[trigger] rows[j]).client
}

/// No client has two rows.
pub open spec fn rows_are_distinct(rows: Seq<Output>) -> bool {
    forall|i: int, j: int|
        0 <= i < j < rows.len() ==> (#[trigger] rows[i]).client != (#[trigger] rows[j]).client
}

/// All accounts, by client id.
#[derive(Debug)]
pub struct Register {
    thebook: HashMap<u16, Account>,
}

impl View for Register {
    type V = Map<u16, AccountView>;

    closed spec fn view(&self) -> Map<u16, AccountView> {
        Map::new(|client: u16| self.thebook@.contains_key(client), |client: u16| self.thebook@[client]@)
    }
}

impl Default for Register {
    /// The register without accounts.
    fn default() -> (r: Self)
        ensures
            r@ == Map::<u16, AccountView>::empty(),
    {
        let r = Register { thebook: HashMap::new() };
        assert(r@ =~= Map::<u16, AccountView>::empty());
        r
    }
}

impl Register {
    /// Routes one instruction to the account of its client, which is opened
    /// first if the client is new, and hands back what the account reports.
    /// No other account changes.
    pub fn execute(&mut self, instruction: Instruction) -> (r: Result<(), TransactionSystemError>)
        ensures
            ({
                let client = instruction.client();
                let before = account_of(old(self)@, client);
                let after = before.apply(instruction);
                &&& final(self)@ == old(self)@.insert(client, after)
                &&& reported(before.verdict(instruction), instruction, r)
                &&& before.exact(instruction) ==> !(before.verdict(instruction) is OutOfRange)
                &&& before.exact(instruction) && r is Ok ==> after == before.exactly_settled(
                    instruction,
                ) && before.changed_to(instruction, after)
                &&& before.exact(instruction) && all_balanced(old(self)@) ==> all_balanced(
                    final(self)@,
                )
            }),
    {
        let client = instruction.client();
        let mut account = match self.thebook.remove(&client) {
            Some(account) => account,
            None => Account::default(),
        };
        proof {
            lemma_fresh_account_is_balanced();
        }
        let ghost before = account@;
        assert(before == account_of(old(self)@, client));
        let r = account.apply(instruction);
        self.thebook.insert(client, account);
        assert(self@ =~= old(self)@.insert(client, before.apply(instruction)));
        r
    }

    /// The snapshot: one row for each account, by rising client id.
    pub fn dump_sorted(self) -> (rows: Vec<Output>)
        ensures
            rows_are_accounts(rows@, self@),
            accounts_have_rows(rows@, self@),
            rows_rise(rows@),
    {
        let mut rows: Vec<Output> = Vec::new();
        let mut next: u32 = 0;
        while next <= 0xFFFF
            invariant
                next <= 0x1_0000,
                rows_are_accounts(rows@, self@),
                rows_rise(rows@),
                forall|i: int| 0 <= i < rows.len() ==> (#[trigger] rows[i]).client < next,
                forall|client: u16| #[trigger]
                    self@.contains_key(client) && client < next ==> exists|i: int|
                        0 <= i < rows.len() && (#[trigger] rows[i]).client == client,
            decreases 0x1_0000 - next,
        {
            let client = next as u16;
            let ghost earlier = rows@;
            match self.thebook.get(&client) {
                Some(account) => {
                    rows.push(Output::of_account(client, account));
                    assert(rows@[earlier.len() as int].client == client);
                    assert(forall|i: int| 0 <= i < earlier.len() ==> rows@[i] == earlier[i]);
                },
                None => {},
            }
            assert forall|c: u16| #[trigger] self@.contains_key(c) && c < next + 1 implies exists|
                i: int,
            |
                0 <= i < rows.len() && (#[trigger] rows[i]).client == c by {
                if c < next {
                    let i = choose|i: int| 0 <= i < earlier.len() && (#[trigger] earlier[i]).client == c;
                    assert(rows@[i].client == c);
                } else {
                    assert(rows@[earlier.len() as int].client == c);
                }
            }
            next = next + 1;
        }
        rows
    }

    /// The snapshot: one row for each account, no client twice. The order of
    /// the rows is not part of the contract.
    pub fn dump(self) -> (rows: Vec<Output>)
        ensures
            rows_are_accounts(rows@, self@),
            accounts_have_rows(rows@, self@),
            rows_are_distinct(rows@),
    {
        self.dump_sorted()
    }
}

} // verus!
