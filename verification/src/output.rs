//! A row of the final snapshot: a client id and the balances of its account.

use vstd::prelude::*;
use crate::account::{Account, AccountView};
use crate::amount::Amount;

verus! {

/// One row of the snapshot.
#[derive(Clone, Copy, Debug, PartialEq, Eq, Structural)]
pub struct Output {
    pub client: u16,
    pub available: Amount,
    pub held: Amount,
    pub total: Amount,
    pub locked: bool,
}

impl Output {
    /// The row of `client` with the given account.
    pub open spec fn of(client: u16, account: AccountView) -> Output {
        Output {
            client,
            available: account.available,
            held: account.held,
            total: account.total,
            locked: account.locked,
        }
    }

    /// The row of `client` with the given account, which stays where it is.
    pub fn of_account(client: u16, account: &Account) -> (r: Output)
        ensures
            r == Output::of(client, account@),
    {
        Output {
            client,
            available: account.available(),
            held: account.held(),
            total: account.total(),
            locked: account.locked(),
        }
    }

    /// The row of `client` with the given account.
    pub fn convert_from(client: u16, account: Account) -> (r: Output)
        ensures
            r == Output::of(client, account@),
    {
        Output::of_account(client, &account)
    }
}

} // verus!
