use vstd::prelude::*;
use crate::authority::authority_address;
use crate::key::Key;
use crate::state::{AccountRef, Action, Authorization, Escrow, TokenAccount};

verus! {

/// The ledger as the operations see it: token accounts and escrow records by address.
pub struct Ledger {
    pub accounts: Map<Key, TokenAccount>,
    pub records: Map<Key, Escrow>,
}

pub open spec fn slot<T>(m: Map<Key, T>, k: Key) -> Option<T> {
    if m.dom().contains(k) {
        Some(m[k])
    } else {
        None
    }
}

/// `a` shows what `l` holds at its address.
pub open spec fn shows_account(l: Ledger, a: AccountRef<TokenAccount>) -> bool {
    slot(l.accounts, a.key) == a.state
}

pub open spec fn shows_record(l: Ledger, a: AccountRef<Escrow>) -> bool {
    slot(l.records, a.key) == a.state
}

/// The identity an authorization stands for.
pub open spec fn signer_address(program: Key, auth: Authorization) -> Option<Seq<u8>> {
    match auth {
        Authorization::Signer(k) => Some(k@),
        Authorization::Derived { seller, nonce } => authority_address(seller@, nonce, program@),
    }
}

/// A token transfer: both accounts exist and hold one asset type, the owner of
/// the source authorizes, the source holds enough and the target does not overflow.
pub open spec fn transfer(program: Key, l: Ledger, from: Key, to: Key, amount: u64, auth: Authorization) -> Option<Ledger> {
    if l.accounts.dom().contains(from) && l.accounts.dom().contains(to)
        && l.accounts[from].mint == l.accounts[to].mint
        && signer_address(program, auth) == Some(l.accounts[from].owner@)
        && amount <= l.accounts[from].amount
    {
        let src = l.accounts[from];
        let debited = l.accounts.insert(from, TokenAccount { amount: (src.amount - amount) as u64, ..src });
        let dst = debited[to];
        if dst.amount + amount <= u64::MAX {
            Some(Ledger {
                accounts: debited.insert(to, TokenAccount { amount: (dst.amount + amount) as u64, ..dst }),
                records: l.records,
            })
        } else {
            None
        }
    } else {
        None
    }
}

/// The effect of one action, or `None` where the ledger refuses it.
pub open spec fn step(program: Key, l: Ledger, a: Action) -> Option<Ledger> {
    match a {
        Action::CreateRecord { address, record } => if l.records.dom().contains(address) {
            None
        } else {
            Some(Ledger { records: l.records.insert(address, record), ..l })
        },
        Action::CreateVault { address, mint, owner } => if l.accounts.dom().contains(address) {
            None
        } else {
            Some(Ledger { accounts: l.accounts.insert(address, TokenAccount { mint, owner, amount: 0 }), ..l })
        },
        Action::Transfer { from, to, amount, authority } => transfer(program, l, from, to, amount, authority),
        Action::CloseVault { address, destination, authority } => if l.accounts.dom().contains(address)
            && l.accounts[address].amount == 0
            && signer_address(program, authority) == Some(l.accounts[address].owner@)
        {
            Some(Ledger { accounts: l.accounts.remove(address), ..l })
        } else {
            None
        },
        Action::CloseRecord { address, destination } => if l.records.dom().contains(address) {
            Some(Ledger { records: l.records.remove(address), ..l })
        } else {
            None
        },
    }
}

/// The actions applied in order, all of them or none: `None` where one is refused.
pub open spec fn run(program: Key, l: Ledger, actions: Seq<Action>) -> Option<Ledger>
    decreases actions.len(),
{
    if actions.len() == 0 {
        Some(l)
    } else {
        match step(program, l, actions[0]) {
            Some(next) => run(program, next, actions.drop_first()),
            None => None,
        }
    }
}

} // verus!
