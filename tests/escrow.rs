use std::collections::HashMap;

use non_custodial_escrow::authority::{derive_authority, find_authority};
use non_custodial_escrow::instructions::{accept, cancel, initialize};
use non_custodial_escrow::{
    AccountRef, Accept, Action, Authorization, Cancel, Escrow, EscrowError, Initialize, Key, TokenAccount,
};

const PROGRAM: [u8; 32] = [
    15, 191, 161, 60, 169, 44, 4, 240, 207, 39, 29, 150, 14, 230, 200, 155, 226, 155, 208, 200, 235, 15, 124,
    84, 56, 152, 36, 178, 225, 242, 84, 141,
];

fn key(b: u8) -> Key {
    Key::new([b; 32])
}

fn program() -> Key {
    Key::new(PROGRAM)
}

/// A ledger to run plans against, refusing what a token ledger refuses.
#[derive(Clone, Default)]
struct World {
    accounts: HashMap<[u8; 32], TokenAccount>,
    records: HashMap<[u8; 32], Escrow>,
}

impl World {
    fn signer(&self, auth: &Authorization) -> Option<Key> {
        match auth {
            Authorization::Signer(k) => Some(*k),
            Authorization::Derived { seller, nonce } => derive_authority(seller, *nonce, &program()),
        }
    }

    fn apply(&mut self, plan: &[Action]) -> bool {
        let mut next = self.clone();
        for action in plan {
            if !next.step(action) {
                return false;
            }
        }
        *self = next;
        true
    }

    fn step(&mut self, action: &Action) -> bool {
        match action {
            Action::CreateRecord { address, record } => {
                self.records.insert(address.bytes, *record).is_none()
            }
            Action::CreateVault { address, mint, owner } => self
                .accounts
                .insert(address.bytes, TokenAccount { mint: *mint, owner: *owner, amount: 0 })
                .is_none(),
            Action::Transfer { from, to, amount, authority } => {
                let (Some(src), Some(dst)) = (self.accounts.get(&from.bytes).copied(), self.accounts.get(&to.bytes).copied())
                else {
                    return false;
                };
                if src.mint != dst.mint || self.signer(authority) != Some(src.owner) || src.amount < *amount {
                    return false;
                }
                self.accounts.get_mut(&from.bytes).unwrap().amount -= amount;
                let target = self.accounts.get_mut(&to.bytes).unwrap();
                match target.amount.checked_add(*amount) {
                    Some(v) => {
                        target.amount = v;
                        true
                    }
                    None => false,
                }
            }
            Action::CloseVault { address, authority, .. } => match self.accounts.get(&address.bytes).copied() {
                Some(acct) if acct.amount == 0 && self.signer(authority) == Some(acct.owner) => {
                    self.accounts.remove(&address.bytes);
                    true
                }
                _ => false,
            },
            Action::CloseRecord { address, .. } => self.records.remove(&address.bytes).is_some(),
        }
    }

    fn token(&self, k: Key) -> AccountRef<TokenAccount> {
        AccountRef { key: k, state: self.accounts.get(&k.bytes).copied() }
    }

    fn record(&self, k: Key) -> AccountRef<Escrow> {
        AccountRef { key: k, state: self.records.get(&k.bytes).copied() }
    }

    fn balance(&self, k: Key) -> u64 {
        self.accounts[&k.bytes].amount
    }
}

const SELLER: u8 = 1;
const BUYER: u8 = 2;
const X_MINT: u8 = 10;
const Y_MINT: u8 = 11;
const SELLER_X: u8 = 20;
const SELLER_Y: u8 = 21;
const BUYER_X: u8 = 22;
const BUYER_Y: u8 = 23;
const VAULT: u8 = 30;

fn escrow_address() -> Key {
    find_authority(&key(SELLER), &program()).unwrap().0
}

fn world(seller_x: u64, buyer_y: u64) -> World {
    let mut w = World::default();
    let acct = |mint: u8, owner: u8, amount: u64| TokenAccount { mint: key(mint), owner: key(owner), amount };
    w.accounts.insert(key(SELLER_X).bytes, acct(X_MINT, SELLER, seller_x));
    w.accounts.insert(key(SELLER_Y).bytes, acct(Y_MINT, SELLER, 0));
    w.accounts.insert(key(BUYER_X).bytes, acct(X_MINT, BUYER, 0));
    w.accounts.insert(key(BUYER_Y).bytes, acct(Y_MINT, BUYER, buyer_y));
    w
}

fn init_accounts(w: &World) -> Initialize {
    Initialize {
        seller: key(SELLER),
        x_mint: key(X_MINT),
        y_mint: key(Y_MINT),
        seller_x_token: w.token(key(SELLER_X)),
        escrow: w.record(escrow_address()),
        escrowed_x_tokens: w.token(key(VAULT)),
    }
}

fn accept_accounts(w: &World) -> Accept {
    Accept {
        buyer: key(BUYER),
        escrow: w.record(escrow_address()),
        escrowed_x_tokens: w.token(key(VAULT)),
        seller_y_token: w.token(key(SELLER_Y)),
        buyer_x_token: w.token(key(BUYER_X)),
        buyer_y_token: w.token(key(BUYER_Y)),
    }
}

fn cancel_accounts(w: &World, signer: u8) -> Cancel {
    Cancel {
        seller: key(signer),
        escrow: w.record(escrow_address()),
        escrowed_x_tokens: w.token(key(VAULT)),
        seller_x_token: w.token(key(SELLER_X)),
    }
}

fn opened(seller_x: u64, buyer_y: u64, x: u64, y: u64) -> World {
    let mut w = world(seller_x, buyer_y);
    let plan = initialize(&program(), &init_accounts(&w), x, y).unwrap();
    assert!(w.apply(&plan));
    w
}

#[test]
fn derived_authority_is_not_the_seller() {
    let (address, nonce) = find_authority(&key(SELLER), &program()).unwrap();
    assert_ne!(address, key(SELLER));
    assert!(nonce >= 1);
    assert_eq!(derive_authority(&key(SELLER), nonce, &program()), Some(address));
}

#[test]
fn derived_authority_depends_on_the_seller() {
    let a = find_authority(&key(SELLER), &program()).unwrap().0;
    let b = find_authority(&key(BUYER), &program()).unwrap().0;
    assert_ne!(a, b);
}

#[test]
fn found_nonce_is_the_first_valid_from_the_top() {
    let (_, nonce) = find_authority(&key(SELLER), &program()).unwrap();
    for n in (nonce as u16 + 1)..=255u16 {
        assert_eq!(derive_authority(&key(SELLER), n as u8, &program()), None);
    }
}

#[test]
fn initialize_deposits_and_records_terms() {
    let w = opened(100, 0, 60, 50);
    assert_eq!(w.balance(key(VAULT)), 60);
    assert_eq!(w.balance(key(SELLER_X)), 40);
    let record = w.records[&escrow_address().bytes];
    let (_, nonce) = find_authority(&key(SELLER), &program()).unwrap();
    assert_eq!(
        record,
        Escrow { authority: key(SELLER), escrow_x_token: key(VAULT), bump: nonce, y_amount: 50, y_mint: key(Y_MINT) }
    );
    assert_eq!(w.accounts[&key(VAULT).bytes].owner, escrow_address());
}

#[test]
fn initialize_plan_is_exact() {
    let w = world(100, 0);
    let plan = initialize(&program(), &init_accounts(&w), 100, 50).unwrap();
    assert_eq!(plan.len(), 3);
    assert_eq!(
        plan[2],
        Action::Transfer { from: key(SELLER_X), to: key(VAULT), amount: 100, authority: Authorization::Signer(key(SELLER)) }
    );
}

#[test]
fn initialize_twice_already_exists() {
    let w = opened(100, 0, 60, 50);
    assert_eq!(initialize(&program(), &init_accounts(&w), 10, 5), Err(EscrowError::AlreadyExists));
}

#[test]
fn initialize_insufficient_funds() {
    let w = world(99, 0);
    assert_eq!(initialize(&program(), &init_accounts(&w), 100, 50), Err(EscrowError::InsufficientFunds));
}

#[test]
fn initialize_mint_mismatch() {
    let w = world(100, 0);
    let mut a = init_accounts(&w);
    a.x_mint = key(Y_MINT);
    assert_eq!(initialize(&program(), &a, 10, 5), Err(EscrowError::ConstraintViolation));
}

#[test]
fn initialize_wrong_record_address() {
    let w = world(100, 0);
    let mut a = init_accounts(&w);
    a.escrow = w.record(key(SELLER));
    assert_eq!(initialize(&program(), &a, 10, 5), Err(EscrowError::ConstraintViolation));
}

#[test]
fn initialize_missing_seller_account() {
    let w = world(100, 0);
    let mut a = init_accounts(&w);
    a.seller_x_token = w.token(key(99));
    assert_eq!(initialize(&program(), &a, 10, 5), Err(EscrowError::NotFound));
}

#[test]
fn accept_settles_then_cancel_fails() {
    let mut w = opened(100, 50, 100, 50);
    let plan = accept(&program(), &accept_accounts(&w)).unwrap();
    assert!(w.apply(&plan));
    assert_eq!(w.balance(key(BUYER_X)), 100);
    assert_eq!(w.balance(key(SELLER_Y)), 50);
    assert_eq!(w.balance(key(BUYER_Y)), 0);
    assert!(!w.accounts.contains_key(&key(VAULT).bytes));
    assert_eq!(cancel(&program(), &cancel_accounts(&w, SELLER)), Err(EscrowError::NotFound));
}

#[test]
fn accept_only_once() {
    let mut w = opened(100, 100, 100, 50);
    let plan = accept(&program(), &accept_accounts(&w)).unwrap();
    assert!(w.apply(&plan));
    assert!(accept(&program(), &accept_accounts(&w)).is_err());
    assert_eq!(w.balance(key(BUYER_Y)), 50);
}

#[test]
fn accept_with_empty_vault_fails() {
    let w = opened(100, 100, 0, 50);
    assert_eq!(accept(&program(), &accept_accounts(&w)), Err(EscrowError::InsufficientFunds));
}

#[test]
fn accept_insufficient_buyer_y_moves_nothing() {
    let mut w = opened(100, 49, 100, 50);
    assert_eq!(accept(&program(), &accept_accounts(&w)), Err(EscrowError::InsufficientFunds));
    assert_eq!(w.balance(key(VAULT)), 100);
    assert_eq!(w.balance(key(BUYER_X)), 0);
    assert!(w.apply(&[]));
}

#[test]
fn accept_wrong_vault() {
    let w = opened(100, 50, 100, 50);
    let mut a = accept_accounts(&w);
    a.escrowed_x_tokens = w.token(key(SELLER_X));
    assert_eq!(accept(&program(), &a), Err(EscrowError::ConstraintViolation));
}

#[test]
fn accept_wrong_y_mint() {
    let w = opened(100, 50, 100, 50);
    let mut a = accept_accounts(&w);
    a.seller_y_token = w.token(key(SELLER_X));
    assert_eq!(accept(&program(), &a), Err(EscrowError::ConstraintViolation));
}

#[test]
fn accept_buyer_not_owner_of_payment() {
    let w = opened(100, 50, 100, 50);
    let mut a = accept_accounts(&w);
    a.buyer = key(SELLER);
    assert_eq!(accept(&program(), &a), Err(EscrowError::ConstraintViolation));
}

#[test]
fn accept_forged_record_address() {
    let w = opened(100, 50, 100, 50);
    let mut a = accept_accounts(&w);
    let record = a.escrow.state.unwrap();
    a.escrow = AccountRef { key: key(SELLER), state: Some(record) };
    assert_eq!(accept(&program(), &a), Err(EscrowError::AuthorizationError));
}

#[test]
fn accept_missing_buyer_account() {
    let w = opened(100, 50, 100, 50);
    let mut a = accept_accounts(&w);
    a.buyer_x_token = w.token(key(99));
    assert_eq!(accept(&program(), &a), Err(EscrowError::NotFound));
}

#[test]
fn cancel_returns_everything() {
    let mut w = opened(100, 0, 100, 50);
    assert_eq!(w.balance(key(SELLER_X)), 0);
    let plan = cancel(&program(), &cancel_accounts(&w, SELLER)).unwrap();
    assert!(w.apply(&plan));
    assert_eq!(w.balance(key(SELLER_X)), 100);
    assert!(!w.accounts.contains_key(&key(VAULT).bytes));
    assert!(!w.records.contains_key(&escrow_address().bytes));
}

#[test]
fn cancel_then_everything_not_found() {
    let mut w = opened(100, 50, 100, 50);
    let plan = cancel(&program(), &cancel_accounts(&w, SELLER)).unwrap();
    assert!(w.apply(&plan));
    assert_eq!(cancel(&program(), &cancel_accounts(&w, SELLER)), Err(EscrowError::NotFound));
    assert_eq!(accept(&program(), &accept_accounts(&w)), Err(EscrowError::NotFound));
}

#[test]
fn cancel_by_other_signer_refused() {
    let w = opened(100, 50, 100, 50);
    assert_eq!(cancel(&program(), &cancel_accounts(&w, BUYER)), Err(EscrowError::AuthorizationError));
    assert_eq!(w.balance(key(VAULT)), 100);
}

#[test]
fn cancel_into_vault_refused() {
    let w = opened(100, 50, 100, 50);
    let mut c = cancel_accounts(&w, SELLER);
    c.seller_x_token = w.token(key(VAULT));
    assert_eq!(cancel(&program(), &c), Err(EscrowError::ConstraintViolation));
}

#[test]
fn cancel_plan_uses_stored_authority() {
    let w = opened(100, 50, 100, 50);
    let record = w.records[&escrow_address().bytes];
    let plan = cancel(&program(), &cancel_accounts(&w, SELLER)).unwrap();
    assert_eq!(
        plan[0],
        Action::Transfer {
            from: key(VAULT),
            to: key(SELLER_X),
            amount: 100,
            authority: Authorization::Derived { seller: key(SELLER), nonce: record.bump },
        }
    );
}

#[test]
fn key_equality_is_bytewise() {
    let mut b = [5u8; 32];
    assert_eq!(Key::new(b), Key::new([5u8; 32]));
    b[31] = 6;
    assert_ne!(Key::new(b), Key::new([5u8; 32]));
    assert_eq!(Key::new(b).to_bytes(), b);
}
