use vstd::prelude::*;
use crate::key::Key;

verus! {

/// What the ledger holds in a token account.
#[derive(Clone, Copy, Debug, PartialEq, Eq)]
pub struct TokenAccount {
    pub mint: Key,
    pub owner: Key,
    pub amount: u64,
}

/// The persistent escrow record, stored at the seller's derived authority.
#[derive(Clone, Copy, Debug, PartialEq, Eq)]
pub struct Escrow {
    /// The seller; the only identity that may cancel.
    pub authority: Key,
    /// The vault holding the escrowed X.
    pub escrow_x_token: Key,
    /// The nonce that, with the seller, derives the record's address.
    pub bump: u8,
    /// The quantity of Y demanded.
    pub y_amount: u64,
    /// The asset type demanded.
    pub y_mint: Key,
}

/// An account named by an operation, with what the ledger holds at that
/// address when the operation starts (`None` where nothing is there).
#[derive(Clone, Copy, Debug, PartialEq, Eq)]
pub struct AccountRef<T> {
    pub key: Key,
    pub state: Option<T>,
}

/// The accounts that `initialize` touches.
#[derive(Clone, Copy, Debug, PartialEq, Eq)]
pub struct Initialize {
    /// The seller, who signs.
    pub seller: Key,
    pub x_mint: Key,
    pub y_mint: Key,
    pub seller_x_token: AccountRef<TokenAccount>,
    /// Where the record is to be created.
    pub escrow: AccountRef<Escrow>,
    /// Where the vault is to be created.
    pub escrowed_x_tokens: AccountRef<TokenAccount>,
}

/// The accounts that `accept` touches.
#[derive(Clone, Copy, Debug, PartialEq, Eq)]
pub struct Accept {
    /// The buyer, who signs.
    pub buyer: Key,
    pub escrow: AccountRef<Escrow>,
    pub escrowed_x_tokens: AccountRef<TokenAccount>,
    pub seller_y_token: AccountRef<TokenAccount>,
    pub buyer_x_token: AccountRef<TokenAccount>,
    pub buyer_y_token: AccountRef<TokenAccount>,
}

/// The accounts that `cancel` touches.
#[derive(Clone, Copy, Debug, PartialEq, Eq)]
pub struct Cancel {
    /// The signer, who must be the record's authority.
    pub seller: Key,
    pub escrow: AccountRef<Escrow>,
    pub escrowed_x_tokens: AccountRef<TokenAccount>,
    pub seller_x_token: AccountRef<TokenAccount>,
}

#[derive(Clone, Copy, Debug, PartialEq, Eq, Structural)]
pub enum EscrowError {
    /// The signer or the derived authority does not match.
    AuthorizationError,
    /// An asset type, an owner or an account reference does not match.
    ConstraintViolation,
    InsufficientFunds,
    /// The record, the vault or another account is absent.
    NotFound,
    /// The record or the vault already exists.
    AlreadyExists,
}

/// What authorizes a ledger action.
#[derive(Clone, Copy, Debug, PartialEq, Eq)]
pub enum Authorization {
    /// The signature of this identity.
    Signer(Key),
    /// The key-less authority derived from this seller and nonce.
    Derived { seller: Key, nonce: u8 },
}

/// One call on the ledger.
#[derive(Clone, Copy, Debug, PartialEq, Eq)]
pub enum Action {
    CreateRecord { address: Key, record: Escrow },
    CreateVault { address: Key, mint: Key, owner: Key },
    Transfer { from: Key, to: Key, amount: u64, authority: Authorization },
    /// Closes an empty token account; its storage cost goes to `destination`.
    CloseVault { address: Key, destination: Key, authority: Authorization },
    /// Closes the record; its storage cost goes to `destination`.
    CloseRecord { address: Key, destination: Key },
}

} // verus!
