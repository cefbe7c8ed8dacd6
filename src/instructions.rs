use vstd::prelude::*;
use crate::authority::{canonical_address, canonical_nonce, derive_authority, find_authority, authority_address};
use crate::key::Key;
use crate::state::{Accept, Action, Authorization, Cancel, Escrow, EscrowError, Initialize};

verus! {

pub open spec fn plan_view(r: Result<Vec<Action>, EscrowError>) -> Result<Seq<Action>, EscrowError> {
    match r {
        Ok(v) => Ok(v@),
        Err(e) => Err(e),
    }
}

pub open spec fn outcome(error: Option<EscrowError>, plan: Seq<Action>) -> Result<Seq<Action>, EscrowError> {
    match error {
        Some(e) => Err(e),
        None => Ok(plan),
    }
}

// ---- initialize ----

/// Why `initialize` refuses, checked in this order, or `None` where it proceeds.
pub open spec fn initialize_error(program: Key, a: Initialize, x_amount: u64) -> Option<EscrowError> {
    match a.seller_x_token.state {
        None => Some(EscrowError::NotFound),
        Some(source) => if source.mint != a.x_mint || source.owner != a.seller {
            Some(EscrowError::ConstraintViolation)
        } else if canonical_address(a.seller@, program@) != Some(a.escrow.key@) {
            Some(EscrowError::ConstraintViolation)
        } else if a.escrow.state is Some || a.escrowed_x_tokens.state is Some {
            Some(EscrowError::AlreadyExists)
        } else if source.amount < x_amount {
            Some(EscrowError::InsufficientFunds)
        } else {
            None
        },
    }
}

/// The record that `initialize` creates.
pub open spec fn initial_record(program: Key, a: Initialize, y_amount: u64) -> Escrow {
    Escrow {
        authority: a.seller,
        escrow_x_token: a.escrowed_x_tokens.key,
        bump: match canonical_nonce(a.seller@, program@) {
            Some(n) => n,
            None => 0,
        },
        y_amount,
        y_mint: a.y_mint,
    }
}

/// Create the record and the vault, owned by the record's address, and move
/// `x_amount` of X into the vault on the seller's signature.
pub open spec fn initialize_plan(program: Key, a: Initialize, x_amount: u64, y_amount: u64) -> Seq<Action> {
    seq![
        Action::CreateRecord { address: a.escrow.key, record: initial_record(program, a, y_amount) },
        Action::CreateVault { address: a.escrowed_x_tokens.key, mint: a.x_mint, owner: a.escrow.key },
        Action::Transfer {
            from: a.seller_x_token.key,
            to: a.escrowed_x_tokens.key,
            amount: x_amount,
            authority: Authorization::Signer(a.seller),
        },
    ]
}

pub open spec fn initialize_result(program: Key, a: Initialize, x_amount: u64, y_amount: u64) -> Result<Seq<Action>, EscrowError> {
    outcome(initialize_error(program, a, x_amount), initialize_plan(program, a, x_amount, y_amount))
}

/// Opens an escrow: the seller locks `x_amount` of X and demands `y_amount` of Y.
pub fn initialize(program: &Key, a: &Initialize, x_amount: u64, y_amount: u64) -> (r: Result<Vec<Action>, EscrowError>)
    ensures
        plan_view(r) == initialize_result(*program, *a, x_amount, y_amount),
{
    let source = match a.seller_x_token.state {
        None => return Err(EscrowError::NotFound),
        Some(source) => source,
    };
    if !(source.mint == a.x_mint) || !(source.owner == a.seller) {
        return Err(EscrowError::ConstraintViolation);
    }
    let bump = match find_authority(&a.seller, program) {
        None => return Err(EscrowError::ConstraintViolation),
        Some((address, bump)) => {
            if !(address == a.escrow.key) {
                proof { Key::lemma_view_injective(address, a.escrow.key); }
                return Err(EscrowError::ConstraintViolation);
            }
            bump
        },
    };
    if a.escrow.state.is_some() || a.escrowed_x_tokens.state.is_some() {
        return Err(EscrowError::AlreadyExists);
    }
    if source.amount < x_amount {
        return Err(EscrowError::InsufficientFunds);
    }
    let record = Escrow {
        authority: a.seller,
        escrow_x_token: a.escrowed_x_tokens.key,
        bump,
        y_amount,
        y_mint: a.y_mint,
    };
    let mut plan: Vec<Action> = Vec::new();
    plan.push(Action::CreateRecord { address: a.escrow.key, record });
    plan.push(Action::CreateVault { address: a.escrowed_x_tokens.key, mint: a.x_mint, owner: a.escrow.key });
    plan.push(Action::Transfer {
        from: a.seller_x_token.key,
        to: a.escrowed_x_tokens.key,
        amount: x_amount,
        authority: Authorization::Signer(a.seller),
    });
    assert(plan@ =~= initialize_plan(*program, *a, x_amount, y_amount));
    Ok(plan)
}

} // verus!

verus! {

/// The derived authority recorded in `record`.
pub open spec fn record_authority(record: Escrow) -> Authorization {
    Authorization::Derived { seller: record.authority, nonce: record.bump }
}

// ---- accept ----

/// Why `accept` refuses, checked in this order, or `None` where it proceeds.
pub open spec fn accept_error(program: Key, a: Accept) -> Option<EscrowError> {
    match (a.escrow.state, a.escrowed_x_tokens.state, a.seller_y_token.state, a.buyer_x_token.state, a.buyer_y_token.state) {
        (None, _, _, _, _) => Some(EscrowError::NotFound),
        (Some(record), vault, seller_y, buyer_x, buyer_y) => if authority_address(record.authority@, record.bump, program@) != Some(a.escrow.key@) {
            Some(EscrowError::AuthorizationError)
        } else {
            match (vault, seller_y, buyer_x, buyer_y) {
                (Some(vault), Some(seller_y), Some(buyer_x), Some(buyer_y)) => if a.escrowed_x_tokens.key != record.escrow_x_token
                    || vault.owner != a.escrow.key
                    || seller_y.mint != record.y_mint
                    || buyer_x.mint != vault.mint
                    || buyer_y.mint != record.y_mint
                    || buyer_y.owner != a.buyer
                    || a.seller_y_token.key == a.escrowed_x_tokens.key
                    || a.buyer_x_token.key == a.escrowed_x_tokens.key
                    || a.buyer_y_token.key == a.escrowed_x_tokens.key
                {
                    Some(EscrowError::ConstraintViolation)
                } else if vault.amount == 0 || buyer_y.amount < record.y_amount {
                    Some(EscrowError::InsufficientFunds)
                } else {
                    None
                },
                _ => Some(EscrowError::NotFound),
            }
        },
    }
}

/// Move the whole vault to the buyer on the derived authority, `y_amount` of Y
/// from the buyer to the seller on the buyer's signature, then retire the vault
/// and the record, their storage going back to the seller.
pub open spec fn accept_plan(a: Accept) -> Seq<Action> {
    let record = a.escrow.state->Some_0;
    let vault = a.escrowed_x_tokens.state->Some_0;
    seq![
        Action::Transfer {
            from: a.escrowed_x_tokens.key,
            to: a.buyer_x_token.key,
            amount: vault.amount,
            authority: record_authority(record),
        },
        Action::Transfer {
            from: a.buyer_y_token.key,
            to: a.seller_y_token.key,
            amount: record.y_amount,
            authority: Authorization::Signer(a.buyer),
        },
        Action::CloseVault { address: a.escrowed_x_tokens.key, destination: record.authority, authority: record_authority(record) },
        Action::CloseRecord { address: a.escrow.key, destination: record.authority },
    ]
}

pub open spec fn accept_result(program: Key, a: Accept) -> Result<Seq<Action>, EscrowError> {
    outcome(accept_error(program, a), accept_plan(a))
}

fn same_authority(derived: Option<Key>, address: &Key) -> (r: bool)
    ensures
        r == (crate::authority::key_opt_view(derived) == Some(address@)),
{
    match derived {
        Some(k) => {
            proof { Key::lemma_view_injective(k, *address); }
            k == *address
        },
        None => false,
    }
}

/// Settles the escrow: the buyer takes the vault's X and pays the demanded Y.
///
/// A settled escrow is retired as a cancelled one is: the vault and the record
/// are closed in the same operation, so an escrow settles at most once. An
/// empty vault is refused, so a buyer never pays for nothing.
pub fn accept(program: &Key, a: &Accept) -> (r: Result<Vec<Action>, EscrowError>)
    ensures
        plan_view(r) == accept_result(*program, *a),
        // the Y side is checked before anything moves
        a.escrow.state matches Some(record) && a.buyer_y_token.state matches Some(buyer_y)
            && buyer_y.amount < record.y_amount ==> r is Err,
{
    let record = match a.escrow.state {
        None => return Err(EscrowError::NotFound),
        Some(record) => record,
    };
    let derived = derive_authority(&record.authority, record.bump, program);
    if !same_authority(derived, &a.escrow.key) {
        return Err(EscrowError::AuthorizationError);
    }
    let (vault, seller_y, buyer_x, buyer_y) = match (a.escrowed_x_tokens.state, a.seller_y_token.state, a.buyer_x_token.state, a.buyer_y_token.state) {
        (Some(vault), Some(seller_y), Some(buyer_x), Some(buyer_y)) => (vault, seller_y, buyer_x, buyer_y),
        _ => return Err(EscrowError::NotFound),
    };
    if !(a.escrowed_x_tokens.key == record.escrow_x_token)
        || !(vault.owner == a.escrow.key)
        || !(seller_y.mint == record.y_mint)
        || !(buyer_x.mint == vault.mint)
        || !(buyer_y.mint == record.y_mint)
        || !(buyer_y.owner == a.buyer)
        || a.seller_y_token.key == a.escrowed_x_tokens.key
        || a.buyer_x_token.key == a.escrowed_x_tokens.key
        || a.buyer_y_token.key == a.escrowed_x_tokens.key
    {
        return Err(EscrowError::ConstraintViolation);
    }
    if vault.amount == 0 || buyer_y.amount < record.y_amount {
        return Err(EscrowError::InsufficientFunds);
    }
    let authority = Authorization::Derived { seller: record.authority, nonce: record.bump };
    let mut plan: Vec<Action> = Vec::new();
    plan.push(Action::Transfer { from: a.escrowed_x_tokens.key, to: a.buyer_x_token.key, amount: vault.amount, authority });
    plan.push(Action::Transfer {
        from: a.buyer_y_token.key,
        to: a.seller_y_token.key,
        amount: record.y_amount,
        authority: Authorization::Signer(a.buyer),
    });
    plan.push(Action::CloseVault { address: a.escrowed_x_tokens.key, destination: record.authority, authority });
    plan.push(Action::CloseRecord { address: a.escrow.key, destination: record.authority });
    assert(plan@ =~= accept_plan(*a));
    Ok(plan)
}

// ---- cancel ----

/// Why `cancel` refuses, checked in this order, or `None` where it proceeds.
pub open spec fn cancel_error(program: Key, a: Cancel) -> Option<EscrowError> {
    match (a.escrow.state, a.escrowed_x_tokens.state, a.seller_x_token.state) {
        (None, _, _) => Some(EscrowError::NotFound),
        (Some(record), vault, seller_x) => if a.seller != record.authority
            || authority_address(record.authority@, record.bump, program@) != Some(a.escrow.key@)
        {
            Some(EscrowError::AuthorizationError)
        } else {
            match (vault, seller_x) {
                (Some(vault), Some(seller_x)) => if a.escrowed_x_tokens.key != record.escrow_x_token
                    || vault.owner != a.escrow.key
                    || seller_x.mint != vault.mint
                    || seller_x.owner != a.seller
                    || a.seller_x_token.key == a.escrowed_x_tokens.key
                {
                    Some(EscrowError::ConstraintViolation)
                } else {
                    None
                },
                _ => Some(EscrowError::NotFound),
            }
        },
    }
}

/// Move the whole vault back to the seller on the derived authority, then
/// retire the vault and the record, their storage going back to the seller.
pub open spec fn cancel_plan(a: Cancel) -> Seq<Action> {
    let record = a.escrow.state->Some_0;
    let vault = a.escrowed_x_tokens.state->Some_0;
    seq![
        Action::Transfer {
            from: a.escrowed_x_tokens.key,
            to: a.seller_x_token.key,
            amount: vault.amount,
            authority: record_authority(record),
        },
        Action::CloseVault { address: a.escrowed_x_tokens.key, destination: record.authority, authority: record_authority(record) },
        Action::CloseRecord { address: a.escrow.key, destination: record.authority },
    ]
}

pub open spec fn cancel_result(program: Key, a: Cancel) -> Result<Seq<Action>, EscrowError> {
    outcome(cancel_error(program, a), cancel_plan(a))
}

/// Withdraws the offer: the seller takes back the vault's X.
///
/// Every action on the vault is authorized by the authority derived from the
/// record's stored `authority` and `bump`, the same tuple that the record's
/// address was checked against.
pub fn cancel(program: &Key, a: &Cancel) -> (r: Result<Vec<Action>, EscrowError>)
    ensures
        plan_view(r) == cancel_result(*program, *a),
        // only the record's authority may cancel
        a.escrow.state matches Some(record) && a.seller != record.authority
            ==> r == Err::<Vec<Action>, EscrowError>(EscrowError::AuthorizationError),
        r is Ok ==> (a.escrow.state matches Some(record) && a.seller == record.authority),
{
    let record = match a.escrow.state {
        None => return Err(EscrowError::NotFound),
        Some(record) => record,
    };
    if !(a.seller == record.authority) {
        return Err(EscrowError::AuthorizationError);
    }
    let derived = derive_authority(&record.authority, record.bump, program);
    if !same_authority(derived, &a.escrow.key) {
        return Err(EscrowError::AuthorizationError);
    }
    let (vault, seller_x) = match (a.escrowed_x_tokens.state, a.seller_x_token.state) {
        (Some(vault), Some(seller_x)) => (vault, seller_x),
        _ => return Err(EscrowError::NotFound),
    };
    if !(a.escrowed_x_tokens.key == record.escrow_x_token)
        || !(vault.owner == a.escrow.key)
        || !(seller_x.mint == vault.mint)
        || !(seller_x.owner == a.seller)
        || a.seller_x_token.key == a.escrowed_x_tokens.key
    {
        return Err(EscrowError::ConstraintViolation);
    }
    let authority = Authorization::Derived { seller: record.authority, nonce: record.bump };
    let mut plan: Vec<Action> = Vec::new();
    plan.push(Action::Transfer { from: a.escrowed_x_tokens.key, to: a.seller_x_token.key, amount: vault.amount, authority });
    plan.push(Action::CloseVault { address: a.escrowed_x_tokens.key, destination: record.authority, authority });
    plan.push(Action::CloseRecord { address: a.escrow.key, destination: record.authority });
    assert(plan@ =~= cancel_plan(*a));
    Ok(plan)
}

} // verus!
