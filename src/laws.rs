use vstd::prelude::*;
use crate::authority::canonical_nonce;
use crate::instructions::{accept_plan, accept_result, cancel_plan, cancel_result, initialize_plan, initialize_result};
use crate::key::Key;
use crate::ledger::{run, shows_account, shows_record, step, Ledger};
use crate::state::{Accept, Cancel, Escrow, EscrowError, Initialize};

verus! {

/// A successful `initialize`, applied to the ledger it was computed from, goes
/// through; the new vault then holds exactly `x_amount` of X under the record's
/// address, the seller's account holds exactly `x_amount` less, and the record
/// holds the seller, the vault, the found nonce and the demanded Y.
pub proof fn lemma_initialize_deposits(program: Key, l: Ledger, a: Initialize, x_amount: u64, y_amount: u64)
    requires
        shows_account(l, a.seller_x_token),
        shows_record(l, a.escrow),
        shows_account(l, a.escrowed_x_tokens),
        initialize_result(program, a, x_amount, y_amount) is Ok,
    ensures
        run(program, l, initialize_plan(program, a, x_amount, y_amount)) is Some,
        ({
            let after = run(program, l, initialize_plan(program, a, x_amount, y_amount))->Some_0;
            &&& after.accounts[a.escrowed_x_tokens.key].amount == x_amount
            &&& after.accounts[a.escrowed_x_tokens.key].mint == a.x_mint
            &&& after.accounts[a.escrowed_x_tokens.key].owner == a.escrow.key
            &&& after.accounts[a.seller_x_token.key].amount == a.seller_x_token.state->Some_0.amount - x_amount
            &&& after.records[a.escrow.key] == Escrow {
                authority: a.seller,
                escrow_x_token: a.escrowed_x_tokens.key,
                bump: canonical_nonce(a.seller@, program@)->Some_0,
                y_amount,
                y_mint: a.y_mint,
            }
        }),
{
    reveal_with_fuel(run, 4);
    let plan = initialize_plan(program, a, x_amount, y_amount);
    let s1 = step(program, l, plan[0])->Some_0;
    let s2 = step(program, s1, plan[1])->Some_0;
    assert(s2.accounts.dom().contains(a.seller_x_token.key));
    assert(a.seller_x_token.key != a.escrowed_x_tokens.key);
    assert(plan.drop_first().drop_first().drop_first().len() == 0);
}

/// Once a retired record's address holds nothing, any `accept` or `cancel`
/// naming it fails with `NotFound`.
pub proof fn lemma_retired_not_found(program: Key, l: Ledger, address: Key, a: Accept, c: Cancel)
    requires
        !l.records.dom().contains(address),
        a.escrow.key == address,
        c.escrow.key == address,
        shows_record(l, a.escrow),
        shows_record(l, c.escrow),
    ensures
        accept_result(program, a) == Err::<Seq<crate::state::Action>, EscrowError>(EscrowError::NotFound),
        cancel_result(program, c) == Err::<Seq<crate::state::Action>, EscrowError>(EscrowError::NotFound),
{
}

/// An escrow settles at most once: once a successful `accept` has been applied,
/// its record is gone, so every later `accept` or `cancel` naming it fails.
pub proof fn lemma_accept_at_most_once(program: Key, l: Ledger, a: Accept, after: Ledger, again: Accept, c: Cancel)
    requires
        shows_record(l, a.escrow),
        accept_result(program, a) is Ok,
        run(program, l, accept_plan(a)) == Some(after),
        again.escrow.key == a.escrow.key,
        c.escrow.key == a.escrow.key,
        shows_record(after, again.escrow),
        shows_record(after, c.escrow),
    ensures
        !after.records.dom().contains(a.escrow.key),
        accept_result(program, again) == Err::<Seq<crate::state::Action>, EscrowError>(EscrowError::NotFound),
        cancel_result(program, c) == Err::<Seq<crate::state::Action>, EscrowError>(EscrowError::NotFound),
{
    reveal_with_fuel(run, 5);
    let plan = accept_plan(a);
    let s1 = step(program, l, plan[0])->Some_0;
    let s2 = step(program, s1, plan[1])->Some_0;
    let s3 = step(program, s2, plan[2])->Some_0;
    let s4 = step(program, s3, plan[3])->Some_0;
    assert(plan.drop_first().drop_first().drop_first().drop_first().len() == 0);
    assert(s4.records =~= s3.records.remove(a.escrow.key));
    lemma_retired_not_found(program, after, a.escrow.key, again, c);
}

/// A successful `cancel`, applied to the ledger it was computed from, returns
/// the vault's whole balance to the seller's account and removes the vault and
/// the record. It goes through wherever the seller's account can take the
/// vault's balance without passing the largest `u64`.
pub proof fn lemma_cancel_returns_vault(program: Key, l: Ledger, a: Cancel)
    requires
        shows_record(l, a.escrow),
        shows_account(l, a.escrowed_x_tokens),
        shows_account(l, a.seller_x_token),
        cancel_result(program, a) is Ok,
        a.seller_x_token.state->Some_0.amount + a.escrowed_x_tokens.state->Some_0.amount <= u64::MAX,
    ensures
        run(program, l, cancel_plan(a)) is Some,
        ({
            let after = run(program, l, cancel_plan(a))->Some_0;
            &&& after.accounts[a.seller_x_token.key].amount
                == a.seller_x_token.state->Some_0.amount + a.escrowed_x_tokens.state->Some_0.amount
            &&& !after.accounts.dom().contains(a.escrowed_x_tokens.key)
            &&& !after.records.dom().contains(a.escrow.key)
        }),
{
    reveal_with_fuel(run, 4);
    let plan = cancel_plan(a);
    let s1 = step(program, l, plan[0])->Some_0;
    assert(step(program, l, plan[0]) is Some);
    let s2 = step(program, s1, plan[1])->Some_0;
    assert(step(program, s1, plan[1]) is Some);
    let s3 = step(program, s2, plan[2])->Some_0;
    assert(plan.drop_first().drop_first().drop_first().len() == 0);
}

/// Only the record's authority cancels: any other signer is refused with
/// `AuthorizationError`, before any action.
pub proof fn lemma_only_authority_cancels(program: Key, a: Cancel)
    requires
        a.escrow.state is Some,
        a.seller != a.escrow.state->Some_0.authority,
    ensures
        cancel_result(program, a) == Err::<Seq<crate::state::Action>, EscrowError>(EscrowError::AuthorizationError),
{
}

/// Settlement is all or nothing: where the buyer's account holds less Y than
/// the record demands, `accept` fails before any action, so no X leaves the vault.
pub proof fn lemma_accept_atomic(program: Key, a: Accept)
    requires
        a.escrow.state is Some,
        a.buyer_y_token.state is Some,
        a.buyer_y_token.state->Some_0.amount < a.escrow.state->Some_0.y_amount,
    ensures
        accept_result(program, a) is Err,
{
}

/// The ledger can take the balances that a settlement adds: the buyer's X
/// account the vault's balance, and the seller's Y account `y_amount` after that
/// (a payment from an account to itself adds nothing).
pub open spec fn accept_fits(a: Accept) -> bool {
    let vault = a.escrowed_x_tokens.state->Some_0;
    let buyer_x = a.buyer_x_token.state->Some_0;
    let seller_y = a.seller_y_token.state->Some_0;
    let y = a.escrow.state->Some_0.y_amount;
    &&& buyer_x.amount + vault.amount <= u64::MAX
    &&& a.buyer_y_token.key != a.seller_y_token.key ==> if a.seller_y_token.key == a.buyer_x_token.key {
        buyer_x.amount + vault.amount + y <= u64::MAX
    } else {
        seller_y.amount + y <= u64::MAX
    }
}

/// A successful `accept`, applied to the ledger it was computed from, goes
/// through as a whole wherever the receiving accounts can take the amounts: the
/// vault and the record are retired, and where the buyer's and seller's
/// accounts are distinct, the buyer gains the vault's whole X balance and
/// `y_amount` of Y moves from the buyer to the seller.
pub proof fn lemma_accept_settles(program: Key, l: Ledger, a: Accept)
    requires
        shows_record(l, a.escrow),
        shows_account(l, a.escrowed_x_tokens),
        shows_account(l, a.seller_y_token),
        shows_account(l, a.buyer_x_token),
        shows_account(l, a.buyer_y_token),
        accept_result(program, a) is Ok,
        accept_fits(a),
    ensures
        run(program, l, accept_plan(a)) is Some,
        ({
            let after = run(program, l, accept_plan(a))->Some_0;
            let y = a.escrow.state->Some_0.y_amount;
            &&& !after.accounts.dom().contains(a.escrowed_x_tokens.key)
            &&& !after.records.dom().contains(a.escrow.key)
            &&& a.buyer_x_token.key != a.seller_y_token.key && a.buyer_x_token.key != a.buyer_y_token.key
                && a.buyer_y_token.key != a.seller_y_token.key ==> {
                &&& after.accounts[a.buyer_x_token.key].amount
                    == a.buyer_x_token.state->Some_0.amount + a.escrowed_x_tokens.state->Some_0.amount
                &&& after.accounts[a.seller_y_token.key].amount == a.seller_y_token.state->Some_0.amount + y
                &&& after.accounts[a.buyer_y_token.key].amount == a.buyer_y_token.state->Some_0.amount - y
            }
        }),
{
    reveal_with_fuel(run, 5);
    let plan = accept_plan(a);
    assert(step(program, l, plan[0]) is Some);
    let s1 = step(program, l, plan[0])->Some_0;
    assert(step(program, s1, plan[1]) is Some);
    let s2 = step(program, s1, plan[1])->Some_0;
    assert(step(program, s2, plan[2]) is Some);
    let s3 = step(program, s2, plan[2])->Some_0;
    assert(step(program, s3, plan[3]) is Some);
    assert(plan.drop_first().drop_first().drop_first().drop_first().len() == 0);
}

} // verus!
