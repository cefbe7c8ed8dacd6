use vstd::prelude::*;
use anchor_lang::solana_program::pubkey::Pubkey;
use crate::key::Key;

verus! {

/// The fixed namespace tag under which each seller's escrow authority is derived.
pub const AUTHORITY_TAG: &'static str = "escrow";

/// The program-derived address for the seeds `tag`, `seller` and `[nonce]` under
/// `program`, or `None` where those seeds give no valid off-curve address.
pub uninterp spec fn derived_address(tag: Seq<char>, seller: Seq<u8>, nonce: u8, program: Seq<u8>) -> Option<Seq<u8>>;

pub open spec fn key_opt_view(k: Option<Key>) -> Option<Seq<u8>> {
    match k {
        Some(k) => Some(k@),
        None => None,
    }
}

/// The escrow authority of `seller` for a given nonce.
pub open spec fn authority_address(seller: Seq<u8>, nonce: u8, program: Seq<u8>) -> Option<Seq<u8>> {
    derived_address(AUTHORITY_TAG@, seller, nonce, program)
}

/// `nonce` is the first one that a search from 255 downwards finds valid.
pub open spec fn is_first_nonce(tag: Seq<char>, seller: Seq<u8>, program: Seq<u8>, nonce: u8) -> bool {
    &&& 1 <= nonce
    &&& derived_address(tag, seller, nonce, program) is Some
    &&& forall|n: u8| nonce < n ==> (#[trigger] derived_address(tag, seller, n, program)) is None
}

/// The nonce stored for `seller`'s escrow: the first valid one from 255 down to 1.
pub open spec fn canonical_nonce(seller: Seq<u8>, program: Seq<u8>) -> Option<u8> {
    if exists|n: u8| is_first_nonce(AUTHORITY_TAG@, seller, program, n) {
        Some(choose|n: u8| is_first_nonce(AUTHORITY_TAG@, seller, program, n))
    } else {
        None
    }
}

/// The address of `seller`'s escrow record, which is also its vault's authority.
pub open spec fn canonical_address(seller: Seq<u8>, program: Seq<u8>) -> Option<Seq<u8>> {
    match canonical_nonce(seller, program) {
        Some(n) => authority_address(seller, n, program),
        None => None,
    }
}

/// At most one nonce is the first valid one.
pub proof fn lemma_first_nonce_unique(tag: Seq<char>, seller: Seq<u8>, program: Seq<u8>, a: u8, b: u8)
    requires
        is_first_nonce(tag, seller, program, a),
        is_first_nonce(tag, seller, program, b),
    ensures
        a == b,
{
    if a < b {
        assert(derived_address(tag, seller, b, program) is None);
    } else if b < a {
        assert(derived_address(tag, seller, a, program) is None);
    }
}

/// Relies on `Pubkey::create_program_address`: the address for the seeds
/// `tag`, `seller` and `[nonce]` under `program`, a function of these alone.
#[verifier::external_body]
fn create_program_address(tag: &str, seller: &Key, nonce: u8, program: &Key) -> (r: Option<Key>)
    ensures
        key_opt_view(r) == derived_address(tag@, seller@, nonce, program@),
{
    let seeds: [&[u8]; 3] = [tag.as_bytes(), &seller.bytes, &[nonce]];
    match Pubkey::create_program_address(&seeds, &Pubkey::new_from_array(program.bytes)) {
        Ok(address) => Some(Key { bytes: address.to_bytes() }),
        Err(_) => None,
    }
}

/// Relies on `Pubkey::try_find_program_address`: it tries the nonces from 255
/// down to 1 and returns the first address that `create_program_address` gives
/// for the seeds `tag`, `seller` and `[nonce]`, with that nonce.
#[verifier::external_body]
fn try_find_program_address(tag: &str, seller: &Key, program: &Key) -> (r: Option<(Key, u8)>)
    ensures
        match r {
            Some((address, nonce)) => {
                &&& is_first_nonce(tag@, seller@, program@, nonce)
                &&& derived_address(tag@, seller@, nonce, program@) == Some(address@)
            },
            None => forall|n: u8| 1 <= n ==> (#[trigger] derived_address(tag@, seller@, n, program@)) is None,
        },
{
    let seeds: [&[u8]; 2] = [tag.as_bytes(), &seller.bytes];
    match Pubkey::try_find_program_address(&seeds, &Pubkey::new_from_array(program.bytes)) {
        Some((address, nonce)) => Some((Key { bytes: address.to_bytes() }, nonce)),
        None => None,
    }
}

/// Recomputes `seller`'s escrow authority from a stored nonce.
pub fn derive_authority(seller: &Key, nonce: u8, program: &Key) -> (r: Option<Key>)
    ensures
        key_opt_view(r) == authority_address(seller@, nonce, program@),
{
    create_program_address(AUTHORITY_TAG, seller, nonce, program)
}

/// Searches the nonce for `seller`'s escrow authority, as done once when the
/// escrow is created.
pub fn find_authority(seller: &Key, program: &Key) -> (r: Option<(Key, u8)>)
    ensures
        match r {
            Some((address, nonce)) => {
                &&& canonical_nonce(seller@, program@) == Some(nonce)
                &&& canonical_address(seller@, program@) == Some(address@)
            },
            None => canonical_nonce(seller@, program@) is None,
        },
{
    let r = try_find_program_address(AUTHORITY_TAG, seller, program);
    proof {
        match r {
            Some((address, nonce)) => {
                let c = choose|n: u8| is_first_nonce(AUTHORITY_TAG@, seller@, program@, n);
                lemma_first_nonce_unique(AUTHORITY_TAG@, seller@, program@, c, nonce);
            },
            None => {
                if exists|n: u8| is_first_nonce(AUTHORITY_TAG@, seller@, program@, n) {
                    let c = choose|n: u8| is_first_nonce(AUTHORITY_TAG@, seller@, program@, n);
                    assert(derived_address(AUTHORITY_TAG@, seller@, c, program@) is None);
                }
            },
        }
    }
    r
}

} // verus!
