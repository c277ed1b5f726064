//! The pool record and the addresses derived for a pool.
use vstd::prelude::*;
use crate::error::FlashLoanError;
use crate::keys::Key;

verus! {

/// The record of one pool: the token lent, the mint of the pool's shares, and
/// the bump that makes the pool authority's address a valid derived address.
#[derive(Clone, Copy, Debug)]
pub struct PoolAuthority {
    pub mint: Key,
    pub pool_share_mint: Key,
    pub bump: u8,
}

impl PoolAuthority {
    /// Bytes of the stored record: an eight-byte type discriminator, then
    /// the two addresses and the bump.
    pub const LEN: usize = 8 + 1 + 32 + 32;
}

/// The seed every pool authority address is derived from.
pub open spec fn pool_seed() -> Seq<u8> {
    seq![102u8, 108u8, 97u8, 115u8, 104u8, 95u8, 108u8, 111u8, 97u8, 110u8]
}

/// The seed `b"flash_loan"`.
pub fn pool_seed_bytes() -> (r: Vec<u8>)
    ensures
        r@ == pool_seed(),
{
    let r: Vec<u8> = vec![102u8, 108u8, 97u8, 115u8, 104u8, 95u8, 108u8, 111u8, 97u8, 110u8];
    assert(r@ =~= pool_seed());
    r
}

/// The address derived from `seeds` for the program `program_id`, or `None`
/// where the digest is a point of the curve (and so has a private key).
pub uninterp spec fn program_address_of(seeds: Seq<Seq<u8>>, program_id: Seq<u8>) -> Option<Seq<u8>>;

/// Relies on `Pubkey::create_program_address`: within the limits of sixteen
/// seeds of at most 32 bytes each, it fails only where the derived bytes
/// are a curve point; the address depends on the seeds and the program alone.
#[verifier::external_body]
fn create_program_address(seeds: &[&[u8]], program_id: &Key) -> (r: Option<Key>)
    requires
        seeds@.len() <= 16,
        forall|i: int| 0 <= i < seeds@.len() ==> seeds@[i]@.len() <= 32,
    ensures
        r is Some ==> program_address_of(seeds@.map_values(|s: &[u8]| s@), program_id@) == Some(r->0@),
        r is None ==> program_address_of(seeds@.map_values(|s: &[u8]| s@), program_id@) is None,
{
    let program = anchor_lang::prelude::Pubkey::new_from_array(program_id.bytes);
    match anchor_lang::prelude::Pubkey::create_program_address(seeds, &program) {
        Ok(k) => Some(Key { bytes: k.to_bytes() }),
        Err(_) => None,
    }
}

/// The seeds of the authority of the pool that lends `mint`.
pub open spec fn pool_seeds(mint: Seq<u8>, bump: u8) -> Seq<Seq<u8>> {
    seq![pool_seed(), mint, seq![bump]]
}

/// Whether `authority` is the address derived for the pool lending `mint`.
pub open spec fn is_pool_authority(authority: Seq<u8>, mint: Seq<u8>, bump: u8, program_id: Seq<u8>) -> bool {
    program_address_of(pool_seeds(mint, bump), program_id) == Some(authority)
}

/// Recomputes the pool authority's address from the seed, the mint and the
/// bump, and checks it against `authority`.
pub fn check_pool_authority(authority: &Key, mint: &Key, bump: u8, program_id: &Key) -> (r: Result<(), FlashLoanError>)
    ensures
        r is Ok <==> is_pool_authority(authority@, mint@, bump, program_id@),
        r is Err ==> r == Err::<(), FlashLoanError>(FlashLoanError::ConstraintSeeds),
{
    let seed = pool_seed_bytes();
    let bump_seed: [u8; 1] = [bump];
    let seed_part: &[u8] = seed.as_slice();
    let mint_part: &[u8] = mint.bytes.as_slice();
    let bump_part: &[u8] = bump_seed.as_slice();
    assert(bump_part@ =~= seq![bump]);
    let seeds: [&[u8]; 3] = [seed_part, mint_part, bump_part];
    proof {
        assert(seeds@.len() == 3);
        assert(seeds@[0] == seed_part);
        assert(seeds@[1] == mint_part);
        assert(seeds@[2] == bump_part);
        assert(seeds@.map_values(|s: &[u8]| s@) =~= pool_seeds(mint@, bump));
    }
    match create_program_address(seeds.as_slice(), program_id) {
        Some(derived) => {
            if derived.same_as(authority) {
                Ok(())
            } else {
                Err(FlashLoanError::ConstraintSeeds)
            }
        },
        None => Err(FlashLoanError::ConstraintSeeds),
    }
}

/// The associated token account of `wallet` for `mint`.
pub uninterp spec fn associated_token_address_of(wallet: Seq<u8>, mint: Seq<u8>) -> Seq<u8>;

/// Relies on `spl_associated_token_account::get_associated_token_address`:
/// the address depends on the wallet and the mint alone.
#[verifier::external_body]
fn associated_token_address(wallet: &Key, mint: &Key) -> (r: Key)
    ensures
        r@ == associated_token_address_of(wallet@, mint@),
{
    let w = anchor_lang::prelude::Pubkey::new_from_array(wallet.bytes);
    let m = anchor_lang::prelude::Pubkey::new_from_array(mint.bytes);
    Key { bytes: spl_associated_token_account::get_associated_token_address(&w, &m).to_bytes() }
}

/// Whether `account` is the associated token account of `wallet` for `mint`.
pub fn is_associated_token_account(account: &Key, wallet: &Key, mint: &Key) -> (r: bool)
    ensures
        r == (account@ == associated_token_address_of(wallet@, mint@)),
{
    let expected = associated_token_address(wallet, mint);
    account.same_as(&expected)
}

} // verus!
