//! The pool account: its data, the seeds its address is derived from, and
//! how a handler loads it and stores it back.

use vstd::prelude::*;

verus! {

/// The data of the pool account: the bump seed of its own address.
#[derive(Clone, Copy, Debug, PartialEq, Eq, Structural)]
pub struct DepositPool {
    pub bump: u8,
}

/// The pool as a handler works on it while the instruction runs.
#[derive(Clone, Copy, Debug, PartialEq, Eq, Structural)]
pub struct LoadedDepositPool {
    pub bump: u8,
}

impl DepositPool {
    /// What a handler works on when it loads `account`.
    pub open spec fn spec_load(account: DepositPool) -> LoadedDepositPool {
        LoadedDepositPool { bump: account.bump }
    }

    /// What `account` holds after `loaded` is stored into it.
    pub open spec fn spec_store(loaded: LoadedDepositPool, account: DepositPool) -> DepositPool {
        DepositPool { bump: loaded.bump }
    }

    /// Reads the pool account into the form a handler works on.
    pub fn load(account: &DepositPool) -> (loaded: LoadedDepositPool)
        ensures
            loaded == DepositPool::spec_load(*account),
    {
        LoadedDepositPool { bump: account.bump }
    }

    /// Writes what a handler made of the pool back into the account.
    pub fn store(loaded: &LoadedDepositPool, account: &mut DepositPool)
        ensures
            *final(account) == DepositPool::spec_store(*loaded, *old(account)),
    {
        account.bump = loaded.bump;
    }
}

/// For every account and loaded pool, loading copies the account's bump and
/// storing writes the loaded pool's bump into the account.
pub proof fn load_and_store_copy_the_bump(account: DepositPool, loaded: LoadedDepositPool)
    ensures
        DepositPool::spec_load(account).bump == account.bump,
        DepositPool::spec_store(loaded, account).bump == loaded.bump,
{
}

/// Storing the pool as it was loaded leaves the account as it was.
pub proof fn store_of_load_keeps_account(account: DepositPool)
    ensures
        DepositPool::spec_store(DepositPool::spec_load(account), account) == account,
{
}

/// Loading the account after a store gives back what was stored.
pub proof fn load_after_store_gives_stored(loaded: LoadedDepositPool, account: DepositPool)
    ensures
        DepositPool::spec_load(DepositPool::spec_store(loaded, account)) == loaded,
{
}

/// The decimals of the pool token mint: those of SOL, so that one base unit
/// of the token stands for one lamport.
pub const MINT_DECIMALS: u8 = 9;

/// The lamports in one SOL.
pub const LAMPORTS_PER_SOL: u64 = 1_000_000_000;

/// A whole pool token and a whole SOL have the same number of base units.
pub proof fn token_and_sol_have_equal_units()
    ensures
        vstd::arithmetic::power::pow(10, MINT_DECIMALS as nat) == LAMPORTS_PER_SOL,
{
    reveal_with_fuel(vstd::arithmetic::power::pow, 10);
}

/// The seed the pool account's address is derived from: `"dep-pool"`.
pub open spec fn spec_pool_seed() -> Seq<u8> {
    seq![100u8, 101u8, 112u8, 45u8, 112u8, 111u8, 111u8, 108u8]
}

/// The seed the pool token mint's address is derived from:
/// `"pool-token-mint"`.
pub open spec fn spec_mint_seed() -> Seq<u8> {
    seq![
        112u8, 111u8, 111u8, 108u8, 45u8, 116u8, 111u8, 107u8,
        101u8, 110u8, 45u8, 109u8, 105u8, 110u8, 116u8,
    ]
}

/// The bytes of `"dep-pool"`, the seed of the pool account's address.
pub fn pool_seed() -> (seed: Vec<u8>)
    ensures
        seed@ == spec_pool_seed(),
{
    // d e p - p o o l
    let seed: Vec<u8> = vec![100, 101, 112, 45, 112, 111, 111, 108];
    assert(seed@ =~= spec_pool_seed());
    seed
}

/// The bytes of `"pool-token-mint"`, the seed of the pool token mint's
/// address and the first seed of each user's pool token account.
pub fn mint_seed() -> (seed: Vec<u8>)
    ensures
        seed@ == spec_mint_seed(),
{
    // p o o l - t o k e n - m i n t
    let seed: Vec<u8> = vec![112, 111, 111, 108, 45, 116, 111, 107, 101, 110, 45, 109, 105, 110, 116];
    assert(seed@ =~= spec_mint_seed());
    seed
}

/// The seeds with which the pool signs for its own address: its address
/// seed followed by its bump.
pub open spec fn spec_pool_signer_seeds(bump: u8) -> Seq<Seq<u8>> {
    seq![spec_pool_seed(), seq![bump]]
}

/// The seeds with which the pool signs as the mint authority.
pub fn pool_signer_seeds(bump: u8) -> (seeds: Vec<Vec<u8>>)
    ensures
        seeds@.len() == 2,
        seeds@[0]@ == spec_pool_signer_seeds(bump)[0],
        seeds@[1]@ == spec_pool_signer_seeds(bump)[1],
        seeds@[0]@ == spec_pool_seed(),
        seeds@[1]@ == seq![bump],
{
    let bump_seed: Vec<u8> = vec![bump];
    assert(bump_seed@ =~= seq![bump]);
    let mut seeds: Vec<Vec<u8>> = Vec::new();
    seeds.push(pool_seed());
    seeds.push(bump_seed);
    seeds
}

/// The pool's address seed is the text `"dep-pool"`, byte for byte, and the
/// mint's is `"pool-token-mint"`.
pub proof fn seeds_spell_their_names()
    ensures
        spec_pool_seed().len() == "dep-pool"@.len(),
        forall|i: int| 0 <= i < spec_pool_seed().len() ==> spec_pool_seed()[i] == ("dep-pool"@[i] as u8),
        spec_mint_seed().len() == "pool-token-mint"@.len(),
        forall|i: int|
            0 <= i < spec_mint_seed().len() ==> spec_mint_seed()[i] == ("pool-token-mint"@[i] as u8),
{
    reveal_strlit("dep-pool");
    reveal_strlit("pool-token-mint");
}

/// For every bump `b`, the pool signs with two seeds: its address seed, then
/// the one byte `b` itself; pools with different bumps sign with different
/// seeds.
pub proof fn pool_signs_with_its_bump(b: u8, c: u8)
    ensures
        spec_pool_signer_seeds(b).len() == 2,
        spec_pool_signer_seeds(b)[0] == spec_pool_seed(),
        spec_pool_signer_seeds(b)[1].len() == 1,
        spec_pool_signer_seeds(b)[1][0] == b,
        b != c ==> spec_pool_signer_seeds(b) != spec_pool_signer_seeds(c),
{
    if b != c {
        assert(spec_pool_signer_seeds(b)[1][0] != spec_pool_signer_seeds(c)[1][0]);
    }
}

} // verus!
