//! Where each record lives: an address derived from a tag, the keys the
//! record belongs to, and the program that owns it. The hashing is the
//! runtime's; the seed lists are this crate's.

use vstd::prelude::*;
use vstd::string::StringSliceAdditionalSpecFns;
use crate::pubkey::Pubkey;

verus! {

/// Tag of a fee tier's address.
pub const AMM_CONFIG_SEED: &'static str = "amm_config";

/// Tag of a pool's address.
pub const POOL_SEED: &'static str = "pool";

/// Tag of the address of a pool's token vault.
pub const POOL_VAULT_SEED: &'static str = "pool_vault";

/// Tag of the address of a pool's reward vault.
pub const POOL_REWARD_VAULT_SEED: &'static str = "pool_reward_vault";

/// Tag of the address of the extension of a pool's tick-array bitmap.
pub const POOL_TICK_ARRAY_BITMAP_SEED: &'static str = "pool_tick_array_bitmap_extension";

/// Tag of the whitelist's address.
pub const OPERATION_SEED: &'static str = "operation";

/// Tag of the address of a pool's price history.
pub const OBSERVATION_SEED: &'static str = "observation";

/// Most seeds an address can be derived from, the bump included.
pub const MAX_SEEDS: usize = 16;

/// Most bytes one seed can have.
pub const MAX_SEED_LEN: usize = 32;

/// The address that the runtime derives from `seeds` for the program
/// `program_id` without looking for a bump, or `None` where it derives none.
pub uninterp spec fn program_address(seeds: Seq<Seq<u8>>, program_id: Seq<u8>) -> Option<Seq<u8>>;

/// The address and the bump that the runtime finds for `seeds` and the
/// program `program_id`, or `None` where it finds none.
pub uninterp spec fn derived_address(seeds: Seq<Seq<u8>>, program_id: Seq<u8>) -> Option<
    (Seq<u8>, u8),
>;

/// A list of seeds as the byte strings it holds.
pub open spec fn seeds_view(seeds: Seq<Vec<u8>>) -> Seq<Seq<u8>> {
    Seq::new(seeds.len(), |i: int| seeds[i]@)
}

/// Whether some seed of the list is longer than a seed can be.
pub open spec fn has_long_seed(seeds: Seq<Seq<u8>>) -> bool {
    exists|i: int| 0 <= i < seeds.len() && (#[trigger] seeds[i]).len() > MAX_SEED_LEN
}

/// Calls `Pubkey::create_program_address` of the Solana SDK, as anchor_lang
/// re-exports it. Claimed: the result is a function of the seeds and the
/// program id alone; there is none for more than 16 seeds or a seed longer
/// than 32 bytes.
#[verifier::external_body]
pub(crate) fn create_program_address(seeds: &Vec<Vec<u8>>, program_id: &Pubkey) -> (out: Option<
    Pubkey,
>)
    ensures
        match out {
            Some(key) => program_address(seeds_view(seeds@), program_id@) == Some(key@),
            None => program_address(seeds_view(seeds@), program_id@) is None,
        },
        seeds.len() > MAX_SEEDS || has_long_seed(seeds_view(seeds@)) ==> out is None,
{
    let parts: Vec<&[u8]> = seeds.iter().map(|s| s.as_slice()).collect();
    let id = anchor_lang::prelude::Pubkey::new_from_array(program_id.bytes);
    match anchor_lang::prelude::Pubkey::create_program_address(&parts, &id) {
        Ok(key) => Some(Pubkey { bytes: key.to_bytes() }),
        Err(_) => None,
    }
}

/// Calls `Pubkey::try_find_program_address` of the Solana SDK, as anchor_lang
/// re-exports it. Claimed: the result is a function of the seeds and the
/// program id alone; there is none for 16 seeds or more; an address found
/// with a bump is the address that `create_program_address` derives from the
/// seeds followed by the bump as one more seed of one byte.
#[verifier::external_body]
pub(crate) fn try_find_program_address(seeds: &Vec<Vec<u8>>, program_id: &Pubkey) -> (out: Option<
    (Pubkey, u8),
>)
    ensures
        match out {
            Some((key, bump)) => derived_address(seeds_view(seeds@), program_id@) == Some(
                (key@, bump),
            ) && program_address(seeds_view(seeds@).push(seq![bump]), program_id@) == Some(key@),
            None => derived_address(seeds_view(seeds@), program_id@) is None,
        },
        seeds.len() >= MAX_SEEDS || has_long_seed(seeds_view(seeds@)) ==> out is None,
{
    let parts: Vec<&[u8]> = seeds.iter().map(|s| s.as_slice()).collect();
    let id = anchor_lang::prelude::Pubkey::new_from_array(program_id.bytes);
    match anchor_lang::prelude::Pubkey::try_find_program_address(&parts, &id) {
        Some((key, bump)) => Some((Pubkey { bytes: key.to_bytes() }, bump)),
        None => None,
    }
}

/// The bytes of a tag.
pub fn seed_bytes(tag: &str) -> (v: Vec<u8>)
    ensures
        v@ == tag.spec_bytes(),
{
    let bytes = tag.as_bytes();
    let mut v: Vec<u8> = Vec::new();
    let mut i: usize = 0;
    while i < bytes.len()
        invariant
            i <= bytes.len(),
            v@ == bytes@.subrange(0, i as int),
        decreases bytes.len() - i,
    {
        v.push(bytes[i]);
        i += 1;
    }
    v
}

/// The number of a fee tier as a seed: its two bytes, the high one first.
pub open spec fn spec_index_seed(index: u16) -> Seq<u8> {
    seq![(index / 256) as u8, (index % 256) as u8]
}

/// Seeds of a fee tier: the tag and the tier's number.
pub open spec fn spec_amm_config_seeds(index: u16) -> Seq<Seq<u8>> {
    seq![AMM_CONFIG_SEED.spec_bytes(), spec_index_seed(index)]
}

/// Seeds of a pool: the tag, the fee tier and the two mints.
pub open spec fn spec_pool_seeds(amm_config: Pubkey, token_mint_0: Pubkey, token_mint_1: Pubkey) -> Seq<
    Seq<u8>,
> {
    seq![POOL_SEED.spec_bytes(), amm_config@, token_mint_0@, token_mint_1@]
}

/// Seeds of a record that hangs on a pool and a mint: a tag, the pool and the
/// mint.
pub open spec fn spec_pool_mint_seeds(tag: &str, pool: Pubkey, mint: Pubkey) -> Seq<Seq<u8>> {
    seq![tag.spec_bytes(), pool@, mint@]
}

/// Seeds of a record that hangs on a pool alone: a tag and the pool.
pub open spec fn spec_pool_record_seeds(tag: &str, pool: Pubkey) -> Seq<Seq<u8>> {
    seq![tag.spec_bytes(), pool@]
}

/// Seeds of the whitelist: the tag alone.
pub open spec fn spec_operation_seeds() -> Seq<Seq<u8>> {
    seq![OPERATION_SEED.spec_bytes()]
}

/// Seeds of the fee tier number `index`.
pub fn amm_config_seeds(index: u16) -> (seeds: Vec<Vec<u8>>)
    ensures
        seeds_view(seeds@) == spec_amm_config_seeds(index),
        seeds.len() == 2,
{
    let mut number: Vec<u8> = Vec::new();
    number.push((index / 256) as u8);
    number.push((index % 256) as u8);
    assert(number@ =~= spec_index_seed(index));
    let mut seeds: Vec<Vec<u8>> = Vec::new();
    seeds.push(seed_bytes(AMM_CONFIG_SEED));
    seeds.push(number);
    assert(seeds_view(seeds@) =~= spec_amm_config_seeds(index));
    seeds
}

/// Seeds of a pool.
pub fn pool_seeds(amm_config: &Pubkey, token_mint_0: &Pubkey, token_mint_1: &Pubkey) -> (seeds:
    Vec<Vec<u8>>)
    ensures
        seeds_view(seeds@) == spec_pool_seeds(*amm_config, *token_mint_0, *token_mint_1),
        seeds.len() == 4,
{
    let mut seeds: Vec<Vec<u8>> = Vec::new();
    seeds.push(seed_bytes(POOL_SEED));
    seeds.push(amm_config.to_vec());
    seeds.push(token_mint_0.to_vec());
    seeds.push(token_mint_1.to_vec());
    seeds
}

/// Seeds of the vault that holds a pool's tokens of `mint`.
pub fn pool_vault_seeds(pool: &Pubkey, mint: &Pubkey) -> (seeds: Vec<Vec<u8>>)
    ensures
        seeds_view(seeds@) == spec_pool_mint_seeds(POOL_VAULT_SEED, *pool, *mint),
        seeds.len() == 3,
{
    let mut seeds: Vec<Vec<u8>> = Vec::new();
    seeds.push(seed_bytes(POOL_VAULT_SEED));
    seeds.push(pool.to_vec());
    seeds.push(mint.to_vec());
    seeds
}

/// Seeds of the vault that holds a pool's reward tokens of `mint`.
pub fn pool_reward_vault_seeds(pool: &Pubkey, mint: &Pubkey) -> (seeds: Vec<Vec<u8>>)
    ensures
        seeds_view(seeds@) == spec_pool_mint_seeds(POOL_REWARD_VAULT_SEED, *pool, *mint),
        seeds.len() == 3,
{
    let mut seeds: Vec<Vec<u8>> = Vec::new();
    seeds.push(seed_bytes(POOL_REWARD_VAULT_SEED));
    seeds.push(pool.to_vec());
    seeds.push(mint.to_vec());
    seeds
}

/// Seeds of the extension of a pool's tick-array bitmap.
pub fn tick_array_bitmap_extension_seeds(pool: &Pubkey) -> (seeds: Vec<Vec<u8>>)
    ensures
        seeds_view(seeds@) == spec_pool_record_seeds(POOL_TICK_ARRAY_BITMAP_SEED, *pool),
        seeds.len() == 2,
{
    let mut seeds: Vec<Vec<u8>> = Vec::new();
    seeds.push(seed_bytes(POOL_TICK_ARRAY_BITMAP_SEED));
    seeds.push(pool.to_vec());
    seeds
}

/// Seeds of a pool's price history.
pub fn observation_seeds(pool: &Pubkey) -> (seeds: Vec<Vec<u8>>)
    ensures
        seeds_view(seeds@) == spec_pool_record_seeds(OBSERVATION_SEED, *pool),
        seeds.len() == 2,
{
    let mut seeds: Vec<Vec<u8>> = Vec::new();
    seeds.push(seed_bytes(OBSERVATION_SEED));
    seeds.push(pool.to_vec());
    seeds
}

/// Seeds of the whitelist.
pub fn operation_seeds() -> (seeds: Vec<Vec<u8>>)
    ensures
        seeds_view(seeds@) == spec_operation_seeds(),
        seeds.len() == 1,
{
    let mut seeds: Vec<Vec<u8>> = Vec::new();
    seeds.push(seed_bytes(OPERATION_SEED));
    seeds
}

/// The bytes of the program's id.
pub const ID_BYTES: [u8; 32] = [
    165, 213, 202, 158, 4, 207, 93, 181, 144, 183, 20, 186, 47, 227, 44, 177, 89, 19, 63, 193, 193,
    146, 183, 34, 87, 253, 7, 211, 156, 176, 64, 30,
];

/// The bytes of the id under which the program runs on the development
/// network.
pub const DEVNET_ID_BYTES: [u8; 32] = [
    9, 99, 202, 205, 47, 32, 79, 32, 7, 146, 136, 105, 77, 68, 198, 230, 121, 121, 129, 115, 3,
    116, 111, 8, 179, 42, 160, 206, 209, 251, 39, 42,
];

/// The program's id.
pub fn id() -> (key: Pubkey)
    ensures
        key.bytes == ID_BYTES,
{
    Pubkey::new_from_array(ID_BYTES)
}

/// The id under which the program runs on the development network.
pub fn devnet_id() -> (key: Pubkey)
    ensures
        key.bytes == DEVNET_ID_BYTES,
{
    Pubkey::new_from_array(DEVNET_ID_BYTES)
}

/// What finding an address for `seeds` gives: the address and bump that the
/// runtime finds, and with them the fact that the address is the one derived
/// from the seeds followed by the bump.
pub open spec fn found(seeds: Seq<Seq<u8>>, program_id: Pubkey, out: Option<(Pubkey, u8)>) -> bool {
    match out {
        Some((key, bump)) => derived_address(seeds, program_id@) == Some((key@, bump))
            && program_address(seeds.push(seq![bump]), program_id@) == Some(key@),
        None => derived_address(seeds, program_id@) is None,
    }
}

/// Address and bump of the fee tier number `index`.
pub fn find_amm_config_address(program_id: &Pubkey, index: u16) -> (out: Option<(Pubkey, u8)>)
    ensures
        found(spec_amm_config_seeds(index), *program_id, out),
{
    let seeds = amm_config_seeds(index);
    try_find_program_address(&seeds, program_id)
}

/// Address and bump of the pool of a fee tier and a pair of mints.
pub fn find_pool_address(
    program_id: &Pubkey,
    amm_config: &Pubkey,
    token_mint_0: &Pubkey,
    token_mint_1: &Pubkey,
) -> (out: Option<(Pubkey, u8)>)
    ensures
        found(spec_pool_seeds(*amm_config, *token_mint_0, *token_mint_1), *program_id, out),
{
    let seeds = pool_seeds(amm_config, token_mint_0, token_mint_1);
    try_find_program_address(&seeds, program_id)
}

/// Seeds of a pool with the bump of its address as the last of them: what
/// the pool signs with.
pub fn pool_signer_seeds(
    amm_config: &Pubkey,
    token_mint_0: &Pubkey,
    token_mint_1: &Pubkey,
    bump: u8,
) -> (seeds: Vec<Vec<u8>>)
    ensures
        seeds_view(seeds@) == spec_pool_seeds(*amm_config, *token_mint_0, *token_mint_1).push(
            seq![bump],
        ),
        seeds.len() == 5,
{
    let mut seeds = pool_seeds(amm_config, token_mint_0, token_mint_1);
    let ghost head = seeds@;
    let mut last: Vec<u8> = Vec::new();
    last.push(bump);
    assert(last@ =~= seq![bump]);
    seeds.push(last);
    assert(seeds_view(seeds@) =~= seeds_view(head).push(seq![bump]));
    seeds
}

/// The address of the pool of a fee tier and a pair of mints that the bump
/// `bump` gives, or `None` where it gives none.
pub fn pool_address_at(
    program_id: &Pubkey,
    amm_config: &Pubkey,
    token_mint_0: &Pubkey,
    token_mint_1: &Pubkey,
    bump: u8,
) -> (out: Option<Pubkey>)
    ensures
        match out {
            Some(key) => program_address(
                spec_pool_seeds(*amm_config, *token_mint_0, *token_mint_1).push(seq![bump]),
                program_id@,
            ) == Some(key@),
            None => program_address(
                spec_pool_seeds(*amm_config, *token_mint_0, *token_mint_1).push(seq![bump]),
                program_id@,
            ) is None,
        },
{
    let seeds = pool_signer_seeds(amm_config, token_mint_0, token_mint_1, bump);
    create_program_address(&seeds, program_id)
}

/// Address and bump of the vault that holds a pool's tokens of `mint`.
pub fn find_pool_vault_address(program_id: &Pubkey, pool: &Pubkey, mint: &Pubkey) -> (out: Option<
    (Pubkey, u8),
>)
    ensures
        found(spec_pool_mint_seeds(POOL_VAULT_SEED, *pool, *mint), *program_id, out),
{
    let seeds = pool_vault_seeds(pool, mint);
    try_find_program_address(&seeds, program_id)
}

/// Address and bump of the vault that holds a pool's reward tokens of
/// `mint`.
pub fn find_pool_reward_vault_address(program_id: &Pubkey, pool: &Pubkey, mint: &Pubkey) -> (out:
    Option<(Pubkey, u8)>)
    ensures
        found(spec_pool_mint_seeds(POOL_REWARD_VAULT_SEED, *pool, *mint), *program_id, out),
{
    let seeds = pool_reward_vault_seeds(pool, mint);
    try_find_program_address(&seeds, program_id)
}

/// Address and bump of the extension of a pool's tick-array bitmap.
pub fn find_tick_array_bitmap_extension_address(program_id: &Pubkey, pool: &Pubkey) -> (out:
    Option<(Pubkey, u8)>)
    ensures
        found(spec_pool_record_seeds(POOL_TICK_ARRAY_BITMAP_SEED, *pool), *program_id, out),
{
    let seeds = tick_array_bitmap_extension_seeds(pool);
    try_find_program_address(&seeds, program_id)
}

/// Address and bump of a pool's price history.
pub fn find_observation_address(program_id: &Pubkey, pool: &Pubkey) -> (out: Option<(Pubkey, u8)>)
    ensures
        found(spec_pool_record_seeds(OBSERVATION_SEED, *pool), *program_id, out),
{
    let seeds = observation_seeds(pool);
    try_find_program_address(&seeds, program_id)
}

/// Address and bump of the whitelist.
pub fn find_operation_address(program_id: &Pubkey) -> (out: Option<(Pubkey, u8)>)
    ensures
        found(spec_operation_seeds(), *program_id, out),
{
    let seeds = operation_seeds();
    try_find_program_address(&seeds, program_id)
}

} // verus!
