use vstd::prelude::*;

use vstd::string::{StrSliceExecFns, StringSliceAdditionalSpecFns};

use crate::address::{sort_pair, sorted_pair, Address};
use crate::pubkey::{address_option_view, find_program_address, program_address_of};

verus! {

/// Seed tag of the AMM configuration accounts.
pub const AMM_CONFIG_SEED: &'static str = "amm_config";

/// Seed tag of the pool accounts.
pub const POOL_SEED: &'static str = "pool";

/// Seed tag of the pools' tick-array bitmap extension accounts.
pub const POOL_TICK_ARRAY_BITMAP_SEED: &'static str = "pool_tick_array_bitmap_extension";

/// Big-endian two-byte encoding of a 16-bit integer.
pub open spec fn be_bytes_u16(x: u16) -> Seq<u8> {
    seq![(x / 256) as u8, (x % 256) as u8]
}

/// Seeds of the AMM configuration account with the given index.
pub open spec fn amm_config_seeds(config_index: u16) -> Seq<Seq<u8>> {
    seq![AMM_CONFIG_SEED.spec_bytes(), be_bytes_u16(config_index)]
}

/// Seeds of a pool account: the configuration account, then the lower and the
/// higher mint.
pub open spec fn pool_seeds(amm_config_key: Seq<u8>, mint0: Seq<u8>, mint1: Seq<u8>) -> Seq<Seq<u8>> {
    let (lo, hi) = sorted_pair(mint0, mint1);
    seq![POOL_SEED.spec_bytes(), amm_config_key, lo, hi]
}

/// Seeds of a pool's tick-array bitmap extension account.
pub open spec fn bitmap_extension_seeds(pool_id: Seq<u8>) -> Seq<Seq<u8>> {
    seq![POOL_TICK_ARRAY_BITMAP_SEED.spec_bytes(), pool_id]
}

/// The AMM configuration account with the given index.
pub open spec fn amm_config_key_of(program_id: Seq<u8>, config_index: u16) -> Option<Seq<u8>> {
    program_address_of(amm_config_seeds(config_index), program_id)
}

/// The account of the pool of two mints under an AMM configuration.
pub open spec fn pool_id_of(program_id: Seq<u8>, amm_config_key: Seq<u8>, mint0: Seq<u8>, mint1: Seq<u8>) -> Option<Seq<u8>> {
    program_address_of(pool_seeds(amm_config_key, mint0, mint1), program_id)
}

/// The tick-array bitmap extension account of a pool.
pub open spec fn bitmap_extension_of(program_id: Seq<u8>, pool_id: Seq<u8>) -> Option<Seq<u8>> {
    program_address_of(bitmap_extension_seeds(pool_id), program_id)
}

fn u16_be_bytes(x: u16) -> (r: Vec<u8>)
    ensures
        r@ == be_bytes_u16(x),
{
    let r = vec![(x / 256) as u8, (x % 256) as u8];
    assert(r@ =~= be_bytes_u16(x));
    r
}

/// Derives the AMM configuration account with index `config_index`: the seeds
/// are the tag `"amm_config"` and the big-endian bytes of the index.
pub fn derive_amm_config_key(program_id: &Address, config_index: u16) -> (r: Option<Address>)
    ensures
        address_option_view(r) == amm_config_key_of(program_id@, config_index),
{
    let seeds = vec![AMM_CONFIG_SEED.as_bytes_vec(), u16_be_bytes(config_index)];
    assert(seeds.deep_view() =~~= amm_config_seeds(config_index));
    find_program_address(&seeds, program_id)
}

/// Derives the pool account of `mint0` and `mint1`: the seeds are the tag
/// `"pool"`, the configuration account and the two mints, lower first.
pub fn derive_pool_id(program_id: &Address, amm_config_key: &Address, mint0: &Address, mint1: &Address) -> (r: Option<Address>)
    ensures
        address_option_view(r) == pool_id_of(program_id@, amm_config_key@, mint0@, mint1@),
{
    let (lo, hi) = sort_pair(*mint0, *mint1);
    let seeds = vec![POOL_SEED.as_bytes_vec(), amm_config_key.to_vec(), lo.to_vec(), hi.to_vec()];
    assert(seeds.deep_view() =~~= pool_seeds(amm_config_key@, mint0@, mint1@));
    find_program_address(&seeds, program_id)
}

/// Derives the tick-array bitmap extension account of a pool: the seeds are
/// the extension's tag and the pool account.
pub fn derive_tickarray_bitmap_extension(program_id: &Address, pool_id: &Address) -> (r: Option<Address>)
    ensures
        address_option_view(r) == bitmap_extension_of(program_id@, pool_id@),
{
    let seeds = vec![POOL_TICK_ARRAY_BITMAP_SEED.as_bytes_vec(), pool_id.to_vec()];
    assert(seeds.deep_view() =~~= bitmap_extension_seeds(pool_id@));
    find_program_address(&seeds, program_id)
}

/// Deriving an AMM configuration account is deterministic: equal program ids
/// and indices give equal results.
pub proof fn lemma_amm_config_key_deterministic(program_a: Seq<u8>, index_a: u16, program_b: Seq<u8>, index_b: u16)
    requires
        program_a == program_b,
        index_a == index_b,
    ensures
        amm_config_key_of(program_a, index_a) == amm_config_key_of(program_b, index_b),
{
}

/// The pool account does not depend on the order in which the two mints are
/// given.
pub proof fn lemma_pool_id_mint_order(program_id: Seq<u8>, amm_config_key: Seq<u8>, mint0: Seq<u8>, mint1: Seq<u8>)
    ensures
        pool_id_of(program_id, amm_config_key, mint0, mint1) == pool_id_of(program_id, amm_config_key, mint1, mint0),
{
    crate::address::lemma_sorted_pair_symmetric(mint0, mint1);
}

} // verus!
