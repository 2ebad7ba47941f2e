use raydium_client::address::{sort_pair, Address};
use raydium_client::derive::{
    derive_amm_config_key, derive_pool_id, derive_tickarray_bitmap_extension, AMM_CONFIG_SEED,
    POOL_SEED, POOL_TICK_ARRAY_BITMAP_SEED,
};
use solana_pubkey::Pubkey;
use std::str::FromStr;

const PROGRAM: &str = "CAMMCzo5YL8w4VFF8KVHrK22GGUsp5VTaW7grrKgrWqK";
const SOL_MINT: &str = "So11111111111111111111111111111111111111112";
const USDC_MINT: &str = "EPjFWdd5AufqSSqeM2qN1xzybapC8G4wEGGkZwyTDt1v";

fn pubkey(s: &str) -> Pubkey {
    Pubkey::from_str(s).unwrap()
}

fn address(s: &str) -> Address {
    Address::new(pubkey(s).to_bytes())
}

#[test]
fn seed_tags_are_the_program_tags() {
    assert_eq!(AMM_CONFIG_SEED, "amm_config");
    assert_eq!(POOL_SEED, "pool");
    assert_eq!(POOL_TICK_ARRAY_BITMAP_SEED, "pool_tick_array_bitmap_extension");
}

#[test]
fn amm_config_key_matches_search_over_tag_and_big_endian_index() {
    let program = pubkey(PROGRAM);
    let (expected, _) = Pubkey::find_program_address(&[b"amm_config", &[0u8, 7u8]], &program);
    let got = derive_amm_config_key(&address(PROGRAM), 7).unwrap();
    assert_eq!(got.bytes, expected.to_bytes());
}

#[test]
fn amm_config_key_golden_vector() {
    let got = derive_amm_config_key(&address(PROGRAM), 7).unwrap();
    assert_eq!(Pubkey::new_from_array(got.bytes).to_string(), "9EeWRCL8CJnikDFCDzG8rtmBs5KQR1jEYKCR5rRZ2NEi");
}

#[test]
fn amm_config_key_depends_on_index() {
    let a = derive_amm_config_key(&address(PROGRAM), 0).unwrap();
    let b = derive_amm_config_key(&address(PROGRAM), 1).unwrap();
    let c = derive_amm_config_key(&address(PROGRAM), 256).unwrap();
    assert_ne!(a, b);
    assert_ne!(b, c);
    let program = pubkey(PROGRAM);
    let (expected, _) = Pubkey::find_program_address(&[b"amm_config", &[1u8, 0u8]], &program);
    assert_eq!(c.bytes, expected.to_bytes());
}

#[test]
fn amm_config_key_deterministic() {
    let first = derive_amm_config_key(&address(PROGRAM), 65535).unwrap();
    let second = derive_amm_config_key(&address(PROGRAM), 65535).unwrap();
    assert_eq!(first, second);
}

#[test]
fn pool_id_independent_of_mint_order() {
    let program = address(PROGRAM);
    let key = derive_amm_config_key(&program, 0).unwrap();
    let sol = address(SOL_MINT);
    let usdc = address(USDC_MINT);
    let a = derive_pool_id(&program, &key, &sol, &usdc).unwrap();
    let b = derive_pool_id(&program, &key, &usdc, &sol).unwrap();
    assert_eq!(a, b);
}

#[test]
fn pool_id_uses_lower_mint_first() {
    let program = address(PROGRAM);
    let key = derive_amm_config_key(&program, 0).unwrap();
    let (lo, hi) = if pubkey(SOL_MINT) < pubkey(USDC_MINT) {
        (pubkey(SOL_MINT), pubkey(USDC_MINT))
    } else {
        (pubkey(USDC_MINT), pubkey(SOL_MINT))
    };
    let (expected, _) = Pubkey::find_program_address(
        &[b"pool", key.bytes.as_ref(), lo.as_ref(), hi.as_ref()],
        &pubkey(PROGRAM),
    );
    let got = derive_pool_id(&program, &key, &address(USDC_MINT), &address(SOL_MINT)).unwrap();
    assert_eq!(got.bytes, expected.to_bytes());
}

#[test]
fn bitmap_extension_matches_search_over_tag_and_pool() {
    let program = address(PROGRAM);
    let pool = address(USDC_MINT);
    let (expected, _) = Pubkey::find_program_address(
        &[b"pool_tick_array_bitmap_extension", pool.bytes.as_ref()],
        &pubkey(PROGRAM),
    );
    let got = derive_tickarray_bitmap_extension(&program, &pool).unwrap();
    assert_eq!(got.bytes, expected.to_bytes());
}

#[test]
fn address_order_is_big_endian() {
    let mut low = [0u8; 32];
    low[31] = 255;
    let mut high = [0u8; 32];
    high[0] = 1;
    let a = Address::new(low);
    let b = Address::new(high);
    assert!(a.is_less_than(&b));
    assert!(!b.is_less_than(&a));
    assert!(!a.is_less_than(&a));
    assert_eq!(sort_pair(b, a), (a, b));
    assert_eq!(sort_pair(a, b), (a, b));
    assert_eq!(sort_pair(a, a), (a, a));
}

#[test]
fn address_order_agrees_with_pubkey_order() {
    let sol = address(SOL_MINT);
    let usdc = address(USDC_MINT);
    assert_eq!(sol.is_less_than(&usdc), pubkey(SOL_MINT) < pubkey(USDC_MINT));
    assert_eq!(usdc.is_less_than(&sol), pubkey(USDC_MINT) < pubkey(SOL_MINT));
}

#[test]
fn address_to_vec_keeps_bytes() {
    let mut bytes = [0u8; 32];
    for (i, b) in bytes.iter_mut().enumerate() {
        *b = i as u8;
    }
    let a = Address::new(bytes);
    assert_eq!(a.to_vec(), bytes.to_vec());
}
