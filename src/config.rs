use vstd::prelude::*;

use crate::address::{
    bytes_lt, lemma_bytes_lt_trichotomy, lemma_sorted_pair_symmetric, sort_pair, sorted_pair, Address,
};
use crate::derive::{
    amm_config_key_of, bitmap_extension_of, derive_amm_config_key, derive_pool_id,
    derive_tickarray_bitmap_extension, lemma_pool_id_mint_order, pool_id_of,
};
use crate::pubkey::{address_option_view, parse_address, parsed_address};

verus! {

/// A key of the configuration file.
#[derive(Clone, Copy, Debug, PartialEq, Eq, Structural)]
pub enum ConfigField {
    HttpUrl,
    WsUrl,
    PayerPath,
    AdminPath,
    RaydiumV3Program,
    Slippage,
    Mint0,
    Mint1,
    AmmConfigIndex,
}

/// Why a configuration was refused.
#[derive(Clone, Copy, Debug, PartialEq, Eq, Structural)]
pub enum ConfigError {
    /// A required key is absent or empty.
    MissingField(ConfigField),
    /// A non-empty address field is no valid address.
    MalformedAddress(ConfigField),
    /// A number field does not parse, or does not fit its type.
    MalformedNumber(ConfigField),
    /// No bump seed gives a program-derived address for the account's seeds.
    NoProgramAddress,
}

/// A number read from the configuration file.
#[derive(Clone, Copy, Debug, PartialEq, Eq, Structural)]
pub enum NumberEntry {
    /// The key is absent or its value empty.
    Absent,
    /// The value does not parse as a number of the expected kind.
    Malformed,
    /// The value as parsed: an unsigned integer, or the bit pattern of an
    /// IEEE-754 double for a decimal number.
    Value(u64),
}

/// The raw entries of a configuration file; `None` is an absent key.
#[derive(Clone, Debug)]
pub struct ConfigEntries {
    pub http_url: Option<String>,
    pub ws_url: Option<String>,
    pub payer_path: Option<String>,
    pub admin_path: Option<String>,
    pub raydium_v3_program: Option<String>,
    /// The slippage tolerance, a decimal number.
    pub slippage: NumberEntry,
    pub mint0: Option<String>,
    pub mint1: Option<String>,
    pub amm_config_index: NumberEntry,
}

/// A validated client configuration with the accounts derived from it.
#[derive(Clone, Debug, PartialEq, Eq)]
pub struct ClientConfig {
    pub http_url: String,
    pub ws_url: String,
    pub payer_path: String,
    pub admin_path: String,
    pub raydium_v3_program: Address,
    /// The slippage tolerance, as the bit pattern of an IEEE-754 double.
    pub slippage_bits: u64,
    pub amm_config_key: Address,
    pub mint0: Option<Address>,
    pub mint1: Option<Address>,
    pub pool_id_account: Option<Address>,
    pub tickarray_bitmap_extension: Option<Address>,
    pub amm_config_index: u16,
}

/// The mathematical content of a `ClientConfig`.
pub struct ClientConfigView {
    pub http_url: Seq<char>,
    pub ws_url: Seq<char>,
    pub payer_path: Seq<char>,
    pub admin_path: Seq<char>,
    pub raydium_v3_program: Seq<u8>,
    pub slippage_bits: u64,
    pub amm_config_key: Seq<u8>,
    pub mint0: Option<Seq<u8>>,
    pub mint1: Option<Seq<u8>>,
    pub pool_id_account: Option<Seq<u8>>,
    pub tickarray_bitmap_extension: Option<Seq<u8>>,
    pub amm_config_index: u16,
}

impl View for ClientConfig {
    type V = ClientConfigView;

    open spec fn view(&self) -> ClientConfigView {
        ClientConfigView {
            http_url: self.http_url@,
            ws_url: self.ws_url@,
            payer_path: self.payer_path@,
            admin_path: self.admin_path@,
            raydium_v3_program: self.raydium_v3_program@,
            slippage_bits: self.slippage_bits,
            amm_config_key: self.amm_config_key@,
            mint0: address_option_view(self.mint0),
            mint1: address_option_view(self.mint1),
            pool_id_account: address_option_view(self.pool_id_account),
            tickarray_bitmap_extension: address_option_view(self.tickarray_bitmap_extension),
            amm_config_index: self.amm_config_index,
        }
    }
}

/// The view of the outcome of building a configuration.
pub open spec fn config_result_view(r: Result<ClientConfig, ConfigError>) -> Result<ClientConfigView, ConfigError> {
    match r {
        Ok(c) => Ok(c@),
        Err(e) => Err(e),
    }
}

/// Whether a text entry is there and not empty.
pub open spec fn present(s: Option<String>) -> bool {
    s is Some && s->0@.len() > 0
}

/// The text of an entry that is there.
pub open spec fn text(s: Option<String>) -> Seq<char> {
    s->0@
}

/// The first required key, in the file's order, that is absent or empty.
pub open spec fn first_missing_field(e: ConfigEntries) -> Option<ConfigField> {
    if !present(e.http_url) {
        Some(ConfigField::HttpUrl)
    } else if !present(e.ws_url) {
        Some(ConfigField::WsUrl)
    } else if !present(e.payer_path) {
        Some(ConfigField::PayerPath)
    } else if !present(e.admin_path) {
        Some(ConfigField::AdminPath)
    } else if !present(e.raydium_v3_program) {
        Some(ConfigField::RaydiumV3Program)
    } else if e.slippage is Absent {
        Some(ConfigField::Slippage)
    } else if e.amm_config_index is Absent {
        Some(ConfigField::AmmConfigIndex)
    } else {
        None
    }
}

/// An optional address entry: `Some(None)` where it is absent or empty,
/// `None` where it is there but no valid address.
pub open spec fn optional_address(s: Option<String>) -> Option<Option<Seq<u8>>> {
    if !present(s) {
        Some(None)
    } else {
        match parsed_address(text(s)) {
            Some(a) => Some(Some(a)),
            None => None,
        }
    }
}

/// Whether a number entry holds a 16-bit unsigned integer.
pub open spec fn fits_u16(n: NumberEntry) -> bool {
    n matches NumberEntry::Value(v) && v <= u16::MAX
}

/// The first error that validating the entries meets, before any account is
/// derived.
pub open spec fn validation_error(e: ConfigEntries) -> Option<ConfigError> {
    if first_missing_field(e) is Some {
        Some(ConfigError::MissingField(first_missing_field(e)->0))
    } else if parsed_address(text(e.raydium_v3_program)) is None {
        Some(ConfigError::MalformedAddress(ConfigField::RaydiumV3Program))
    } else if e.slippage is Malformed {
        Some(ConfigError::MalformedNumber(ConfigField::Slippage))
    } else if optional_address(e.mint0) is None {
        Some(ConfigError::MalformedAddress(ConfigField::Mint0))
    } else if optional_address(e.mint1) is None {
        Some(ConfigError::MalformedAddress(ConfigField::Mint1))
    } else if !fits_u16(e.amm_config_index) {
        Some(ConfigError::MalformedNumber(ConfigField::AmmConfigIndex))
    } else {
        None
    }
}

/// The outcome of building a configuration from valid entries: the AMM
/// configuration account is always derived; the pool account only from two
/// mints, and stored with the mints lower first; the bitmap extension only
/// from a pool account.
pub open spec fn derived_config(e: ConfigEntries) -> Result<ClientConfigView, ConfigError> {
    let program = parsed_address(text(e.raydium_v3_program))->0;
    let index = e.amm_config_index->Value_0 as u16;
    let m0 = optional_address(e.mint0)->0;
    let m1 = optional_address(e.mint1)->0;
    let base = ClientConfigView {
        http_url: text(e.http_url),
        ws_url: text(e.ws_url),
        payer_path: text(e.payer_path),
        admin_path: text(e.admin_path),
        raydium_v3_program: program,
        slippage_bits: e.slippage->Value_0,
        amm_config_key: Seq::empty(),
        mint0: m0,
        mint1: m1,
        pool_id_account: None,
        tickarray_bitmap_extension: None,
        amm_config_index: index,
    };
    match amm_config_key_of(program, index) {
        None => Err(ConfigError::NoProgramAddress),
        Some(key) => if m0 is Some && m1 is Some {
            let (lo, hi) = sorted_pair(m0->0, m1->0);
            match pool_id_of(program, key, m0->0, m1->0) {
                None => Err(ConfigError::NoProgramAddress),
                Some(pool) => match bitmap_extension_of(program, pool) {
                    None => Err(ConfigError::NoProgramAddress),
                    Some(ext) => Ok(
                        ClientConfigView {
                            amm_config_key: key,
                            mint0: Some(lo),
                            mint1: Some(hi),
                            pool_id_account: Some(pool),
                            tickarray_bitmap_extension: Some(ext),
                            ..base
                        },
                    ),
                },
            }
        } else {
            Ok(ClientConfigView { amm_config_key: key, ..base })
        },
    }
}

/// The outcome of building a configuration from its entries.
pub open spec fn config_outcome(e: ConfigEntries) -> Result<ClientConfigView, ConfigError> {
    match validation_error(e) {
        Some(err) => Err(err),
        None => derived_config(e),
    }
}

fn is_present(s: &Option<String>) -> (r: bool)
    ensures
        r == present(*s),
{
    match s {
        Some(t) => !t.as_str().is_empty(),
        None => false,
    }
}

fn missing_field(e: &ConfigEntries) -> (r: Option<ConfigField>)
    ensures
        r == first_missing_field(*e),
{
    if !is_present(&e.http_url) {
        Some(ConfigField::HttpUrl)
    } else if !is_present(&e.ws_url) {
        Some(ConfigField::WsUrl)
    } else if !is_present(&e.payer_path) {
        Some(ConfigField::PayerPath)
    } else if !is_present(&e.admin_path) {
        Some(ConfigField::AdminPath)
    } else if !is_present(&e.raydium_v3_program) {
        Some(ConfigField::RaydiumV3Program)
    } else if matches!(e.slippage, NumberEntry::Absent) {
        Some(ConfigField::Slippage)
    } else if matches!(e.amm_config_index, NumberEntry::Absent) {
        Some(ConfigField::AmmConfigIndex)
    } else {
        None
    }
}

/// Parses an optional address entry: `Ok(None)` where it is absent or empty,
/// an error naming `field` where it is there but no valid address.
pub fn parse_optional_address(s: &Option<String>, field: ConfigField) -> (r: Result<Option<Address>, ConfigError>)
    ensures
        match r {
            Ok(a) => optional_address(*s) == Some(address_option_view(a)),
            Err(err) => optional_address(*s) is None && err == ConfigError::MalformedAddress(field),
        },
{
    if !is_present(s) {
        return Ok(None);
    }
    match s {
        Some(t) => match parse_address(t.as_str()) {
            Ok(a) => Ok(Some(a)),
            Err(_) => Err(ConfigError::MalformedAddress(field)),
        },
        None => Ok(None),
    }
}

/// Validates the entries of a configuration file and derives the accounts
/// that they determine. Every validation error comes before any derivation.
pub fn build_config(entries: ConfigEntries) -> (r: Result<ClientConfig, ConfigError>)
    ensures
        config_result_view(r) == config_outcome(entries),
{
    match missing_field(&entries) {
        Some(field) => {
            return Err(ConfigError::MissingField(field));
        },
        None => {},
    }
    let raydium_v3_program = match &entries.raydium_v3_program {
        Some(t) => match parse_address(t.as_str()) {
            Ok(a) => a,
            Err(_) => {
                return Err(ConfigError::MalformedAddress(ConfigField::RaydiumV3Program));
            },
        },
        None => {
            return Err(ConfigError::MissingField(ConfigField::RaydiumV3Program));
        },
    };
    let slippage_bits = match entries.slippage {
        NumberEntry::Value(v) => v,
        _ => {
            return Err(ConfigError::MalformedNumber(ConfigField::Slippage));
        },
    };
    let mint0 = match parse_optional_address(&entries.mint0, ConfigField::Mint0) {
        Ok(m) => m,
        Err(err) => {
            return Err(err);
        },
    };
    let mint1 = match parse_optional_address(&entries.mint1, ConfigField::Mint1) {
        Ok(m) => m,
        Err(err) => {
            return Err(err);
        },
    };
    let amm_config_index: u16 = match entries.amm_config_index {
        NumberEntry::Value(v) if v <= 65535 => v as u16,
        _ => {
            return Err(ConfigError::MalformedNumber(ConfigField::AmmConfigIndex));
        },
    };
    assert(validation_error(entries) is None);
    let amm_config_key = match derive_amm_config_key(&raydium_v3_program, amm_config_index) {
        Some(k) => k,
        None => {
            return Err(ConfigError::NoProgramAddress);
        },
    };
    let (mint0, mint1, pool_id_account, tickarray_bitmap_extension) = match (mint0, mint1) {
        (Some(a), Some(b)) => {
            let pool = match derive_pool_id(&raydium_v3_program, &amm_config_key, &a, &b) {
                Some(p) => p,
                None => {
                    return Err(ConfigError::NoProgramAddress);
                },
            };
            let ext = match derive_tickarray_bitmap_extension(&raydium_v3_program, &pool) {
                Some(x) => x,
                None => {
                    return Err(ConfigError::NoProgramAddress);
                },
            };
            let (lo, hi) = sort_pair(a, b);
            (Some(lo), Some(hi), Some(pool), Some(ext))
        },
        (m0, m1) => (m0, m1, None, None),
    };
    let ConfigEntries { http_url, ws_url, payer_path, admin_path, .. } = entries;
    let config = ClientConfig {
        http_url: http_url.unwrap(),
        ws_url: ws_url.unwrap(),
        payer_path: payer_path.unwrap(),
        admin_path: admin_path.unwrap(),
        raydium_v3_program,
        slippage_bits,
        amm_config_key,
        mint0,
        mint1,
        pool_id_account,
        tickarray_bitmap_extension,
        amm_config_index,
    };
    Ok(config)
}

/// With exactly one of the two mints given, a configuration has neither a
/// pool account nor a bitmap extension.
pub proof fn lemma_one_mint_no_pool(e: ConfigEntries)
    requires
        present(e.mint0) != present(e.mint1),
    ensures
        config_outcome(e) matches Ok(c) ==> c.pool_id_account is None
            && c.tickarray_bitmap_extension is None,
{
}

/// With neither mint given, a configuration has no pool account and no bitmap
/// extension, but still its AMM configuration account; it is refused only
/// where validation fails or no configuration account can be derived.
pub proof fn lemma_no_mints(e: ConfigEntries)
    requires
        !present(e.mint0),
        !present(e.mint1),
    ensures
        config_outcome(e) matches Ok(c) ==> c.mint0 is None && c.mint1 is None
            && c.pool_id_account is None && c.tickarray_bitmap_extension is None
            && amm_config_key_of(c.raydium_v3_program, c.amm_config_index) == Some(c.amm_config_key),
        validation_error(e) is None ==> (config_outcome(e) is Ok <==> amm_config_key_of(
            parsed_address(text(e.raydium_v3_program))->0,
            e.amm_config_index->Value_0 as u16,
        ) is Some),
{
}

/// A configuration with a required key absent or empty is refused for the
/// first such key, whatever the other entries hold; nothing is derived for it.
pub proof fn lemma_missing_field_refused(e: ConfigEntries)
    requires
        !present(e.http_url) || !present(e.ws_url) || !present(e.payer_path) || !present(
            e.admin_path,
        ) || !present(e.raydium_v3_program) || e.slippage is Absent || e.amm_config_index is Absent,
    ensures
        first_missing_field(e) is Some,
        config_outcome(e) == Err::<ClientConfigView, ConfigError>(
            ConfigError::MissingField(first_missing_field(e)->0),
        ),
        !present(e.http_url) ==> config_outcome(e) == Err::<ClientConfigView, ConfigError>(
            ConfigError::MissingField(ConfigField::HttpUrl),
        ),
{
}

/// The entries with the two mints exchanged.
pub open spec fn swap_mints(e: ConfigEntries) -> ConfigEntries {
    ConfigEntries { mint0: e.mint1, mint1: e.mint0, ..e }
}

/// Exchanging the two mints in the entries changes neither whether a
/// configuration is built nor its pool account and bitmap extension.
pub proof fn lemma_swap_mints(e: ConfigEntries)
    ensures
        config_outcome(e) is Ok <==> config_outcome(swap_mints(e)) is Ok,
        config_outcome(e) is Ok ==> config_outcome(e)->Ok_0.pool_id_account == config_outcome(
            swap_mints(e),
        )->Ok_0.pool_id_account && config_outcome(e)->Ok_0.tickarray_bitmap_extension
            == config_outcome(swap_mints(e))->Ok_0.tickarray_bitmap_extension,
{
    let f = swap_mints(e);
    if validation_error(e) is None && validation_error(f) is None {
        let program = parsed_address(text(e.raydium_v3_program))->0;
        let m0 = optional_address(e.mint0)->0;
        let m1 = optional_address(e.mint1)->0;
        if m0 is Some && m1 is Some {
            match amm_config_key_of(program, e.amm_config_index->Value_0 as u16) {
                Some(key) => {
                    lemma_pool_id_mint_order(program, key, m0->0, m1->0);
                    lemma_sorted_pair_symmetric(m0->0, m1->0);
                },
                None => {},
            }
        }
    }
}

/// In every configuration that is built, each derived account comes from the
/// one before it: the pool account exactly when both mints are there, derived
/// from the configuration account and the mints, which are stored lower first;
/// the bitmap extension exactly when the pool account is there, derived from
/// it.
pub proof fn lemma_derivation_chain(e: ConfigEntries)
    ensures
        config_outcome(e) matches Ok(c) ==> {
            &&& amm_config_key_of(c.raydium_v3_program, c.amm_config_index) == Some(c.amm_config_key)
            &&& (c.pool_id_account is Some <==> c.mint0 is Some && c.mint1 is Some)
            &&& (c.tickarray_bitmap_extension is Some <==> c.pool_id_account is Some)
            &&& c.pool_id_account is Some ==> {
                &&& !bytes_lt(c.mint1->0, c.mint0->0)
                &&& pool_id_of(c.raydium_v3_program, c.amm_config_key, c.mint0->0, c.mint1->0)
                    == c.pool_id_account
                &&& bitmap_extension_of(c.raydium_v3_program, c.pool_id_account->0)
                    == c.tickarray_bitmap_extension
            }
        },
{
    if validation_error(e) is None {
        let program = parsed_address(text(e.raydium_v3_program))->0;
        let m0 = optional_address(e.mint0)->0;
        let m1 = optional_address(e.mint1)->0;
        if m0 is Some && m1 is Some {
            lemma_bytes_lt_trichotomy(m0->0, m1->0);
            match amm_config_key_of(program, e.amm_config_index->Value_0 as u16) {
                Some(key) => {
                    let (lo, hi) = sorted_pair(m0->0, m1->0);
                    lemma_pool_id_mint_order(program, key, m0->0, m1->0);
                    lemma_sorted_pair_symmetric(m0->0, m1->0);
                    assert(pool_id_of(program, key, lo, hi) == pool_id_of(program, key, m0->0, m1->0));
                },
                None => {},
            }
        }
    }
}

} // verus!
