use vstd::prelude::*;

use crate::address::Address;
use solana_pubkey::{ParsePubkeyError, Pubkey};
use std::str::FromStr;

verus! {

#[verifier::external_type_specification]
#[verifier::external_body]
pub struct ExParsePubkeyError(ParsePubkeyError);

/// The address that a string denotes in base58, or `None` where it denotes
/// none.
pub uninterp spec fn parsed_address(s: Seq<char>) -> Option<Seq<u8>>;

/// The address that the program-derived-address search finds for a list of
/// seeds under a program id, or `None` where no bump seed gives one.
pub uninterp spec fn program_address_of(seeds: Seq<Seq<u8>>, program_id: Seq<u8>) -> Option<Seq<u8>>;

/// The raw bytes of an optional address.
pub open spec fn address_option_view(a: Option<Address>) -> Option<Seq<u8>> {
    match a {
        Some(x) => Some(x@),
        None => None,
    }
}

/// Relies on `Pubkey::from_str`: it decodes base58 text and accepts it only
/// where it decodes to exactly 32 bytes; the outcome depends on the text
/// alone.
#[verifier::external_body]
pub(crate) fn parse_address(s: &str) -> (r: Result<Address, ParsePubkeyError>)
    ensures
        match r {
            Ok(a) => parsed_address(s@) == Some(a@),
            Err(_) => parsed_address(s@) is None,
        },
{
    Pubkey::from_str(s).map(|key| Address { bytes: key.to_bytes() })
}

/// Relies on `Pubkey::try_find_program_address`: it searches the bump seeds from
/// 255 down and returns the first off-curve address that the seeds, the bump
/// and the program id hash to, or `None`; the outcome depends on its arguments
/// alone.
#[verifier::external_body]
pub(crate) fn find_program_address(seeds: &Vec<Vec<u8>>, program_id: &Address) -> (r: Option<Address>)
    ensures
        address_option_view(r) == program_address_of(seeds.deep_view(), program_id@),
{
    let seed_refs: Vec<&[u8]> = seeds.iter().map(|s| s.as_slice()).collect();
    let program = Pubkey::new_from_array(program_id.bytes);
    Pubkey::try_find_program_address(&seed_refs, &program).map(|(key, _bump)| Address { bytes: key.to_bytes() })
}

} // verus!
