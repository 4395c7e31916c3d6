use vstd::prelude::*;

verus! {

/// What decoding a master-edition record yields: the number of prints made
/// so far, or nothing when the bytes are not a well-formed record. The
/// decoding is a pure function of the record's bytes.
pub uninterp spec fn master_edition_supply(data: Seq<u8>) -> Option<u64>;

/// Relies on `metaplex_token_metadata::utils::try_from_slice_checked` for
/// `state::MasterEditionV2`: decodes a master-edition record and yields its
/// current supply, a function of the record bytes alone. The decoder indexes
/// the first byte before checking the length, so the bytes must not be empty.
#[verifier::external_body]
pub(crate) fn decode_master_edition_supply(data: &[u8]) -> (r: Option<u64>)
    requires
        data@.len() > 0,
    ensures
        r == master_edition_supply(data@),
{
    let parsed: Result<metaplex_token_metadata::state::MasterEditionV2, _> =
        metaplex_token_metadata::utils::try_from_slice_checked(
            data,
            metaplex_token_metadata::state::Key::MasterEditionV2,
            metaplex_token_metadata::state::MAX_MASTER_EDITION_LEN,
        );
    match parsed {
        Ok(edition) => Some(edition.supply),
        Err(_) => None,
    }
}

/// The edition number a successful mint requests: one past the number of
/// prints made so far.
pub open spec fn next_edition(current_supply: u64) -> int {
    current_supply + 1
}

/// Advance the edition counter read from the master-edition record to the
/// number the new print will carry.
pub fn next_edition_number(current_supply: u64) -> (n: u64)
    requires
        current_supply < u64::MAX,
    ensures
        n == next_edition(current_supply),
{
    current_supply + 1
}

} // verus!
