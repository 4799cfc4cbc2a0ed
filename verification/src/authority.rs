use vstd::prelude::*;

use crate::state::AccountId;

verus! {

/// The deterministic, keyless authority derived from the module's own
/// identity and the fixed empty seed, together with the nonce that makes
/// its signature proof reproducible; `None` in the statistically
/// improbable event that no viable nonce exists.
pub uninterp spec fn derived_authority(program: Seq<u8>) -> Option<(AccountId, u8)>;

/// Relies on `Pubkey::try_find_program_address` with the fixed empty seed:
/// a SHA-256-based search over nonces, deterministic in the program
/// identity alone, yielding a keyless address and the nonce that derives
/// it; `None` only when no nonce yields a valid address.
#[verifier::external_body]
pub(crate) fn find_authority(program_id: &AccountId) -> (r: Option<(AccountId, u8)>)
    ensures
        r == derived_authority(program_id.bytes@),
{
    let pid = solana_program::pubkey::Pubkey::new_from_array(program_id.bytes);
    match solana_program::pubkey::Pubkey::try_find_program_address(&[b""], &pid) {
        Some((key, nonce)) => Some((AccountId { bytes: key.to_bytes() }, nonce)),
        None => None,
    }
}

} // verus!
