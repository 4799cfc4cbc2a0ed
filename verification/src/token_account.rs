use vstd::prelude::*;

use crate::bytes::le64_at;

verus! {

/// True when the four bytes of `s` at offset `i` are a well-formed
/// optional-field tag of the token account layout: little-endian 0 or 1.
pub open spec fn coption_tag_ok(s: Seq<u8>, i: int) -> bool
    recommends
        0 <= i,
        i + 4 <= s.len(),
{
    &&& (s[i] == 0 || s[i] == 1)
    &&& s[i + 1] == 0
    &&& s[i + 2] == 0
    &&& s[i + 3] == 0
}

/// True when `s` is a well-formed, initialized token account of the
/// external token-ledger service: exactly 165 bytes, valid optional-field
/// tags for the delegate, native and close-authority fields, and a state
/// byte that marks the account initialized or frozen.
pub open spec fn token_account_well_formed(s: Seq<u8>) -> bool {
    &&& s.len() == 165
    &&& coption_tag_ok(s, 72)
    &&& (s[108] == 1 || s[108] == 2)
    &&& coption_tag_ok(s, 109)
    &&& coption_tag_ok(s, 129)
}

/// The balance stored in token account bytes `s`: the little-endian
/// 64-bit field at offset 64, readable only from a well-formed,
/// initialized account.
pub open spec fn spec_token_amount(s: Seq<u8>) -> Option<u64> {
    if token_account_well_formed(s) {
        Some(le64_at(s, 64))
    } else {
        None
    }
}

/// Relies on `spl_token::state::Account::unpack`: the token account layout
/// is 165 bytes with the balance as little-endian bytes 64..72, the state
/// byte at offset 108 (1 initialized, 2 frozen, 0 uninitialized, others
/// invalid) and optional-field tags at offsets 72, 109 and 129; unpacking
/// fails on any other length, any invalid tag, and any state but 1 or 2.
#[verifier::external_body]
#[allow(deprecated)]
pub(crate) fn unpack_token_amount(data: &Vec<u8>) -> (r: Option<u64>)
    ensures
        r == spec_token_amount(data@),
{
    let parsed = <spl_token::state::Account as solana_program::program_pack::Pack>::unpack(
        data.as_slice(),
    );
    match parsed {
        Ok(account) => Some(account.amount),
        Err(_) => None,
    }
}

} // verus!
