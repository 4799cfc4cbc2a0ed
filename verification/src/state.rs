use vstd::prelude::*;

verus! {

broadcast use vstd::array::group_array_axioms;

/// A 32-byte account identity: the plain form of a ledger address. Handlers
/// only compare identities for equality and copy them into records and
/// token operations; the host converts its own address type at the edge.
#[derive(Clone, Copy, Debug, PartialEq, Eq)]
pub struct AccountId {
    pub bytes: [u8; 32],
}

impl AccountId {
    /// True exactly when the two identities are the same address.
    pub fn eq_id(&self, other: &AccountId) -> (r: bool)
        ensures
            r == (*self == *other),
    {
        let mut i: usize = 0;
        while i < 32
            invariant
                i <= 32,
                forall|k: int| 0 <= k < i ==> self.bytes@[k] == other.bytes@[k],
            decreases 32 - i,
        {
            if self.bytes[i] != other.bytes[i] {
                assert(self.bytes@ != other.bytes@);
                return false;
            }
            i += 1;
        }
        proof {
            assert(self.bytes =~= other.bytes);
        }
        true
    }
}

/// The escrow record: the persisted state of one token pool. Its storage
/// slot is caller-allocated; a slot that was never initialized, or that a
/// cancellation has erased, carries `is_initialized == false`.
#[derive(Clone, Copy, Debug, PartialEq, Eq)]
pub struct Vault {
    /// True from initialization until cancellation.
    pub is_initialized: bool,
    /// The creator's identity; owns cancellation rights.
    pub initializer_pubkey: AccountId,
    /// The token account holding the pooled tokens under escrow control.
    pub temp_token_account_pubkey: AccountId,
    /// Reward units granted per unit of amount spent; immutable once set.
    pub spending_multiplier: u64,
    /// Reward units granted per transaction counted; immutable once set.
    pub txns_multiplier: u64,
}

/// The claim record: per-user one-time claim state.
#[derive(Clone, Copy, Debug, PartialEq, Eq)]
pub struct User {
    /// True from registration on.
    pub is_initialized: bool,
    /// Zero until the user's single delivery succeeds, then one, never back.
    pub last_withdraw: u64,
}

/// A request the handlers hand back to the host for the external
/// token-ledger service. The host must perform it atomically with the
/// record updates of the same invocation.
#[derive(Clone, Copy, Debug, PartialEq, Eq)]
pub enum TokenOp {
    /// Change the controlling authority of `account` from
    /// `current_authority`, who signed the invocation, to `new_authority`.
    SetAuthority {
        /// The token account whose authority changes.
        account: AccountId,
        /// The derived authority that takes control.
        new_authority: AccountId,
        /// The present owner, whose own signature authorizes the change.
        current_authority: AccountId,
    },
    /// Move `amount` tokens from `source` to `destination`, authorized by
    /// the derived authority's seed-and-nonce proof rather than a key.
    Transfer {
        /// The custody token account paying out.
        source: AccountId,
        /// The receiving token account.
        destination: AccountId,
        /// The derived authority that signs the transfer.
        authority: AccountId,
        /// The nonce recorded when the authority was derived, part of the
        /// signature proof.
        authority_nonce: u8,
        /// How many tokens move.
        amount: u64,
    },
}

/// The per-invocation view of the host-supplied accounts: identities and
/// signer flag, the records decoded from their storage slots, the custody
/// token account's raw bytes, the rent oracle's verdicts, and the
/// configured identity of the external token-ledger service.
#[derive(Clone, Debug, PartialEq, Eq)]
pub struct Accounts {
    /// The first account of the invocation: the creator or the claiming
    /// user, depending on the operation.
    pub caller: AccountId,
    /// Whether the caller's signature was verified by the host.
    pub caller_is_signer: bool,
    /// The caller's own token account, the destination of payouts.
    pub caller_token_account: AccountId,
    /// The custody token account named by the invocation.
    pub custody_account: AccountId,
    /// The custody token account's stored bytes, as the host read them.
    pub custody_data: Vec<u8>,
    /// The rent oracle's verdict on the escrow record's storage slot.
    pub vault_rent_exempt: bool,
    /// The rent oracle's verdict on the claim record's storage slot.
    pub user_rent_exempt: bool,
    /// The escrow record decoded from its slot.
    pub vault: Vault,
    /// The caller's claim record decoded from its slot.
    pub user: User,
    /// The token program identity the invocation supplied.
    pub token_program: AccountId,
    /// The token program identity this deployment expects.
    pub expected_token_program: AccountId,
}

} // verus!
