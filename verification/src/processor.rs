use vstd::prelude::*;

use crate::authority::{derived_authority, find_authority};
use crate::error::AirdropError;
use crate::instruction::{spec_unpack, AirdropInstruction};
use crate::state::{AccountId, Accounts, TokenOp, User, Vault};
use crate::token_account::{spec_token_amount, unpack_token_amount};
use vstd::arithmetic::div_mod::{
    lemma_add_mod_noop, lemma_mod_multiples_vanish, lemma_mul_mod_noop_left, lemma_small_mod,
};
use vstd::wrapping::u64_specs;

verus! {

/// Fixed factor applied to the linear reward combination.
pub const SCALE: u64 = 100_000_000;

/// One more than `u64::MAX`: the modulus of wrapping 64-bit arithmetic.
pub const WRAP_MODULUS: u128 = 0x1_0000_0000_0000_0000;

/// The reward owed for the given counters under the given multipliers:
/// `(amount_spent * spending_multiplier + total_transactions *
/// txns_multiplier) * SCALE`, each step in wrapping unsigned 64-bit
/// arithmetic.
pub open spec fn spec_reward(
    amount_spent: u64,
    spending_multiplier: u64,
    total_transactions: u64,
    txns_multiplier: u64,
) -> u64 {
    u64_specs::wrapping_mul(
        u64_specs::wrapping_add(
            u64_specs::wrapping_mul(amount_spent, spending_multiplier),
            u64_specs::wrapping_mul(total_transactions, txns_multiplier),
        ),
        SCALE,
    )
}

/// Dispatcher and transition handlers of the escrow state machine.
pub struct Processor;

/// What initialization does to the invocation `a`: after the signature and
/// rent checks, a slot whose escrow record is already active is refused;
/// otherwise the record is written active with the caller as initializer,
/// the supplied custody reference and the supplied multipliers, and the
/// host is asked to move the custody account under the derived authority,
/// authorized by the caller's own signature.
pub open spec fn init_transition(
    a: Accounts,
    spending_multiplier: u64,
    txns_multiplier: u64,
    program_id: AccountId,
) -> (Result<TokenOp, AirdropError>, Accounts) {
    if !a.caller_is_signer {
        (Err(AirdropError::MissingRequiredSignature), a)
    } else if !a.vault_rent_exempt {
        (Err(AirdropError::NotRentExempt), a)
    } else if a.vault.is_initialized {
        (Err(AirdropError::AccountAlreadyInitialized), a)
    } else {
        match derived_authority(program_id.bytes@) {
            None => (Err(AirdropError::InvalidAccountData), a),
            Some(auth) => (
                Ok(
                    TokenOp::SetAuthority {
                        account: a.custody_account,
                        new_authority: auth.0,
                        current_authority: a.caller,
                    },
                ),
                Accounts {
                    vault: Vault {
                        is_initialized: true,
                        initializer_pubkey: a.caller,
                        temp_token_account_pubkey: a.custody_account,
                        spending_multiplier,
                        txns_multiplier,
                    },
                    ..a
                },
            ),
        }
    }
}

/// What cancellation does to the invocation `a`: after the signature check
/// and the custody account's bytes parsing, the supplied custody account
/// must be the one the escrow record names, the caller must be the
/// initializer, the record must be active, and the supplied token service
/// identity must be the expected one; then the record is marked inactive
/// and the host is asked to transfer the custody account's whole balance
/// back to the creator, authorized by the derived authority's proof.
pub open spec fn disable_transition(
    a: Accounts,
    amount_expected_by_taker: u64,
    program_id: AccountId,
) -> (Result<TokenOp, AirdropError>, Accounts) {
    if !a.caller_is_signer {
        (Err(AirdropError::MissingRequiredSignature), a)
    } else {
        match spec_token_amount(a.custody_data@) {
            None => (Err(AirdropError::InvalidAccountData), a),
            Some(custody_amount) => {
                if a.vault.temp_token_account_pubkey != a.custody_account {
                    (Err(AirdropError::InvalidAccountData), a)
                } else if a.caller != a.vault.initializer_pubkey {
                    (Err(AirdropError::NotCreator), a)
                } else if !a.vault.is_initialized {
                    (Err(AirdropError::AccountNotInit), a)
                } else if a.token_program != a.expected_token_program {
                    (Err(AirdropError::InvalidAccountData), a)
                } else {
                    match derived_authority(program_id.bytes@) {
                        None => (Err(AirdropError::InvalidAccountData), a),
                        Some(auth) => (
                            Ok(
                                TokenOp::Transfer {
                                    source: a.custody_account,
                                    destination: a.caller_token_account,
                                    authority: auth.0,
                                    authority_nonce: auth.1,
                                    amount: custody_amount,
                                },
                            ),
                            Accounts { vault: Vault { is_initialized: false, ..a.vault }, ..a },
                        ),
                    }
                }
            },
        }
    }
}

/// What registration does to the invocation `a`: after the signature and
/// rent checks, a claim record that is already active is refused, the
/// escrow record must be active, and then a fresh, unclaimed claim record
/// is written for the caller. No token operation is issued.
pub open spec fn register_transition(a: Accounts, amount_spent: u64, program_id: AccountId) -> (
    Result<(), AirdropError>,
    Accounts,
) {
    if !a.caller_is_signer {
        (Err(AirdropError::MissingRequiredSignature), a)
    } else if !a.user_rent_exempt {
        (Err(AirdropError::NotRentExempt), a)
    } else if a.user.is_initialized {
        (Err(AirdropError::AccountAlreadyInitialized), a)
    } else if !a.vault.is_initialized {
        (Err(AirdropError::AccountNotInit), a)
    } else {
        (Ok(()), Accounts { user: User { is_initialized: true, last_withdraw: 0 }, ..a })
    }
}

/// What delivery does to the invocation `a`: after the signature check,
/// the escrow record must be active and the caller's claim record active
/// and unclaimed; the custody account's bytes must parse; the supplied
/// token service identity must be the expected one; and the reward must be
/// nonzero. Then the claim record is finalized and the host is asked to
/// transfer exactly the reward to the caller's token account, authorized
/// by the derived authority's proof.
pub open spec fn deliver_transition(
    a: Accounts,
    amount_spent: u64,
    total_transactions: u64,
    program_id: AccountId,
) -> (Result<TokenOp, AirdropError>, Accounts) {
    if !a.caller_is_signer {
        (Err(AirdropError::MissingRequiredSignature), a)
    } else if !a.vault.is_initialized {
        (Err(AirdropError::AccountNotInit), a)
    } else if !a.user.is_initialized {
        (Err(AirdropError::AccountNotInit), a)
    } else if a.user.last_withdraw != 0 {
        (Err(AirdropError::UserAlreadyCollected), a)
    } else {
        match spec_token_amount(a.custody_data@) {
            None => (Err(AirdropError::InvalidAccountData), a),
            Some(custody_amount) => {
                if a.token_program != a.expected_token_program {
                    (Err(AirdropError::InvalidAccountData), a)
                } else {
                    match derived_authority(program_id.bytes@) {
                        None => (Err(AirdropError::InvalidAccountData), a),
                        Some(auth) => {
                            let reward = spec_reward(
                                amount_spent,
                                a.vault.spending_multiplier,
                                total_transactions,
                                a.vault.txns_multiplier,
                            );
                            if reward == 0 {
                                (Err(AirdropError::InvalidAccountData), a)
                            } else {
                                (
                                    Ok(
                                        TokenOp::Transfer {
                                            source: a.custody_account,
                                            destination: a.caller_token_account,
                                            authority: auth.0,
                                            authority_nonce: auth.1,
                                            amount: reward,
                                        },
                                    ),
                                    Accounts { user: User { last_withdraw: 1, ..a.user }, ..a },
                                )
                            }
                        },
                    }
                }
            },
        }
    }
}

/// What one whole invocation does: the wire bytes decode to an
/// instruction, whose transition then runs; a decoding failure leaves the
/// records untouched. Registration yields no token operation, the other
/// operations yield one.
pub open spec fn process_transition(a: Accounts, program_id: AccountId, data: Seq<u8>) -> (
    Result<Option<TokenOp>, AirdropError>,
    Accounts,
) {
    match spec_unpack(data) {
        Err(e) => (Err(e), a),
        Ok(AirdropInstruction::InitAirdrop { spending_multiplier, txns_multiplier }) => {
            let step = init_transition(a, spending_multiplier, txns_multiplier, program_id);
            match step.0 {
                Ok(op) => (Ok(Some(op)), step.1),
                Err(e) => (Err(e), step.1),
            }
        },
        Ok(AirdropInstruction::DisableAirdrop { amount }) => {
            let step = disable_transition(a, amount, program_id);
            match step.0 {
                Ok(op) => (Ok(Some(op)), step.1),
                Err(e) => (Err(e), step.1),
            }
        },
        Ok(AirdropInstruction::CreateAccount { amount_spent }) => {
            let step = register_transition(a, amount_spent, program_id);
            match step.0 {
                Ok(_) => (Ok(None), step.1),
                Err(e) => (Err(e), step.1),
            }
        },
        Ok(AirdropInstruction::DeliverAirdrop { amount_spent, total_transactions }) => {
            let step = deliver_transition(a, amount_spent, total_transactions, program_id);
            match step.0 {
                Ok(op) => (Ok(Some(op)), step.1),
                Err(e) => (Err(e), step.1),
            }
        },
    }
}

/// Computes the reward for the given counters and multipliers, wrapping on
/// 64-bit overflow at each step.
pub fn compute_reward(
    amount_spent: u64,
    spending_multiplier: u64,
    total_transactions: u64,
    txns_multiplier: u64,
) -> (r: u64)
    ensures
        r == spec_reward(amount_spent, spending_multiplier, total_transactions, txns_multiplier),
        r as int == ((amount_spent * spending_multiplier + total_transactions * txns_multiplier)
            * SCALE) % (WRAP_MODULUS as int),
{
    let spending: u64 = amount_spent.wrapping_mul(spending_multiplier);
    let txns: u64 = total_transactions.wrapping_mul(txns_multiplier);
    let base: u64 = spending.wrapping_add(txns);
    let r: u64 = base.wrapping_mul(SCALE);
    proof {
        let m = WRAP_MODULUS as int;
        let spent_part = amount_spent * spending_multiplier;
        let txn_part = total_transactions * txns_multiplier;
        assert(spending as int == spent_part % m);
        assert(txns as int == txn_part % m);
        if spending + txns > u64::MAX {
            lemma_mod_multiples_vanish(1, spending + txns - m, m);
            lemma_small_mod((spending + txns - m) as nat, m as nat);
        } else {
            lemma_small_mod((spending + txns) as nat, m as nat);
        }
        assert(base as int == (spending + txns) % m);
        lemma_add_mod_noop(spent_part, txn_part, m);
        assert(base as int == (spent_part + txn_part) % m);
        lemma_mul_mod_noop_left(spent_part + txn_part, SCALE as int, m);
        assert(r as int == ((spent_part + txn_part) % m) * (SCALE as int) % m);
    }
    r
}

/// One-shot delivery: when a delivery succeeds, the claim record it
/// leaves behind is finalized, and a second delivery against the
/// resulting accounts fails with `UserAlreadyCollected`, whatever
/// counters it supplies and whatever the reward would have been.
pub proof fn lemma_deliver_one_shot(
    a: Accounts,
    s1: u64,
    t1: u64,
    s2: u64,
    t2: u64,
    program_id: AccountId,
)
    requires
        deliver_transition(a, s1, t1, program_id).0 is Ok,
    ensures
        deliver_transition(a, s1, t1, program_id).1.user.last_withdraw == 1,
        deliver_transition(deliver_transition(a, s1, t1, program_id).1, s2, t2, program_id).0
            == Err::<TokenOp, AirdropError>(AirdropError::UserAlreadyCollected),
{
}

/// Only the initializer can cancel: a cancellation that succeeds was
/// called by the escrow's stored initializer; any other caller, on an
/// invocation whose signature, custody bytes and custody reference are in
/// order, is refused with `NotCreator`; and a refused cancellation leaves
/// the records untouched and issues no token operation.
pub proof fn lemma_disable_only_creator(a: Accounts, amount: u64, program_id: AccountId)
    ensures
        disable_transition(a, amount, program_id).0 is Ok ==> a.caller
            == a.vault.initializer_pubkey,
        a.caller_is_signer && spec_token_amount(a.custody_data@) is Some
            && a.vault.temp_token_account_pubkey == a.custody_account && a.caller
            != a.vault.initializer_pubkey ==> disable_transition(a, amount, program_id).0
            == Err::<TokenOp, AirdropError>(AirdropError::NotCreator),
        disable_transition(a, amount, program_id).0 is Err ==> disable_transition(
            a,
            amount,
            program_id,
        ).1 == a,
{
}

/// Registration needs a live escrow: against an escrow record that was
/// never initialized, or that a cancellation has since disabled, a
/// registration whose other preconditions hold fails with
/// `AccountNotInit` and changes nothing.
pub proof fn lemma_register_needs_active_escrow(
    a: Accounts,
    amount_spent: u64,
    program_id: AccountId,
)
    requires
        a.caller_is_signer,
        a.user_rent_exempt,
        !a.user.is_initialized,
        !a.vault.is_initialized,
    ensures
        register_transition(a, amount_spent, program_id).0 == Err::<(), AirdropError>(
            AirdropError::AccountNotInit,
        ),
        register_transition(a, amount_spent, program_id).1 == a,
{
}

/// One-shot initialization: a successful initialization leaves an active
/// escrow record, and a second initialization of the same slot, with any
/// multipliers and without an intervening cancellation, fails with
/// `AccountAlreadyInitialized` and changes nothing.
pub proof fn lemma_initialize_once(
    a: Accounts,
    sm1: u64,
    tm1: u64,
    sm2: u64,
    tm2: u64,
    program_id: AccountId,
)
    requires
        init_transition(a, sm1, tm1, program_id).0 is Ok,
    ensures
        init_transition(a, sm1, tm1, program_id).1.vault.is_initialized,
        init_transition(init_transition(a, sm1, tm1, program_id).1, sm2, tm2, program_id).0
            == Err::<TokenOp, AirdropError>(AirdropError::AccountAlreadyInitialized),
        init_transition(init_transition(a, sm1, tm1, program_id).1, sm2, tm2, program_id).1
            == init_transition(a, sm1, tm1, program_id).1,
{
}

/// A claim record never loses its claim: under any invocation, a claim
/// record whose flag is nonzero keeps it unchanged, and otherwise the
/// flag can only step from zero to one. A record that was never
/// registered carries a zero flag.
pub proof fn lemma_claim_flag_monotonic(a: Accounts, program_id: AccountId, data: Seq<u8>)
    requires
        a.user.is_initialized || a.user.last_withdraw == 0,
    ensures
        ({
            let post = process_transition(a, program_id, data).1;
            &&& a.user.last_withdraw != 0 ==> post.user.last_withdraw == a.user.last_withdraw
            &&& post.user.last_withdraw == a.user.last_withdraw || (a.user.last_withdraw == 0
                && post.user.last_withdraw == 1)
        }),
{
}

/// An active escrow record is immutable but for cancellation: no
/// invocation changes anything of it except that a cancellation clears
/// its active flag, leaving every other field as it was.
pub proof fn lemma_active_escrow_immutable(a: Accounts, program_id: AccountId, data: Seq<u8>)
    requires
        a.vault.is_initialized,
    ensures
        ({
            let post = process_transition(a, program_id, data).1;
            post.vault == a.vault || post.vault == Vault { is_initialized: false, ..a.vault }
        }),
{
}

impl Processor {
    /// Runs one invocation: decodes the wire bytes and applies the matching
    /// transition to the supplied accounts. On any failure the records are
    /// left exactly as they were.
    pub fn process(
        program_id: &AccountId,
        accounts: &mut Accounts,
        instruction_data: &[u8],
    ) -> (r: Result<Option<TokenOp>, AirdropError>)
        ensures
            (r, *final(accounts)) == process_transition(
                *old(accounts),
                *program_id,
                instruction_data@,
            ),
            r is Err ==> *final(accounts) == *old(accounts),
    {
        let instruction = match AirdropInstruction::unpack(instruction_data) {
            Ok(instruction) => instruction,
            Err(e) => { return Err(e) },
        };
        match instruction {
            AirdropInstruction::InitAirdrop { spending_multiplier, txns_multiplier } => {
                match Self::process_init_airdrop(
                    accounts,
                    spending_multiplier,
                    txns_multiplier,
                    program_id,
                ) {
                    Ok(op) => Ok(Some(op)),
                    Err(e) => Err(e),
                }
            },
            AirdropInstruction::DisableAirdrop { amount } => {
                match Self::disable_airdrop(accounts, amount, program_id) {
                    Ok(op) => Ok(Some(op)),
                    Err(e) => Err(e),
                }
            },
            AirdropInstruction::CreateAccount { amount_spent } => {
                match Self::process_create_account(accounts, amount_spent, program_id) {
                    Ok(_) => Ok(None),
                    Err(e) => Err(e),
                }
            },
            AirdropInstruction::DeliverAirdrop { amount_spent, total_transactions } => {
                match Self::process_airdrop(accounts, amount_spent, total_transactions, program_id) {
                    Ok(op) => Ok(Some(op)),
                    Err(e) => Err(e),
                }
            },
        }
    }

    /// Initializes the escrow: writes the active record and asks the host
    /// to move the custody account under the derived authority.
    pub fn process_init_airdrop(
        accounts: &mut Accounts,
        spending_multiplier: u64,
        txns_multiplier: u64,
        program_id: &AccountId,
    ) -> (r: Result<TokenOp, AirdropError>)
        ensures
            (r, *final(accounts)) == init_transition(
                *old(accounts),
                spending_multiplier,
                txns_multiplier,
                *program_id,
            ),
            r is Err ==> *final(accounts) == *old(accounts),
    {
        if !accounts.caller_is_signer {
            return Err(AirdropError::MissingRequiredSignature);
        }
        if !accounts.vault_rent_exempt {
            return Err(AirdropError::NotRentExempt);
        }
        if accounts.vault.is_initialized {
            return Err(AirdropError::AccountAlreadyInitialized);
        }
        match find_authority(program_id) {
            None => Err(AirdropError::InvalidAccountData),
            Some(auth) => {
                accounts.vault = Vault {
                    is_initialized: true,
                    initializer_pubkey: accounts.caller,
                    temp_token_account_pubkey: accounts.custody_account,
                    spending_multiplier,
                    txns_multiplier,
                };
                Ok(
                    TokenOp::SetAuthority {
                        account: accounts.custody_account,
                        new_authority: auth.0,
                        current_authority: accounts.caller,
                    },
                )
            },
        }
    }

    /// Cancels the escrow: marks the record inactive and asks the host to
    /// return the whole custody balance to the creator.
    pub fn disable_airdrop(
        accounts: &mut Accounts,
        amount_expected_by_taker: u64,
        program_id: &AccountId,
    ) -> (r: Result<TokenOp, AirdropError>)
        ensures
            (r, *final(accounts)) == disable_transition(
                *old(accounts),
                amount_expected_by_taker,
                *program_id,
            ),
            r is Err ==> *final(accounts) == *old(accounts),
    {
        if !accounts.caller_is_signer {
            return Err(AirdropError::MissingRequiredSignature);
        }
        let custody_amount = match unpack_token_amount(&accounts.custody_data) {
            None => { return Err(AirdropError::InvalidAccountData) },
            Some(custody_amount) => custody_amount,
        };
        if !accounts.vault.temp_token_account_pubkey.eq_id(&accounts.custody_account) {
            return Err(AirdropError::InvalidAccountData);
        }
        if !accounts.caller.eq_id(&accounts.vault.initializer_pubkey) {
            return Err(AirdropError::NotCreator);
        }
        if !accounts.vault.is_initialized {
            return Err(AirdropError::AccountNotInit);
        }
        if !accounts.token_program.eq_id(&accounts.expected_token_program) {
            return Err(AirdropError::InvalidAccountData);
        }
        match find_authority(program_id) {
            None => Err(AirdropError::InvalidAccountData),
            Some(auth) => {
                accounts.vault = Vault { is_initialized: false, ..accounts.vault };
                Ok(
                    TokenOp::Transfer {
                        source: accounts.custody_account,
                        destination: accounts.caller_token_account,
                        authority: auth.0,
                        authority_nonce: auth.1,
                        amount: custody_amount,
                    },
                )
            },
        }
    }

    /// Registers the caller: writes a fresh, unclaimed claim record while
    /// the escrow is active.
    pub fn process_create_account(
        accounts: &mut Accounts,
        amount_spent: u64,
        program_id: &AccountId,
    ) -> (r: Result<(), AirdropError>)
        ensures
            (r, *final(accounts)) == register_transition(
                *old(accounts),
                amount_spent,
                *program_id,
            ),
            r is Err ==> *final(accounts) == *old(accounts),
    {
        if !accounts.caller_is_signer {
            return Err(AirdropError::MissingRequiredSignature);
        }
        if !accounts.user_rent_exempt {
            return Err(AirdropError::NotRentExempt);
        }
        if accounts.user.is_initialized {
            return Err(AirdropError::AccountAlreadyInitialized);
        }
        if !accounts.vault.is_initialized {
            return Err(AirdropError::AccountNotInit);
        }
        accounts.user = User { is_initialized: true, last_withdraw: 0 };
        Ok(())
    }

    /// Delivers the caller's one-time reward: finalizes the claim record
    /// and asks the host to transfer exactly the reward.
    pub fn process_airdrop(
        accounts: &mut Accounts,
        amount_spent: u64,
        total_transactions: u64,
        program_id: &AccountId,
    ) -> (r: Result<TokenOp, AirdropError>)
        ensures
            (r, *final(accounts)) == deliver_transition(
                *old(accounts),
                amount_spent,
                total_transactions,
                *program_id,
            ),
            r is Err ==> *final(accounts) == *old(accounts),
    {
        if !accounts.caller_is_signer {
            return Err(AirdropError::MissingRequiredSignature);
        }
        if !accounts.vault.is_initialized {
            return Err(AirdropError::AccountNotInit);
        }
        if !accounts.user.is_initialized {
            return Err(AirdropError::AccountNotInit);
        }
        if accounts.user.last_withdraw != 0 {
            return Err(AirdropError::UserAlreadyCollected);
        }
        if unpack_token_amount(&accounts.custody_data).is_none() {
            return Err(AirdropError::InvalidAccountData);
        }
        if !accounts.token_program.eq_id(&accounts.expected_token_program) {
            return Err(AirdropError::InvalidAccountData);
        }
        match find_authority(program_id) {
            None => Err(AirdropError::InvalidAccountData),
            Some(auth) => {
                let reward = compute_reward(
                    amount_spent,
                    accounts.vault.spending_multiplier,
                    total_transactions,
                    accounts.vault.txns_multiplier,
                );
                if reward == 0 {
                    return Err(AirdropError::InvalidAccountData);
                }
                accounts.user = User { last_withdraw: 1, ..accounts.user };
                Ok(
                    TokenOp::Transfer {
                        source: accounts.custody_account,
                        destination: accounts.caller_token_account,
                        authority: auth.0,
                        authority_nonce: auth.1,
                        amount: reward,
                    },
                )
            },
        }
    }
}

} // verus!
