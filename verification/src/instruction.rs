use vstd::prelude::*;

use crate::bytes::{le64_at, read_le64_at};
use crate::error::AirdropError;

verus! {

/// A decoded instruction. On the wire, the first byte is the discriminant
/// tag and the remaining bytes are little-endian fixed-width fields.
#[derive(Clone, Copy, Debug, PartialEq, Eq, Structural)]
pub enum AirdropInstruction {
    /// Tag 0. Creates the escrow record and moves the custody account under
    /// the derived authority's control.
    InitAirdrop {
        /// Reward units granted per unit of amount spent.
        spending_multiplier: u64,
        /// Reward units granted per transaction counted.
        txns_multiplier: u64,
    },
    /// Tag 1. Cancels the escrow and returns the whole custody balance to
    /// the creator.
    DisableAirdrop {
        /// Carried on the wire but not consulted by the handler.
        amount: u64,
    },
    /// Tag 2. Registers a claim record for the caller.
    CreateAccount {
        /// Carried on the wire but not consulted by the handler.
        amount_spent: u64,
    },
    /// Tag 3. Pays the caller's one-time reward out of the custody account.
    DeliverAirdrop {
        /// The caller's spending counter, first reward input.
        amount_spent: u64,
        /// The caller's transaction counter, second reward input.
        total_transactions: u64,
    },
}

/// What decoding the wire bytes `s` yields: an empty buffer or a truncated
/// field fails with `InvalidData`, an unknown leading tag fails with
/// `InvalidInstruction`, and otherwise the fields after the tag byte are
/// read as little-endian 64-bit values.
pub open spec fn spec_unpack(s: Seq<u8>) -> Result<AirdropInstruction, AirdropError> {
    if s.len() == 0 {
        Err(AirdropError::InvalidData)
    } else {
        let rest = s.subrange(1, s.len() as int);
        if s[0] == 0 {
            if rest.len() >= 16 {
                Ok(
                    AirdropInstruction::InitAirdrop {
                        spending_multiplier: le64_at(rest, 0),
                        txns_multiplier: le64_at(rest, 8),
                    },
                )
            } else {
                Err(AirdropError::InvalidData)
            }
        } else if s[0] == 1 {
            match spec_unpack_amount(rest) {
                Ok(amount) => Ok(AirdropInstruction::DisableAirdrop { amount }),
                Err(e) => Err(e),
            }
        } else if s[0] == 2 {
            match spec_unpack_amount(rest) {
                Ok(amount) => Ok(AirdropInstruction::CreateAccount { amount_spent: amount }),
                Err(e) => Err(e),
            }
        } else if s[0] == 3 {
            if rest.len() >= 16 {
                Ok(
                    AirdropInstruction::DeliverAirdrop {
                        amount_spent: le64_at(rest, 0),
                        total_transactions: le64_at(rest, 8),
                    },
                )
            } else {
                Err(AirdropError::InvalidData)
            }
        } else {
            Err(AirdropError::InvalidInstruction)
        }
    }
}

/// What reading one little-endian 64-bit field from the front of `s`
/// yields: its value, or `InvalidData` when fewer than eight bytes remain.
pub open spec fn spec_unpack_amount(s: Seq<u8>) -> Result<u64, AirdropError> {
    if s.len() >= 8 {
        Ok(le64_at(s, 0))
    } else {
        Err(AirdropError::InvalidData)
    }
}

impl AirdropInstruction {
    /// Decodes a wire byte buffer into an [`AirdropInstruction`].
    pub fn unpack(input: &[u8]) -> (r: Result<AirdropInstruction, AirdropError>)
        ensures
            r == spec_unpack(input@),
    {
        if input.len() == 0 {
            return Err(AirdropError::InvalidData);
        }
        let (_, rest) = input.split_at(1);
        let tag: u8 = input[0];
        match tag {
            0 => {
                if rest.len() < 16 {
                    return Err(AirdropError::InvalidData);
                }
                let spending_multiplier = read_le64_at(rest, 0);
                let txns_multiplier = read_le64_at(rest, 8);
                Ok(AirdropInstruction::InitAirdrop { spending_multiplier, txns_multiplier })
            },
            1 => {
                match Self::unpack_amount(rest) {
                    Ok(amount) => Ok(AirdropInstruction::DisableAirdrop { amount }),
                    Err(e) => Err(e),
                }
            },
            2 => {
                match Self::unpack_amount(rest) {
                    Ok(amount) => Ok(AirdropInstruction::CreateAccount { amount_spent: amount }),
                    Err(e) => Err(e),
                }
            },
            3 => {
                if rest.len() < 16 {
                    return Err(AirdropError::InvalidData);
                }
                let amount_spent = read_le64_at(rest, 0);
                let total_transactions = read_le64_at(rest, 8);
                Ok(AirdropInstruction::DeliverAirdrop { amount_spent, total_transactions })
            },
            _ => Err(AirdropError::InvalidInstruction),
        }
    }

    /// Reads one little-endian 64-bit field from the front of `input`.
    pub fn unpack_amount(input: &[u8]) -> (r: Result<u64, AirdropError>)
        ensures
            r == spec_unpack_amount(input@),
    {
        if input.len() < 8 {
            return Err(AirdropError::InvalidData);
        }
        Ok(read_le64_at(input, 0))
    }
}

} // verus!
