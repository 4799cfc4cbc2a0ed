use vstd::prelude::*;

verus! {

/// Every failure the escrow core can report. Each precondition check of a
/// handler returns the first violated kind; no partial mutation happens
/// before all preconditions of an operation have passed.
#[derive(Clone, Copy, Debug, PartialEq, Eq, Structural)]
pub enum AirdropError {
    /// The leading instruction byte names no known operation.
    InvalidInstruction,
    /// The instruction buffer is empty or a required field is truncated.
    InvalidData,
    /// A record's storage slot lacks the required reserve balance.
    NotRentExempt,
    /// Reserved: an amount-consistency check between request and custody.
    ExpectedAmountMismatch,
    /// Reserved: an arithmetic overflow guard on the reward computation.
    AmountOverflow,
    /// The caller of a cancellation is not the escrow's initializer.
    NotCreator,
    /// The operation needs an active escrow or claim record that is absent.
    AccountNotInit,
    /// The claim record was already finalized by an earlier delivery.
    UserAlreadyCollected,
    /// A required caller did not sign the invocation.
    MissingRequiredSignature,
    /// An attempt to initialize a record that is already active.
    AccountAlreadyInitialized,
    /// A supplied account does not match a record-stored reference, the
    /// token service identity is wrong, its account bytes are malformed,
    /// or a delivery would move nothing.
    InvalidAccountData,
}

} // verus!
