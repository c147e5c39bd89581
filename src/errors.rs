use vstd::prelude::*;

verus! {

/// Every way in which an escrow operation can fail. An error is terminal for
/// the enclosing operation: the host discards all of its writes.
#[derive(Debug, Clone, Copy, PartialEq, Eq, Structural)]
pub enum EscrowError {
    /// The deposited amount or the requested price is zero.
    InvalidAmount,
    /// The maker account does not match the maker stored in the record.
    InvalidMaker,
    /// The supplied asset-A mint does not match the record.
    InvalidMintA,
    /// The supplied asset-B mint does not match the record, or equals asset A.
    InvalidMintB,
    /// A token account's encoded owner is not the expected party.
    InvalidOwner,
    /// A supplied escrow or vault address differs from the derived one.
    DerivationMismatch,
    /// An account that must sign the transaction did not.
    MissingRequiredSignature,
    /// Fewer accounts were supplied than the operation needs.
    NotEnoughAccountKeys,
    /// An account's data is too short or does not have the expected contents.
    InvalidAccountData,
    /// The escrow record does not exist (it was never created or is closed).
    UninitializedAccount,
    /// The instruction payload does not have the expected shape.
    InvalidInstructionData,
    /// Moving lamports would overflow the destination's balance.
    ArithmeticOverflow,
}

} // verus!
