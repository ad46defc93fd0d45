use vstd::prelude::*;

verus! {

/// Structured failure codes of the escrow core. Every operation either
/// applies completely or returns one of these and leaves all state unchanged.
#[derive(Clone, Copy, PartialEq, Eq, Structural, Debug)]
pub enum ErrorCode {
    /// Stored or incoming bytes do not decode as the expected shape.
    MalformedRecord,
    /// Fewer account identities were supplied than the operation requires,
    /// or the supplied identities do not match the escrow record's wiring.
    MissingParticipant,
    /// The custody balance does not equal the counterparty's claimed amount.
    AmountMismatch,
    /// The current height falls inside the blocked window strictly after the
    /// unlock height.
    TimeConstraintViolation,
    /// The initiator cannot cover the cost of allocating the record account.
    InsufficientFunds,
    /// The target record address is already occupied.
    AccountAlreadyInUse,
    /// A required signature is absent.
    UnauthorizedSigner,
    /// Authority derivation exhausted the discriminator space.
    DerivationExhausted,
    /// The token ledger rejected one of the sub-transfers; none were applied.
    TransferFailed,
}

} // verus!
