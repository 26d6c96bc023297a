use vstd::prelude::*;

verus! {

/// Every way an invocation of the marketplace core can fail. Each error is
/// terminal: a transition that reports one has requested no transfers.
#[derive(Clone, Copy, Debug, PartialEq, Eq, Structural)]
pub enum MarketplaceError {
    /// A required party did not sign the invocation.
    MissingAuthorization,
    /// The supplied escrow state account does not equal the re-derived
    /// custody address.
    EscrowAddressMismatch,
    /// Decode-time: the input is empty, or the tag byte is unknown.
    UnrecognizedInstruction,
    /// Decode-time: fewer than eight payload bytes follow the tag.
    TruncatedPayload,
    /// An external currency or asset-sub-ledger transfer was rejected.
    CollaboratorTransferFailure,
    /// The positional account list is shorter than the transition's schema.
    NotEnoughAccounts,
    /// No disambiguation byte yields a program-authority custody address for
    /// the given identities; treated as fatal for the invocation.
    DerivationFailure,
}

} // verus!
