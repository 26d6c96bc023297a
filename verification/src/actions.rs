use vstd::prelude::*;

verus! {

/// The proof of authority a transfer request presents to the asset
/// sub-ledger.
#[derive(Clone, Copy, Debug, PartialEq, Eq)]
pub enum TransferAuthority {
    /// A party that signed the enclosing transaction signs the request away
    /// from its own holding.
    Signer { key: [u8; 32] },
    /// The program presents the escrow derivation seeds — the asset identity,
    /// the seller identity and the disambiguation byte found at derivation —
    /// as delegated authority over the derived custody identity, without
    /// holding a private key.
    Derived { mint: [u8; 32], seller: [u8; 32], bump: u8 },
}

/// One transfer request that a transition asks the host to perform. A
/// transition returns the full list of requests it would issue; they form one
/// atomic unit of work.
#[derive(Clone, Copy, Debug, PartialEq, Eq)]
pub enum LedgerAction {
    /// Move `amount` units of the asset between holdings of the sub-ledger,
    /// authorized as `authority` says.
    TokenTransfer { source: [u8; 32], dest: [u8; 32], authority: TransferAuthority, amount: u64 },
    /// Move `lamports` units of native currency between accounts, authorized
    /// by the paying account's signature.
    NativeTransfer { from: [u8; 32], to: [u8; 32], lamports: u64 },
}

} // verus!
