//! Error taxonomy of the ledger core.
//!
//! No error is retried internally: every failure aborts the invocation and
//! leaves the slots it was handed unchanged, as the contracts of the
//! provisioning and transfer functions state.

use vstd::prelude::*;

verus! {

/// Every way an in-scope operation can fail.
#[derive(Clone, Copy, Debug, PartialEq, Eq, Structural)]
pub enum LedgerError {
    /// The command byte-stream is empty, has an unknown tag, or carries a
    /// payload of the wrong length.
    InvalidInstruction,
    /// A slot handed to the transfer engine is not owned by the managing
    /// authority.
    UnauthorizedOwner,
    /// A slot expected to hold a record is too short to decode one.
    MalformedRecord,
    /// The funding source (or the debited record) holds less than the
    /// operation needs.
    InsufficientFunds,
    /// The credited balance would leave the unsigned 64-bit range.
    BalanceOverflow,
    /// A slot's capacity is below the encoded record size.
    SlotTooSmall,
    /// Address derivation exhausted the discriminant search space.
    DerivationFailed,
    /// The external funded-allocation primitive rejected the request,
    /// typically because the derived address is already occupied. Reported by
    /// the caller that runs the primitive; no in-scope function produces it.
    AllocationFailed,
}

} // verus!
