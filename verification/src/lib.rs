//! A ledger of balances kept in two kinds of fixed-layout records — per-owner
//! wallets and a singleton pool — each stored in a byte slot addressed by a
//! deterministically derived program address.
//!
//! The library covers the record codec, address derivation, provisioning of
//! zero-value records, and the conservation-preserving transfer engine.
//! The host-side allocation primitive and the entrypoint glue live outside it.

use vstd::prelude::*;

pub mod address;
pub mod codec;
pub mod conservation;
pub mod error;
pub mod instruction;
pub mod provision;
pub mod slot;
pub mod transfer;

verus! {

} // verus!
