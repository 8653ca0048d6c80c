//! Command decode.
//!
//! The opaque command stream is one tag byte followed by a payload: empty
//! for the two creation commands, an 8-byte little-endian amount for the
//! transfer commands. Decoding fails on an empty stream, an unknown tag, or
//! a payload of the wrong length.

use vstd::prelude::*;
use vstd::slice::{slice_index_get, slice_subrange};
use crate::codec::u64_from_le;
use crate::error::LedgerError;

verus! {

/// A decoded command.
#[derive(Clone, Copy, Debug, PartialEq, Eq, Structural)]
pub enum Instruction {
    /// Provision the wallet record of the calling owner.
    CreateAccount,
    /// Move the amount from the pool into a wallet.
    Deposit(u64),
    /// Move the amount from a wallet back into the pool.
    Withdraw(u64),
    /// Provision the singleton pool record.
    PoolAccount,
}

/// What a command stream decodes to: the command and the payload bytes
/// after the tag, or nothing when the stream is malformed.
pub open spec fn spec_decode(data: Seq<u8>) -> Option<(Instruction, Seq<u8>)> {
    if data.len() == 0 {
        None
    } else {
        let rest = data.skip(1);
        if data[0] == 0 {
            Some((Instruction::CreateAccount, rest))
        } else if data[0] == 1 {
            if rest.len() == 8 {
                Some((Instruction::Deposit(u64_from_le(rest)), rest))
            } else {
                None
            }
        } else if data[0] == 2 {
            if rest.len() == 8 {
                Some((Instruction::Withdraw(u64_from_le(rest)), rest))
            } else {
                None
            }
        } else if data[0] == 3 {
            Some((Instruction::PoolAccount, rest))
        } else {
            None
        }
    }
}

/// Read a balance from the first 8 bytes of a slice.
fn read_u64_le(data: &[u8]) -> (r: u64)
    requires
        data@.len() >= 8,
    ensures
        r == u64_from_le(data@),
{
    (*slice_index_get(data, 0) as u64) | ((*slice_index_get(data, 1) as u64) << 8) | ((
    *slice_index_get(data, 2) as u64) << 16) | ((*slice_index_get(data, 3) as u64) << 24) | ((
    *slice_index_get(data, 4) as u64) << 32) | ((*slice_index_get(data, 5) as u64) << 40) | ((
    *slice_index_get(data, 6) as u64) << 48) | ((*slice_index_get(data, 7) as u64) << 56)
}

impl Instruction {
    /// Decode a command stream into the command and the payload after the
    /// tag byte. Fails, with `InvalidInstruction`, iff the stream is empty,
    /// the tag is unknown, or an amount-carrying tag has a payload that is
    /// not exactly 8 bytes.
    pub fn decode<'a>(data: &'a [u8]) -> (r: Result<(Instruction, &'a [u8]), LedgerError>)
        ensures
            r is Ok <==> spec_decode(data@) is Some,
            r is Ok ==> (r->Ok_0).0 == (spec_decode(data@)->0).0,
            r is Ok ==> ((r->Ok_0).1)@ == (spec_decode(data@)->0).1,
            r is Err ==> r->Err_0 == LedgerError::InvalidInstruction,
    {
        if data.len() == 0 {
            return Err(LedgerError::InvalidInstruction);
        }
        let tag = *slice_index_get(data, 0);
        let rest = slice_subrange(data, 1, data.len());
        assert(rest@ =~= data@.skip(1));
        match tag {
            0 => Ok((Instruction::CreateAccount, rest)),
            1 => {
                if rest.len() != 8 {
                    return Err(LedgerError::InvalidInstruction);
                }
                Ok((Instruction::Deposit(read_u64_le(rest)), rest))
            },
            2 => {
                if rest.len() != 8 {
                    return Err(LedgerError::InvalidInstruction);
                }
                Ok((Instruction::Withdraw(read_u64_le(rest)), rest))
            },
            3 => Ok((Instruction::PoolAccount, rest)),
            _ => Err(LedgerError::InvalidInstruction),
        }
    }
}

} // verus!
