//! The storage slot model.
//!
//! A slot is the address-indexed byte buffer that backs exactly one record,
//! together with the identity that owns it. The execution context resolves
//! addresses to slots and hands them in; the core only validates the owner
//! and the capacity, and overwrites the record prefix of the data.

use vstd::prelude::*;
use crate::address::Address;

verus! {

/// A fixed-capacity byte buffer backing one record, with its owner.
#[derive(Debug)]
pub struct Slot {
    /// The identity that owns the slot. Every slot the core writes must be
    /// owned by the managing authority.
    pub owner: Address,
    /// The slot's bytes. The record occupies a prefix; the rest is unused
    /// padding the core never touches.
    pub data: Vec<u8>,
}

impl Slot {
    /// Whether the slot is owned by the given authority identity.
    pub open spec fn owned_by(&self, authority: Seq<u8>) -> bool {
        self.owner@ == authority
    }
}

/// Overwrite the first `src.len()` bytes of `dst` with `src`, leaving the
/// remaining capacity untouched.
pub fn write_prefix(dst: &mut Vec<u8>, src: &Vec<u8>)
    requires
        old(dst)@.len() >= src@.len(),
    ensures
        final(dst)@ == src@ + old(dst)@.skip(src@.len() as int),
{
    let mut i: usize = 0;
    while i < src.len()
        invariant
            i <= src.len(),
            dst@.len() == old(dst)@.len() >= src@.len(),
            forall|j: int| 0 <= j < i ==> dst@[j] == src@[j],
            forall|j: int| i <= j < dst@.len() ==> dst@[j] == old(dst)@[j],
        decreases src.len() - i,
    {
        dst[i] = src[i];
        i = i + 1;
    }
    assert(dst@ =~= src@ + old(dst)@.skip(src@.len() as int));
}

} // verus!
