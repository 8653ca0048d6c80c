//! Fixed-layout codec for the two record shapes.
//!
//! Each record holds one unsigned 64-bit balance, stored as exactly
//! `RECORD_LEN` little-endian bytes at the start of a slot's data. Decoding
//! reads that prefix and ignores any remaining capacity; it fails only when
//! the buffer is shorter than the encoding.

use vstd::prelude::*;

verus! {

/// Number of bytes a record occupies at the start of a slot.
pub const RECORD_LEN: usize = 8;

/// A per-owner wallet record.
pub struct UserWallet {
    pub balance: u64,
}

/// The singleton pool record.
pub struct PoolWallet {
    pub total_balance: u64,
}

/// Byte `i` (least significant first) of the little-endian encoding of `x`.
pub open spec fn le_byte(x: u64, i: int) -> u8 {
    (x >> (8 * i)) as u8
}

/// The 8-byte little-endian encoding of `x`.
pub open spec fn u64_le_bytes(x: u64) -> Seq<u8> {
    Seq::new(8, |i: int| le_byte(x, i))
}

/// The value read little-endian from the first 8 bytes of `s`.
pub open spec fn u64_from_le(s: Seq<u8>) -> u64
    recommends
        s.len() >= 8,
{
    (s[0] as u64) | ((s[1] as u64) << 8) | ((s[2] as u64) << 16) | ((s[3] as u64) << 24)
        | ((s[4] as u64) << 32) | ((s[5] as u64) << 40) | ((s[6] as u64) << 48)
        | ((s[7] as u64) << 56)
}

/// Reading back the little-endian encoding of `x` yields `x` again.
pub proof fn lemma_u64_le_round_trip(x: u64)
    ensures
        u64_from_le(u64_le_bytes(x)) == x,
{
    assert(((x >> 0) as u8 as u64) | (((x >> 8) as u8 as u64) << 8) | (((x >> 16) as u8 as u64)
        << 16) | (((x >> 24) as u8 as u64) << 24) | (((x >> 32) as u8 as u64) << 32) | (((x
        >> 40) as u8 as u64) << 40) | (((x >> 48) as u8 as u64) << 48) | (((x
        >> 56) as u8 as u64) << 56) == x) by (bit_vector);
}

/// Encode a balance as its 8 little-endian bytes.
pub fn encode_u64(x: u64) -> (r: Vec<u8>)
    ensures
        r@ == u64_le_bytes(x),
{
    let mut r: Vec<u8> = Vec::new();
    r.push((x >> 0) as u8);
    r.push((x >> 8) as u8);
    r.push((x >> 16) as u8);
    r.push((x >> 24) as u8);
    r.push((x >> 32) as u8);
    r.push((x >> 40) as u8);
    r.push((x >> 48) as u8);
    r.push((x >> 56) as u8);
    assert(r@ =~= u64_le_bytes(x));
    r
}

/// Decode a balance from the first 8 bytes of `data`, or fail if the buffer
/// is too short to hold a record.
pub fn decode_u64(data: &Vec<u8>) -> (r: Option<u64>)
    ensures
        r is Some <==> data@.len() >= 8,
        r is Some ==> r->0 == u64_from_le(data@),
{
    if data.len() < 8 {
        return None;
    }
    let v: u64 = (data[0] as u64) | ((data[1] as u64) << 8) | ((data[2] as u64) << 16) | ((
    data[3] as u64) << 24) | ((data[4] as u64) << 32) | ((data[5] as u64) << 40) | ((
    data[6] as u64) << 48) | ((data[7] as u64) << 56);
    Some(v)
}

impl UserWallet {
    /// The balance a buffer decodes to, read as a wallet record.
    pub open spec fn spec_decoded(data: Seq<u8>) -> Option<UserWallet> {
        if data.len() >= 8 {
            Some(UserWallet { balance: u64_from_le(data) })
        } else {
            None
        }
    }

    /// Encode this record; never fails.
    pub fn encode(&self) -> (r: Vec<u8>)
        ensures
            r@ == u64_le_bytes(self.balance),
            r@.len() == RECORD_LEN,
    {
        encode_u64(self.balance)
    }

    /// Decode a record from the start of `data`; fails iff the buffer is
    /// shorter than a record.
    pub fn decode(data: &Vec<u8>) -> (r: Option<UserWallet>)
        ensures
            r == Self::spec_decoded(data@),
    {
        match decode_u64(data) {
            Some(balance) => Some(UserWallet { balance }),
            None => None,
        }
    }
}

impl PoolWallet {
    /// The balance a buffer decodes to, read as a pool record.
    pub open spec fn spec_decoded(data: Seq<u8>) -> Option<PoolWallet> {
        if data.len() >= 8 {
            Some(PoolWallet { total_balance: u64_from_le(data) })
        } else {
            None
        }
    }

    /// Encode this record; never fails.
    pub fn encode(&self) -> (r: Vec<u8>)
        ensures
            r@ == u64_le_bytes(self.total_balance),
            r@.len() == RECORD_LEN,
    {
        encode_u64(self.total_balance)
    }

    /// Decode a record from the start of `data`; fails iff the buffer is
    /// shorter than a record.
    pub fn decode(data: &Vec<u8>) -> (r: Option<PoolWallet>)
        ensures
            r == Self::spec_decoded(data@),
    {
        match decode_u64(data) {
            Some(total_balance) => Some(PoolWallet { total_balance }),
            None => None,
        }
    }
}

/// Round-trip law for wallet records: decoding an encoding gives the record
/// back, whatever padding follows it.
pub proof fn lemma_user_wallet_round_trip(r: UserWallet, pad: Seq<u8>)
    ensures
        UserWallet::spec_decoded(u64_le_bytes(r.balance) + pad) == Some(r),
{
    lemma_u64_le_round_trip(r.balance);
    let full = u64_le_bytes(r.balance) + pad;
    assert(forall|i: int| 0 <= i < 8 ==> full[i] == u64_le_bytes(r.balance)[i]);
    assert(u64_from_le(full) == u64_from_le(u64_le_bytes(r.balance)));
}

/// Round-trip law for pool records.
pub proof fn lemma_pool_wallet_round_trip(r: PoolWallet, pad: Seq<u8>)
    ensures
        PoolWallet::spec_decoded(u64_le_bytes(r.total_balance) + pad) == Some(r),
{
    lemma_u64_le_round_trip(r.total_balance);
    let full = u64_le_bytes(r.total_balance) + pad;
    assert(forall|i: int| 0 <= i < 8 ==> full[i] == u64_le_bytes(r.total_balance)[i]);
    assert(u64_from_le(full) == u64_from_le(u64_le_bytes(r.total_balance)));
}

} // verus!
