//! Deterministic address derivation.
//!
//! Every record lives at a sub-address computed from a domain-separation
//! label, an optional owner reference, and the managing authority's
//! identifier. Derivation also yields a one-byte discriminant: the proof that
//! the address has no externally held signing key, supplied whenever an
//! operation claims authority to act as that address.

use vstd::prelude::*;
use crate::error::LedgerError;

verus! {

/// Number of bytes in an identifier.
pub const ADDRESS_LEN: usize = 32;

/// A 32-byte identifier: a derived address, an owner reference, or the
/// managing authority's identity.
#[derive(Debug)]
pub struct Address {
    pub bytes: Vec<u8>,
}

impl View for Address {
    type V = Seq<u8>;

    open spec fn view(&self) -> Seq<u8> {
        self.bytes@
    }
}

impl Address {
    /// A well-formed identifier holds exactly 32 bytes.
    pub open spec fn wf(&self) -> bool {
        self@.len() == ADDRESS_LEN
    }

    /// Build an identifier from its bytes; fails iff the length is wrong.
    pub fn from_bytes(bytes: Vec<u8>) -> (r: Option<Address>)
        ensures
            r is Some <==> bytes@.len() == ADDRESS_LEN,
            r is Some ==> (r->0)@ == bytes@ && r->0.wf(),
    {
        if bytes.len() == ADDRESS_LEN {
            Some(Address { bytes })
        } else {
            None
        }
    }

    /// An independent copy of this identifier.
    pub fn dup(&self) -> (r: Address)
        ensures
            r@ == self@,
    {
        let mut bytes: Vec<u8> = Vec::new();
        let mut i: usize = 0;
        while i < self.bytes.len()
            invariant
                i <= self.bytes.len(),
                bytes@ == self.bytes@.subrange(0, i as int),
            decreases self.bytes.len() - i,
        {
            bytes.push(self.bytes[i]);
            i = i + 1;
        }
        assert(bytes@ =~= self.bytes@);
        Address { bytes }
    }

    /// Whether two identifiers hold the same bytes.
    pub fn same_as(&self, other: &Address) -> (r: bool)
        ensures
            r <==> self@ == other@,
    {
        if self.bytes.len() != other.bytes.len() {
            assert(self@ !~= other@);
            return false;
        }
        let mut i: usize = 0;
        while i < self.bytes.len()
            invariant
                i <= self.bytes.len(),
                self.bytes@.len() == other.bytes@.len(),
                forall|j: int| 0 <= j < i ==> self.bytes@[j] == other.bytes@[j],
            decreases self.bytes.len() - i,
        {
            if self.bytes[i] != other.bytes[i] {
                return false;
            }
            i = i + 1;
        }
        assert(self@ =~= other@);
        true
    }
}

/// The label under which per-owner wallet records are derived: the ASCII
/// bytes of "user_wallet".
pub open spec fn wallet_label() -> Seq<u8> {
    seq![117u8, 115u8, 101u8, 114u8, 95u8, 119u8, 97u8, 108u8, 108u8, 101u8, 116u8]
}

/// The label under which the singleton pool record is derived: the ASCII
/// bytes of "pool_wallet".
pub open spec fn pool_label() -> Seq<u8> {
    seq![112u8, 111u8, 111u8, 108u8, 95u8, 119u8, 97u8, 108u8, 108u8, 101u8, 116u8]
}

/// The wallet label, as bytes.
pub fn wallet_label_bytes() -> (r: Vec<u8>)
    ensures
        r@ == wallet_label(),
{
    let mut r: Vec<u8> = Vec::new();
    r.push(117u8);
    r.push(115u8);
    r.push(101u8);
    r.push(114u8);
    r.push(95u8);
    r.push(119u8);
    r.push(97u8);
    r.push(108u8);
    r.push(108u8);
    r.push(101u8);
    r.push(116u8);
    assert(r@ =~= wallet_label());
    r
}

/// The pool label, as bytes.
pub fn pool_label_bytes() -> (r: Vec<u8>)
    ensures
        r@ == pool_label(),
{
    let mut r: Vec<u8> = Vec::new();
    r.push(112u8);
    r.push(111u8);
    r.push(111u8);
    r.push(108u8);
    r.push(95u8);
    r.push(119u8);
    r.push(97u8);
    r.push(108u8);
    r.push(108u8);
    r.push(101u8);
    r.push(116u8);
    assert(r@ =~= pool_label());
    r
}

/// The seed sequence a derivation hashes: the label alone for the singleton
/// pool, or the label followed by the owner reference for a wallet.
pub open spec fn derivation_seeds(label: Seq<u8>, reference: Option<Seq<u8>>) -> Seq<Seq<u8>> {
    match reference {
        Some(r) => seq![label, r],
        None => seq![label],
    }
}

/// What the derivation search returns for given seeds under a given
/// authority: the first discriminant, counted down from 255, whose hash
/// falls outside the valid-key set, with the resulting address; or nothing
/// when the search space is exhausted.
pub uninterp spec fn pda_of(seeds: Seq<Seq<u8>>, authority: Seq<u8>) -> Option<(Seq<u8>, u8)>;

/// Relies on solana_program::pubkey::Pubkey::try_find_program_address: the
/// outcome — found or exhausted, and on success the 32-byte address and the
/// discriminant — is a function of the seeds and the authority bytes alone.
#[verifier::external_body]
fn find_derived_address(seeds: &Vec<Vec<u8>>, authority: &Address) -> (r: Option<(Address, u8)>)
    requires
        authority.wf(),
    ensures
        r is Some <==> pda_of(seeds.deep_view(), authority@) is Some,
        r is Some ==> (((r->0).0)@, (r->0).1) == pda_of(seeds.deep_view(), authority@)->0,
        r is Some ==> (r->0).0.wf(),
{
    let seed_refs: Vec<&[u8]> = seeds.iter().map(|s| s.as_slice()).collect();
    let authority_arr: [u8; 32] = authority.bytes.as_slice().try_into().unwrap();
    let pid = solana_program::pubkey::Pubkey::new_from_array(authority_arr);
    solana_program::pubkey::Pubkey::try_find_program_address(&seed_refs, &pid).map(
        |found: (solana_program::pubkey::Pubkey, u8)|
            (Address { bytes: found.0.to_bytes().to_vec() }, found.1),
    )
}

/// Derive the sub-address and discriminant for `label` and an optional owner
/// `reference` under `authority`. Pure: the result is a function of the
/// inputs alone, so any party can reproduce it without a lookup.
pub fn derive(label: &Vec<u8>, reference: Option<&Address>, authority: &Address) -> (r: Result<
    (Address, u8),
    LedgerError,
>)
    requires
        authority.wf(),
    ensures
        ({
            let seeds = derivation_seeds(
                label@,
                match reference {
                    Some(a) => Some(a@),
                    None => None,
                },
            );
            &&& r is Ok <==> pda_of(seeds, authority@) is Some
            &&& r is Ok ==> ((r->Ok_0.0)@, r->Ok_0.1) == pda_of(seeds, authority@)->0
            &&& r is Ok ==> r->Ok_0.0.wf()
            &&& r is Err ==> r->Err_0 == LedgerError::DerivationFailed
        }),
{
    let mut seeds: Vec<Vec<u8>> = Vec::new();
    let mut label_copy: Vec<u8> = Vec::new();
    let mut i: usize = 0;
    while i < label.len()
        invariant
            i <= label.len(),
            label_copy@ == label@.subrange(0, i as int),
        decreases label.len() - i,
    {
        label_copy.push(label[i]);
        i = i + 1;
    }
    assert(label_copy@ =~= label@);
    seeds.push(label_copy);
    match reference {
        Some(a) => {
            seeds.push(a.dup().bytes);
        },
        None => {},
    }
    proof {
        assert(seeds.deep_view() =~~= derivation_seeds(
            label@,
            match reference {
                Some(a) => Some(a@),
                None => None,
            },
        ));
    }
    match find_derived_address(&seeds, authority) {
        Some(found) => Ok(found),
        None => Err(LedgerError::DerivationFailed),
    }
}

/// Determinism: the derivation outcome is a function of the label,
/// reference and authority alone, so any two derivations for the same
/// inputs — in any call, in any process — yield the same address and the
/// same discriminant.
pub proof fn lemma_derivation_deterministic(
    seeds: Seq<Seq<u8>>,
    authority: Seq<u8>,
    first: (Seq<u8>, u8),
    second: (Seq<u8>, u8),
)
    requires
        pda_of(seeds, authority) == Some(first),
        pda_of(seeds, authority) == Some(second),
    ensures
        first == second,
{
}

/// Derive the wallet address for `owner` under `authority`.
pub fn derive_user_wallet_address(owner: &Address, authority: &Address) -> (r: Result<
    (Address, u8),
    LedgerError,
>)
    requires
        authority.wf(),
    ensures
        ({
            let d = pda_of(derivation_seeds(wallet_label(), Some(owner@)), authority@);
            &&& r is Ok <==> d is Some
            &&& r is Ok ==> ((r->Ok_0.0)@, r->Ok_0.1) == d->0
            &&& r is Ok ==> r->Ok_0.0.wf()
            &&& r is Err ==> r->Err_0 == LedgerError::DerivationFailed
        }),
{
    let label = wallet_label_bytes();
    derive(&label, Some(owner), authority)
}

/// Derive the singleton pool address under `authority`.
pub fn derive_pool_wallet_address(authority: &Address) -> (r: Result<(Address, u8), LedgerError>)
    requires
        authority.wf(),
    ensures
        ({
            let d = pda_of(derivation_seeds(pool_label(), None), authority@);
            &&& r is Ok <==> d is Some
            &&& r is Ok ==> ((r->Ok_0.0)@, r->Ok_0.1) == d->0
            &&& r is Ok ==> r->Ok_0.0.wf()
            &&& r is Err ==> r->Err_0 == LedgerError::DerivationFailed
        }),
{
    let label = pool_label_bytes();
    derive(&label, None, authority)
}

} // verus!
