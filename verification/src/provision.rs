//! Provisioning of new record slots.
//!
//! Creating a record has two in-scope halves around one external call. The
//! planning half derives the target address, prices the minimum persistence
//! funding for a fixed-capacity slot, and checks the payer can cover it; its
//! result is the full argument list for the external funded-allocation
//! primitive, including the seed tuple and discriminant that authorize
//! acting as the derived address. Once the caller has run that primitive,
//! the finishing half writes the zero-value record into the fresh slot.

use vstd::prelude::*;
use crate::address::{
    Address, derivation_seeds, pda_of, pool_label, pool_label_bytes, wallet_label,
    wallet_label_bytes,
};
use crate::codec::{u64_le_bytes, encode_u64, PoolWallet, UserWallet, RECORD_LEN};
use crate::error::LedgerError;
use crate::slot::{Slot, write_prefix};

verus! {

/// Capacity, in bytes, of every slot the core provisions. The record uses
/// the first `RECORD_LEN` bytes; the rest is reserved padding.
pub const SLOT_CAPACITY: usize = 128;

/// Largest byte size the persistence pricing accepts.
pub const MAX_PRICED_SIZE: usize = 10485760;

/// The minimum funding, in base units, that keeps a slot of `size` bytes
/// persistent, under the host's fixed default pricing configuration.
pub uninterp spec fn persistence_threshold(size: nat) -> u64;

/// Relies on solana_program::rent::Rent::try_minimum_balance on the default
/// configuration: the rent-exempt minimum is a function of the byte size
/// alone, and is returned for every size up to the maximum permitted data
/// length (10 MiB).
#[verifier::external_body]
fn minimum_persistence_funding(size: usize) -> (r: Option<u64>)
    ensures
        r is Some <==> size <= MAX_PRICED_SIZE,
        r is Some ==> r->0 == persistence_threshold(size as nat),
{
    solana_program::rent::Rent::default().try_minimum_balance(size)
}

/// Everything the external funded-allocation primitive needs to materialize
/// one slot: the derived address to create, the funding and size, and the
/// derivation proof (seed tuple plus discriminant) that authorizes the call
/// on behalf of the keyless address.
#[derive(Debug)]
pub struct AllocationRequest {
    /// The derived address the slot will live at.
    pub new_address: Address,
    /// The discriminant found for that address.
    pub bump: u8,
    /// The funding the payer must supply.
    pub lamports: u64,
    /// The slot capacity to allocate.
    pub space: usize,
    /// The seeds the address was derived from, without the discriminant.
    pub seeds: Vec<Vec<u8>>,
}

/// What planning a record creation yields for a given label, optional owner
/// reference, authority and payer balance: the derived address and
/// discriminant, or the error, in the order the checks run.
pub open spec fn creation_outcome(
    label: Seq<u8>,
    reference: Option<Seq<u8>>,
    authority: Seq<u8>,
    payer_balance: u64,
) -> Result<(Seq<u8>, u8), LedgerError> {
    match pda_of(derivation_seeds(label, reference), authority) {
        Some(found) => {
            if payer_balance < persistence_threshold(SLOT_CAPACITY as nat) {
                Err(LedgerError::InsufficientFunds)
            } else {
                Ok(found)
            }
        },
        None => Err(LedgerError::DerivationFailed),
    }
}

/// Whether `r` is the allocation request that `creation_outcome` licenses
/// for these inputs.
pub open spec fn request_matches(
    r: AllocationRequest,
    label: Seq<u8>,
    reference: Option<Seq<u8>>,
    authority: Seq<u8>,
) -> bool {
    &&& Ok::<_, LedgerError>((r.new_address@, r.bump)) == creation_outcome(
        label,
        reference,
        authority,
        r.lamports,
    )
    &&& r.new_address.wf()
    &&& r.lamports == persistence_threshold(SLOT_CAPACITY as nat)
    &&& r.space == SLOT_CAPACITY
    &&& r.seeds.deep_view() == derivation_seeds(label, reference)
}

/// Plan the creation of one record slot: derive the address for `label` and
/// `reference` under `authority`, price the funding, and require the payer
/// to cover it. Performs no allocation itself.
fn plan_creation(
    label: &Vec<u8>,
    reference: Option<&Address>,
    authority: &Address,
    payer_balance: u64,
) -> (r: Result<AllocationRequest, LedgerError>)
    requires
        authority.wf(),
    ensures
        ({
            let reference_bytes = match reference {
                Some(a) => Some(a@),
                None => None,
            };
            &&& r is Ok <==> creation_outcome(label@, reference_bytes, authority@, payer_balance)
                is Ok
            &&& r is Ok ==> request_matches(r->Ok_0, label@, reference_bytes, authority@)
            &&& r is Err ==> Err::<(Seq<u8>, u8), _>(r->Err_0) == creation_outcome(
                label@,
                reference_bytes,
                authority@,
                payer_balance,
            )
        }),
{
    let (new_address, bump) = match crate::address::derive(label, reference, authority) {
        Ok(found) => found,
        Err(e) => { return Err(e) },
    };
    let lamports = match minimum_persistence_funding(SLOT_CAPACITY) {
        Some(v) => v,
        None => { return Err(LedgerError::DerivationFailed) },
    };
    if payer_balance < lamports {
        return Err(LedgerError::InsufficientFunds);
    }
    let mut seeds: Vec<Vec<u8>> = Vec::new();
    let mut label_copy: Vec<u8> = Vec::new();
    let mut i: usize = 0;
    while i < label.len()
        invariant
            i <= label.len(),
            label_copy@ == label@.subrange(0, i as int),
        decreases label.len() - i,
    {
        label_copy.push(label[i]);
        i = i + 1;
    }
    assert(label_copy@ =~= label@);
    seeds.push(label_copy);
    match reference {
        Some(a) => {
            seeds.push(a.dup().bytes);
        },
        None => {},
    }
    proof {
        assert(seeds.deep_view() =~~= derivation_seeds(
            label@,
            match reference {
                Some(a) => Some(a@),
                None => None,
            },
        ));
    }
    Ok(AllocationRequest { new_address, bump, lamports, space: SLOT_CAPACITY, seeds })
}

/// Plan the creation of the wallet record slot for `owner`.
pub fn plan_user_wallet_creation(owner: &Address, authority: &Address, payer_balance: u64) -> (r:
    Result<AllocationRequest, LedgerError>)
    requires
        authority.wf(),
    ensures
        r is Ok <==> creation_outcome(wallet_label(), Some(owner@), authority@, payer_balance)
            is Ok,
        r is Ok ==> request_matches(r->Ok_0, wallet_label(), Some(owner@), authority@),
        r is Err ==> Err::<(Seq<u8>, u8), _>(r->Err_0) == creation_outcome(
            wallet_label(),
            Some(owner@),
            authority@,
            payer_balance,
        ),
{
    let label = wallet_label_bytes();
    plan_creation(&label, Some(owner), authority, payer_balance)
}

/// Plan the creation of the singleton pool record slot.
pub fn plan_pool_wallet_creation(authority: &Address, payer_balance: u64) -> (r: Result<
    AllocationRequest,
    LedgerError,
>)
    requires
        authority.wf(),
    ensures
        r is Ok <==> creation_outcome(pool_label(), None, authority@, payer_balance) is Ok,
        r is Ok ==> request_matches(r->Ok_0, pool_label(), None, authority@),
        r is Err ==> Err::<(Seq<u8>, u8), _>(r->Err_0) == creation_outcome(
            pool_label(),
            None,
            authority@,
            payer_balance,
        ),
{
    let label = pool_label_bytes();
    plan_creation(&label, None, authority, payer_balance)
}

/// Write the zero-value record into a freshly allocated slot. Fails, with
/// the slot untouched, only when the slot cannot hold a record; afterwards
/// the slot decodes to the zero-value record of either shape.
pub fn write_initial_record(slot: &mut Slot) -> (r: Result<(), LedgerError>)
    ensures
        r is Ok <==> old(slot).data@.len() >= RECORD_LEN,
        r is Err ==> r->Err_0 == LedgerError::SlotTooSmall && *final(slot) == *old(slot),
        r is Ok ==> ({
            &&& final(slot).owner == old(slot).owner
            &&& final(slot).data@ == u64_le_bytes(0) + old(slot).data@.skip(RECORD_LEN as int)
            &&& UserWallet::spec_decoded(final(slot).data@) == Some(UserWallet { balance: 0 })
            &&& PoolWallet::spec_decoded(final(slot).data@) == Some(
                PoolWallet { total_balance: 0 },
            )
        }),
{
    let zero_bytes = encode_u64(0);
    if slot.data.len() < zero_bytes.len() {
        return Err(LedgerError::SlotTooSmall);
    }
    write_prefix(&mut slot.data, &zero_bytes);
    proof {
        crate::codec::lemma_user_wallet_round_trip(
            UserWallet { balance: 0 },
            old(slot).data@.skip(RECORD_LEN as int),
        );
        crate::codec::lemma_pool_wallet_round_trip(
            PoolWallet { total_balance: 0 },
            old(slot).data@.skip(RECORD_LEN as int),
        );
    }
    Ok(())
}

} // verus!
