//! The transfer engine.
//!
//! Conservation-preserving balance moves between a wallet record and the
//! pool record, plus the withdrawal shape that pays out to a balance store
//! the core does not track. Every operation validates ownership, decodes
//! both records, checks funds and overflow, and checks both destination
//! capacities before performing either write, so a failure anywhere leaves
//! every slot byte-for-byte unchanged.

use vstd::prelude::*;
use crate::address::Address;
use crate::codec::{u64_from_le, u64_le_bytes, encode_u64, UserWallet, PoolWallet, RECORD_LEN};
use crate::error::LedgerError;
use crate::slot::{Slot, write_prefix};

verus! {

/// The balances after moving `amount` from the pool into a wallet, or
/// nothing when the pool lacks the funds or the wallet balance would leave
/// the unsigned 64-bit range.
pub open spec fn deposit_balances(w: u64, p: u64, amount: u64) -> Option<(u64, u64)> {
    if p < amount {
        None
    } else if w + amount > u64::MAX {
        None
    } else {
        Some(((w + amount) as u64, (p - amount) as u64))
    }
}

/// The balances after moving `amount` from a wallet back into the pool;
/// symmetric to `deposit_balances`.
pub open spec fn withdraw_balances(w: u64, p: u64, amount: u64) -> Option<(u64, u64)> {
    if w < amount {
        None
    } else if p + amount > u64::MAX {
        None
    } else {
        Some(((w - amount) as u64, (p + amount) as u64))
    }
}

/// What a deposit of `amount` into `wallet` out of `pool` yields: the two
/// new balances, or the error, in the order the checks run.
pub open spec fn deposit_outcome(
    wallet: Slot,
    pool: Slot,
    authority: Seq<u8>,
    amount: u64,
) -> Result<(u64, u64), LedgerError> {
    if !wallet.owned_by(authority) || !pool.owned_by(authority) {
        Err(LedgerError::UnauthorizedOwner)
    } else if wallet.data@.len() < RECORD_LEN || pool.data@.len() < RECORD_LEN {
        Err(LedgerError::MalformedRecord)
    } else {
        let w = u64_from_le(wallet.data@);
        let p = u64_from_le(pool.data@);
        if p < amount {
            Err(LedgerError::InsufficientFunds)
        } else if w + amount > u64::MAX {
            Err(LedgerError::BalanceOverflow)
        } else {
            Ok(((w + amount) as u64, (p - amount) as u64))
        }
    }
}

/// What a withdrawal of `amount` from `wallet` back into `pool` yields.
pub open spec fn withdraw_outcome(
    wallet: Slot,
    pool: Slot,
    authority: Seq<u8>,
    amount: u64,
) -> Result<(u64, u64), LedgerError> {
    if !wallet.owned_by(authority) || !pool.owned_by(authority) {
        Err(LedgerError::UnauthorizedOwner)
    } else if wallet.data@.len() < RECORD_LEN || pool.data@.len() < RECORD_LEN {
        Err(LedgerError::MalformedRecord)
    } else {
        let w = u64_from_le(wallet.data@);
        let p = u64_from_le(pool.data@);
        if w < amount {
            Err(LedgerError::InsufficientFunds)
        } else if p + amount > u64::MAX {
            Err(LedgerError::BalanceOverflow)
        } else {
            Ok(((w - amount) as u64, (p + amount) as u64))
        }
    }
}

/// Move `amount` from the pool record into a wallet record.
///
/// Both slots must be owned by the managing authority and decode to a
/// record; the pool must cover the amount and the wallet balance must stay
/// in range. On success both record prefixes are rewritten and the padding
/// and owners are untouched; the sum of the two balances is unchanged. On
/// any failure both slots are byte-for-byte unchanged.
pub fn deposit(authority: &Address, wallet: &mut Slot, pool: &mut Slot, amount: u64) -> (r: Result<
    (),
    LedgerError,
>)
    ensures
        r is Ok <==> deposit_outcome(*old(wallet), *old(pool), authority@, amount) is Ok,
        r is Err ==> r->Err_0 == deposit_outcome(
            *old(wallet),
            *old(pool),
            authority@,
            amount,
        )->Err_0,
        r is Err ==> *final(wallet) == *old(wallet) && *final(pool) == *old(pool),
        r is Ok ==> ({
            let (w2, p2) = deposit_outcome(*old(wallet), *old(pool), authority@, amount)->Ok_0;
            &&& final(wallet).owner == old(wallet).owner
            &&& final(pool).owner == old(pool).owner
            &&& final(wallet).data@ == u64_le_bytes(w2) + old(wallet).data@.skip(RECORD_LEN as int)
            &&& final(pool).data@ == u64_le_bytes(p2) + old(pool).data@.skip(RECORD_LEN as int)
            &&& w2 == u64_from_le(old(wallet).data@) + amount
            &&& p2 == u64_from_le(old(pool).data@) - amount
        }),
        r is Ok ==> u64_from_le(final(wallet).data@) + u64_from_le(final(pool).data@)
            == u64_from_le(old(wallet).data@) + u64_from_le(old(pool).data@),
{
    if !wallet.owner.same_as(authority) {
        return Err(LedgerError::UnauthorizedOwner);
    }
    if !pool.owner.same_as(authority) {
        return Err(LedgerError::UnauthorizedOwner);
    }
    let wallet_record = match UserWallet::decode(&wallet.data) {
        Some(rec) => rec,
        None => { return Err(LedgerError::MalformedRecord) },
    };
    let pool_record = match PoolWallet::decode(&pool.data) {
        Some(rec) => rec,
        None => { return Err(LedgerError::MalformedRecord) },
    };
    if pool_record.total_balance < amount {
        return Err(LedgerError::InsufficientFunds);
    }
    if amount > u64::MAX - wallet_record.balance {
        return Err(LedgerError::BalanceOverflow);
    }
    let new_wallet = UserWallet { balance: wallet_record.balance + amount };
    let new_pool = PoolWallet { total_balance: pool_record.total_balance - amount };
    let wallet_bytes = new_wallet.encode();
    let pool_bytes = new_pool.encode();
    // Both capacity checks come before either write, so a failure here could
    // never leave a half-applied pair; decoding already guarantees capacity.
    if wallet.data.len() < wallet_bytes.len() || pool.data.len() < pool_bytes.len() {
        return Err(LedgerError::SlotTooSmall);
    }
    write_prefix(&mut wallet.data, &wallet_bytes);
    write_prefix(&mut pool.data, &pool_bytes);
    proof {
        crate::codec::lemma_u64_le_round_trip(new_wallet.balance);
        crate::codec::lemma_u64_le_round_trip(new_pool.total_balance);
        lemma_prefix_value(new_wallet.balance, old(wallet).data@.skip(RECORD_LEN as int));
        lemma_prefix_value(new_pool.total_balance, old(pool).data@.skip(RECORD_LEN as int));
    }
    Ok(())
}

/// Move `amount` from a wallet record back into the pool record; the
/// mirror image of `deposit`, with the funds check against the wallet.
pub fn withdraw(authority: &Address, wallet: &mut Slot, pool: &mut Slot, amount: u64) -> (r:
    Result<(), LedgerError>)
    ensures
        r is Ok <==> withdraw_outcome(*old(wallet), *old(pool), authority@, amount) is Ok,
        r is Err ==> r->Err_0 == withdraw_outcome(
            *old(wallet),
            *old(pool),
            authority@,
            amount,
        )->Err_0,
        r is Err ==> *final(wallet) == *old(wallet) && *final(pool) == *old(pool),
        r is Ok ==> ({
            let (w2, p2) = withdraw_outcome(*old(wallet), *old(pool), authority@, amount)->Ok_0;
            &&& final(wallet).owner == old(wallet).owner
            &&& final(pool).owner == old(pool).owner
            &&& final(wallet).data@ == u64_le_bytes(w2) + old(wallet).data@.skip(RECORD_LEN as int)
            &&& final(pool).data@ == u64_le_bytes(p2) + old(pool).data@.skip(RECORD_LEN as int)
            &&& w2 == u64_from_le(old(wallet).data@) - amount
            &&& p2 == u64_from_le(old(pool).data@) + amount
        }),
        r is Ok ==> u64_from_le(final(wallet).data@) + u64_from_le(final(pool).data@)
            == u64_from_le(old(wallet).data@) + u64_from_le(old(pool).data@),
{
    if !wallet.owner.same_as(authority) {
        return Err(LedgerError::UnauthorizedOwner);
    }
    if !pool.owner.same_as(authority) {
        return Err(LedgerError::UnauthorizedOwner);
    }
    let wallet_record = match UserWallet::decode(&wallet.data) {
        Some(rec) => rec,
        None => { return Err(LedgerError::MalformedRecord) },
    };
    let pool_record = match PoolWallet::decode(&pool.data) {
        Some(rec) => rec,
        None => { return Err(LedgerError::MalformedRecord) },
    };
    if wallet_record.balance < amount {
        return Err(LedgerError::InsufficientFunds);
    }
    if amount > u64::MAX - pool_record.total_balance {
        return Err(LedgerError::BalanceOverflow);
    }
    let new_wallet = UserWallet { balance: wallet_record.balance - amount };
    let new_pool = PoolWallet { total_balance: pool_record.total_balance + amount };
    let wallet_bytes = new_wallet.encode();
    let pool_bytes = new_pool.encode();
    if wallet.data.len() < wallet_bytes.len() || pool.data.len() < pool_bytes.len() {
        return Err(LedgerError::SlotTooSmall);
    }
    write_prefix(&mut wallet.data, &wallet_bytes);
    write_prefix(&mut pool.data, &pool_bytes);
    proof {
        crate::codec::lemma_u64_le_round_trip(new_wallet.balance);
        crate::codec::lemma_u64_le_round_trip(new_pool.total_balance);
        lemma_prefix_value(new_wallet.balance, old(wallet).data@.skip(RECORD_LEN as int));
        lemma_prefix_value(new_pool.total_balance, old(pool).data@.skip(RECORD_LEN as int));
    }
    Ok(())
}

/// What a withdrawal of `amount` from `wallet` to an untracked external
/// balance store yields: the new wallet balance, or the error.
pub open spec fn external_withdraw_outcome(
    wallet: Slot,
    authority: Seq<u8>,
    amount: u64,
) -> Result<u64, LedgerError> {
    if !wallet.owned_by(authority) {
        Err(LedgerError::UnauthorizedOwner)
    } else if wallet.data@.len() < RECORD_LEN {
        Err(LedgerError::MalformedRecord)
    } else if u64_from_le(wallet.data@) < amount {
        Err(LedgerError::InsufficientFunds)
    } else {
        Ok((u64_from_le(wallet.data@) - amount) as u64)
    }
}

/// Move `amount` out of a wallet record to a balance store the core does
/// not track. The debited amount leaves the closed wallet-plus-pool system:
/// this is the one operation that does not preserve the tracked total, and
/// the caller is responsible for crediting the external store with the
/// returned amount.
pub fn withdraw_to_external(authority: &Address, wallet: &mut Slot, amount: u64) -> (r: Result<
    u64,
    LedgerError,
>)
    ensures
        r is Ok <==> external_withdraw_outcome(*old(wallet), authority@, amount) is Ok,
        r is Err ==> r->Err_0 == external_withdraw_outcome(*old(wallet), authority@, amount)->Err_0,
        r is Err ==> *final(wallet) == *old(wallet),
        r is Ok ==> ({
            let w2 = external_withdraw_outcome(*old(wallet), authority@, amount)->Ok_0;
            &&& r->Ok_0 == amount
            &&& final(wallet).owner == old(wallet).owner
            &&& final(wallet).data@ == u64_le_bytes(w2) + old(wallet).data@.skip(RECORD_LEN as int)
            &&& w2 + amount == u64_from_le(old(wallet).data@)
        }),
{
    if !wallet.owner.same_as(authority) {
        return Err(LedgerError::UnauthorizedOwner);
    }
    let wallet_record = match UserWallet::decode(&wallet.data) {
        Some(rec) => rec,
        None => { return Err(LedgerError::MalformedRecord) },
    };
    if wallet_record.balance < amount {
        return Err(LedgerError::InsufficientFunds);
    }
    let new_wallet = UserWallet { balance: wallet_record.balance - amount };
    let wallet_bytes = new_wallet.encode();
    if wallet.data.len() < wallet_bytes.len() {
        return Err(LedgerError::SlotTooSmall);
    }
    write_prefix(&mut wallet.data, &wallet_bytes);
    Ok(amount)
}

/// On authorized slots that decode, a deposit's outcome is exactly the
/// balance-level move: it succeeds iff `deposit_balances` is defined on the
/// two decoded balances, and then yields that pair.
pub proof fn lemma_deposit_outcome_is_balances(
    wallet: Slot,
    pool: Slot,
    authority: Seq<u8>,
    amount: u64,
)
    requires
        wallet.owned_by(authority),
        pool.owned_by(authority),
        wallet.data@.len() >= RECORD_LEN,
        pool.data@.len() >= RECORD_LEN,
    ensures
        deposit_outcome(wallet, pool, authority, amount) is Ok <==> deposit_balances(
            u64_from_le(wallet.data@),
            u64_from_le(pool.data@),
            amount,
        ) is Some,
        deposit_outcome(wallet, pool, authority, amount) is Ok ==> deposit_outcome(
            wallet,
            pool,
            authority,
            amount,
        )->Ok_0 == deposit_balances(u64_from_le(wallet.data@), u64_from_le(pool.data@), amount)->0,
{
}

/// The withdrawal counterpart of `lemma_deposit_outcome_is_balances`.
pub proof fn lemma_withdraw_outcome_is_balances(
    wallet: Slot,
    pool: Slot,
    authority: Seq<u8>,
    amount: u64,
)
    requires
        wallet.owned_by(authority),
        pool.owned_by(authority),
        wallet.data@.len() >= RECORD_LEN,
        pool.data@.len() >= RECORD_LEN,
    ensures
        withdraw_outcome(wallet, pool, authority, amount) is Ok <==> withdraw_balances(
            u64_from_le(wallet.data@),
            u64_from_le(pool.data@),
            amount,
        ) is Some,
        withdraw_outcome(wallet, pool, authority, amount) is Ok ==> withdraw_outcome(
            wallet,
            pool,
            authority,
            amount,
        )->Ok_0 == withdraw_balances(u64_from_le(wallet.data@), u64_from_le(pool.data@), amount)->0,
{
}

/// The value read back from a buffer that starts with the encoding of `x`
/// is `x` again, whatever padding follows.
proof fn lemma_prefix_value(x: u64, pad: Seq<u8>)
    ensures
        u64_from_le(u64_le_bytes(x) + pad) == x,
{
    crate::codec::lemma_u64_le_round_trip(x);
    let full = u64_le_bytes(x) + pad;
    assert(forall|i: int| 0 <= i < 8 ==> full[i] == u64_le_bytes(x)[i]);
    assert(u64_from_le(full) == u64_from_le(u64_le_bytes(x)));
}

} // verus!
