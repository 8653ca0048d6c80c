//! The conservation law.
//!
//! A ledger state is the sequence of wallet balances together with the pool
//! balance. Applying any sequence of wallet-to-pool deposits and
//! withdrawals — where an operation whose checks fail leaves the state
//! unchanged, as the transfer engine's contracts guarantee — never changes
//! the sum of all wallet balances and the pool balance. The withdrawal to
//! an untracked external store is deliberately outside this model: it is
//! the one documented leak out of the closed system.

use vstd::prelude::*;
use crate::transfer::{deposit_balances, withdraw_balances};

verus! {

/// The balances the core tracks: one per wallet record, and the pool's.
pub struct LedgerState {
    pub wallets: Seq<u64>,
    pub pool: u64,
}

/// One in-scope transfer operation, aimed at the wallet at a given index.
pub enum Op {
    Deposit { wallet: int, amount: u64 },
    Withdraw { wallet: int, amount: u64 },
}

/// The sum of a sequence of wallet balances.
pub open spec fn wallet_sum(s: Seq<u64>) -> int
    decreases s.len(),
{
    if s.len() == 0 {
        0
    } else {
        s[0] + wallet_sum(s.skip(1))
    }
}

/// The total balance the core tracks in a state.
pub open spec fn ledger_total(s: LedgerState) -> int {
    wallet_sum(s.wallets) + s.pool
}

/// The state after one operation. An operation aimed at a wallet that does
/// not exist, or whose funds or range checks fail, leaves the state
/// unchanged — the transfer engine returns the error with both slots
/// untouched. Every balance a step produces is a `u64`, so no state ever
/// holds a balance outside the unsigned 64-bit range.
pub open spec fn apply_op(s: LedgerState, op: Op) -> LedgerState {
    match op {
        Op::Deposit { wallet, amount } => {
            if 0 <= wallet < s.wallets.len() {
                match deposit_balances(s.wallets[wallet], s.pool, amount) {
                    Some(b) => LedgerState { wallets: s.wallets.update(wallet, b.0), pool: b.1 },
                    None => s,
                }
            } else {
                s
            }
        },
        Op::Withdraw { wallet, amount } => {
            if 0 <= wallet < s.wallets.len() {
                match withdraw_balances(s.wallets[wallet], s.pool, amount) {
                    Some(b) => LedgerState { wallets: s.wallets.update(wallet, b.0), pool: b.1 },
                    None => s,
                }
            } else {
                s
            }
        },
    }
}

/// The state after a sequence of operations, applied left to right.
pub open spec fn apply_ops(s: LedgerState, ops: Seq<Op>) -> LedgerState
    decreases ops.len(),
{
    if ops.len() == 0 {
        s
    } else {
        apply_ops(apply_op(s, ops[0]), ops.skip(1))
    }
}

/// Updating one wallet balance shifts the sum by the difference.
proof fn lemma_wallet_sum_update(s: Seq<u64>, i: int, v: u64)
    requires
        0 <= i < s.len(),
    ensures
        wallet_sum(s.update(i, v)) == wallet_sum(s) - s[i] + v,
    decreases s.len(),
{
    if i == 0 {
        assert(s.update(0, v).skip(1) =~= s.skip(1));
    } else {
        lemma_wallet_sum_update(s.skip(1), i - 1, v);
        assert(s.update(i, v).skip(1) =~= s.skip(1).update(i - 1, v));
    }
}

/// One deposit or withdrawal between a wallet and the pool never changes
/// the total the core tracks, whether it succeeds or fails.
pub proof fn lemma_op_preserves_total(s: LedgerState, op: Op)
    ensures
        ledger_total(apply_op(s, op)) == ledger_total(s),
{
    match op {
        Op::Deposit { wallet, amount } => {
            if 0 <= wallet < s.wallets.len() && deposit_balances(
                s.wallets[wallet],
                s.pool,
                amount,
            ) is Some {
                let b = deposit_balances(s.wallets[wallet], s.pool, amount)->0;
                lemma_wallet_sum_update(s.wallets, wallet, b.0);
            }
        },
        Op::Withdraw { wallet, amount } => {
            if 0 <= wallet < s.wallets.len() && withdraw_balances(
                s.wallets[wallet],
                s.pool,
                amount,
            ) is Some {
                let b = withdraw_balances(s.wallets[wallet], s.pool, amount)->0;
                lemma_wallet_sum_update(s.wallets, wallet, b.0);
            }
        },
    }
}

/// Conservation: across any sequence of wallet-to-pool deposits and
/// withdrawals, from any starting state, the sum of all wallet balances
/// plus the pool balance is invariant.
pub proof fn lemma_conservation(s: LedgerState, ops: Seq<Op>)
    ensures
        ledger_total(apply_ops(s, ops)) == ledger_total(s),
    decreases ops.len(),
{
    if ops.len() > 0 {
        lemma_op_preserves_total(s, ops[0]);
        lemma_conservation(apply_op(s, ops[0]), ops.skip(1));
    }
}

} // verus!
