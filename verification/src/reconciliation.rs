//! The settlement formula.
//!
//! A producer's balance is the storage charge on everything it ever stored minus the
//! consumption charge on everything it ever consumed. Both charges are products of two 64-bit
//! quantities, so the balance is computed in 128 bits and only then narrowed.

use crate::ledger::ProducerAccount;
use vstd::prelude::*;

verus! {

/// What the facility charges for `stored_amount` units at `storage_fee` per unit.
pub open spec fn storage_charge(stored_amount: nat, storage_fee: nat) -> nat {
    stored_amount * storage_fee
}

/// What `consumed_amount` units offset at `rate` per unit.
pub open spec fn consumption_charge(consumed_amount: nat, rate: nat) -> nat {
    consumed_amount * rate
}

/// The settlement balance: storage charge minus consumption charge. It may be negative.
pub open spec fn settlement(
    stored_amount: nat,
    storage_fee: nat,
    consumed_amount: nat,
    rate: nat,
) -> int {
    storage_charge(stored_amount, storage_fee) - consumption_charge(consumed_amount, rate)
}

/// Whether `balance` can be held in the ledger's signed 64-bit balance field.
pub open spec fn representable(balance: int) -> bool {
    i64::MIN <= balance <= i64::MAX
}

/// The product of two 64-bit quantities fits in 128 bits.
proof fn lemma_charge_fits(a: u64, b: u64)
    ensures
        a * b <= u128::MAX,
        a * b == storage_charge(a as nat, b as nat),
{
    assert(a * b <= 0xffff_ffff_ffff_ffff * 0xffff_ffff_ffff_ffff) by (nonlinear_arith)
        requires
            0 <= a <= 0xffff_ffff_ffff_ffff,
            0 <= b <= 0xffff_ffff_ffff_ffff,
    ;
}

/// Evaluates the settlement formula exactly.
///
/// Returns the balance when it fits the ledger's balance field and `None` when it does not.
pub fn settle(stored_amount: u64, storage_fee: u64, consumed_amount: u64, rate: u64) -> (balance:
    Option<i64>)
    ensures
        balance == if representable(
            settlement(stored_amount as nat, storage_fee as nat, consumed_amount as nat, rate as nat),
        ) {
            Some(
                settlement(
                    stored_amount as nat,
                    storage_fee as nat,
                    consumed_amount as nat,
                    rate as nat,
                ) as i64,
            )
        } else {
            None
        },
{
    proof {
        lemma_charge_fits(stored_amount, storage_fee);
        lemma_charge_fits(consumed_amount, rate);
    }
    let charged: u128 = (stored_amount as u128) * (storage_fee as u128);
    let offset: u128 = (consumed_amount as u128) * (rate as u128);
    if charged >= offset {
        let owed: u128 = charged - offset;
        if owed <= 0x7fff_ffff_ffff_ffff {
            Some(owed as i64)
        } else {
            None
        }
    } else {
        let credit: u128 = offset - charged;
        if credit <= 0x7fff_ffff_ffff_ffff {
            Some(-(credit as i64))
        } else if credit == 0x8000_0000_0000_0000 {
            Some(i64::MIN)
        } else {
            None
        }
    }
}

/// Recomputes the ledger's balance from its current totals and rate and stamps it with `now`.
///
/// Reconciliation never fails: it is the last step of an operation that was already checked, so
/// the balance is known to fit.
pub fn reconcile(producer_account: &mut ProducerAccount, storage_fee: u64, now: i64)
    requires
        representable(old(producer_account)@.settlement(storage_fee as nat)),
    ensures
        final(producer_account)@ == old(producer_account)@.reconcile(
            storage_fee as nat,
            now as int,
        ),
{
    let balance = settle(
        producer_account.stored_amount,
        storage_fee,
        producer_account.consumed_amount,
        producer_account.rate,
    );
    if let Some(balance) = balance {
        producer_account.balance = balance;
    }
    producer_account.last_reconciled = now;
}

} // verus!
