//! What holds of a ledger over any run of operations.
//!
//! A run is a sequence of deposits and withdrawals applied one after another to one ledger
//! under one storage fee. The lemmas here speak of the ledger values that `store` and `consume`
//! are specified by, so they hold of every execution of those functions.

use crate::error::EnergyStorageError;
use crate::ledger::{
    lemma_consume_keeps_well_formed, lemma_store_keeps_well_formed, Ledger, Transaction,
    TransactionType,
};
use anchor_lang::prelude::Pubkey;
use vstd::prelude::*;

verus! {

/// A deposit or a withdrawal together with its arguments.
pub enum Operation {
    Store { amount: u64, rate: u64, now: i64 },
    Consume { amount: u64, now: i64 },
}

impl Operation {
    /// The history entry that the operation leaves when it is accepted.
    pub open spec fn entry(self) -> Transaction {
        match self {
            Operation::Store { amount, rate, now } => Transaction {
                tx_type: TransactionType::Store,
                amount,
                timestamp: now,
            },
            Operation::Consume { amount, now } => Transaction {
                tx_type: TransactionType::Consume,
                amount,
                timestamp: now,
            },
        }
    }
}

/// The history entries of `ops`, in order.
pub open spec fn entries(ops: Seq<Operation>) -> Seq<Transaction> {
    Seq::new(ops.len(), |i: int| ops[i].entry())
}

impl Ledger {
    /// Why `op` is refused on this ledger, or `None` when it is accepted.
    pub open spec fn refusal(self, op: Operation, storage_fee: u64) -> Option<EnergyStorageError> {
        match op {
            Operation::Store { amount, rate, now } => self.store_refusal(amount, rate, storage_fee),
            Operation::Consume { amount, now } => self.consume_refusal(amount, storage_fee),
        }
    }

    /// The ledger after `op`: updated when `op` is accepted, as it was when `op` is refused.
    pub open spec fn apply(self, op: Operation, storage_fee: u64) -> Ledger {
        if self.refusal(op, storage_fee) is Some {
            self
        } else {
            match op {
                Operation::Store { amount, rate, now } => self.store(amount, rate, storage_fee, now),
                Operation::Consume { amount, now } => self.consume(amount, storage_fee, now),
            }
        }
    }

    /// The ledger after every operation of `ops` in turn.
    pub open spec fn run(self, ops: Seq<Operation>, storage_fee: u64) -> Ledger
        decreases ops.len(),
    {
        if ops.len() == 0 {
            self
        } else {
            self.run(ops.drop_last(), storage_fee).apply(ops.last(), storage_fee)
        }
    }

    /// Every operation of `ops` is accepted when its turn comes.
    pub open spec fn accepts(self, ops: Seq<Operation>, storage_fee: u64) -> bool
        decreases ops.len(),
    {
        ops.len() > 0 ==> {
            &&& self.accepts(ops.drop_last(), storage_fee)
            &&& self.run(ops.drop_last(), storage_fee).refusal(ops.last(), storage_fee) is None
        }
    }
}

/// An operation never lowers a cumulative total, whether it is accepted or refused.
pub proof fn lemma_step_never_lowers_totals(ledger: Ledger, op: Operation, storage_fee: u64)
    ensures
        ledger.apply(op, storage_fee).stored_amount >= ledger.stored_amount,
        ledger.apply(op, storage_fee).consumed_amount >= ledger.consumed_amount,
{
}

/// Over a run, `stored_amount` and `consumed_amount` never decrease: the totals after any
/// number of operations are at most the totals after any greater number.
pub proof fn lemma_totals_never_decrease(
    ledger: Ledger,
    ops: Seq<Operation>,
    storage_fee: u64,
    earlier: int,
    later: int,
)
    requires
        0 <= earlier <= later <= ops.len(),
    ensures
        ledger.run(ops.take(earlier), storage_fee).stored_amount <= ledger.run(
            ops.take(later),
            storage_fee,
        ).stored_amount,
        ledger.run(ops.take(earlier), storage_fee).consumed_amount <= ledger.run(
            ops.take(later),
            storage_fee,
        ).consumed_amount,
    decreases later - earlier,
{
    if earlier < later {
        lemma_totals_never_decrease(ledger, ops, storage_fee, earlier, later - 1);
        assert(ops.take(later).drop_last() =~= ops.take(later - 1));
        lemma_step_never_lowers_totals(
            ledger.run(ops.take(later - 1), storage_fee),
            ops.take(later).last(),
            storage_fee,
        );
    }
}

/// After an accepted operation the balance is exactly the storage charge minus the consumption
/// charge, taken over the ledger's new totals and rate.
pub proof fn lemma_accepted_step_reconciles(ledger: Ledger, op: Operation, storage_fee: u64)
    requires
        ledger.refusal(op, storage_fee) is None,
    ensures
        ledger.apply(op, storage_fee).reconciled(storage_fee as nat),
        ledger.apply(op, storage_fee).balance == ledger.apply(op, storage_fee).stored_amount
            * storage_fee - ledger.apply(op, storage_fee).consumed_amount * ledger.apply(
            op,
            storage_fee,
        ).rate,
{
}

/// A ledger that was reconciled before a run is reconciled after it, and so is any ledger after
/// a run of at least one accepted operation.
pub proof fn lemma_run_reconciles(ledger: Ledger, ops: Seq<Operation>, storage_fee: u64)
    requires
        ledger.accepts(ops, storage_fee),
        ops.len() > 0 || ledger.reconciled(storage_fee as nat),
    ensures
        ledger.run(ops, storage_fee).reconciled(storage_fee as nat),
{
    if ops.len() > 0 {
        lemma_accepted_step_reconciles(
            ledger.run(ops.drop_last(), storage_fee),
            ops.last(),
            storage_fee,
        );
    }
}

/// A run keeps a well-formed ledger well formed: after it the history still accounts for both
/// totals, stays within its bound, holds no withdrawal above the stored total, and the balance
/// is reconciled.
pub proof fn lemma_run_keeps_well_formed(ledger: Ledger, ops: Seq<Operation>, storage_fee: u64)
    requires
        ledger.well_formed(storage_fee as nat),
    ensures
        ledger.run(ops, storage_fee).well_formed(storage_fee as nat),
    decreases ops.len(),
{
    if ops.len() > 0 {
        lemma_run_keeps_well_formed(ledger, ops.drop_last(), storage_fee);
        let before = ledger.run(ops.drop_last(), storage_fee);
        if before.refusal(ops.last(), storage_fee) is None {
            match ops.last() {
                Operation::Store { amount, rate, now } => {
                    lemma_store_keeps_well_formed(before, amount, rate, storage_fee, now);
                },
                Operation::Consume { amount, now } => {
                    lemma_consume_keeps_well_formed(before, amount, storage_fee, now);
                },
            }
        }
    }
}

/// A withdrawal of more than the stored total is refused with `InsufficientEnergy`, whatever
/// else holds of the ledger, and the ledger stays as it was.
pub proof fn lemma_withdrawal_guard(ledger: Ledger, amount: u64, now: i64, storage_fee: u64)
    requires
        amount > ledger.stored_amount,
    ensures
        ledger.consume_refusal(amount, storage_fee) == Some(
            EnergyStorageError::InsufficientEnergy,
        ),
        ledger.apply(Operation::Consume { amount, now }, storage_fee) == ledger,
{
}

/// After an accepted run the history is the history from before the run followed by one entry
/// per operation, in call order, each with the kind, amount and time of its call.
pub proof fn lemma_history_records_run(ledger: Ledger, ops: Seq<Operation>, storage_fee: u64)
    requires
        ledger.accepts(ops, storage_fee),
    ensures
        ledger.run(ops, storage_fee).transactions == ledger.transactions + entries(ops),
        ledger.run(ops, storage_fee).max_transactions == ledger.max_transactions,
        ledger.run(ops, storage_fee).producer == ledger.producer,
    decreases ops.len(),
{
    if ops.len() == 0 {
        assert(ledger.transactions + entries(ops) =~= ledger.transactions);
    } else {
        lemma_history_records_run(ledger, ops.drop_last(), storage_fee);
        assert(ledger.transactions + entries(ops) =~= (ledger.transactions + entries(
            ops.drop_last(),
        )).push(ops.last().entry()));
    }
}

/// After `n` accepted operations a new ledger's history has exactly `n` entries, and the entry
/// at each position is the one of the call at that position.
pub proof fn lemma_new_ledger_history(
    producer: Pubkey,
    max_transactions: nat,
    ops: Seq<Operation>,
    storage_fee: u64,
)
    requires
        Ledger::new(producer, max_transactions).accepts(ops, storage_fee),
    ensures
        Ledger::new(producer, max_transactions).run(ops, storage_fee).transactions.len()
            == ops.len(),
        forall|i: int|
            0 <= i < ops.len() ==> #[trigger] Ledger::new(producer, max_transactions).run(
                ops,
                storage_fee,
            ).transactions[i] == ops[i].entry(),
{
    let ledger = Ledger::new(producer, max_transactions);
    lemma_history_records_run(ledger, ops, storage_fee);
    assert(ledger.transactions + entries(ops) =~= entries(ops));
}

/// Reconciling twice in a row gives the balance that reconciling once gives. Only the time of
/// the last reconciliation moves.
pub proof fn lemma_reconcile_is_idempotent(
    ledger: Ledger,
    storage_fee: nat,
    first: int,
    second: int,
)
    ensures
        ledger.reconcile(storage_fee, first).reconcile(storage_fee, second).balance
            == ledger.reconcile(storage_fee, first).balance,
        ledger.reconcile(storage_fee, first).reconcile(storage_fee, second) == (Ledger {
            last_reconciled: second,
            ..ledger.reconcile(storage_fee, first)
        }),
{
}

/// On a ledger created for `max_transactions` entries, once that many operations have been
/// accepted the next one is refused with `CapacityExceeded` and leaves the ledger as it was.
///
/// A withdrawal of more than the stored total is left out: it is refused with
/// `InsufficientEnergy`, which is tested before the history's room.
pub proof fn lemma_capacity_boundary(
    producer: Pubkey,
    max_transactions: nat,
    ops: Seq<Operation>,
    next: Operation,
    storage_fee: u64,
)
    requires
        Ledger::new(producer, max_transactions).accepts(ops, storage_fee),
        ops.len() == max_transactions,
        next matches Operation::Consume { amount, .. } ==> amount <= Ledger::new(
            producer,
            max_transactions,
        ).run(ops, storage_fee).stored_amount,
    ensures
        Ledger::new(producer, max_transactions).run(ops, storage_fee).refusal(next, storage_fee)
            == Some(EnergyStorageError::CapacityExceeded),
        Ledger::new(producer, max_transactions).run(ops, storage_fee).apply(next, storage_fee)
            == Ledger::new(producer, max_transactions).run(ops, storage_fee),
{
    let ledger = Ledger::new(producer, max_transactions);
    lemma_history_records_run(ledger, ops, storage_fee);
    assert(ledger.transactions + entries(ops) =~= entries(ops));
}

} // verus!
