//! A producer's ledger and the two operations that change it.
//!
//! The ledger keeps cumulative totals that only grow, the rate given with the latest deposit,
//! the settlement balance, and a bounded history with one entry per accepted operation. An
//! operation is checked in full before anything is written: it either applies completely or
//! leaves the ledger as it was.

use crate::error::EnergyStorageError;
use crate::reconciliation::{reconcile, representable, settle, settlement};
use anchor_lang::prelude::Pubkey;
use vstd::prelude::*;

verus! {

/// The most entries a ledger's history holds when the ledger is created by a first deposit.
pub const MAX_TRANSACTIONS: usize = 50;

/// The two kinds of ledger operation.
#[derive(Clone, Copy, Debug, PartialEq, Eq, Structural)]
pub enum TransactionType {
    Store,
    Consume,
}

/// One entry of a ledger's history.
#[derive(Clone, Copy, Debug, PartialEq, Eq, Structural)]
pub struct Transaction {
    pub tx_type: TransactionType,
    pub amount: u64,
    pub timestamp: i64,
}

/// The ledger of one producer at one facility.
#[derive(Clone, Debug, PartialEq, Eq)]
pub struct ProducerAccount {
    pub producer: Pubkey,
    /// Everything ever deposited.
    pub stored_amount: u64,
    /// Everything ever withdrawn.
    pub consumed_amount: u64,
    /// Cost per consumed unit, as given with the latest deposit.
    pub rate: u64,
    pub balance: i64,
    pub last_reconciled: i64,
    pub transactions: Vec<Transaction>,
    /// The most entries `transactions` may hold, fixed when the ledger is created.
    pub max_transactions: usize,
}

/// The mathematical value of a ledger: unbounded totals and a sequence for the history.
pub struct Ledger {
    pub producer: Pubkey,
    pub stored_amount: nat,
    pub consumed_amount: nat,
    pub rate: nat,
    pub balance: int,
    pub last_reconciled: int,
    pub transactions: Seq<Transaction>,
    pub max_transactions: nat,
}

impl View for ProducerAccount {
    type V = Ledger;

    open spec fn view(&self) -> Ledger {
        Ledger {
            producer: self.producer,
            stored_amount: self.stored_amount as nat,
            consumed_amount: self.consumed_amount as nat,
            rate: self.rate as nat,
            balance: self.balance as int,
            last_reconciled: self.last_reconciled as int,
            transactions: self.transactions@,
            max_transactions: self.max_transactions as nat,
        }
    }
}

/// The sum of the amounts of the entries of `history` that are of the given kind.
pub open spec fn total(history: Seq<Transaction>, kind: TransactionType) -> nat
    decreases history.len(),
{
    if history.len() == 0 {
        0
    } else if history.last().tx_type == kind {
        total(history.drop_last(), kind) + history.last().amount as nat
    } else {
        total(history.drop_last(), kind)
    }
}

impl Ledger {
    /// A ledger on which nothing has happened yet.
    pub open spec fn new(producer: Pubkey, max_transactions: nat) -> Ledger {
        Ledger {
            producer,
            stored_amount: 0,
            consumed_amount: 0,
            rate: 0,
            balance: 0,
            last_reconciled: 0,
            transactions: Seq::empty(),
            max_transactions,
        }
    }

    /// The balance this ledger's totals and rate give under `storage_fee`.
    pub open spec fn settlement(self, storage_fee: nat) -> int {
        settlement(self.stored_amount, storage_fee, self.consumed_amount, self.rate)
    }

    /// The recorded balance is the one the settlement formula gives.
    pub open spec fn reconciled(self, storage_fee: nat) -> bool {
        self.balance == self.settlement(storage_fee)
    }

    /// The ledger with its balance recomputed at time `now`.
    pub open spec fn reconcile(self, storage_fee: nat, now: int) -> Ledger {
        Ledger { balance: self.settlement(storage_fee), last_reconciled: now, ..self }
    }

    /// The ledger is one that deposits and withdrawals under `storage_fee` can have produced
    /// from a new ledger: the history is within its bound and accounts for both totals, no
    /// recorded withdrawal is larger than the stored total, and the balance is reconciled.
    pub open spec fn well_formed(self, storage_fee: nat) -> bool {
        &&& self.transactions.len() <= self.max_transactions
        &&& self.stored_amount == total(self.transactions, TransactionType::Store)
        &&& self.consumed_amount == total(self.transactions, TransactionType::Consume)
        &&& forall|i: int|
            0 <= i < self.transactions.len() && (#[trigger] self.transactions[i]).tx_type
                == TransactionType::Consume ==> self.transactions[i].amount <= self.stored_amount
        &&& self.reconciled(storage_fee)
    }

    /// The history has no room for another entry.
    pub open spec fn is_full(self) -> bool {
        self.transactions.len() >= self.max_transactions
    }

    /// The ledger with the totals, rate and history of a deposit applied, not yet reconciled.
    pub open spec fn with_deposit(self, amount: u64, rate: u64, now: i64) -> Ledger {
        Ledger {
            stored_amount: self.stored_amount + amount as nat,
            rate: rate as nat,
            transactions: self.transactions.push(
                Transaction { tx_type: TransactionType::Store, amount, timestamp: now },
            ),
            ..self
        }
    }

    /// The ledger with the total and history of a withdrawal applied, not yet reconciled.
    pub open spec fn with_withdrawal(self, amount: u64, now: i64) -> Ledger {
        Ledger {
            consumed_amount: self.consumed_amount + amount as nat,
            transactions: self.transactions.push(
                Transaction { tx_type: TransactionType::Consume, amount, timestamp: now },
            ),
            ..self
        }
    }

    /// Why a deposit is refused, or `None` when it is accepted.
    ///
    /// A full history comes first. After that the deposit is refused when the new stored total
    /// or the new balance would not fit its field.
    pub open spec fn store_refusal(self, amount: u64, rate: u64, storage_fee: u64) -> Option<
        EnergyStorageError,
    > {
        if self.is_full() {
            Some(EnergyStorageError::CapacityExceeded)
        } else if self.stored_amount + amount > u64::MAX || !representable(
            self.with_deposit(amount, rate, 0).settlement(storage_fee as nat),
        ) {
            Some(EnergyStorageError::Overflow)
        } else {
            None
        }
    }

    /// The ledger after an accepted deposit at time `now`.
    pub open spec fn store(self, amount: u64, rate: u64, storage_fee: u64, now: i64) -> Ledger {
        self.with_deposit(amount, rate, now).reconcile(storage_fee as nat, now as int)
    }

    /// Why a withdrawal is refused, or `None` when it is accepted.
    ///
    /// An amount above the stored total comes first, then a full history. After that the
    /// withdrawal is refused when the new consumed total or the new balance would not fit its
    /// field.
    pub open spec fn consume_refusal(self, amount: u64, storage_fee: u64) -> Option<
        EnergyStorageError,
    > {
        if amount > self.stored_amount {
            Some(EnergyStorageError::InsufficientEnergy)
        } else if self.is_full() {
            Some(EnergyStorageError::CapacityExceeded)
        } else if self.consumed_amount + amount > u64::MAX || !representable(
            self.with_withdrawal(amount, 0).settlement(storage_fee as nat),
        ) {
            Some(EnergyStorageError::Overflow)
        } else {
            None
        }
    }

    /// The ledger after an accepted withdrawal at time `now`.
    pub open spec fn consume(self, amount: u64, storage_fee: u64, now: i64) -> Ledger {
        self.with_withdrawal(amount, now).reconcile(storage_fee as nat, now as int)
    }
}

/// Appending an entry adds its amount to the total of its own kind and to no other.
pub proof fn lemma_total_push(history: Seq<Transaction>, entry: Transaction, kind: TransactionType)
    ensures
        total(history.push(entry), kind) == total(history, kind) + if entry.tx_type == kind {
            entry.amount as nat
        } else {
            0
        },
{
    assert(history.push(entry).drop_last() =~= history);
}

/// A new ledger is well formed under every storage fee.
pub proof fn lemma_new_is_well_formed(producer: Pubkey, max_transactions: nat, storage_fee: nat)
    ensures
        Ledger::new(producer, max_transactions).well_formed(storage_fee),
{
}

/// An accepted deposit keeps a well-formed ledger well formed.
pub proof fn lemma_store_keeps_well_formed(
    ledger: Ledger,
    amount: u64,
    rate: u64,
    storage_fee: u64,
    now: i64,
)
    requires
        ledger.well_formed(storage_fee as nat),
        ledger.store_refusal(amount, rate, storage_fee) is None,
    ensures
        ledger.store(amount, rate, storage_fee, now).well_formed(storage_fee as nat),
{
    let entry = Transaction { tx_type: TransactionType::Store, amount, timestamp: now };
    lemma_total_push(ledger.transactions, entry, TransactionType::Store);
    lemma_total_push(ledger.transactions, entry, TransactionType::Consume);
}

/// An accepted withdrawal keeps a well-formed ledger well formed.
pub proof fn lemma_consume_keeps_well_formed(
    ledger: Ledger,
    amount: u64,
    storage_fee: u64,
    now: i64,
)
    requires
        ledger.well_formed(storage_fee as nat),
        ledger.consume_refusal(amount, storage_fee) is None,
    ensures
        ledger.consume(amount, storage_fee, now).well_formed(storage_fee as nat),
{
    let entry = Transaction { tx_type: TransactionType::Consume, amount, timestamp: now };
    lemma_total_push(ledger.transactions, entry, TransactionType::Store);
    lemma_total_push(ledger.transactions, entry, TransactionType::Consume);
}

impl ProducerAccount {
    /// Creates the ledger of `producer` with zero totals and an empty history that may grow to
    /// `max_transactions` entries.
    pub fn new(producer: Pubkey, max_transactions: usize) -> (ledger: ProducerAccount)
        ensures
            ledger@ == Ledger::new(producer, max_transactions as nat),
            forall|storage_fee: nat| #[trigger] ledger@.well_formed(storage_fee),
    {
        ProducerAccount {
            producer,
            stored_amount: 0,
            consumed_amount: 0,
            rate: 0,
            balance: 0,
            last_reconciled: 0,
            transactions: Vec::new(),
            max_transactions,
        }
    }

    /// Deposits `amount` units and makes `rate` the ledger's rate.
    ///
    /// The new rate applies to everything consumed so far, not only to later withdrawals. On
    /// refusal the ledger is unchanged.
    pub fn store(&mut self, amount: u64, rate: u64, storage_fee: u64, now: i64) -> (result: Result<
        (),
        EnergyStorageError,
    >)
        ensures
            match old(self)@.store_refusal(amount, rate, storage_fee) {
                Some(reason) => result == Err::<(), EnergyStorageError>(reason) && *final(self)
                    == *old(self),
                None => result is Ok && final(self)@ == old(self)@.store(
                    amount,
                    rate,
                    storage_fee,
                    now,
                ),
            },
            result is Ok ==> final(self).balance == final(self).stored_amount * storage_fee
                - final(self).consumed_amount * final(self).rate,
            result is Ok && old(self)@.well_formed(storage_fee as nat)
                ==> final(self)@.well_formed(storage_fee as nat),
            final(self).stored_amount >= old(self).stored_amount,
            final(self).consumed_amount >= old(self).consumed_amount,
    {
        proof {
            if old(self)@.well_formed(storage_fee as nat) && old(self)@.store_refusal(
                amount,
                rate,
                storage_fee,
            ) is None {
                lemma_store_keeps_well_formed(old(self)@, amount, rate, storage_fee, now);
            }
        }
        if self.transactions.len() >= self.max_transactions {
            return Err(EnergyStorageError::CapacityExceeded);
        }
        let stored_amount: u64 = match self.stored_amount.checked_add(amount) {
            Some(total) => total,
            None => { return Err(EnergyStorageError::Overflow); },
        };
        if settle(stored_amount, storage_fee, self.consumed_amount, rate).is_none() {
            return Err(EnergyStorageError::Overflow);
        }
        self.stored_amount = stored_amount;
        self.rate = rate;
        self.transactions.push(
            Transaction { tx_type: TransactionType::Store, amount, timestamp: now },
        );
        reconcile(self, storage_fee, now);
        Ok(())
    }

    /// Withdraws `amount` units.
    ///
    /// The amount is held against the cumulative stored total, which withdrawals never reduce.
    /// On refusal the ledger is unchanged.
    pub fn consume(&mut self, amount: u64, storage_fee: u64, now: i64) -> (result: Result<
        (),
        EnergyStorageError,
    >)
        ensures
            match old(self)@.consume_refusal(amount, storage_fee) {
                Some(reason) => result == Err::<(), EnergyStorageError>(reason) && *final(self)
                    == *old(self),
                None => result is Ok && final(self)@ == old(self)@.consume(
                    amount,
                    storage_fee,
                    now,
                ),
            },
            amount > old(self).stored_amount ==> result == Err::<(), EnergyStorageError>(
                EnergyStorageError::InsufficientEnergy,
            ) && *final(self) == *old(self),
            result is Ok ==> final(self).balance == final(self).stored_amount * storage_fee
                - final(self).consumed_amount * final(self).rate,
            result is Ok && old(self)@.well_formed(storage_fee as nat)
                ==> final(self)@.well_formed(storage_fee as nat),
            final(self).stored_amount >= old(self).stored_amount,
            final(self).consumed_amount >= old(self).consumed_amount,
    {
        proof {
            if old(self)@.well_formed(storage_fee as nat) && old(self)@.consume_refusal(
                amount,
                storage_fee,
            ) is None {
                lemma_consume_keeps_well_formed(old(self)@, amount, storage_fee, now);
            }
        }
        if amount > self.stored_amount {
            return Err(EnergyStorageError::InsufficientEnergy);
        }
        if self.transactions.len() >= self.max_transactions {
            return Err(EnergyStorageError::CapacityExceeded);
        }
        let consumed_amount: u64 = match self.consumed_amount.checked_add(amount) {
            Some(total) => total,
            None => { return Err(EnergyStorageError::Overflow); },
        };
        if settle(self.stored_amount, storage_fee, consumed_amount, self.rate).is_none() {
            return Err(EnergyStorageError::Overflow);
        }
        self.consumed_amount = consumed_amount;
        self.transactions.push(
            Transaction { tx_type: TransactionType::Consume, amount, timestamp: now },
        );
        reconcile(self, storage_fee, now);
        Ok(())
    }
}

} // verus!
