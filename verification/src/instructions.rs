//! The three operations offered to callers, each on the records it touches.
//!
//! Whoever calls these has already established who the caller is: the identities in a context
//! are signers that were verified elsewhere. A deposit is signed by the producer alone. A
//! withdrawal is signed by the producer and, in addition, by the facility's owner.

use crate::error::EnergyStorageError;
use crate::facility::BatteryBank;
use crate::identity::same_key;
use crate::ledger::{Ledger, ProducerAccount, MAX_TRANSACTIONS};
use anchor_lang::prelude::Pubkey;
use vstd::prelude::*;

verus! {

/// The records of a facility creation.
#[derive(Clone, Copy, Debug, PartialEq, Eq)]
pub struct Initialize {
    /// The record at the target identity: `None` while no facility exists there.
    pub battery_bank: Option<BatteryBank>,
    /// The signer, who becomes the facility's owner.
    pub owner: Pubkey,
}

/// The records of a deposit.
#[derive(Clone, Debug, PartialEq, Eq)]
pub struct StoreEnergy {
    pub battery_bank: BatteryBank,
    /// The producer's ledger at this facility: `None` before the producer's first deposit.
    pub producer_account: Option<ProducerAccount>,
    /// The signer.
    pub producer: Pubkey,
}

/// The records of a withdrawal.
#[derive(Clone, Debug, PartialEq, Eq)]
pub struct ConsumeEnergy {
    pub battery_bank: BatteryBank,
    pub producer_account: ProducerAccount,
    /// The signing producer.
    pub producer: Pubkey,
    /// The co-signer, who must be the facility's owner.
    pub owner: Pubkey,
}

impl StoreEnergy {
    /// The signer is the producer that the ledger, if there is one, belongs to.
    pub open spec fn authorized(&self) -> bool {
        self.producer_account matches Some(ledger) ==> ledger.producer == self.producer
    }

    /// The ledger that the deposit applies to: the producer's own, or a new one when this is the
    /// producer's first deposit.
    pub open spec fn ledger(&self) -> Ledger {
        match self.producer_account {
            Some(ledger) => ledger@,
            None => Ledger::new(self.producer, MAX_TRANSACTIONS as nat),
        }
    }

    /// Tests whether the signer may deposit into the ledger.
    pub fn is_authorized(&self) -> (yes: bool)
        ensures
            yes == self.authorized(),
    {
        match &self.producer_account {
            Some(ledger) => same_key(&ledger.producer, &self.producer),
            None => true,
        }
    }
}

impl ConsumeEnergy {
    /// The signing producer owns the ledger and the co-signer owns the facility.
    pub open spec fn authorized(&self) -> bool {
        &&& self.producer_account.producer == self.producer
        &&& self.battery_bank.owner == self.owner
    }

    /// Tests whether the two signers may withdraw from the ledger.
    pub fn is_authorized(&self) -> (yes: bool)
        ensures
            yes == self.authorized(),
    {
        same_key(&self.producer_account.producer, &self.producer) && same_key(
            &self.battery_bank.owner,
            &self.owner,
        )
    }
}

/// Creates the facility with the signer as owner and `storage_fee` as its fee.
///
/// A facility is created once: where one exists already the call is refused with
/// `AlreadyExists` and the existing record stays.
pub fn initialize(ctx: &mut Initialize, storage_fee: u64) -> (result: Result<
    (),
    EnergyStorageError,
>)
    ensures
        match old(ctx).battery_bank {
            Some(_) => result == Err::<(), EnergyStorageError>(EnergyStorageError::AlreadyExists)
                && *final(ctx) == *old(ctx),
            None => result is Ok && *final(ctx) == (Initialize {
                battery_bank: Some(BatteryBank { owner: old(ctx).owner, storage_fee }),
                owner: old(ctx).owner,
            }),
        },
{
    if ctx.battery_bank.is_some() {
        return Err(EnergyStorageError::AlreadyExists);
    }
    ctx.battery_bank = Some(BatteryBank { owner: ctx.owner, storage_fee });
    Ok(())
}

/// Deposits `amount` units for the signing producer and records `rate` as its rate.
///
/// A producer's first deposit creates its ledger, with zero totals and room for
/// `MAX_TRANSACTIONS` entries. If that deposit is refused, no ledger is created.
pub fn store_energy(ctx: &mut StoreEnergy, amount: u64, rate: u64, now: i64) -> (result: Result<
    (),
    EnergyStorageError,
>)
    requires
        old(ctx).authorized(),
    ensures
        final(ctx).battery_bank == old(ctx).battery_bank,
        final(ctx).producer == old(ctx).producer,
        final(ctx).authorized(),
        result is Ok ==> final(ctx).ledger().reconciled(old(ctx).battery_bank.storage_fee as nat),
        match old(ctx).ledger().store_refusal(amount, rate, old(ctx).battery_bank.storage_fee) {
            Some(reason) => result == Err::<(), EnergyStorageError>(reason) && *final(ctx)
                == *old(ctx),
            None => {
                &&& result is Ok
                &&& final(ctx).producer_account is Some
                &&& final(ctx).producer_account.unwrap()@ == old(ctx).ledger().store(
                    amount,
                    rate,
                    old(ctx).battery_bank.storage_fee,
                    now,
                )
            },
        },
{
    let storage_fee = ctx.battery_bank.storage_fee;
    match &mut ctx.producer_account {
        Some(ledger) => ledger.store(amount, rate, storage_fee, now),
        None => {
            let mut ledger = ProducerAccount::new(ctx.producer, MAX_TRANSACTIONS);
            let result = ledger.store(amount, rate, storage_fee, now);
            if result.is_ok() {
                ctx.producer_account = Some(ledger);
            }
            result
        },
    }
}

/// Withdraws `amount` units from the producer's ledger.
pub fn consume_energy(ctx: &mut ConsumeEnergy, amount: u64, now: i64) -> (result: Result<
    (),
    EnergyStorageError,
>)
    requires
        old(ctx).authorized(),
    ensures
        final(ctx).battery_bank == old(ctx).battery_bank,
        final(ctx).producer == old(ctx).producer,
        final(ctx).owner == old(ctx).owner,
        final(ctx).authorized(),
        amount > old(ctx).producer_account.stored_amount ==> result == Err::<
            (),
            EnergyStorageError,
        >(EnergyStorageError::InsufficientEnergy) && *final(ctx) == *old(ctx),
        result is Ok ==> final(ctx).producer_account@.reconciled(
            old(ctx).battery_bank.storage_fee as nat,
        ),
        match old(ctx).producer_account@.consume_refusal(
            amount,
            old(ctx).battery_bank.storage_fee,
        ) {
            Some(reason) => result == Err::<(), EnergyStorageError>(reason) && *final(ctx)
                == *old(ctx),
            None => {
                &&& result is Ok
                &&& final(ctx).producer_account@ == old(ctx).producer_account@.consume(
                    amount,
                    old(ctx).battery_bank.storage_fee,
                    now,
                )
            },
        },
{
    let storage_fee = ctx.battery_bank.storage_fee;
    ctx.producer_account.consume(amount, storage_fee, now)
}

} // verus!
