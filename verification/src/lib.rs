//! Settlement accounting for a shared energy-storage facility.
//!
//! Producers deposit and withdraw units of energy against a battery bank. Each producer has a
//! ledger with cumulative totals, a bounded append-only history and a settlement balance that is
//! recomputed after every accepted operation.

pub mod error;
pub mod facility;
pub mod identity;
pub mod instructions;
pub mod ledger;
pub mod reconciliation;
pub mod runs;

pub use crate::error::EnergyStorageError;
pub use crate::facility::BatteryBank;
pub use crate::instructions::{
    consume_energy, initialize, store_energy, ConsumeEnergy, Initialize, StoreEnergy,
};
pub use crate::ledger::{ProducerAccount, Transaction, TransactionType, MAX_TRANSACTIONS};
pub use crate::reconciliation::{reconcile, settle};
