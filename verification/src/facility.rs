//! The facility record.

use anchor_lang::prelude::Pubkey;
use vstd::prelude::*;

verus! {

/// The storage facility that producers deposit into.
///
/// The record is written once, when the facility is created. No operation changes it afterwards.
#[derive(Clone, Copy, Debug, PartialEq, Eq)]
pub struct BatteryBank {
    /// The identity that created the facility and co-signs withdrawals.
    pub owner: Pubkey,
    /// The charge per stored unit at each reconciliation.
    pub storage_fee: u64,
}

} // verus!
