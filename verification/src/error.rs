//! The named conditions under which an operation is refused.

use vstd::prelude::*;

verus! {

/// Why an operation was refused. A refused operation changes nothing.
#[derive(Clone, Copy, Debug, PartialEq, Eq, Structural)]
pub enum EnergyStorageError {
    /// A withdrawal asked for more than the ledger's cumulative stored total.
    InsufficientEnergy,
    /// A facility already exists at the target identity.
    AlreadyExists,
    /// The ledger's transaction history is full.
    CapacityExceeded,
    /// A cumulative total or the settlement balance would leave its integer range.
    Overflow,
}

impl EnergyStorageError {
    /// The text shown to a user for this condition.
    pub fn message(&self) -> (text: &'static str)
        ensures
            text@ == match *self {
                EnergyStorageError::InsufficientEnergy => "Insufficient energy stored"@,
                EnergyStorageError::AlreadyExists => "Facility already exists"@,
                EnergyStorageError::CapacityExceeded => "Transaction history is full"@,
                EnergyStorageError::Overflow => "Amount out of range"@,
            },
    {
        match self {
            EnergyStorageError::InsufficientEnergy => "Insufficient energy stored",
            EnergyStorageError::AlreadyExists => "Facility already exists",
            EnergyStorageError::CapacityExceeded => "Transaction history is full",
            EnergyStorageError::Overflow => "Amount out of range",
        }
    }
}

} // verus!
