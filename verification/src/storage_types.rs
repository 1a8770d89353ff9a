//! What the treasury keeps between invocations, and under which keys.

use vstd::prelude::*;

verus! {

/// The keys of the treasury's persisted slots. There are no others.
#[derive(Clone, Copy, Debug, PartialEq, Eq, Structural)]
pub enum DataKey {
    /// The address that may withdraw.
    Owner,
    /// The token contract that contributions are paid in.
    TokenAddress,
    /// The ledger of contributions.
    Supporters,
}

/// The storage class of a slot. The classes differ in what the host charges
/// and when it lets an entry expire, not in how a slot is read or written.
#[derive(Clone, Copy, Debug, PartialEq, Eq, Structural)]
pub enum Durability {
    /// Kept with the contract instance itself.
    Instance,
    /// Kept as an entry of its own.
    Persistent,
}

impl DataKey {
    /// The storage class of the slot under this key.
    pub open spec fn spec_durability(self) -> Durability {
        match self {
            DataKey::Owner => Durability::Instance,
            DataKey::TokenAddress => Durability::Persistent,
            DataKey::Supporters => Durability::Persistent,
        }
    }

    /// The storage class of the slot under this key.
    pub fn durability(&self) -> (class: Durability)
        ensures
            class == self.spec_durability(),
    {
        match self {
            DataKey::Owner => Durability::Instance,
            DataKey::TokenAddress => Durability::Persistent,
            DataKey::Supporters => Durability::Persistent,
        }
    }
}

/// One recorded contribution.
#[derive(Clone, Debug, PartialEq, Eq)]
pub struct Supporter {
    /// Who contributed.
    pub address: soroban_sdk::Address,
    /// How much, in the token's smallest unit.
    pub amount: i128,
}

} // verus!
