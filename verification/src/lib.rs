//! A treasury that takes token contributions from anyone, remembers who gave
//! what, and pays its whole balance out to one owner.
//!
//! The crate holds the treasury's state and every decision it takes. Its
//! surroundings hold what only a running host can do: they check
//! authorizations, move the tokens that [`contract::Transfer`] names, and keep
//! the state between invocations.

pub mod contract;
pub mod error;
pub mod host;
pub mod laws;
pub mod storage_types;

pub use contract::{BalanceQuery, Contract, ContractView, Transfer};
pub use error::ContractError;
pub use storage_types::{DataKey, Durability, Supporter};
