//! What holds of the ledger whatever is done to it.
//!
//! Each law is a proof about the outcome functions of
//! [`crate::operations`] and the runs of [`crate::ledger`].

pub mod accumulator;
pub mod arithmetic;
pub mod conservation;
pub mod coverage;
pub mod fairness;
pub mod positions;
pub mod withdrawal;
