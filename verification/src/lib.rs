//! Client-side core of a layer-2 mining protocol: the deposit/claim
//! lifecycle decisions, the claim witness chain builder, and the cooldown
//! scheduler, over plain data models of the chain-observed state.

pub mod cooldown;
pub mod digest;
pub mod error;
pub mod key;
pub mod loops;
pub mod merkle;
pub mod mode;
pub mod receipt;
pub mod transfer;
pub mod trees;
pub mod types;
pub mod witness;
