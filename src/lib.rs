//! Commitment-transaction construction, fee and dust accounting, and
//! signer policy enforcement for a two-party payment channel.

pub mod chan_utils;
pub mod tx_builder;
pub mod commitment;
pub mod signer;
pub mod witness_builder;
pub mod claims_sweeper;
