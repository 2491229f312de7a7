//! Proving that an agent's token balances match a fixed target allocation.
//!
//! The crate holds the parts of the system that decide anything: the
//! normalisation of raw balances, the allocation check and its public
//! commitment, the commitment's byte layout, the choice of proving backend,
//! and the per-request pipeline that ties them together. Network access,
//! proving and persistence are left to the caller, which hands their results
//! in as plain values.

pub mod address;
pub mod allocation;
pub mod asset;
pub mod balance;
pub mod commitment;
pub mod endian;
pub mod fixture;
pub mod hexfmt;
pub mod pipeline;
pub mod variant;
