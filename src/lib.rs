//! Type-safe, zero-copy views over link-layer network frames.

pub mod physical;
pub mod payload;
pub mod address;
pub mod ethernet;
pub mod vlan;
pub mod fmt;
