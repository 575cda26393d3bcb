//! Capability-gated variant resolution: one logical query field served through
//! several mutually exclusive concrete shapes ("variants"), where the shape a
//! caller sees is chosen per request from negotiated capability metadata.
//!
//! The crate keeps three things provably consistent for a single request:
//! what the schema declares as possible shapes, what introspection reports as
//! visible to this caller, and what value resolution actually produces.

pub mod context;
pub mod field;
pub mod laws;
pub mod profile;
pub mod registry;
