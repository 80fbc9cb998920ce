//! Address bundles for forwarder actors: one distinct routing address for
//! each role that a forwarder plays, with human-readable labels that carry
//! the forwarder's kind and the role.

pub mod label;
pub mod address;
pub mod bundle;
