//! Resource and placement-constraint model for a distributed block-storage
//! volume abstraction: the volume data model, its label/topology constraint
//! evaluator, the publish/share lifecycle state machine, and the mapping to
//! the external REST wire schema.
use vstd::prelude::*;

pub mod lifecycle;
pub mod model;
pub mod requests;
pub mod topology;
pub mod wire;

verus! {

/// Structured error kinds surfaced by validation and lifecycle transitions.
#[derive(Clone, Copy, Debug, PartialEq, Eq, Structural)]
pub enum VolumeError {
    /// A supplied id string is not a valid UUID.
    InvalidIdentifier,
    /// A placement topology is ill-formed (both labelled and explicit set, or
    /// preferred nodes not a subset of allowed nodes).
    InvalidTopology,
    /// A lifecycle operation was attempted from an incompatible state.
    IllegalTransition,
    /// A plain argument (size, replica count) is outside its valid range.
    InvalidArgument,
}

} // verus!
