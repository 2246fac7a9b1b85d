//! Per-operation option records used by the key-value pipeline.

use vstd::prelude::*;

verus! {

/// Conditions for a compare-and-swap or compare-and-delete.
///
/// A value with both fields absent is invalid: the pipeline rejects it before
/// any endpoint is contacted.
#[derive(Clone, Debug, PartialEq, Eq, Default)]
pub struct ComparisonConditions {
    /// The node must currently have this value.
    pub value: Option<String>,
    /// The node must currently be at this modified index.
    pub modified_index: Option<u64>,
}

impl ComparisonConditions {
    /// Whether both condition fields are absent.
    pub fn is_empty(&self) -> (r: bool)
        ensures
            r == (self.value is None && self.modified_index is None),
    {
        self.value.is_none() && self.modified_index.is_none()
    }
}

/// The full set of options a get or watch request can carry.
#[derive(Clone, Debug, PartialEq, Eq, Default)]
pub struct GetOptions {
    /// Return child nodes of a directory as well.
    pub recursive: bool,
    /// If given, ask for child nodes sorted (or explicitly unsorted).
    pub sort: Option<bool>,
    /// Synchronize with the quorum before answering.
    pub strong_consistency: bool,
    /// Long-poll until the node changes.
    pub wait: bool,
    /// With `wait`, the index to start watching from.
    pub wait_index: Option<u64>,
}

/// The full set of options a set request can carry.
#[derive(Clone, Debug, PartialEq, Eq, Default)]
pub struct SetOptions {
    /// The new value of the node.
    pub value: Option<String>,
    /// Seconds until the node expires.
    pub ttl: Option<u64>,
    /// Whether the node is a directory.
    pub dir: Option<bool>,
    /// Whether the node must (or must not) already exist.
    pub prev_exist: Option<bool>,
    /// Create a key under the given directory with a server-assigned,
    /// increasing name. Changes the HTTP verb rather than adding a field.
    pub create_in_order: bool,
    /// Conditions for a compare-and-swap.
    pub conditions: Option<ComparisonConditions>,
}

/// The full set of options a delete request can carry.
#[derive(Clone, Debug, PartialEq, Eq, Default)]
pub struct DeleteOptions {
    /// Delete a directory and everything under it.
    pub recursive: Option<bool>,
    /// Whether the node to delete is a directory.
    pub dir: Option<bool>,
    /// Conditions for a compare-and-delete.
    pub conditions: Option<ComparisonConditions>,
}

} // verus!
