//! The closed taxonomy of context-acquisition failures.

use vstd::prelude::*;

verus! {

/// Possible errors during context initialisation.
///
/// The two variants separate "no eligible physical device exists" from "a
/// physical device was found, but opening a logical device or its command
/// queue failed". Callers match on the variant; the diagnostic detail of a
/// concrete failure travels through the diagnostic log handed to the
/// acquisition pipeline, never on the error value itself.
#[derive(Debug, Copy, Clone, PartialEq, Eq, Structural)]
pub enum ContextCreationError {
    /// No physical compute device (graphics card or other) satisfies the
    /// selection policy.
    NoPhysicalComputeDevice,
    /// A physical device was selected, but creating the logical device or
    /// the command queue failed.
    DeviceOrQueueCreation,
}

/// The fixed human-readable description of each failure variant.
pub open spec fn spec_description(e: ContextCreationError) -> Seq<char> {
    match e {
        ContextCreationError::NoPhysicalComputeDevice => "Failed to get a compatible physical compute device."@,
        ContextCreationError::DeviceOrQueueCreation => "Failed to create a logical compute device or a command queue."@,
    }
}

impl ContextCreationError {
    /// Fixed description of the failure, for presentation. No variant carries
    /// any payload beyond its tag, so the description depends on the variant
    /// alone.
    pub fn description(&self) -> (r: &'static str)
        ensures
            r@ == spec_description(*self),
    {
        match *self {
            ContextCreationError::NoPhysicalComputeDevice => "Failed to get a compatible physical compute device.",
            ContextCreationError::DeviceOrQueueCreation => "Failed to create a logical compute device or a command queue.",
        }
    }
}

/// The two failure variants carry distinct descriptions: a caller that only
/// sees a rendered description can still tell the causes apart.
pub proof fn lemma_descriptions_distinct()
    ensures
        spec_description(ContextCreationError::NoPhysicalComputeDevice)
            != spec_description(ContextCreationError::DeviceOrQueueCreation),
{
    reveal_strlit("Failed to get a compatible physical compute device.");
    reveal_strlit("Failed to create a logical compute device or a command queue.");
    assert(spec_description(ContextCreationError::NoPhysicalComputeDevice)[10] == 'g');
    assert(spec_description(ContextCreationError::DeviceOrQueueCreation)[10] == 'c');
}

} // verus!
