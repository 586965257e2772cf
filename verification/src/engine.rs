//! The engine's primitives as plain values: what is asked of it, and what it
//! answers.

use vstd::prelude::*;

verus! {

/// The only manufacturer identifier the engine documents (`'appl'`).
pub const MANUFACTURER_IDENTIFIER: u32 = 1634758764;

/// Identifier of the sample-rate property.
pub const PROPERTY_SAMPLE_RATE: u32 = 2;

/// Identifier of the stream-format property.
pub const PROPERTY_STREAM_FORMAT: u32 = 8;

/// Identifier of the property whose value registers the render callback.
pub const PROPERTY_SET_RENDER_CALLBACK: u32 = 23;

/// What discovery is asked to match.
#[derive(Debug, Clone, Copy, PartialEq, Eq)]
pub struct ComponentDescription {
    pub component_type: u32,
    pub component_sub_type: u32,
    pub component_manufacturer: u32,
    pub component_flags: u32,
    pub component_flags_mask: u32,
}

/// One call of a life-cycle or transport primitive. Handles are the opaque
/// values the engine gave out; zero is the null handle.
#[derive(Debug, Clone, Copy, PartialEq, Eq)]
pub enum Call {
    /// Find the first component that matches the description.
    FindNext { description: ComponentDescription },
    /// Create an instance of a component.
    InstanceNew { component: usize },
    /// Initialize an instance.
    Initialize { instance: usize },
    /// Uninitialize an instance.
    Uninitialize { instance: usize },
    /// Start the instance's processing.
    Start { instance: usize },
    /// Stop the instance's processing.
    Stop { instance: usize },
}

/// What the engine answered: the status it returned and the handle it gave
/// out. A primitive that returns no status is answered with status zero, one
/// that gives out no handle with the null handle.
#[derive(Debug, Clone, Copy, PartialEq, Eq)]
pub struct Reply {
    pub status: i32,
    pub handle: usize,
}

} // verus!
