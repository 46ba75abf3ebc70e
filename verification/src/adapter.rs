//! What is asked of the machine before a context can be set up: which
//! graphics API to use, which adapter to pick, and what device to open on
//! it.

use vstd::prelude::*;

verus! {

/// A graphics API.
#[derive(Clone, Copy, Debug, PartialEq, Eq)]
pub enum Backend {
    /// Vulkan.
    Vulkan,
    /// Metal.
    Metal,
    /// Direct3D 12.
    Dx12,
    /// Direct3D 11.
    Dx11,
    /// OpenGL ES 3.
    Gl,
    /// WebGPU in a browser.
    BrowserWebGpu,
}

/// Which adapter is preferred where a machine has several.
#[derive(Clone, Copy, Debug, PartialEq, Eq)]
pub enum PowerPreference {
    /// The one that draws the least power, often an integrated GPU.
    LowPower,
    /// The one that performs best, often a discrete GPU.
    HighPerformance,
}

/// The limits that a device is opened with.
#[derive(Clone, Copy, Debug, PartialEq, Eq)]
pub enum Limits {
    /// The limits that every adapter is expected to meet.
    Default,
    /// The limits of the adapter itself.
    Adapter,
}

/// What the adapter must be like.
#[derive(Clone, Copy, Debug, PartialEq, Eq)]
pub struct RequestAdapterOptions {
    /// Preference among several adapters.
    pub power_preference: PowerPreference,
    /// Whether the adapter must be able to present to the surface of the
    /// window.
    pub compatible_surface: bool,
}

/// What the device must support.
#[derive(Clone, Copy, Debug, PartialEq, Eq)]
pub struct DeviceDescriptor {
    /// The optional features asked for, one bit each; 0 asks for none.
    pub features: u64,
    /// The limits asked for.
    pub limits: Limits,
}

/// Everything that is asked of the machine.
#[derive(Clone, Copy, Debug, PartialEq, Eq)]
pub struct Requirements {
    /// The graphics API to use.
    pub backend: Backend,
    /// The adapter to pick.
    pub adapter: RequestAdapterOptions,
    /// The device to open on the adapter.
    pub device: DeviceDescriptor,
}

impl PowerPreference {
    /// The preference where none is stated.
    pub open spec fn default_spec() -> PowerPreference {
        PowerPreference::LowPower
    }
}

impl Default for PowerPreference {
    fn default() -> (preference: PowerPreference)
        ensures
            preference == PowerPreference::default_spec(),
    {
        PowerPreference::LowPower
    }
}

} // verus!
