//! The uniform resource that an effect binds at draw time.
//!
//! The resource is made elsewhere and only passed through here, so each of
//! its parts is a handle: a number that names an object living on the
//! device. Two handles name the same object exactly when their numbers are
//! equal.

use vstd::prelude::*;

verus! {

/// Handle of a bind-group layout.
#[derive(Clone, Copy, Debug, PartialEq, Eq)]
pub struct BindGroupLayout {
    /// The number that names the layout.
    pub id: u64,
}

/// Handle of a bind group.
#[derive(Clone, Copy, Debug, PartialEq, Eq)]
pub struct BindGroup {
    /// The number that names the bind group.
    pub id: u64,
}

/// Handle of a buffer on the device.
#[derive(Clone, Copy, Debug, PartialEq, Eq)]
pub struct Buffer {
    /// The number that names the buffer.
    pub id: u64,
}

/// A uniform value resident on the device, ready to be bound.
#[derive(Clone, Copy, Debug, PartialEq, Eq)]
pub struct GPUObject {
    /// Layout of the bind group.
    pub layout: BindGroupLayout,
    /// The bind group that exposes the buffer to the shader stages.
    pub bind_group: BindGroup,
    /// The buffer that backs the uniform value.
    pub buffer: Buffer,
    /// The slot at which the bind group is bound.
    pub binding: u32,
}

} // verus!
