//! A small rendering core: the lifecycle of a presentation target with its
//! depth buffer, one fixed pipeline, and the recording of one frame.
//!
//! The library decides and records; it never touches a device. A host owns
//! the device, the queue and the surface, reports what happened there
//! (a window size, the outcome of acquiring an image) and carries out what
//! the library hands back (a configuration to build, a buffer write, a
//! submission).

pub mod adapter;
pub mod camera;
pub mod command;
pub mod gpu;
pub mod pipeline;
pub mod queue;
pub mod swap_chain;
pub mod texture;
