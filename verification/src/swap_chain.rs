//! The presentation target: its configuration, the chain of images built
//! from it, and what acquiring the next image may yield.

use crate::texture::{TextureFormat, TextureUsage, TextureView};
use vstd::prelude::*;

verus! {

/// Size of a window's drawable area, in physical pixels.
#[derive(Clone, Copy, Debug, PartialEq, Eq)]
pub struct PhysicalSize {
    /// Width in pixels.
    pub width: u32,
    /// Height in pixels.
    pub height: u32,
}

/// How finished images are handed to the display.
#[derive(Clone, Copy, Debug, PartialEq, Eq)]
pub enum PresentMode {
    /// Present at once; may tear.
    Immediate,
    /// Present at the next vertical blank, replacing an image still waiting.
    Mailbox,
    /// Present at the next vertical blank, in submission order.
    Fifo,
}

/// Configuration of a swap chain.
#[derive(Clone, Copy, Debug, PartialEq, Eq)]
pub struct SwapChainDescriptor {
    /// What the images are used for.
    pub usage: TextureUsage,
    /// Format of the images.
    pub format: TextureFormat,
    /// Width of the images in pixels.
    pub width: u32,
    /// Height of the images in pixels.
    pub height: u32,
    /// How the images are presented.
    pub present_mode: PresentMode,
}

/// A swap chain, known by the configuration it was built from.
#[derive(Clone, Copy, Debug, PartialEq, Eq)]
pub struct SwapChain {
    /// The configuration the chain was built from.
    pub desc: SwapChainDescriptor,
}

/// What is reported along with an image that was acquired.
#[derive(Clone, Copy, Debug, PartialEq, Eq)]
pub struct Acquired {
    /// The image can be used, but the chain no longer matches the surface
    /// exactly.
    pub suboptimal: bool,
}

/// An image of a swap chain that can be rendered to.
#[derive(Clone, Copy, Debug, PartialEq, Eq)]
pub struct SwapChainTexture {
    /// The view through which the image is attached.
    pub view: TextureView,
}

/// A successfully acquired image.
#[derive(Clone, Copy, Debug, PartialEq, Eq)]
pub struct SwapChainFrame {
    /// The image to render the next frame into.
    pub output: SwapChainTexture,
    /// The image can be used, but the chain no longer matches the surface
    /// exactly.
    pub suboptimal: bool,
}

/// Why the next image of a swap chain could not be acquired.
#[derive(Clone, Copy, Debug, PartialEq, Eq)]
pub enum SwapChainError {
    /// Waiting for the image timed out.
    Timeout,
    /// The surface has changed; the swap chain must be rebuilt.
    Outdated,
    /// The swap chain was lost and must be rebuilt.
    Lost,
    /// No memory is left for a new image.
    OutOfMemory,
}

impl SwapChain {
    /// The chain built from `desc`.
    pub open spec fn built_from(desc: SwapChainDescriptor) -> SwapChain {
        SwapChain { desc }
    }

    /// The view of any image of this chain: the chain's format and extent.
    pub open spec fn image_view(self) -> TextureView {
        TextureView { format: self.desc.format, width: self.desc.width, height: self.desc.height }
    }

    /// The frame that an acquisition from this chain yields: an image of the
    /// chain, and what was reported along with it.
    pub open spec fn frame_of(self, acquired: Acquired) -> SwapChainFrame {
        SwapChainFrame {
            output: SwapChainTexture { view: self.image_view() },
            suboptimal: acquired.suboptimal,
        }
    }

    /// Describes the swap chain built from `desc`.
    pub fn create(desc: &SwapChainDescriptor) -> (chain: SwapChain)
        ensures
            chain == SwapChain::built_from(*desc),
    {
        SwapChain { desc: *desc }
    }

    /// Describes the frame of an acquisition from this chain: its image has
    /// the format and the extent that the chain was built with.
    pub fn frame(&self, acquired: Acquired) -> (frame: SwapChainFrame)
        ensures
            frame == self.frame_of(acquired),
            frame.output.view.format == self.desc.format,
            frame.output.view.width == self.desc.width,
            frame.output.view.height == self.desc.height,
            frame.suboptimal == acquired.suboptimal,
    {
        SwapChainFrame {
            output: SwapChainTexture {
                view: TextureView {
                    format: self.desc.format,
                    width: self.desc.width,
                    height: self.desc.height,
                },
            },
            suboptimal: acquired.suboptimal,
        }
    }
}

} // verus!
