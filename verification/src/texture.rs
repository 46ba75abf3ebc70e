//! Texel formats and the depth buffer.
//!
//! A texture is described by what the rest of the renderer reads of it: the
//! format of its texels and its extent in pixels. A view of a texture carries
//! the same description, so that two attachments of one render pass can be
//! compared.

use crate::swap_chain::SwapChainDescriptor;
use vstd::prelude::*;

verus! {

/// Layout of one texel.
#[derive(Clone, Copy, Debug, PartialEq, Eq)]
pub enum TextureFormat {
    /// Blue, green, red and alpha, 8 bits each, linear.
    Bgra8Unorm,
    /// Blue, green, red and alpha, 8 bits each, sRGB-encoded colour.
    Bgra8UnormSrgb,
    /// One 32-bit depth value.
    Depth32Float,
}

/// What a texture may be used for.
#[derive(Clone, Copy, Debug, PartialEq, Eq)]
pub enum TextureUsage {
    /// Source of a copy.
    CopySrc,
    /// Destination of a copy.
    CopyDst,
    /// Sampled by a shader.
    Sampled,
    /// Bound as a storage texture.
    Storage,
    /// Output attachment of a render pass.
    RenderAttachment,
}

/// A view of a whole two-dimensional texture.
#[derive(Clone, Copy, Debug, PartialEq, Eq)]
pub struct TextureView {
    /// Format of the texels seen through the view.
    pub format: TextureFormat,
    /// Width in pixels.
    pub width: u32,
    /// Height in pixels.
    pub height: u32,
}

/// A two-dimensional texture with one mip level and one sample per texel,
/// together with the view through which it is attached.
#[derive(Clone, Copy, Debug, PartialEq, Eq)]
pub struct Texture {
    /// What the texture is used for.
    pub usage: TextureUsage,
    /// The view that covers the texture.
    pub view: TextureView,
}

/// Format of every depth buffer.
pub const DEPTH_FORMAT: TextureFormat = TextureFormat::Depth32Float;

impl Texture {
    /// The depth buffer that belongs to a swap chain of the given
    /// configuration: an attachment in the depth format, of the
    /// configuration's extent.
    pub open spec fn depth_for(sc_desc: SwapChainDescriptor) -> Texture {
        Texture {
            usage: TextureUsage::RenderAttachment,
            view: TextureView {
                format: DEPTH_FORMAT,
                width: sc_desc.width,
                height: sc_desc.height,
            },
        }
    }

    /// Describes a depth buffer sized to the swap chain that `sc_desc`
    /// configures.
    pub fn create_depth_texture(sc_desc: &SwapChainDescriptor) -> (texture: Texture)
        ensures
            texture == Texture::depth_for(*sc_desc),
            texture.view.format == DEPTH_FORMAT,
            texture.view.width == sc_desc.width,
            texture.view.height == sc_desc.height,
    {
        Texture {
            usage: TextureUsage::RenderAttachment,
            view: TextureView {
                format: DEPTH_FORMAT,
                width: sc_desc.width,
                height: sc_desc.height,
            },
        }
    }
}

} // verus!
