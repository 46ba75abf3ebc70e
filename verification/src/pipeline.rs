//! Description of a render pipeline: its shader stages and its
//! fixed-function state.

use crate::camera::BindGroupLayout;
use crate::texture::{TextureFormat, DEPTH_FORMAT};
use vstd::prelude::*;

verus! {

/// Name of the entry point of every shader stage.
pub const ENTRY_POINT: &'static str = "main";

/// All four colour channels are written.
pub const COLOR_WRITE_ALL: u32 = 15;

/// Every sample of a pixel is written.
pub const SAMPLE_MASK_ALL: u64 = 0xffff_ffff_ffff_ffff;

/// The programmable stages of a render pipeline.
#[derive(Clone, Copy, Debug, PartialEq, Eq)]
pub enum ShaderStage {
    /// Runs once per vertex.
    Vertex,
    /// Runs once per covered pixel.
    Fragment,
}

/// A compiled shader, known by the stage it was compiled for.
#[derive(Clone, Copy, Debug, PartialEq, Eq)]
pub struct ShaderModule {
    /// The stage that the binary implements.
    pub stage: ShaderStage,
}

/// How the vertex stream is assembled into primitives.
#[derive(Clone, Copy, Debug, PartialEq, Eq)]
pub enum PrimitiveTopology {
    /// Each vertex is a point.
    PointList,
    /// Each pair of vertices is a line.
    LineList,
    /// Each vertex after the first ends a line that starts at its predecessor.
    LineStrip,
    /// Each triple of vertices is a triangle.
    TriangleList,
    /// Each vertex after the second closes a triangle with its two predecessors.
    TriangleStrip,
}

/// Width of the indices of a strip topology.
#[derive(Clone, Copy, Debug, PartialEq, Eq)]
pub enum IndexFormat {
    /// 16-bit unsigned indices.
    Uint16,
    /// 32-bit unsigned indices.
    Uint32,
}

/// Winding order of a front-facing triangle.
#[derive(Clone, Copy, Debug, PartialEq, Eq)]
pub enum FrontFace {
    /// Counter-clockwise.
    Ccw,
    /// Clockwise.
    Cw,
}

/// Which faces are discarded before rasterization.
#[derive(Clone, Copy, Debug, PartialEq, Eq)]
pub enum CullMode {
    /// No face is discarded.
    Neither,
    /// Front faces are discarded.
    Front,
    /// Back faces are discarded.
    Back,
}

/// How a polygon is rasterized.
#[derive(Clone, Copy, Debug, PartialEq, Eq)]
pub enum PolygonMode {
    /// The interior is filled.
    Fill,
    /// Only the edges are drawn.
    Line,
    /// Only the corners are drawn.
    Point,
}

/// Comparison of a new value against the stored one.
#[derive(Clone, Copy, Debug, PartialEq, Eq)]
pub enum CompareFunction {
    /// Never passes.
    Never,
    /// Passes if the new value is less.
    Less,
    /// Passes if the values are equal.
    Equal,
    /// Passes if the new value is less or equal.
    LessEqual,
    /// Passes if the new value is greater.
    Greater,
    /// Passes if the values differ.
    NotEqual,
    /// Passes if the new value is greater or equal.
    GreaterEqual,
    /// Always passes.
    Always,
}

/// Multiplier of a blend operand.
#[derive(Clone, Copy, Debug, PartialEq, Eq)]
pub enum BlendFactor {
    /// 0
    Zero,
    /// 1
    One,
    /// Source colour.
    SrcColor,
    /// 1 - source colour.
    OneMinusSrcColor,
    /// Source alpha.
    SrcAlpha,
    /// 1 - source alpha.
    OneMinusSrcAlpha,
    /// Destination colour.
    DstColor,
    /// 1 - destination colour.
    OneMinusDstColor,
    /// Destination alpha.
    DstAlpha,
    /// 1 - destination alpha.
    OneMinusDstAlpha,
    /// min(source alpha, 1 - destination alpha).
    SrcAlphaSaturated,
    /// The constant blend colour.
    BlendColor,
    /// 1 - the constant blend colour.
    OneMinusBlendColor,
}

/// How the weighted source and destination are combined.
#[derive(Clone, Copy, Debug, PartialEq, Eq)]
pub enum BlendOperation {
    /// source + destination
    Add,
    /// source - destination
    Subtract,
    /// destination - source
    ReverseSubtract,
    /// min(source, destination)
    Min,
    /// max(source, destination)
    Max,
}

/// Blending of one aspect (colour or alpha) of a colour target.
#[derive(Clone, Copy, Debug, PartialEq, Eq)]
pub struct BlendState {
    /// Multiplier of what the fragment stage produced.
    pub src_factor: BlendFactor,
    /// Multiplier of what the target holds.
    pub dst_factor: BlendFactor,
    /// Combination of the two products.
    pub operation: BlendOperation,
}

/// One colour target of a pipeline.
#[derive(Clone, Copy, Debug, PartialEq, Eq)]
pub struct ColorTargetState {
    /// Format of the attachment rendered to.
    pub format: TextureFormat,
    /// Blending of the alpha channel.
    pub alpha_blend: BlendState,
    /// Blending of the colour channels.
    pub color_blend: BlendState,
    /// Channels that are written, one bit each: red 1, green 2, blue 4, alpha 8.
    pub write_mask: u32,
}

/// What happens to a stored stencil value.
#[derive(Clone, Copy, Debug, PartialEq, Eq)]
pub enum StencilOperation {
    /// Unchanged.
    Keep,
    /// Set to zero.
    Zero,
    /// Replaced by the reference value.
    Replace,
    /// Bitwise inverted.
    Invert,
    /// Incremented, clamped at the maximum.
    IncrementClamp,
    /// Decremented, clamped at zero.
    DecrementClamp,
    /// Incremented, wrapping to zero.
    IncrementWrap,
    /// Decremented, wrapping to the maximum.
    DecrementWrap,
}

/// Stencil test and updates for one facing.
#[derive(Clone, Copy, Debug, PartialEq, Eq)]
pub struct StencilFaceState {
    /// The stencil test.
    pub compare: CompareFunction,
    /// Update when the stencil test fails.
    pub fail_op: StencilOperation,
    /// Update when the stencil test passes and the depth test fails.
    pub depth_fail_op: StencilOperation,
    /// Update when both tests pass.
    pub pass_op: StencilOperation,
}

/// Stencil state of a pipeline.
#[derive(Clone, Copy, Debug, PartialEq, Eq)]
pub struct StencilState {
    /// State for front faces.
    pub front: StencilFaceState,
    /// State for back faces.
    pub back: StencilFaceState,
    /// Mask applied to stencil values when they are read.
    pub read_mask: u32,
    /// Mask applied to stencil values when they are written.
    pub write_mask: u32,
}

/// Bias added to the depth of a fragment. The two fractional quantities are
/// in thousandths.
#[derive(Clone, Copy, Debug, PartialEq, Eq)]
pub struct DepthBiasState {
    /// Constant bias, in units of the depth format.
    pub constant: i32,
    /// Bias per unit of slope, in thousandths.
    pub slope_scale: i32,
    /// Largest absolute bias, in thousandths.
    pub clamp: i32,
}

/// Depth and stencil state of a pipeline.
#[derive(Clone, Copy, Debug, PartialEq, Eq)]
pub struct DepthStencilState {
    /// Format of the depth attachment.
    pub format: TextureFormat,
    /// Whether fragments that pass write their depth.
    pub depth_write_enabled: bool,
    /// The depth test.
    pub depth_compare: CompareFunction,
    /// The stencil state.
    pub stencil: StencilState,
    /// The depth bias.
    pub bias: DepthBiasState,
    /// Whether depth is clamped to the unit interval instead of clipped.
    pub clamp_depth: bool,
}

/// Primitive assembly and rasterization.
#[derive(Clone, Copy, Debug, PartialEq, Eq)]
pub struct PrimitiveState {
    /// How vertices form primitives.
    pub topology: PrimitiveTopology,
    /// Index width for strip topologies.
    pub strip_index_format: Option<IndexFormat>,
    /// Which winding is the front.
    pub front_face: FrontFace,
    /// Which faces are discarded.
    pub cull_mode: CullMode,
    /// How polygons are rasterized.
    pub polygon_mode: PolygonMode,
}

/// Multisampling of a pipeline.
#[derive(Clone, Copy, Debug, PartialEq, Eq)]
pub struct MultisampleState {
    /// Samples per pixel.
    pub count: u32,
    /// Samples that are written, one bit each.
    pub mask: u64,
    /// Whether alpha also masks samples.
    pub alpha_to_coverage_enabled: bool,
}

/// The vertex stage of a pipeline.
#[derive(Clone, Copy, Debug, PartialEq, Eq)]
pub struct VertexState {
    /// The compiled stage.
    pub module: ShaderModule,
    /// Name of the function that the stage starts at.
    pub entry_point: &'static str,
    /// Number of vertex buffers that feed the stage.
    pub buffers: u32,
}

/// The fragment stage of a pipeline and the target it writes.
#[derive(Clone, Copy, Debug, PartialEq, Eq)]
pub struct FragmentState {
    /// The compiled stage.
    pub module: ShaderModule,
    /// Name of the function that the stage starts at.
    pub entry_point: &'static str,
    /// The one colour target.
    pub target: ColorTargetState,
}

/// The resources a pipeline expects to find bound.
#[derive(Clone, Copy, Debug, PartialEq, Eq)]
pub struct PipelineLayout {
    /// Layout of the one bind group, bound at set 0.
    pub bind_group_layout: BindGroupLayout,
    /// Number of push-constant ranges.
    pub push_constant_ranges: u32,
}

/// A render pipeline, known by everything it was built from.
#[derive(Clone, Copy, Debug, PartialEq, Eq)]
pub struct RenderPipeline {
    /// The bind groups the pipeline uses.
    pub layout: PipelineLayout,
    /// The vertex stage.
    pub vertex: VertexState,
    /// Primitive assembly and rasterization.
    pub primitive: PrimitiveState,
    /// Depth and stencil state, if the pipeline has a depth attachment.
    pub depth_stencil: Option<DepthStencilState>,
    /// Multisampling.
    pub multisample: MultisampleState,
    /// The fragment stage, if the pipeline writes colour.
    pub fragment: Option<FragmentState>,
}

impl BlendState {
    /// The source replaces the destination.
    pub open spec fn replace_spec() -> BlendState {
        BlendState {
            src_factor: BlendFactor::One,
            dst_factor: BlendFactor::Zero,
            operation: BlendOperation::Add,
        }
    }

    /// The source replaces the destination.
    #[verifier::when_used_as_spec(replace_spec)]
    pub fn replace() -> (state: BlendState)
        ensures
            state == BlendState::replace_spec(),
    {
        BlendState {
            src_factor: BlendFactor::One,
            dst_factor: BlendFactor::Zero,
            operation: BlendOperation::Add,
        }
    }
}

impl StencilFaceState {
    /// Always passes and keeps the stored value.
    pub open spec fn ignore_spec() -> StencilFaceState {
        StencilFaceState {
            compare: CompareFunction::Always,
            fail_op: StencilOperation::Keep,
            depth_fail_op: StencilOperation::Keep,
            pass_op: StencilOperation::Keep,
        }
    }

    /// Always passes and keeps the stored value.
    #[verifier::when_used_as_spec(ignore_spec)]
    pub fn ignore() -> (state: StencilFaceState)
        ensures
            state == StencilFaceState::ignore_spec(),
    {
        StencilFaceState {
            compare: CompareFunction::Always,
            fail_op: StencilOperation::Keep,
            depth_fail_op: StencilOperation::Keep,
            pass_op: StencilOperation::Keep,
        }
    }
}

impl StencilState {
    /// The state that neither tests nor writes stencil.
    pub open spec fn disabled_spec() -> StencilState {
        StencilState {
            front: StencilFaceState::ignore(),
            back: StencilFaceState::ignore(),
            read_mask: 0,
            write_mask: 0,
        }
    }

    /// The state that neither tests nor writes stencil.
    #[verifier::when_used_as_spec(disabled_spec)]
    pub fn disabled() -> (state: StencilState)
        ensures
            state == StencilState::disabled_spec(),
            !state.is_enabled(),
    {
        StencilState {
            front: StencilFaceState::ignore(),
            back: StencilFaceState::ignore(),
            read_mask: 0,
            write_mask: 0,
        }
    }

    /// Whether the stencil test can reject a fragment or change a stored
    /// value.
    pub open spec fn is_enabled(self) -> bool {
        (self.front != StencilFaceState::ignore() || self.back != StencilFaceState::ignore())
            && (self.read_mask != 0 || self.write_mask != 0)
    }
}

impl DepthBiasState {
    /// No bias.
    pub open spec fn zero_spec() -> DepthBiasState {
        DepthBiasState { constant: 0, slope_scale: 0, clamp: 0 }
    }

    /// No bias.
    #[verifier::when_used_as_spec(zero_spec)]
    pub fn zero() -> (state: DepthBiasState)
        ensures
            state == DepthBiasState::zero_spec(),
            !state.is_enabled(),
    {
        DepthBiasState { constant: 0, slope_scale: 0, clamp: 0 }
    }

    /// Whether any bias is applied.
    pub open spec fn is_enabled(self) -> bool {
        self.constant != 0 || self.slope_scale != 0
    }
}

impl DepthStencilState {
    /// Whether the depth test can reject a fragment or write depth.
    pub open spec fn is_depth_enabled(self) -> bool {
        self.depth_compare != CompareFunction::Always || self.depth_write_enabled
    }
}

impl RenderPipeline {
    /// The pipeline that draws filled, back-face-culled triangles generated
    /// in the vertex stage, depth-tested with "less", into one colour target
    /// of `color_format`, with the one bind group laid out as
    /// `bind_group_layout`.
    pub open spec fn basic(
        color_format: TextureFormat,
        bind_group_layout: BindGroupLayout,
    ) -> RenderPipeline {
        RenderPipeline {
            layout: PipelineLayout { bind_group_layout, push_constant_ranges: 0 },
            vertex: VertexState {
                module: ShaderModule { stage: ShaderStage::Vertex },
                entry_point: ENTRY_POINT,
                buffers: 0,
            },
            primitive: PrimitiveState {
                topology: PrimitiveTopology::TriangleList,
                strip_index_format: None,
                front_face: FrontFace::Ccw,
                cull_mode: CullMode::Back,
                polygon_mode: PolygonMode::Fill,
            },
            depth_stencil: Some(
                DepthStencilState {
                    format: DEPTH_FORMAT,
                    depth_write_enabled: true,
                    depth_compare: CompareFunction::Less,
                    stencil: StencilState::disabled(),
                    bias: DepthBiasState::zero(),
                    clamp_depth: false,
                },
            ),
            multisample: MultisampleState {
                count: 1,
                mask: SAMPLE_MASK_ALL,
                alpha_to_coverage_enabled: false,
            },
            fragment: Some(
                FragmentState {
                    module: ShaderModule { stage: ShaderStage::Fragment },
                    entry_point: ENTRY_POINT,
                    target: ColorTargetState {
                        format: color_format,
                        alpha_blend: BlendState::replace(),
                        color_blend: BlendState::replace(),
                        write_mask: COLOR_WRITE_ALL,
                    },
                },
            ),
        }
    }

    /// Whether the pipeline can be used in a pass whose colour attachment
    /// has format `color` and whose depth attachment, if any, has format
    /// `depth`: each target of the pipeline has the format of the attachment
    /// it writes.
    pub open spec fn fits_attachments(
        self,
        color: TextureFormat,
        depth: Option<TextureFormat>,
    ) -> bool {
        &&& self.fragment matches Some(fragment) ==> fragment.target.format == color
        &&& match (self.depth_stencil, depth) {
            (Some(state), Some(format)) => state.format == format,
            (None, None) => true,
            _ => false,
        }
    }
}

} // verus!
