//! The graphics context and the one effect it draws with.
//!
//! [`State`] follows the presentation target of a window: the configuration
//! of its swap chain, the chain built from it, and a depth buffer of the
//! same extent. It holds at most one [`BasicEffect`], and records each frame
//! as one render pass that the effect fills.

use crate::adapter::{
    Backend, DeviceDescriptor, Limits, PowerPreference, RequestAdapterOptions, Requirements,
};
use crate::camera::{Buffer, GPUObject};
use crate::command::{
    draw_count, lemma_draw_count_push, lemma_total_draw_count_push, Color, CommandEncoder,
    IndexRange, LoadOp, Operations, RenderCommand, RenderPass,
    RenderPassColorAttachmentDescriptor, RenderPassDepthStencilAttachmentDescriptor,
    RenderPassDescriptor, RenderPassView, UNIT,
};
use crate::pipeline::{
    BlendState, ColorTargetState, CompareFunction, CullMode, DepthBiasState, DepthStencilState,
    FragmentState, FrontFace, MultisampleState, PipelineLayout, PolygonMode, PrimitiveState,
    PrimitiveTopology, RenderPipeline, ShaderModule, ShaderStage, StencilState, VertexState,
    COLOR_WRITE_ALL, ENTRY_POINT, SAMPLE_MASK_ALL,
};
use crate::queue::{
    lemma_counts_push, pass_count, submitted_draw_count, BufferWrite, BufferWriteView, Submission,
};
use crate::swap_chain::{
    Acquired, PhysicalSize, PresentMode, SwapChain, SwapChainDescriptor, SwapChainError,
};
use crate::texture::{Texture, TextureFormat, TextureUsage, TextureView, DEPTH_FORMAT};
use vstd::prelude::*;

verus! {

/// Format of the images that are presented.
pub const RENDERFORMAT: TextureFormat = TextureFormat::Bgra8UnormSrgb;

/// Use of the images that are presented.
pub const SCUSAGE: TextureUsage = TextureUsage::RenderAttachment;

/// Presentation waits for the vertical blank.
pub const SCPRESENT: PresentMode = PresentMode::Fifo;

/// Depth that the depth buffer is cleared to: the far plane.
pub const CLEAR_DEPTH: u32 = UNIT;

/// Number of vertices of the triangle that an effect draws.
pub const TRIANGLE_VERTICES: u32 = 3;

/// The graphics context of one window.
#[derive(Debug, PartialEq, Eq)]
pub struct State {
    /// Configuration of the swap chain.
    pub sc_desc: SwapChainDescriptor,
    /// The swap chain in use.
    pub swap_chain: SwapChain,
    /// Size of the window, as last reported.
    pub size: PhysicalSize,
    /// The depth buffer in use.
    pub depth_texture: Texture,
    /// The installed effect, if any.
    pub effect: Option<BasicEffect>,
}

/// An effect that draws one triangle, generated in the vertex stage, with a
/// camera bound.
#[derive(Debug, PartialEq, Eq)]
pub struct BasicEffect {
    /// The pipeline that the effect draws with.
    pub render_pipeline: RenderPipeline,
    /// The camera resource that the effect binds.
    pub camera_obj: GPUObject,
}

/// The colour that every frame is cleared to: (0.1, 0.2, 0.3), opaque.
pub open spec fn background_spec() -> Color {
    Color { r: 100, g: 200, b: 300, a: 1000 }
}

/// The colour that every frame is cleared to: (0.1, 0.2, 0.3), opaque.
#[verifier::when_used_as_spec(background_spec)]
pub fn background() -> (color: Color)
    ensures
        color == background_spec(),
{
    Color { r: 100, g: 200, b: 300, a: UNIT }
}

/// The attachments of the pass that draws a frame into `target`, with
/// `depth` as its depth buffer: both are cleared, colour to the background
/// and depth to the far plane, and both keep what is drawn; stencil is not
/// used.
pub open spec fn frame_pass_descriptor(
    target: TextureView,
    depth: TextureView,
) -> RenderPassDescriptor {
    RenderPassDescriptor {
        color_attachment: RenderPassColorAttachmentDescriptor {
            attachment: target,
            resolve_target: None,
            ops: Operations { load: LoadOp::Clear(background()), store: true },
        },
        depth_stencil_attachment: Some(
            RenderPassDepthStencilAttachmentDescriptor {
                attachment: depth,
                depth_ops: Some(Operations { load: LoadOp::Clear(CLEAR_DEPTH), store: true }),
                stencil_ops: None,
            },
        ),
    }
}

impl State {
    /// What a context asks of the machine: Vulkan, the default adapter among
    /// those that can present to the window, and a device with no optional
    /// feature and the default limits.
    pub open spec fn requirements_spec() -> Requirements {
        Requirements {
            backend: Backend::Vulkan,
            adapter: RequestAdapterOptions {
                power_preference: PowerPreference::default_spec(),
                compatible_surface: true,
            },
            device: DeviceDescriptor { features: 0, limits: Limits::Default },
        }
    }

    /// The context of a window of `size`, before any effect is installed.
    pub open spec fn initial(size: PhysicalSize) -> State {
        let sc_desc = SwapChainDescriptor {
            usage: SCUSAGE,
            format: RENDERFORMAT,
            width: size.width,
            height: size.height,
            present_mode: SCPRESENT,
        };
        State {
            sc_desc,
            swap_chain: SwapChain::built_from(sc_desc),
            size,
            depth_texture: Texture::depth_for(sc_desc),
            effect: None,
        }
    }

    /// The swap chain and the depth buffer are the ones that belong to the
    /// current configuration, and the configuration has the extent of the
    /// window.
    pub open spec fn wf(self) -> bool {
        &&& self.sc_desc.width == self.size.width
        &&& self.sc_desc.height == self.size.height
        &&& self.swap_chain == SwapChain::built_from(self.sc_desc)
        &&& self.depth_texture == Texture::depth_for(self.sc_desc)
    }

    /// This context with `effect` in its slot.
    pub open spec fn with_effect(self, effect: BasicEffect) -> State {
        State { effect: Some(effect), ..self }
    }

    /// This context after the window took `new_size`.
    pub open spec fn resized(self, new_size: PhysicalSize) -> State {
        let sc_desc = SwapChainDescriptor {
            width: new_size.width,
            height: new_size.height,
            ..self.sc_desc
        };
        State {
            sc_desc,
            swap_chain: SwapChain::built_from(sc_desc),
            size: new_size,
            depth_texture: Texture::depth_for(sc_desc),
            effect: self.effect,
        }
    }

    /// This context after the window took each of `sizes` in turn.
    pub open spec fn resized_through(self, sizes: Seq<PhysicalSize>) -> State
        decreases sizes.len(),
    {
        if sizes.len() == 0 {
            self
        } else {
            self.resized_through(sizes.drop_last()).resized(sizes.last())
        }
    }

    /// The effect that is installed.
    pub open spec fn current_effect(self) -> BasicEffect
        recommends
            self.effect.is_some(),
    {
        self.effect.unwrap()
    }

    /// The one render pass of a frame drawn by this context: into an image
    /// of its swap chain and its depth buffer, with the commands of its
    /// effect.
    pub open spec fn frame_pass(self) -> RenderPassView
        recommends
            self.effect.is_some(),
    {
        RenderPassView {
            desc: frame_pass_descriptor(self.swap_chain.image_view(), self.depth_texture.view),
            commands: self.current_effect().recorded(),
        }
    }

    /// What has to be found on the machine before a context can be set up.
    #[verifier::when_used_as_spec(requirements_spec)]
    pub fn requirements() -> (requirements: Requirements)
        ensures
            requirements == State::requirements_spec(),
            requirements.backend == Backend::Vulkan,
            requirements.adapter.compatible_surface,
            requirements.device.features == 0,
            requirements.device.limits == Limits::Default,
    {
        Requirements {
            backend: Backend::Vulkan,
            adapter: RequestAdapterOptions {
                power_preference: PowerPreference::default(),
                compatible_surface: true,
            },
            device: DeviceDescriptor { features: 0, limits: Limits::Default },
        }
    }

    /// Sets up the context for a window of `size`: presentation in the fixed
    /// format with vertical sync, a swap chain and a depth buffer of the
    /// window's extent, and no effect.
    pub fn new(size: PhysicalSize) -> (state: State)
        ensures
            state == State::initial(size),
            state.wf(),
            state.effect.is_none(),
            state.depth_texture.view.width == state.sc_desc.width == size.width,
            state.depth_texture.view.height == state.sc_desc.height == size.height,
    {
        let sc_desc = SwapChainDescriptor {
            usage: SCUSAGE,
            format: RENDERFORMAT,
            width: size.width,
            height: size.height,
            present_mode: SCPRESENT,
        };
        let swap_chain = SwapChain::create(&sc_desc);
        let depth_texture = Texture::create_depth_texture(&sc_desc);
        State { sc_desc, swap_chain, size, depth_texture, effect: None }
    }

    /// Installs `effect`, replacing the one installed before, if any.
    pub fn add_effect(&mut self, effect: BasicEffect)
        ensures
            *final(self) == old(self).with_effect(effect),
            final(self).effect == Some(effect),
            final(self).wf() == old(self).wf(),
    {
        self.effect = Some(effect);
    }

    /// The installed effect. An effect must have been installed.
    pub fn get_effect(&self) -> (effect: &BasicEffect)
        requires
            self.effect.is_some(),
        ensures
            *effect == self.current_effect(),
            Some(*effect) == self.effect,
    {
        self.effect.as_ref().unwrap()
    }

    /// Follows the window to `new_size`: the configuration takes the new
    /// extent, and the swap chain and the depth buffer are rebuilt from it
    /// together. The effect stays.
    pub fn resize(&mut self, new_size: PhysicalSize)
        ensures
            *final(self) == old(self).resized(new_size),
            final(self).wf(),
            final(self).sc_desc.width == new_size.width,
            final(self).sc_desc.height == new_size.height,
            final(self).depth_texture.view.width == new_size.width,
            final(self).depth_texture.view.height == new_size.height,
            final(self).effect == old(self).effect,
    {
        self.size = new_size;
        self.sc_desc.width = new_size.width;
        self.sc_desc.height = new_size.height;
        self.swap_chain = SwapChain::create(&self.sc_desc);
        self.depth_texture = Texture::create_depth_texture(&self.sc_desc);
    }

    /// The write of `bytes` to the start of `buffer`.
    pub fn write_buffer(&mut self, buffer: &Buffer, bytes: &[u8]) -> (write: BufferWrite)
        ensures
            *final(self) == *old(self),
            write@ == (BufferWriteView { buffer: *buffer, offset: 0, data: bytes@ }),
            write@.overwrites_start_with(bytes@),
    {
        BufferWrite::at_start(buffer, bytes)
    }

    /// Records one frame. `acquired` is the outcome of acquiring the next
    /// image of the swap chain.
    ///
    /// If no image was acquired, the failure is handed back and nothing is
    /// recorded. Otherwise an effect must have been installed, and the
    /// result is the submission of one command buffer that holds one render
    /// pass: into the acquired image and the depth buffer, both cleared, with
    /// the commands of the effect. The context stays as it is either way.
    pub fn render(&mut self, acquired: Result<Acquired, SwapChainError>) -> (res: Result<
        Submission,
        SwapChainError,
    >)
        requires
            acquired.is_ok() ==> old(self).effect.is_some(),
        ensures
            *final(self) == *old(self),
            match acquired {
                Ok(_) => {
                    &&& res matches Ok(submission)
                    &&& submission@ == seq![seq![old(self).frame_pass()]]
                    &&& submission@.len() == 1
                    &&& pass_count(submission@) == 1
                    &&& submitted_draw_count(submission@) == 1
                },
                Err(error) => res == Err::<Submission, SwapChainError>(error),
            },
    {
        let frame = match acquired {
            Ok(acquired) => self.swap_chain.frame(acquired).output,
            Err(error) => {
                return Err(error);
            },
        };
        let mut encoder = CommandEncoder::new();
        let mut render_pass = encoder.begin_render_pass(
            RenderPassDescriptor {
                color_attachment: RenderPassColorAttachmentDescriptor {
                    attachment: frame.view,
                    resolve_target: None,
                    ops: Operations { load: LoadOp::Clear(background()), store: true },
                },
                depth_stencil_attachment: Some(
                    RenderPassDepthStencilAttachmentDescriptor {
                        attachment: self.depth_texture.view,
                        depth_ops: Some(
                            Operations { load: LoadOp::Clear(CLEAR_DEPTH), store: true },
                        ),
                        stencil_ops: None,
                    },
                ),
            },
        );
        self.get_effect().render(&mut render_pass);
        encoder.end_render_pass(render_pass);
        proof {
            self.lemma_frame_is_one_pass_one_draw();
        }
        Ok(Submission::once(encoder.finish()))
    }
}

impl State {
    /// A context that was just set up has a depth buffer of the extent of
    /// its swap-chain configuration, which is the extent of the window, and
    /// no effect.
    pub proof fn lemma_initial_extents(size: PhysicalSize)
        ensures
            State::initial(size).wf(),
            State::initial(size).sc_desc.width == size.width,
            State::initial(size).sc_desc.height == size.height,
            State::initial(size).depth_texture.view.width == size.width,
            State::initial(size).depth_texture.view.height == size.height,
            State::initial(size).effect.is_none(),
    {
    }

    /// After each resize of a series, the swap-chain configuration, the swap
    /// chain and the depth buffer all have the extent that was supplied
    /// last, whatever the context was before; the effect is the one that
    /// was installed before the series.
    pub proof fn lemma_resizes_follow_last(self, sizes: Seq<PhysicalSize>)
        ensures
            forall|n: int|
                0 < n <= sizes.len() ==> {
                    let after = #[trigger] self.resized_through(sizes.take(n));
                    &&& after.wf()
                    &&& after.size == sizes[n - 1]
                    &&& after.sc_desc.width == sizes[n - 1].width
                    &&& after.sc_desc.height == sizes[n - 1].height
                    &&& after.swap_chain.desc.width == sizes[n - 1].width
                    &&& after.swap_chain.desc.height == sizes[n - 1].height
                    &&& after.depth_texture.view.width == sizes[n - 1].width
                    &&& after.depth_texture.view.height == sizes[n - 1].height
                },
            self.resized_through(sizes).effect == self.effect,
            self.resized_through(sizes).sc_desc.format == self.sc_desc.format,
        decreases sizes.len(),
    {
        if sizes.len() > 0 {
            self.lemma_resizes_follow_last(sizes.drop_last());
        }
        assert forall|n: int| 0 < n <= sizes.len() implies ({
            let after = #[trigger] self.resized_through(sizes.take(n));
            &&& after.wf()
            &&& after.size == sizes[n - 1]
            &&& after.sc_desc.width == sizes[n - 1].width
            &&& after.sc_desc.height == sizes[n - 1].height
            &&& after.swap_chain.desc.width == sizes[n - 1].width
            &&& after.swap_chain.desc.height == sizes[n - 1].height
            &&& after.depth_texture.view.width == sizes[n - 1].width
            &&& after.depth_texture.view.height == sizes[n - 1].height
        }) by {
            assert(sizes.take(n).last() == sizes[n - 1]);
        }
    }

    /// The effect that was installed last is the current one, whether or not
    /// another was installed before it.
    pub proof fn lemma_installed_effect_is_current(self, earlier: BasicEffect, effect: BasicEffect)
        ensures
            self.with_effect(effect).effect.is_some(),
            self.with_effect(effect).current_effect() == effect,
            self.with_effect(earlier).with_effect(effect).current_effect() == effect,
    {
    }

    /// A frame is one submitted command buffer with one render pass in it.
    /// The pass clears colour to the background and depth to the far plane,
    /// and holds one draw: three vertices, one instance.
    pub proof fn lemma_frame_is_one_pass_one_draw(self)
        requires
            self.effect.is_some(),
        ensures
            ({
                let pass = self.frame_pass();
                let submitted = seq![seq![pass]];
                &&& submitted.len() == 1
                &&& pass_count(submitted) == 1
                &&& submitted_draw_count(submitted) == 1
                &&& pass.desc.clears_to(background(), CLEAR_DEPTH)
                &&& pass.desc.color_attachment.attachment == self.swap_chain.image_view()
                &&& pass.desc.depth_stencil_attachment.unwrap().attachment
                    == self.depth_texture.view
                &&& draw_count(pass.commands) == 1
                &&& pass.commands.len() == 3
                &&& pass.commands[2] matches RenderCommand::Draw { vertices, instances }
                &&& vertices.start == 0 && vertices.count() == 3
                &&& instances.start == 0 && instances.count() == 1
            }),
    {
        let pass = self.frame_pass();
        self.current_effect().lemma_recorded_draws_once();
        let no_passes = Seq::<RenderPassView>::empty();
        let no_buffers = Seq::<Seq<RenderPassView>>::empty();
        lemma_total_draw_count_push(no_passes, pass);
        assert(seq![pass] == no_passes.push(pass));
        lemma_counts_push(no_buffers, seq![pass]);
        assert(seq![seq![pass]] == no_buffers.push(seq![pass]));
    }

    /// In every frame that a well-formed context records, the colour
    /// attachment and the depth attachment have the same extent, that of the
    /// swap-chain configuration; and an effect that was built for the
    /// format of the configuration fits the formats of both.
    pub proof fn lemma_frame_attachments_agree(self)
        requires
            self.wf(),
            self.effect.is_some(),
        ensures
            ({
                let desc = self.frame_pass().desc;
                let color = desc.color_attachment.attachment;
                let depth = desc.depth_stencil_attachment.unwrap().attachment;
                &&& color.width == depth.width == self.sc_desc.width
                &&& color.height == depth.height == self.sc_desc.height
                &&& color.format == self.sc_desc.format
                &&& depth.format == DEPTH_FORMAT
                &&& self.current_effect() == BasicEffect::built(
                    self.sc_desc.format,
                    self.current_effect().camera_obj,
                ) ==> self.current_effect().render_pipeline.fits_attachments(
                    color.format,
                    Some(depth.format),
                )
            }),
    {
    }
}

impl BasicEffect {
    /// Among the commands of an effect exactly one is a draw, the last.
    pub proof fn lemma_recorded_draws_once(self)
        ensures
            self.recorded().len() == 3,
            draw_count(self.recorded()) == 1,
            self.recorded()[2] is Draw,
    {
        let all = self.recorded();
        let none = Seq::<RenderCommand>::empty();
        lemma_draw_count_push(none, all[0]);
        lemma_draw_count_push(none.push(all[0]), all[1]);
        lemma_draw_count_push(none.push(all[0]).push(all[1]), all[2]);
        assert(all == none.push(all[0]).push(all[1]).push(all[2]));
    }

    /// The effect built for a target of `color_format` around `camera_obj`.
    pub open spec fn built(color_format: TextureFormat, camera_obj: GPUObject) -> BasicEffect {
        BasicEffect {
            render_pipeline: RenderPipeline::basic(color_format, camera_obj.layout),
            camera_obj,
        }
    }

    /// The commands with which the effect fills a pass: it binds its
    /// pipeline, binds the camera at the camera's slot, and draws the three
    /// vertices of one triangle, once.
    pub open spec fn recorded(self) -> Seq<RenderCommand> {
        seq![
            RenderCommand::SetPipeline(self.render_pipeline),
            RenderCommand::SetBindGroup {
                index: self.camera_obj.binding,
                bind_group: self.camera_obj.bind_group,
            },
            RenderCommand::Draw {
                vertices: IndexRange { start: 0, end: TRIANGLE_VERTICES },
                instances: IndexRange { start: 0, end: 1 },
            },
        ]
    }

    /// Builds the effect for the context `gpu` around `camera_obj`.
    ///
    /// The pipeline takes no vertex buffers and has one bind group, laid out
    /// as the camera's. It draws filled triangle lists with counter-clockwise
    /// fronts and culls back faces; tests depth with "less" against the
    /// depth format and writes it, without stencil or bias; takes one sample
    /// per pixel; and replaces one colour target of the context's current
    /// format. Both stages start at the fixed entry point.
    pub fn new(gpu: &State, camera_obj: GPUObject) -> (effect: BasicEffect)
        ensures
            effect == BasicEffect::built(gpu.sc_desc.format, camera_obj),
            effect.camera_obj == camera_obj,
            effect.render_pipeline.layout.bind_group_layout == camera_obj.layout,
            effect.render_pipeline.vertex.buffers == 0,
            effect.render_pipeline.vertex.entry_point@ == ENTRY_POINT@,
            effect.render_pipeline.primitive.topology == PrimitiveTopology::TriangleList,
            effect.render_pipeline.primitive.front_face == FrontFace::Ccw,
            effect.render_pipeline.primitive.cull_mode == CullMode::Back,
            effect.render_pipeline.primitive.polygon_mode == PolygonMode::Fill,
            effect.render_pipeline.multisample.count == 1,
            effect.render_pipeline.depth_stencil matches Some(depth_stencil) && {
                &&& depth_stencil.format == DEPTH_FORMAT
                &&& depth_stencil.depth_compare == CompareFunction::Less
                &&& depth_stencil.depth_write_enabled
                &&& !depth_stencil.stencil.is_enabled()
                &&& !depth_stencil.bias.is_enabled()
            },
            effect.render_pipeline.fragment matches Some(fragment) && {
                &&& fragment.entry_point@ == ENTRY_POINT@
                &&& fragment.target.format == gpu.sc_desc.format
                &&& fragment.target.color_blend == BlendState::replace()
                &&& fragment.target.alpha_blend == BlendState::replace()
            },
            effect.render_pipeline.fits_attachments(gpu.sc_desc.format, Some(DEPTH_FORMAT)),
    {
        let vs_module = ShaderModule { stage: ShaderStage::Vertex };
        let fs_module = ShaderModule { stage: ShaderStage::Fragment };
        let render_pipeline_layout = PipelineLayout {
            bind_group_layout: camera_obj.layout,
            push_constant_ranges: 0,
        };
        let render_pipeline = RenderPipeline {
            layout: render_pipeline_layout,
            vertex: VertexState { module: vs_module, entry_point: ENTRY_POINT, buffers: 0 },
            fragment: Some(
                FragmentState {
                    module: fs_module,
                    entry_point: ENTRY_POINT,
                    target: ColorTargetState {
                        format: gpu.sc_desc.format,
                        alpha_blend: BlendState::replace(),
                        color_blend: BlendState::replace(),
                        write_mask: COLOR_WRITE_ALL,
                    },
                },
            ),
            primitive: PrimitiveState {
                topology: PrimitiveTopology::TriangleList,
                strip_index_format: None,
                front_face: FrontFace::Ccw,
                cull_mode: CullMode::Back,
                polygon_mode: PolygonMode::Fill,
            },
            depth_stencil: Some(
                DepthStencilState {
                    format: DEPTH_FORMAT,
                    depth_write_enabled: true,
                    depth_compare: CompareFunction::Less,
                    stencil: StencilState::disabled(),
                    bias: DepthBiasState::zero(),
                    clamp_depth: false,
                },
            ),
            multisample: MultisampleState {
                count: 1,
                mask: SAMPLE_MASK_ALL,
                alpha_to_coverage_enabled: false,
            },
        };
        BasicEffect { render_pipeline, camera_obj }
    }

    /// Fills `render_pass` with the commands of the effect, after whatever
    /// the pass already holds.
    pub fn render(&self, render_pass: &mut RenderPass)
        ensures
            final(render_pass)@.desc == old(render_pass)@.desc,
            final(render_pass)@.commands == old(render_pass)@.commands + self.recorded(),
    {
        render_pass.set_pipeline(&self.render_pipeline);
        render_pass.set_bind_group(self.camera_obj.binding, &self.camera_obj.bind_group);
        render_pass.draw(
            IndexRange { start: 0, end: TRIANGLE_VERTICES },
            IndexRange { start: 0, end: 1 },
        );
    }

    /// The write of `bytes` to the start of `buffer`.
    #[allow(unused_variables)]
    pub fn write_buffer(&self, gpu: &State, buffer: &Buffer, bytes: &[u8]) -> (write: BufferWrite)
        ensures
            write@ == (BufferWriteView { buffer: *buffer, offset: 0, data: bytes@ }),
            write@.overwrites_start_with(bytes@),
    {
        BufferWrite::at_start(buffer, bytes)
    }

    /// The write of `bytes` to the start of the camera's buffer.
    #[allow(unused_variables)]
    pub fn write_camera_buffer(&self, gpu: &State, bytes: &[u8]) -> (write: BufferWrite)
        ensures
            write@ == (BufferWriteView { buffer: self.camera_obj.buffer, offset: 0, data: bytes@ }),
            write@.overwrites_start_with(bytes@),
    {
        BufferWrite::at_start(&self.camera_obj.buffer, bytes)
    }
}

} // verus!
