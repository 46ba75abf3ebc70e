use alchemy_framework::camera::{BindGroup, BindGroupLayout, Buffer, GPUObject};
use alchemy_framework::command::{
    Color, CommandEncoder, IndexRange, LoadOp, Operations, RenderCommand,
    RenderPassColorAttachmentDescriptor, RenderPassDescriptor,
};
use alchemy_framework::gpu::{BasicEffect, State, TRIANGLE_VERTICES};
use alchemy_framework::pipeline::{
    BlendFactor, BlendOperation, BlendState, ColorTargetState, CompareFunction, CullMode,
    DepthBiasState, DepthStencilState, FragmentState, FrontFace, MultisampleState,
    PipelineLayout, PolygonMode, PrimitiveState, PrimitiveTopology, RenderPipeline, ShaderModule,
    ShaderStage, StencilFaceState, StencilOperation, StencilState, VertexState, COLOR_WRITE_ALL,
    ENTRY_POINT, SAMPLE_MASK_ALL,
};
use alchemy_framework::swap_chain::PhysicalSize;
use alchemy_framework::texture::{TextureFormat, TextureView};

fn the_camera() -> GPUObject {
    GPUObject {
        layout: BindGroupLayout { id: 7 },
        bind_group: BindGroup { id: 8 },
        buffer: Buffer { id: 9 },
        binding: 3,
    }
}

fn expected_pipeline(format: TextureFormat) -> RenderPipeline {
    let ignore = StencilFaceState {
        compare: CompareFunction::Always,
        fail_op: StencilOperation::Keep,
        depth_fail_op: StencilOperation::Keep,
        pass_op: StencilOperation::Keep,
    };
    let replace = BlendState {
        src_factor: BlendFactor::One,
        dst_factor: BlendFactor::Zero,
        operation: BlendOperation::Add,
    };
    RenderPipeline {
        layout: PipelineLayout {
            bind_group_layout: BindGroupLayout { id: 7 },
            push_constant_ranges: 0,
        },
        vertex: VertexState {
            module: ShaderModule { stage: ShaderStage::Vertex },
            entry_point: "main",
            buffers: 0,
        },
        primitive: PrimitiveState {
            topology: PrimitiveTopology::TriangleList,
            strip_index_format: None,
            front_face: FrontFace::Ccw,
            cull_mode: CullMode::Back,
            polygon_mode: PolygonMode::Fill,
        },
        depth_stencil: Some(DepthStencilState {
            format: TextureFormat::Depth32Float,
            depth_write_enabled: true,
            depth_compare: CompareFunction::Less,
            stencil: StencilState { front: ignore, back: ignore, read_mask: 0, write_mask: 0 },
            bias: DepthBiasState { constant: 0, slope_scale: 0, clamp: 0 },
            clamp_depth: false,
        }),
        multisample: MultisampleState {
            count: 1,
            mask: u64::MAX,
            alpha_to_coverage_enabled: false,
        },
        fragment: Some(FragmentState {
            module: ShaderModule { stage: ShaderStage::Fragment },
            entry_point: "main",
            target: ColorTargetState {
                format,
                alpha_blend: replace,
                color_blend: replace,
                write_mask: 15,
            },
        }),
    }
}

fn empty_pass_descriptor() -> RenderPassDescriptor {
    RenderPassDescriptor {
        color_attachment: RenderPassColorAttachmentDescriptor {
            attachment: TextureView { format: TextureFormat::Bgra8Unorm, width: 4, height: 4 },
            resolve_target: None,
            ops: Operations { load: LoadOp::Load, store: false },
        },
        depth_stencil_attachment: None,
    }
}

#[test]
fn pipeline_constants() {
    assert_eq!(ENTRY_POINT, "main");
    assert_eq!(COLOR_WRITE_ALL, 1 | 2 | 4 | 8);
    assert_eq!(SAMPLE_MASK_ALL, !0u64);
    assert_eq!(TRIANGLE_VERTICES, 3);
}

#[test]
fn fixed_states() {
    assert_eq!(
        BlendState::replace(),
        BlendState {
            src_factor: BlendFactor::One,
            dst_factor: BlendFactor::Zero,
            operation: BlendOperation::Add,
        }
    );
    let ignore = StencilFaceState {
        compare: CompareFunction::Always,
        fail_op: StencilOperation::Keep,
        depth_fail_op: StencilOperation::Keep,
        pass_op: StencilOperation::Keep,
    };
    assert_eq!(StencilFaceState::ignore(), ignore);
    assert_eq!(
        StencilState::disabled(),
        StencilState { front: ignore, back: ignore, read_mask: 0, write_mask: 0 }
    );
    assert_eq!(DepthBiasState::zero(), DepthBiasState { constant: 0, slope_scale: 0, clamp: 0 });
}

#[test]
fn new_effect_has_the_fixed_pipeline() {
    let state = State::new(PhysicalSize { width: 800, height: 600 });
    let effect = BasicEffect::new(&state, the_camera());
    assert_eq!(effect.render_pipeline, expected_pipeline(TextureFormat::Bgra8UnormSrgb));
    assert_eq!(effect.camera_obj, the_camera());
}

#[test]
fn new_effect_targets_the_current_format() {
    let mut state = State::new(PhysicalSize { width: 800, height: 600 });
    state.sc_desc.format = TextureFormat::Bgra8Unorm;
    let effect = BasicEffect::new(&state, the_camera());
    assert_eq!(effect.render_pipeline, expected_pipeline(TextureFormat::Bgra8Unorm));
    assert_eq!(effect.render_pipeline.fragment.unwrap().target.format, TextureFormat::Bgra8Unorm);
    assert_eq!(effect.render_pipeline.depth_stencil.unwrap().format, TextureFormat::Depth32Float);
}

#[test]
fn new_effect_uses_the_layout_of_its_camera() {
    let state = State::new(PhysicalSize { width: 2, height: 2 });
    let mut camera = the_camera();
    camera.layout = BindGroupLayout { id: 4242 };
    let effect = BasicEffect::new(&state, camera);
    assert_eq!(effect.render_pipeline.layout.bind_group_layout, BindGroupLayout { id: 4242 });
    assert_eq!(effect.render_pipeline.layout.push_constant_ranges, 0);
    assert_eq!(effect.camera_obj.bind_group, BindGroup { id: 8 });
}

#[test]
fn effect_records_pipeline_camera_and_one_triangle() {
    let state = State::new(PhysicalSize { width: 800, height: 600 });
    let effect = BasicEffect::new(&state, the_camera());
    let encoder = CommandEncoder::new();
    let mut pass = encoder.begin_render_pass(empty_pass_descriptor());
    effect.render(&mut pass);
    assert_eq!(
        pass.commands,
        vec![
            RenderCommand::SetPipeline(expected_pipeline(TextureFormat::Bgra8UnormSrgb)),
            RenderCommand::SetBindGroup { index: 3, bind_group: BindGroup { id: 8 } },
            RenderCommand::Draw {
                vertices: IndexRange { start: 0, end: 3 },
                instances: IndexRange { start: 0, end: 1 },
            },
        ]
    );
    assert_eq!(pass.desc, empty_pass_descriptor());
    assert_eq!(pass.draw_count(), 1);
}

#[test]
fn effect_records_behind_what_the_pass_holds() {
    let state = State::new(PhysicalSize { width: 800, height: 600 });
    let effect = BasicEffect::new(&state, the_camera());
    let encoder = CommandEncoder::new();
    let mut pass = encoder.begin_render_pass(empty_pass_descriptor());
    pass.draw(IndexRange { start: 5, end: 11 }, IndexRange { start: 0, end: 2 });
    effect.render(&mut pass);
    effect.render(&mut pass);
    assert_eq!(pass.commands.len(), 7);
    assert_eq!(
        pass.commands[0],
        RenderCommand::Draw {
            vertices: IndexRange { start: 5, end: 11 },
            instances: IndexRange { start: 0, end: 2 },
        }
    );
    assert_eq!(pass.commands[1], pass.commands[4]);
    assert_eq!(pass.commands[2], pass.commands[5]);
    assert_eq!(pass.commands[3], pass.commands[6]);
    assert_eq!(pass.draw_count(), 3);
}

#[test]
fn background_is_a_tenth_two_tenths_three_tenths_opaque() {
    assert_eq!(
        alchemy_framework::gpu::background(),
        Color { r: 100, g: 200, b: 300, a: 1000 }
    );
    assert_eq!(alchemy_framework::command::UNIT, 1000);
    assert_eq!(alchemy_framework::gpu::CLEAR_DEPTH, 1000);
}

#[test]
fn background_and_far_plane_as_fractions() {
    let color = alchemy_framework::gpu::background();
    let unit = f64::from(alchemy_framework::command::UNIT);
    assert_eq!(f64::from(color.r) / unit, 0.1);
    assert_eq!(f64::from(color.g) / unit, 0.2);
    assert_eq!(f64::from(color.b) / unit, 0.3);
    assert_eq!(f64::from(color.a) / unit, 1.0);
    assert_eq!(f64::from(alchemy_framework::gpu::CLEAR_DEPTH) / unit, 1.0);
}
