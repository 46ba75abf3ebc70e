use alchemy_framework::adapter::{
    Backend, DeviceDescriptor, Limits, PowerPreference, RequestAdapterOptions, Requirements,
};
use alchemy_framework::camera::{BindGroup, BindGroupLayout, Buffer, GPUObject};
use alchemy_framework::gpu::{BasicEffect, State, RENDERFORMAT, SCPRESENT, SCUSAGE};
use alchemy_framework::swap_chain::{
    Acquired, PhysicalSize, PresentMode, SwapChain, SwapChainDescriptor, SwapChainFrame,
    SwapChainTexture,
};
use alchemy_framework::texture::{
    Texture, TextureFormat, TextureUsage, TextureView, DEPTH_FORMAT,
};

fn camera(first_id: u64, binding: u32) -> GPUObject {
    GPUObject {
        layout: BindGroupLayout { id: first_id },
        bind_group: BindGroup { id: first_id + 1 },
        buffer: Buffer { id: first_id + 2 },
        binding,
    }
}

#[test]
fn requirements_ask_for_vulkan_and_a_plain_device() {
    assert_eq!(
        State::requirements(),
        Requirements {
            backend: Backend::Vulkan,
            adapter: RequestAdapterOptions {
                power_preference: PowerPreference::LowPower,
                compatible_surface: true,
            },
            device: DeviceDescriptor { features: 0, limits: Limits::Default },
        }
    );
    assert_eq!(PowerPreference::default(), PowerPreference::LowPower);
}

#[test]
fn fixed_presentation_settings() {
    assert_eq!(RENDERFORMAT, TextureFormat::Bgra8UnormSrgb);
    assert_eq!(SCUSAGE, TextureUsage::RenderAttachment);
    assert_eq!(SCPRESENT, PresentMode::Fifo);
    assert_eq!(DEPTH_FORMAT, TextureFormat::Depth32Float);
}

#[test]
fn new_context_for_800_by_600() {
    let state = State::new(PhysicalSize { width: 800, height: 600 });
    let sc_desc = SwapChainDescriptor {
        usage: TextureUsage::RenderAttachment,
        format: TextureFormat::Bgra8UnormSrgb,
        width: 800,
        height: 600,
        present_mode: PresentMode::Fifo,
    };
    assert_eq!(state.sc_desc, sc_desc);
    assert_eq!(state.swap_chain, SwapChain { desc: sc_desc });
    assert_eq!(state.size, PhysicalSize { width: 800, height: 600 });
    assert_eq!(
        state.depth_texture,
        Texture {
            usage: TextureUsage::RenderAttachment,
            view: TextureView { format: TextureFormat::Depth32Float, width: 800, height: 600 },
        }
    );
    assert_eq!(state.effect, None);
}

#[test]
fn new_context_depth_buffer_has_swap_chain_extent() {
    let sizes = [(1u32, 1u32), (800, 600), (1, 4096), (1920, 1080), (u32::MAX, u32::MAX)];
    for (width, height) in sizes {
        let state = State::new(PhysicalSize { width, height });
        assert_eq!(state.depth_texture.view.width, state.sc_desc.width);
        assert_eq!(state.depth_texture.view.height, state.sc_desc.height);
        assert_eq!(state.sc_desc.width, width);
        assert_eq!(state.sc_desc.height, height);
        assert_eq!(state.swap_chain.desc, state.sc_desc);
    }
}

#[test]
fn new_context_for_an_empty_window() {
    let state = State::new(PhysicalSize { width: 0, height: 0 });
    assert_eq!(state.sc_desc.width, 0);
    assert_eq!(state.sc_desc.height, 0);
    assert_eq!(state.depth_texture.view.width, 0);
    assert_eq!(state.depth_texture.view.height, 0);
}

#[test]
fn resize_to_1024_by_768_rebuilds_both() {
    let mut state = State::new(PhysicalSize { width: 800, height: 600 });
    let effect = BasicEffect::new(&state, camera(10, 0));
    state.add_effect(effect);
    state.resize(PhysicalSize { width: 1024, height: 768 });
    let sc_desc = SwapChainDescriptor {
        usage: TextureUsage::RenderAttachment,
        format: TextureFormat::Bgra8UnormSrgb,
        width: 1024,
        height: 768,
        present_mode: PresentMode::Fifo,
    };
    assert_eq!(state.size, PhysicalSize { width: 1024, height: 768 });
    assert_eq!(state.sc_desc, sc_desc);
    assert_eq!(state.swap_chain, SwapChain { desc: sc_desc });
    assert_eq!(
        state.depth_texture,
        Texture {
            usage: TextureUsage::RenderAttachment,
            view: TextureView { format: TextureFormat::Depth32Float, width: 1024, height: 768 },
        }
    );
    let untouched =
        BasicEffect::new(&State::new(PhysicalSize { width: 800, height: 600 }), camera(10, 0));
    assert_eq!(state.effect, Some(untouched));
}

#[test]
fn resize_without_effect_leaves_slot_empty() {
    let mut state = State::new(PhysicalSize { width: 640, height: 480 });
    state.resize(PhysicalSize { width: 320, height: 240 });
    assert_eq!(state.effect, None);
    assert_eq!(state.sc_desc.width, 320);
    assert_eq!(state.depth_texture.view.height, 240);
}

#[test]
fn each_resize_of_a_series_takes_the_latest_size() {
    let mut state = State::new(PhysicalSize { width: 800, height: 600 });
    let sizes = [(1024u32, 768u32), (1, 1), (0, 0), (3840, 2160), (800, 600), (800, 600), (7, 9)];
    for (width, height) in sizes {
        state.resize(PhysicalSize { width, height });
        assert_eq!(state.size, PhysicalSize { width, height });
        assert_eq!(state.sc_desc.width, width);
        assert_eq!(state.sc_desc.height, height);
        assert_eq!(state.swap_chain.desc.width, width);
        assert_eq!(state.swap_chain.desc.height, height);
        assert_eq!(state.depth_texture.view.width, width);
        assert_eq!(state.depth_texture.view.height, height);
        assert_eq!(state.sc_desc.format, TextureFormat::Bgra8UnormSrgb);
        assert_eq!(state.sc_desc.usage, TextureUsage::RenderAttachment);
        assert_eq!(state.sc_desc.present_mode, PresentMode::Fifo);
        assert_eq!(state.depth_texture.view.format, TextureFormat::Depth32Float);
    }
}

#[test]
fn resize_keeps_a_changed_format() {
    let mut state = State::new(PhysicalSize { width: 800, height: 600 });
    state.sc_desc.format = TextureFormat::Bgra8Unorm;
    state.resize(PhysicalSize { width: 500, height: 400 });
    assert_eq!(state.sc_desc.format, TextureFormat::Bgra8Unorm);
    assert_eq!(state.swap_chain.desc.format, TextureFormat::Bgra8Unorm);
    assert_eq!(state.swap_chain.desc.width, 500);
    assert_eq!(state.depth_texture.view.format, TextureFormat::Depth32Float);
}

#[test]
fn installed_effect_is_the_current_one() {
    let mut state = State::new(PhysicalSize { width: 800, height: 600 });
    let effect = BasicEffect::new(&state, camera(40, 2));
    let same = BasicEffect::new(&state, camera(40, 2));
    state.add_effect(effect);
    assert_eq!(state.get_effect(), &same);
    assert!(std::ptr::eq(state.get_effect(), state.effect.as_ref().unwrap()));
}

#[test]
fn installing_again_replaces_the_effect() {
    let mut state = State::new(PhysicalSize { width: 800, height: 600 });
    let first = BasicEffect::new(&state, camera(1, 0));
    let second = BasicEffect::new(&state, camera(100, 1));
    state.add_effect(first);
    state.add_effect(second);
    assert_eq!(state.get_effect().camera_obj, camera(100, 1));
    assert_ne!(state.get_effect().camera_obj, camera(1, 0));
}

#[test]
fn add_effect_changes_nothing_else() {
    let mut state = State::new(PhysicalSize { width: 800, height: 600 });
    let before = State::new(PhysicalSize { width: 800, height: 600 });
    state.add_effect(BasicEffect::new(&before, camera(1, 0)));
    assert_eq!(state.sc_desc, before.sc_desc);
    assert_eq!(state.swap_chain, before.swap_chain);
    assert_eq!(state.size, before.size);
    assert_eq!(state.depth_texture, before.depth_texture);
}

#[test]
fn depth_texture_follows_the_descriptor() {
    let sc_desc = SwapChainDescriptor {
        usage: TextureUsage::RenderAttachment,
        format: TextureFormat::Bgra8Unorm,
        width: 12,
        height: 34,
        present_mode: PresentMode::Mailbox,
    };
    assert_eq!(
        Texture::create_depth_texture(&sc_desc),
        Texture {
            usage: TextureUsage::RenderAttachment,
            view: TextureView { format: TextureFormat::Depth32Float, width: 12, height: 34 },
        }
    );
}

#[test]
fn swap_chain_hands_out_frames_of_its_own_extent() {
    let sc_desc = SwapChainDescriptor {
        usage: TextureUsage::RenderAttachment,
        format: TextureFormat::Bgra8UnormSrgb,
        width: 800,
        height: 600,
        present_mode: PresentMode::Fifo,
    };
    let chain = SwapChain::create(&sc_desc);
    assert_eq!(chain, SwapChain { desc: sc_desc });
    let view = TextureView { format: TextureFormat::Bgra8UnormSrgb, width: 800, height: 600 };
    assert_eq!(
        chain.frame(Acquired { suboptimal: false }),
        SwapChainFrame { output: SwapChainTexture { view }, suboptimal: false }
    );
    assert_eq!(
        chain.frame(Acquired { suboptimal: true }),
        SwapChainFrame { output: SwapChainTexture { view }, suboptimal: true }
    );
}
