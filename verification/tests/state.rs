use pixel_canvas::geometry::IndexFormat;
use pixel_canvas::pixel::Pixel;
use pixel_canvas::state::{
    FrameAction, FrameFailure, FrameStatus, PhysicalSize, PresentMode, RenderCommand, RenderPass,
    SkipReason, State, SwapChainDescriptor,
};
use pixel_canvas::texture::{Extent3d, TextureFormat, TextureUsage};

fn size(width: u32, height: u32) -> PhysicalSize {
    PhysicalSize { width, height }
}

fn descriptor(width: u32, height: u32) -> SwapChainDescriptor {
    SwapChainDescriptor {
        usage: TextureUsage {
            copy_src: false,
            copy_dst: false,
            sampled: false,
            storage: false,
            render_attachment: true,
        },
        format: TextureFormat::Bgra8UnormSrgb,
        width,
        height,
        present_mode: PresentMode::Fifo,
    }
}

fn quad_pass() -> RenderPass {
    RenderPass {
        clear: Pixel { r: 0, g: 0, b: 0, a: 255 },
        store: true,
        commands: vec![
            RenderCommand::SetPipeline,
            RenderCommand::SetBindGroup { index: 0 },
            RenderCommand::SetVertexBuffer { slot: 0 },
            RenderCommand::SetIndexBuffer { format: IndexFormat::Uint16 },
            RenderCommand::DrawIndexed {
                first_index: 0,
                end_index: 6,
                base_vertex: 0,
                first_instance: 0,
                end_instance: 1,
            },
        ],
    }
}

#[test]
fn new_state_follows_the_window() {
    let state = State::new(size(800, 600), 128, 128);
    assert_eq!(state.size, size(800, 600));
    assert_eq!(state.sc_desc, descriptor(800, 600));
    assert!(state.surface_valid);
    assert_eq!(state.num_indices, 6);
    assert_eq!(state.layer.width, 128);
    assert_eq!(state.layer.height, 128);
    assert_eq!(state.layer.texture_size, Extent3d { width: 128, height: 128, depth: 1 });
}

#[test]
fn pipeline_writes_the_format_of_the_swap_chain() {
    let state = State::new(size(800, 600), 128, 128);
    let fragment = state.render_pipeline.fragment.unwrap();
    assert_eq!(fragment.targets[0].format, state.sc_desc.format);
}

#[test]
fn resize_updates_size_and_descriptor() {
    let mut state = State::new(size(800, 600), 128, 128);
    let recreate = state.resize(size(1024, 768));
    assert_eq!(recreate, Some(descriptor(1024, 768)));
    assert_eq!(state.size, size(1024, 768));
    assert_eq!(state.sc_desc, descriptor(1024, 768));
    assert!(!state.surface_valid);
}

#[test]
fn resize_to_zero_width_changes_nothing() {
    let mut state = State::new(size(800, 600), 128, 128);
    let before = state;
    assert_eq!(state.resize(size(0, 480)), None);
    assert_eq!(state, before);
    assert!(state.surface_valid);
}

#[test]
fn resize_to_zero_height_changes_nothing() {
    let mut state = State::new(size(800, 600), 128, 128);
    let before = state;
    assert_eq!(state.resize(size(640, 0)), None);
    assert_eq!(state, before);
}

#[test]
fn resize_to_zero_by_zero_changes_nothing() {
    let mut state = State::new(size(800, 600), 128, 128);
    let before = state;
    assert_eq!(state.resize(size(0, 0)), None);
    assert_eq!(state, before);
}

#[test]
fn zero_resize_does_not_revalidate_a_pending_surface() {
    let mut state = State::new(size(800, 600), 128, 128);
    state.resize(size(640, 480));
    let before = state;
    assert_eq!(state.resize(size(0, 5)), None);
    assert_eq!(state, before);
    assert!(!state.surface_valid);
}

#[test]
fn resize_twice_is_resize_once() {
    let mut once = State::new(size(800, 600), 128, 128);
    once.resize(size(640, 480));
    let mut twice = State::new(size(800, 600), 128, 128);
    twice.resize(size(640, 480));
    let again = twice.resize(size(640, 480));
    assert_eq!(again, Some(descriptor(640, 480)));
    assert_eq!(twice, once);

    once.swap_chain_recreated();
    let mut redone = once;
    redone.resize(size(640, 480));
    assert_eq!(redone.sc_desc, once.sc_desc);
    redone.swap_chain_recreated();
    assert_eq!(redone, once);
    assert_eq!(redone.render(FrameStatus::Acquired), once.render(FrameStatus::Acquired));
}

#[test]
fn resize_keeps_pipeline_texture_and_indices() {
    let mut state = State::new(size(800, 600), 128, 128);
    let before = state;
    state.resize(size(1920, 1080));
    assert_eq!(state.render_pipeline, before.render_pipeline);
    assert_eq!(state.layer, before.layer);
    assert_eq!(state.num_indices, before.num_indices);
    assert_eq!(state.sc_desc.format, before.sc_desc.format);
    assert_eq!(state.sc_desc.present_mode, before.sc_desc.present_mode);
    assert_eq!(state.sc_desc.usage, before.sc_desc.usage);
}

#[test]
fn render_draws_the_quad_into_an_acquired_frame() {
    let state = State::new(size(800, 600), 128, 128);
    assert_eq!(state.render(FrameStatus::Acquired), FrameAction::Submit(quad_pass()));
}

#[test]
fn render_skips_on_timeout() {
    let state = State::new(size(800, 600), 128, 128);
    assert_eq!(state.render(FrameStatus::Timeout), FrameAction::Skip(SkipReason::Timeout));
}

#[test]
fn render_skips_on_outdated_surface() {
    let state = State::new(size(800, 600), 128, 128);
    assert_eq!(state.render(FrameStatus::Outdated), FrameAction::Skip(SkipReason::Outdated));
}

#[test]
fn render_gives_up_on_a_lost_swap_chain() {
    let state = State::new(size(800, 600), 128, 128);
    assert_eq!(state.render(FrameStatus::Lost), FrameAction::Abort(FrameFailure::Lost));
}

#[test]
fn render_gives_up_when_out_of_memory() {
    let state = State::new(size(800, 600), 128, 128);
    assert_eq!(
        state.render(FrameStatus::OutOfMemory),
        FrameAction::Abort(FrameFailure::OutOfMemory)
    );
}

#[test]
fn begin_frame_asks_for_an_image_while_the_swap_chain_is_valid() {
    let mut state = State::new(size(800, 600), 128, 128);
    assert_eq!(state.begin_frame(), Ok(()));
    state.resize(size(0, 0));
    assert_eq!(state.begin_frame(), Ok(()));
    state.resize(size(640, 480));
    assert_eq!(state.begin_frame(), Err(SkipReason::SurfaceInvalid));
    state.swap_chain_recreated();
    assert_eq!(state.begin_frame(), Ok(()));
}

#[test]
fn render_skips_until_swap_chain_is_recreated() {
    let mut state = State::new(size(800, 600), 128, 128);
    state.resize(size(640, 480));
    let statuses = [
        FrameStatus::Acquired,
        FrameStatus::Timeout,
        FrameStatus::Outdated,
        FrameStatus::Lost,
        FrameStatus::OutOfMemory,
    ];
    for frame in statuses.iter() {
        assert_eq!(state.render(*frame), FrameAction::Skip(SkipReason::SurfaceInvalid));
    }
    state.swap_chain_recreated();
    assert!(state.surface_valid);
    assert_eq!(state.size, size(640, 480));
    assert_eq!(state.render(FrameStatus::Acquired), FrameAction::Submit(quad_pass()));
}

#[test]
fn render_is_the_same_when_nothing_changed() {
    let state = State::new(size(800, 600), 128, 128);
    assert_eq!(state.render(FrameStatus::Acquired), state.render(FrameStatus::Acquired));
}
