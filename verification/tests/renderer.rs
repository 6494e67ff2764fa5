use pixel_canvas::geometry::{InputStepMode, Vertex};
use pixel_canvas::pipeline::{
    color_target_state, create_pipeline, BlendFactor, BlendOperation, BlendState, ColorTargetState,
    ColorWrite, CullMode, FrontFace, MultisampleState, PolygonMode, PrimitiveState,
    PrimitiveTopology,
};
use pixel_canvas::pixel::{Pixel, PixelBuffer};
use pixel_canvas::renderer::Renderer;
use pixel_canvas::state::{FrameAction, FrameStatus, PhysicalSize, RenderCommand, SkipReason};
use pixel_canvas::texture::{bind_group_layout, TextureDataLayout, TextureFormat, UploadError};

fn window() -> PhysicalSize {
    PhysicalSize { width: 800, height: 600 }
}

fn replace() -> BlendState {
    BlendState {
        src_factor: BlendFactor::One,
        dst_factor: BlendFactor::Zero,
        operation: BlendOperation::Add,
    }
}

#[test]
fn new_renderer_has_a_black_canvas_of_the_texture_size() {
    let mut renderer = Renderer::new(128, 128, window());
    assert_eq!(renderer.pixels().len(), 128 * 128);
    assert_eq!(renderer.state().layer.width, 128);
    assert_eq!(renderer.state().layer.height, 128);
    assert_eq!(renderer.state().size, window());
    let write = renderer.draw().unwrap();
    assert_eq!(write.data.len(), 128 * 128 * 4);
    for px in write.data.chunks(4) {
        assert_eq!(px, &[0u8, 0, 0, 255][..]);
    }
}

#[test]
fn red_center_pixel_reaches_the_upload_and_the_quad_is_drawn() {
    let red = Pixel { r: 255, g: 0, b: 0, a: 255 };
    let black = Pixel { r: 0, g: 0, b: 0, a: 255 };
    let mut renderer = Renderer::new(128, 128, window());
    *renderer.pixel_at(64, 64) = red;

    let write = renderer.draw().unwrap();
    assert_eq!(
        write.layout,
        TextureDataLayout { offset: 0, bytes_per_row: 512, rows_per_image: 128 }
    );
    assert_eq!(write.texel_at(64, 64), red);
    assert_eq!(&write.data[4 * (64 * 128 + 64)..4 * (64 * 128 + 64) + 4], &[255u8, 0, 0, 255][..]);
    assert_eq!(write.texel_at(0, 0), black);
    assert_eq!(write.texel_at(127, 0), black);
    assert_eq!(write.texel_at(0, 127), black);
    assert_eq!(write.texel_at(127, 127), black);

    match renderer.render(FrameStatus::Acquired) {
        FrameAction::Submit(pass) => {
            assert_eq!(pass.clear, black);
            assert!(pass.store);
            assert_eq!(pass.commands.len(), 5);
            assert_eq!(
                pass.commands[4],
                RenderCommand::DrawIndexed {
                    first_index: 0,
                    end_index: 6,
                    base_vertex: 0,
                    first_instance: 0,
                    end_instance: 1,
                }
            );
        }
        other => panic!("no pass: {:?}", other),
    }
}

#[test]
fn pixel_at_is_row_major() {
    let mut renderer = Renderer::new(5, 3, window());
    *renderer.pixel_at(4, 2) = Pixel { r: 1, g: 2, b: 3, a: 4 };
    *renderer.pixel_at(0, 1) = Pixel { r: 5, g: 6, b: 7, a: 8 };
    assert_eq!(*renderer.pixels().flap(2 * 5 + 4), Pixel { r: 1, g: 2, b: 3, a: 4 });
    assert_eq!(*renderer.pixels().flap(5), Pixel { r: 5, g: 6, b: 7, a: 8 });
    assert_eq!(*renderer.pixel_at(4, 2), Pixel { r: 1, g: 2, b: 3, a: 4 });
}

#[test]
fn draw_shows_the_latest_pixels() {
    let mut renderer = Renderer::new(2, 2, window());
    *renderer.pixels().flap(3) = Pixel { r: 9, g: 9, b: 9, a: 9 };
    let first = renderer.draw().unwrap();
    assert_eq!(first, renderer.draw().unwrap());
    *renderer.pixels().flap(3) = Pixel { r: 7, g: 7, b: 7, a: 7 };
    let second = renderer.draw().unwrap();
    assert_eq!(second.texel_at(1, 1), Pixel { r: 7, g: 7, b: 7, a: 7 });
    assert_eq!(second.texel_at(0, 0), Pixel { r: 0, g: 0, b: 0, a: 255 });
}

#[test]
fn draw_refuses_a_buffer_of_another_size() {
    let mut renderer = Renderer::new(128, 128, window());
    *renderer.pixels() = PixelBuffer::with_capacity(100);
    assert_eq!(
        renderer.draw(),
        Err(UploadError::SizeMismatch { expected: 16384, actual: 100 })
    );
}

#[test]
fn resize_leaves_the_canvas_alone() {
    let mut renderer = Renderer::new(4, 4, window());
    *renderer.pixel_at(1, 2) = Pixel { r: 3, g: 2, b: 1, a: 0 };
    let before = renderer.draw().unwrap();
    let recreate = renderer.resize(PhysicalSize { width: 320, height: 240 });
    assert_eq!(recreate.map(|d| (d.width, d.height)), Some((320, 240)));
    assert_eq!(renderer.draw().unwrap(), before);
    assert_eq!(renderer.state().layer.width, 4);
    assert_eq!(renderer.begin_frame(), Err(SkipReason::SurfaceInvalid));
    assert_eq!(
        renderer.render(FrameStatus::Acquired),
        FrameAction::Skip(SkipReason::SurfaceInvalid)
    );
    renderer.swap_chain_recreated();
    assert_eq!(renderer.begin_frame(), Ok(()));
    assert!(matches!(renderer.render(FrameStatus::Acquired), FrameAction::Submit(_)));
}

#[test]
fn resize_with_a_zero_is_ignored() {
    let mut renderer = Renderer::new(4, 4, window());
    let before = *renderer.state();
    assert_eq!(renderer.resize(PhysicalSize { width: 0, height: 240 }), None);
    assert_eq!(renderer.resize(PhysicalSize { width: 320, height: 0 }), None);
    assert_eq!(*renderer.state(), before);
    assert!(matches!(renderer.render(FrameStatus::Acquired), FrameAction::Submit(_)));
}

#[test]
fn color_target_replaces_in_all_channels() {
    assert_eq!(
        color_target_state(),
        ColorTargetState {
            format: TextureFormat::Bgra8UnormSrgb,
            color_blend: replace(),
            alpha_blend: replace(),
            write_mask: ColorWrite { red: true, green: true, blue: true, alpha: true },
        }
    );
}

#[test]
fn pipeline_is_the_fixed_quad_pipeline() {
    let desc = create_pipeline(bind_group_layout());
    assert_eq!(desc.bind_group_layouts, [bind_group_layout()]);
    assert_eq!(desc.vertex.entry_point, "main");
    assert_eq!(desc.vertex.buffers, [Vertex::desc()]);
    assert_eq!(desc.vertex.buffers[0].array_stride, 20);
    assert_eq!(desc.vertex.buffers[0].step_mode, InputStepMode::Vertex);
    assert_eq!(
        desc.primitive,
        PrimitiveState {
            topology: PrimitiveTopology::TriangleList,
            strip_index_format: None,
            front_face: FrontFace::Ccw,
            cull_mode: CullMode::Back,
            polygon_mode: PolygonMode::Fill,
        }
    );
    assert_eq!(desc.depth_stencil, None);
    assert_eq!(
        desc.multisample,
        MultisampleState { count: 1, mask: u64::MAX, alpha_to_coverage_enabled: false }
    );
    let fragment = desc.fragment.unwrap();
    assert_eq!(fragment.entry_point, "main");
    assert_eq!(fragment.targets, [color_target_state()]);
}
