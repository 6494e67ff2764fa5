//! The presentation state: the swap-chain descriptor with its resize rule,
//! and the one render pass that draws a frame.

use crate::geometry::IndexFormat;
use crate::pipeline::{create_pipeline, RenderPipelineDescriptor};
use crate::pixel::Pixel;
use crate::texture::{
    bind_group_layout, canvas_bindings, Layer, TextureFormat, TextureUsage,
};
use vstd::prelude::*;

verus! {

/// The size of a window's drawable area in physical pixels: what a resize
/// event carries.
#[derive(Debug, Clone, Copy, PartialEq, Eq, Structural)]
pub struct PhysicalSize {
    pub width: u32,
    pub height: u32,
}

/// When a finished frame is shown.
#[derive(Debug, Clone, Copy, PartialEq, Eq, Structural)]
pub enum PresentMode {
    Immediate,
    Mailbox,
    /// Frames wait for the display's vertical blank, in the order submitted.
    Fifo,
}

/// Describes the swap chain: the images that a frame is drawn into.
#[derive(Debug, Clone, Copy, PartialEq, Eq, Structural)]
pub struct SwapChainDescriptor {
    pub usage: TextureUsage,
    pub format: TextureFormat,
    pub width: u32,
    pub height: u32,
    pub present_mode: PresentMode,
}

/// What acquiring the next swap-chain image gave.
#[derive(Debug, Clone, Copy, PartialEq, Eq, Structural)]
pub enum FrameStatus {
    /// An image is there to draw into.
    Acquired,
    /// No image came within the time allowed.
    Timeout,
    /// The surface has changed under the swap chain.
    Outdated,
    /// The swap chain is lost.
    Lost,
    /// No memory is left for a new frame.
    OutOfMemory,
}

/// Why a frame is not drawn.
#[derive(Debug, Clone, Copy, PartialEq, Eq, Structural)]
pub enum SkipReason {
    /// The swap chain has not been recreated since the last resize.
    SurfaceInvalid,
    /// No image came within the time allowed.
    Timeout,
    /// The surface has changed under the swap chain.
    Outdated,
}

/// Why presentation cannot go on.
#[derive(Debug, Clone, Copy, PartialEq, Eq, Structural)]
pub enum FrameFailure {
    /// The swap chain is lost.
    Lost,
    /// No memory is left for a new frame.
    OutOfMemory,
}

/// One command of the render pass.
#[derive(Debug, Clone, Copy, PartialEq, Eq, Structural)]
pub enum RenderCommand {
    /// Binds the pipeline of the quad.
    SetPipeline,
    /// Binds the texture and its sampler as the bind group of this index.
    SetBindGroup { index: u32 },
    /// Binds the whole vertex buffer of the quad to this slot.
    SetVertexBuffer { slot: u32 },
    /// Binds the whole index buffer of the quad, read in this format.
    SetIndexBuffer { format: IndexFormat },
    /// Draws the indices from `first_index` up to, not including,
    /// `end_index`, for the instances from `first_instance` up to, not
    /// including, `end_instance`.
    DrawIndexed {
        first_index: u32,
        end_index: u32,
        base_vertex: i32,
        first_instance: u32,
        end_instance: u32,
    },
}

/// The render pass of one frame: the colour that the target is cleared to,
/// whether what is drawn is kept, and the commands in their order.
#[derive(Debug, Clone, PartialEq, Eq)]
pub struct RenderPass {
    pub clear: Pixel,
    pub store: bool,
    pub commands: Vec<RenderCommand>,
}

/// What to do about a frame.
#[derive(Debug, Clone, PartialEq, Eq)]
pub enum FrameAction {
    /// Record this pass into the acquired image and submit it.
    Submit(RenderPass),
    /// Draw nothing this time and try again at the next frame.
    Skip(SkipReason),
    /// Give up: no later frame can be drawn either.
    Abort(FrameFailure),
}

/// What stays of the presentation between frames: the swap-chain descriptor
/// and the window size it follows, whether the swap chain matches the
/// descriptor, and the fixed pipeline, index count and canvas texture.
#[derive(Debug, Clone, Copy, PartialEq, Eq)]
pub struct State {
    pub sc_desc: SwapChainDescriptor,
    pub size: PhysicalSize,
    /// False from a resize until the swap chain has been recreated; no frame
    /// is drawn meanwhile.
    pub surface_valid: bool,
    pub render_pipeline: RenderPipelineDescriptor,
    pub num_indices: u32,
    pub layer: Layer,
}

impl TextureUsage {
    /// The target of a render pass and nothing else.
    pub open spec fn render_attachment_only() -> TextureUsage {
        TextureUsage {
            copy_src: false,
            copy_dst: false,
            sampled: false,
            storage: false,
            render_attachment: true,
        }
    }
}

impl SwapChainDescriptor {
    /// The swap chain of a surface of `size`: render targets in 8-bit BGRA
    /// encoded to sRGB, presented in step with the display.
    pub open spec fn for_size(size: PhysicalSize) -> SwapChainDescriptor {
        SwapChainDescriptor {
            usage: TextureUsage::render_attachment_only(),
            format: TextureFormat::Bgra8UnormSrgb,
            width: size.width,
            height: size.height,
            present_mode: PresentMode::Fifo,
        }
    }
}

impl PhysicalSize {
    /// A size with no pixels in it, as some platforms report of a minimized
    /// window.
    pub open spec fn is_empty(self) -> bool {
        self.width == 0 || self.height == 0
    }
}

/// The commands of the quad's render pass, for `num_indices` indices: the
/// pipeline, bind group 0, vertex buffer 0, the index buffer as 16-bit
/// indices, then one indexed draw of all the indices, once.
pub open spec fn quad_commands(num_indices: u32) -> Seq<RenderCommand> {
    seq![
        RenderCommand::SetPipeline,
        RenderCommand::SetBindGroup { index: 0 },
        RenderCommand::SetVertexBuffer { slot: 0 },
        RenderCommand::SetIndexBuffer { format: IndexFormat::Uint16 },
        RenderCommand::DrawIndexed {
            first_index: 0,
            end_index: num_indices,
            base_vertex: 0,
            first_instance: 0,
            end_instance: 1,
        },
    ]
}

impl State {
    /// The swap-chain descriptor is that of the window size; the pipeline is
    /// the quad's, over the canvas bindings, and writes the format of the
    /// swap chain; all six indices of the quad are drawn; and the layer is
    /// well formed.
    pub open spec fn wf(self) -> bool {
        &&& self.sc_desc == SwapChainDescriptor::for_size(self.size)
        &&& self.render_pipeline.is_quad_pipeline(canvas_bindings())
        &&& self.render_pipeline.fragment->Some_0.targets[0].format == self.sc_desc.format
        &&& self.num_indices == crate::geometry::quad_indices().len()
        &&& self.layer.wf()
    }

    /// The state after a resize event of `new_size`. An empty size changes
    /// nothing. Any other size becomes the size of the window and of the
    /// swap-chain descriptor, and the swap chain is to be recreated before
    /// the next frame is drawn; the rest stays.
    pub open spec fn resized(self, new_size: PhysicalSize) -> State {
        if new_size.is_empty() {
            self
        } else {
            State {
                sc_desc: SwapChainDescriptor {
                    width: new_size.width,
                    height: new_size.height,
                    ..self.sc_desc
                },
                size: new_size,
                surface_valid: false,
                ..self
            }
        }
    }

    /// The state after the swap chain has been recreated by the descriptor.
    pub open spec fn recreated(self) -> State {
        State { surface_valid: true, ..self }
    }

    /// What `render` decides in this state about a frame of status `frame`.
    pub open spec fn decides(self, frame: FrameStatus, action: FrameAction) -> bool {
        if !self.surface_valid {
            action == FrameAction::Skip(SkipReason::SurfaceInvalid)
        } else {
            match frame {
                FrameStatus::Timeout => action == FrameAction::Skip(SkipReason::Timeout),
                FrameStatus::Outdated => action == FrameAction::Skip(SkipReason::Outdated),
                FrameStatus::Lost => action == FrameAction::Abort(FrameFailure::Lost),
                FrameStatus::OutOfMemory => action == FrameAction::Abort(
                    FrameFailure::OutOfMemory,
                ),
                FrameStatus::Acquired => {
                    &&& action is Submit
                    &&& action->Submit_0.clear == Pixel::opaque_black()
                    &&& action->Submit_0.store
                    &&& action->Submit_0.commands@ == quad_commands(self.num_indices)
                },
            }
        }
    }

    /// The state at startup for a window of `window_size` and a canvas of
    /// `width` by `height` pixels, with the swap chain valid.
    pub fn new(window_size: PhysicalSize, width: u32, height: u32) -> (state: State)
        requires
            4 * width <= u32::MAX,
        ensures
            state.wf(),
            state.size == window_size,
            state.surface_valid,
            state.layer.width == width,
            state.layer.height == height,
    {
        let sc_desc = SwapChainDescriptor {
            usage: TextureUsage {
                copy_src: false,
                copy_dst: false,
                sampled: false,
                storage: false,
                render_attachment: true,
            },
            format: TextureFormat::Bgra8UnormSrgb,
            width: window_size.width,
            height: window_size.height,
            present_mode: PresentMode::Fifo,
        };
        let render_pipeline = create_pipeline(bind_group_layout());
        let indices = crate::geometry::indices();
        State {
            sc_desc,
            size: window_size,
            surface_valid: true,
            render_pipeline,
            num_indices: indices.len() as u32,
            layer: Layer::new(width, height),
        }
    }

    /// Takes a resize event. Returns the descriptor by which the swap chain
    /// is to be recreated, or nothing where the size is empty and the event
    /// is ignored.
    pub fn resize(&mut self, new_size: PhysicalSize) -> (recreate: Option<SwapChainDescriptor>)
        ensures
            *final(self) == old(self).resized(new_size),
            new_size.is_empty() ==> recreate is None && *final(self) == *old(self),
            !new_size.is_empty() ==> recreate == Some(final(self).sc_desc),
            old(self).wf() ==> final(self).wf(),
    {
        if new_size.width == 0 || new_size.height == 0 {
            return None;
        }
        self.size = new_size;
        self.sc_desc.width = new_size.width;
        self.sc_desc.height = new_size.height;
        self.surface_valid = false;
        Some(self.sc_desc)
    }

    /// Takes the news that the swap chain has been recreated by the current
    /// descriptor: frames are drawn again.
    pub fn swap_chain_recreated(&mut self)
        ensures
            *final(self) == old(self).recreated(),
            old(self).wf() ==> final(self).wf(),
    {
        self.surface_valid = true;
    }

    /// Says at the start of a frame whether the next swap-chain image is to
    /// be acquired: it is, unless the swap chain awaits its recreation.
    pub fn begin_frame(&self) -> (res: Result<(), SkipReason>)
        ensures
            self.surface_valid ==> res == Ok::<(), SkipReason>(()),
            !self.surface_valid ==> res == Err::<(), SkipReason>(SkipReason::SurfaceInvalid),
    {
        if self.surface_valid {
            Ok(())
        } else {
            Err(SkipReason::SurfaceInvalid)
        }
    }

    /// Decides about one frame. A frame is drawn only where the swap chain is
    /// valid and an image was acquired: the pass then clears the image to
    /// opaque black and draws the quad. After a timeout, or with an outdated
    /// surface or an invalid swap chain, the frame is skipped, for the reason
    /// given. With the swap chain lost or the memory used up, presentation
    /// is given up.
    pub fn render(&self, frame: FrameStatus) -> (action: FrameAction)
        ensures
            self.decides(frame, action),
    {
        if !self.surface_valid {
            return FrameAction::Skip(SkipReason::SurfaceInvalid);
        }
        match frame {
            FrameStatus::Timeout => FrameAction::Skip(SkipReason::Timeout),
            FrameStatus::Outdated => FrameAction::Skip(SkipReason::Outdated),
            FrameStatus::Lost => FrameAction::Abort(FrameFailure::Lost),
            FrameStatus::OutOfMemory => FrameAction::Abort(FrameFailure::OutOfMemory),
            FrameStatus::Acquired => {
                let mut commands: Vec<RenderCommand> = Vec::new();
                commands.push(RenderCommand::SetPipeline);
                commands.push(RenderCommand::SetBindGroup { index: 0 });
                commands.push(RenderCommand::SetVertexBuffer { slot: 0 });
                commands.push(RenderCommand::SetIndexBuffer { format: IndexFormat::Uint16 });
                commands.push(
                    RenderCommand::DrawIndexed {
                        first_index: 0,
                        end_index: self.num_indices,
                        base_vertex: 0,
                        first_instance: 0,
                        end_instance: 1,
                    },
                );
                assert(commands@ =~= quad_commands(self.num_indices));
                FrameAction::Submit(RenderPass { clear: Pixel::black(), store: true, commands })
            },
        }
    }
}

/// A resize event repeated with the same size leaves the state as the first
/// one left it, whether or not the swap chain was recreated in between; and
/// once it has been recreated, to resize and recreate again changes nothing:
/// the swap-chain descriptor is the same, and so is what `render` decides
/// about any frame.
pub proof fn lemma_resize_is_idempotent(state: State, new_size: PhysicalSize)
    ensures
        state.resized(new_size).resized(new_size) == state.resized(new_size),
        state.resized(new_size).recreated().resized(new_size).sc_desc == state.resized(
            new_size,
        ).sc_desc,
        state.resized(new_size).recreated().resized(new_size).recreated() == state.resized(
            new_size,
        ).recreated(),
        forall|frame: FrameStatus, action: FrameAction|
            state.resized(new_size).recreated().resized(new_size).recreated().decides(
                frame,
                action,
            ) == #[trigger] state.resized(new_size).recreated().decides(frame, action),
{
}

/// A resize changes nothing but the size, the width and height of the
/// swap-chain descriptor, and whether the swap chain is valid: the format and
/// present mode, the pipeline, the index count and the canvas texture
/// survive it.
pub proof fn lemma_resize_keeps_resources(state: State, new_size: PhysicalSize)
    ensures
        state.resized(new_size).sc_desc.usage == state.sc_desc.usage,
        state.resized(new_size).sc_desc.format == state.sc_desc.format,
        state.resized(new_size).sc_desc.present_mode == state.sc_desc.present_mode,
        state.resized(new_size).render_pipeline == state.render_pipeline,
        state.resized(new_size).num_indices == state.num_indices,
        state.resized(new_size).layer == state.layer,
{
}

} // verus!
