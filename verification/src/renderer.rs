//! The renderer: the canvas and the presentation state together, with the
//! per-frame operations `draw` and `render`.

use crate::pixel::{Pixel, PixelBuffer};
use crate::state::{
    FrameAction, FrameStatus, PhysicalSize, SkipReason, State, SwapChainDescriptor,
};
use crate::texture::{TextureWrite, UploadError};
use vstd::prelude::*;

verus! {

/// Owns the pixel buffer that the application draws into and decides what
/// goes to the graphics device: the upload of the buffer, the render pass of
/// a frame, and the recreation of the swap chain after a resize.
pub struct Renderer {
    pixels: PixelBuffer,
    state: State,
}

impl Renderer {
    /// The pixels of the canvas, row after row.
    pub closed spec fn canvas(&self) -> Seq<Pixel> {
        self.pixels@
    }

    /// The presentation state.
    pub closed spec fn plan(&self) -> State {
        self.state
    }

    /// The presentation state is well formed. Every renderer is made so and
    /// stays so.
    pub open spec fn wf(&self) -> bool {
        self.plan().wf()
    }

    /// A renderer with a canvas of `w` by `h` pixels, all of them opaque
    /// black, and a texture of the same size, for a window of `window_size`.
    pub fn new(w: usize, h: usize, window_size: PhysicalSize) -> (renderer: Renderer)
        requires
            w * h <= usize::MAX,
            4 * w <= u32::MAX,
            h <= u32::MAX,
        ensures
            renderer.wf(),
            renderer.canvas().len() == w * h,
            forall|i: int| 0 <= i < w * h ==> renderer.canvas()[i] == Pixel::opaque_black(),
            renderer.plan().size == window_size,
            renderer.plan().surface_valid,
            renderer.plan().layer.width == w,
            renderer.plan().layer.height == h,
    {
        let pixel_count: usize = w * h;
        Renderer {
            pixels: PixelBuffer::with_capacity(pixel_count),
            state: State::new(window_size, w as u32, h as u32),
        }
    }

    /// The pixel buffer, to draw into. What the caller leaves in it is the
    /// canvas from then on; the presentation state stays.
    pub fn pixels(&mut self) -> (buffer: &mut PixelBuffer)
        ensures
            buffer@ == old(self).canvas(),
            final(self).canvas() == final(buffer)@,
            final(self).plan() == old(self).plan(),
    {
        &mut self.pixels
    }

    /// The presentation state, to read the descriptors from.
    pub fn state(&self) -> (state: &State)
        ensures
            *state == self.plan(),
    {
        &self.state
    }

    /// Mutable access to the pixel at column `x` of row `y`, which sits at
    /// index `y * width + x` of the buffer, `width` being that of the texture.
    pub fn pixel_at(&mut self, x: u32, y: u32) -> (pixel: &mut Pixel)
        requires
            y * old(self).plan().layer.width + x < old(self).canvas().len(),
        ensures
            *pixel == old(self).canvas()[y * old(self).plan().layer.width + x],
            final(self).canvas() == old(self).canvas().update(
                y * old(self).plan().layer.width + x,
                *final(pixel),
            ),
            final(self).plan() == old(self).plan(),
    {
        let width: u32 = self.state.layer.width;
        proof {
            self.pixels.lemma_len_fits();
        }
        assert(0 <= y * width <= u32::MAX * u32::MAX) by (nonlinear_arith)
            requires
                0 <= y <= u32::MAX,
                0 <= width <= u32::MAX,
        ;
        let index: u64 = (y as u64) * (width as u64) + (x as u64);
        self.pixels.flap(index as usize)
    }

    /// The upload of the canvas to its texture, as it is now. It is refused,
    /// and nothing is to be written, exactly when the buffer does not hold
    /// one pixel for each texel of the texture.
    pub fn draw(&self) -> (res: Result<TextureWrite, UploadError>)
        requires
            self.wf(),
        ensures
            self.canvas().len() == self.plan().layer.texel_count() ==> res is Ok
                && self.plan().layer.uploads(self.canvas(), res->Ok_0),
            self.canvas().len() != self.plan().layer.texel_count() ==> res == Err::<
                TextureWrite,
                UploadError,
            >(
                UploadError::SizeMismatch {
                    expected: self.plan().layer.texel_count() as u64,
                    actual: self.canvas().len() as u64,
                },
            ),
    {
        self.state.layer.upload(&self.pixels)
    }

    /// Says at the start of a frame whether the next swap-chain image is to
    /// be acquired: it is, unless the swap chain awaits its recreation.
    pub fn begin_frame(&self) -> (res: Result<(), SkipReason>)
        ensures
            self.plan().surface_valid ==> res == Ok::<(), SkipReason>(()),
            !self.plan().surface_valid ==> res == Err::<(), SkipReason>(
                SkipReason::SurfaceInvalid,
            ),
    {
        self.state.begin_frame()
    }

    /// Decides about one frame, given what acquiring the next swap-chain
    /// image gave: the render pass to record and submit, the reason to skip
    /// the frame, or the failure to give up on.
    pub fn render(&self, frame: FrameStatus) -> (action: FrameAction)
        ensures
            self.plan().decides(frame, action),
    {
        self.state.render(frame)
    }

    /// Takes a resize event. Returns the descriptor by which the swap chain
    /// is to be recreated, or nothing where the size is empty and the event
    /// is ignored. The canvas and its texture keep their size.
    pub fn resize(&mut self, new_size: PhysicalSize) -> (recreate: Option<SwapChainDescriptor>)
        ensures
            final(self).plan() == old(self).plan().resized(new_size),
            final(self).canvas() == old(self).canvas(),
            new_size.is_empty() ==> recreate is None && final(self).plan() == old(self).plan(),
            !new_size.is_empty() ==> recreate == Some(final(self).plan().sc_desc),
            old(self).wf() ==> final(self).wf(),
    {
        self.state.resize(new_size)
    }

    /// Takes the news that the swap chain has been recreated by the current
    /// descriptor: frames are drawn again.
    pub fn swap_chain_recreated(&mut self)
        ensures
            final(self).plan() == old(self).plan().recreated(),
            final(self).canvas() == old(self).canvas(),
            old(self).wf() ==> final(self).wf(),
    {
        self.state.swap_chain_recreated()
    }
}

} // verus!
