//! A fixed-resolution pixel canvas and the plan for presenting it as one
//! textured quad.
//!
//! The application draws into a [`pixel::PixelBuffer`]. Each frame the
//! [`renderer::Renderer`] says what goes to the graphics device: the upload of
//! the buffer to its texture ([`texture`]), and one render pass that draws the
//! full-viewport quad ([`geometry`]) through the fixed pipeline
//! ([`pipeline`]). It also keeps the swap-chain descriptor and rules what a
//! resize event does to it ([`state`]). Nothing in this crate touches the
//! device itself: every function returns plain values for the caller to
//! perform.

pub mod geometry;
pub mod pipeline;
pub mod pixel;
pub mod renderer;
pub mod state;
pub mod texture;
