//! What the renderer decides: the size of the drawing surface after a resize, and the
//! text of a frame. Drawing with the GPU is left to the caller.
use vstd::prelude::*;
use crate::text::concat;

verus! {

/// The size of the drawing surface, in pixels.
#[derive(Debug, Clone, Copy, PartialEq, Eq, Structural)]
pub struct SurfaceSize {
    pub width: u32,
    pub height: u32,
}

impl SurfaceSize {
    /// The size after the window asked for `new_size`: taken when both sides are
    /// positive, ignored otherwise (a minimised window).
    pub fn resize(&mut self, new_size: SurfaceSize) -> (reconfigure: bool)
        ensures
            reconfigure == (new_size.width > 0 && new_size.height > 0),
            *final(self) == (if reconfigure { new_size } else { *old(self) }),
    {
        if new_size.width > 0 && new_size.height > 0 {
            self.width = new_size.width;
            self.height = new_size.height;
            true
        } else {
            false
        }
    }
}

/// Draws blocks and messages.
pub struct Renderer {}

impl Renderer {
    pub fn new() -> (r: Self) {
        Renderer {}
    }

    /// The text written out for a frame.
    pub fn frame_text(&self, content: &str) -> (r: String)
        ensures
            r@ == "Rendering frame with content:\n"@ + content@,
    {
        concat("Rendering frame with content:\n", content)
    }
}

} // verus!
