//! The decoder side's names for the shared image: GL objects imported from
//! the memory and semaphores that the renderer exported.
use vstd::prelude::*;

verus! {

/// GL object names of an imported shared image. The GL side never owns the
/// memory: deleting these objects leaves the renderer's allocation alone.
pub struct OpenGLSharedTexture {
    pub gl_texture: u32,
    pub gl_ready: u32,
    pub gl_complete: u32,
    pub gl_memory: u32,
    pub gl_fbo: u32,
    pub width: u32,
    pub height: u32,
}

/// The two layouts between which an eye image moves: `A` for rendering
/// into it, `B` for handing it to the compositor.
pub enum ImageTransitionDir {
    AToB,
    BToA,
}

impl ImageTransitionDir {
    /// Orders the two ends of a transition, given as `(a, b)`, into
    /// `(from, to)`.
    pub fn order<E>(&self, a: E, b: E) -> (r: (E, E))
        ensures
            *self is AToB ==> r == (a, b),
            *self is BToA ==> r == (b, a),
    {
        match self {
            ImageTransitionDir::AToB => (a, b),
            ImageTransitionDir::BToA => (b, a),
        }
    }
}

} // verus!
