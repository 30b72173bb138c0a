//! Whether the decoder has a new frame to draw: the decoder's thread raises a
//! request, the frame loop polls it once per frame.
use vstd::prelude::*;

verus! {

/// The bit of the decoder's update flags that announces a new frame.
pub const UPDATE_FRAME: u64 = 1;

pub struct RedrawGate {
    update_requested: bool,
    redraw_requested: bool,
}

impl RedrawGate {
    /// The decoder asked for an update since the last poll.
    pub closed spec fn update_pending(&self) -> bool {
        self.update_requested
    }

    /// A new frame waits to be drawn.
    pub closed spec fn redraw_pending(&self) -> bool {
        self.redraw_requested
    }

    pub fn new() -> (r: RedrawGate)
        ensures
            !r.update_pending(),
            !r.redraw_pending(),
    {
        RedrawGate { update_requested: false, redraw_requested: false }
    }

    /// The decoder asks for an update; several requests before a poll count
    /// as one.
    pub fn request_update(&mut self)
        ensures
            final(self).update_pending(),
            final(self).redraw_pending() == old(self).redraw_pending(),
    {
        self.update_requested = true;
    }

    /// Polls the request: whether the decoder's update is to run now. The
    /// request is consumed.
    pub fn take_update(&mut self) -> (r: bool)
        ensures
            r == old(self).update_pending(),
            !final(self).update_pending(),
            final(self).redraw_pending() == old(self).redraw_pending(),
    {
        let r = self.update_requested;
        self.update_requested = false;
        r
    }

    /// Takes in the flags that the decoder's update returned.
    pub fn note_update_flags(&mut self, flags: u64)
        ensures
            final(self).redraw_pending() == (old(self).redraw_pending() || flags & UPDATE_FRAME
                != 0),
            final(self).update_pending() == old(self).update_pending(),
    {
        if flags & UPDATE_FRAME != 0 {
            self.redraw_requested = true;
        }
    }

    /// Whether to draw now; a frame is drawn once.
    pub fn take_redraw(&mut self) -> (r: bool)
        ensures
            r == old(self).redraw_pending(),
            !final(self).redraw_pending(),
            final(self).update_pending() == old(self).update_pending(),
    {
        let r = self.redraw_requested;
        self.redraw_requested = false;
        r
    }
}

} // verus!
