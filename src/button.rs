//! A button of the virtual screen's pointer.
use vstd::prelude::*;

verus! {

/// A button's state, with whether it went down during the current frame, so
/// that a press and release within one frame is not lost.
#[derive(Clone, Copy, Default)]
pub struct Button {
    pub pressed_this_frame: bool,
    pub state: bool,
}

impl Button {
    /// Up, and not pressed this frame.
    pub fn new() -> (r: Button)
        ensures
            !r.pressed_this_frame,
            !r.state,
    {
        Button { pressed_this_frame: false, state: false }
    }

    /// Whether the button counts as down for this frame.
    pub fn get(&self) -> (r: bool)
        ensures
            r == (self.pressed_this_frame || self.state),
    {
        self.pressed_this_frame || self.state
    }

    /// Records that the button went down (`pressed`) or up.
    pub fn set(&mut self, pressed: bool)
        ensures
            final(self).state == pressed,
            final(self).pressed_this_frame == (old(self).pressed_this_frame || pressed),
    {
        self.state = pressed;
        if pressed {
            self.pressed_this_frame = true;
        }
    }
}

} // verus!
