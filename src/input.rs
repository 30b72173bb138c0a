//! From window input events to user actions, held movement keys and pointer
//! motion, one event at a time.
use vstd::prelude::*;
use crate::action::{Action, ActionBin, ViewFlags};

verus! {

#[derive(Clone, Copy, Debug, PartialEq, Eq, Structural)]
pub enum Key {
    Escape,
    Space,
    W,
    A,
    S,
    D,
    Other,
}

#[derive(Clone, Copy, Debug, PartialEq, Eq, Structural)]
pub enum MouseButton {
    Left,
    Right,
    Other,
}

#[derive(Clone, Copy, Debug, PartialEq, Eq, Structural)]
pub enum InputEvent {
    Quit,
    KeyDown(Key),
    KeyUp(Key),
    /// The window's new size.
    Resized(i32, i32),
    MouseDown(MouseButton),
    /// Relative pointer motion.
    MouseMotion(i32, i32),
    Other,
}

pub open spec fn sat_add_i32(a: i32, b: i32) -> i32 {
    if a + b > i32::MAX {
        i32::MAX
    } else if a + b < i32::MIN {
        i32::MIN
    } else {
        (a + b) as i32
    }
}

fn add_sat_i32(a: i32, b: i32) -> (r: i32)
    ensures
        r == sat_add_i32(a, b),
{
    if b > 0 && a > i32::MAX - b {
        i32::MAX
    } else if b < 0 && a < i32::MIN - b {
        i32::MIN
    } else {
        a + b
    }
}

/// The action that an event asks for, if any.
pub open spec fn action_of(ev: InputEvent) -> Option<Action> {
    match ev {
        InputEvent::Quit => Some(Action::Quit),
        InputEvent::KeyDown(Key::Escape) => Some(Action::Quit),
        InputEvent::MouseDown(MouseButton::Right) => Some(Action::ToggleUI),
        InputEvent::KeyDown(Key::Space) => Some(Action::ResetWorldOrigin),
        _ => None,
    }
}

/// The movement flags after a key event, when the keyboard is not taken by
/// the menu.
pub open spec fn moved(f: ViewFlags, ev: InputEvent) -> ViewFlags {
    match ev {
        InputEvent::KeyDown(Key::W) => ViewFlags { move_forward: true, ..f },
        InputEvent::KeyDown(Key::S) => ViewFlags { move_backward: true, ..f },
        InputEvent::KeyDown(Key::A) => ViewFlags { move_left: true, ..f },
        InputEvent::KeyDown(Key::D) => ViewFlags { move_right: true, ..f },
        InputEvent::KeyUp(Key::W) => ViewFlags { move_forward: false, ..f },
        InputEvent::KeyUp(Key::S) => ViewFlags { move_backward: false, ..f },
        InputEvent::KeyUp(Key::A) => ViewFlags { move_left: false, ..f },
        InputEvent::KeyUp(Key::D) => ViewFlags { move_right: false, ..f },
        _ => f,
    }
}

/// Takes in one input event. A quit request or Escape asks to quit, the
/// right button to toggle the menu, Space to reset the world's front; the
/// action goes to `bin`, in place of any waiting there. Outside the menu
/// pointer motion adds up in `motion` (saturating). Unless the menu has the
/// keyboard (`keyboard_free` false), W, S, A and D hold the movement flags.
/// Returns the window's new size on a resize to a positive size.
pub fn handle_input_event(
    ev: InputEvent,
    is_gui: bool,
    keyboard_free: bool,
    bin: &mut ActionBin,
    flags: &mut ViewFlags,
    motion: &mut (i32, i32),
) -> (r: Option<(u32, u32)>)
    ensures
        final(bin).pending() == match action_of(ev) {
            Some(a) => Some(a),
            None => old(bin).pending(),
        },
        *final(flags) == if keyboard_free {
            moved(*old(flags), ev)
        } else {
            *old(flags)
        },
        *final(motion) == match ev {
            InputEvent::MouseMotion(x, y) => if is_gui {
                *old(motion)
            } else {
                (sat_add_i32(old(motion).0, x), sat_add_i32(old(motion).1, y))
            },
            _ => *old(motion),
        },
        r == match ev {
            InputEvent::Resized(w, h) => if w > 0 && h > 0 {
                Some((w as u32, h as u32))
            } else {
                None
            },
            _ => None,
        },
{
    let mut resized: Option<(u32, u32)> = None;
    match ev {
        InputEvent::Quit => bin.put(Action::Quit),
        InputEvent::KeyDown(Key::Escape) => bin.put(Action::Quit),
        InputEvent::Resized(w, h) => {
            if w > 0 && h > 0 {
                resized = Some((w as u32, h as u32));
            }
        },
        InputEvent::MouseDown(MouseButton::Right) => bin.put(Action::ToggleUI),
        InputEvent::KeyDown(Key::Space) => bin.put(Action::ResetWorldOrigin),
        _ => {},
    }
    if !is_gui {
        if let InputEvent::MouseMotion(x, y) = ev {
            motion.0 = add_sat_i32(motion.0, x);
            motion.1 = add_sat_i32(motion.1, y);
        }
    }
    if keyboard_free {
        match ev {
            InputEvent::KeyDown(Key::W) => flags.move_forward = true,
            InputEvent::KeyDown(Key::S) => flags.move_backward = true,
            InputEvent::KeyDown(Key::A) => flags.move_left = true,
            InputEvent::KeyDown(Key::D) => flags.move_right = true,
            InputEvent::KeyUp(Key::W) => flags.move_forward = false,
            InputEvent::KeyUp(Key::S) => flags.move_backward = false,
            InputEvent::KeyUp(Key::A) => flags.move_left = false,
            InputEvent::KeyUp(Key::D) => flags.move_right = false,
            _ => {},
        }
    }
    resized
}

} // verus!
