//! How a video file is laid out, as chosen per file.
use vstd::prelude::*;

verus! {

/// How the picture maps onto the sphere or the screen.
#[derive(Clone, Copy, Debug, PartialEq, Eq, Structural)]
pub enum Projection {
    Er360,
    Er180,
    Fisheye,
    Eac,
    Flat,
}

/// How the two eyes' pictures share a frame.
#[derive(Clone, Copy, Debug, PartialEq, Eq, Structural)]
pub enum Mode {
    Mono,
    LeftRight,
    RightLeft,
    TopBottom,
    BottomTop,
}

#[derive(Clone, Copy, Debug, PartialEq, Eq, Structural)]
pub enum AspectRatio {
    Half,
    One,
    Two,
}

/// The same layout with the eyes swapped.
pub open spec fn flipped(m: Mode) -> Mode {
    match m {
        Mode::TopBottom => Mode::BottomTop,
        Mode::BottomTop => Mode::TopBottom,
        Mode::LeftRight => Mode::RightLeft,
        Mode::RightLeft => Mode::LeftRight,
        Mode::Mono => Mode::Mono,
    }
}

/// Swaps the eyes of a stereo layout; a mono one stays as it is.
pub fn flip_eyes(m: Mode) -> (r: Mode)
    ensures
        r == flipped(m),
        flipped(r) == m,
{
    match m {
        Mode::TopBottom => Mode::BottomTop,
        Mode::BottomTop => Mode::TopBottom,
        Mode::LeftRight => Mode::RightLeft,
        Mode::RightLeft => Mode::LeftRight,
        Mode::Mono => Mode::Mono,
    }
}

/// The eye whose half of the frame to show and the frame layout, as the
/// scene shader numbers them: layout 0 is mono, 1 side by side, 2 one above
/// the other; eye 0 is the left or upper half. With the eyes swapped, the
/// other half is shown.
pub fn eye_layout(mode: Mode, eye_index: u32) -> (r: (u32, u32))
    ensures
        r == match mode {
            Mode::Mono => (eye_index, 0u32),
            Mode::LeftRight => (eye_index, 1u32),
            Mode::RightLeft => (if eye_index == 0 { 1u32 } else { 0u32 }, 1u32),
            Mode::TopBottom => (eye_index, 2u32),
            Mode::BottomTop => (if eye_index == 0 { 1u32 } else { 0u32 }, 2u32),
        },
{
    let other: u32 = if eye_index == 0 {
        1
    } else {
        0
    };
    match mode {
        Mode::Mono => (eye_index, 0),
        Mode::LeftRight => (eye_index, 1),
        Mode::RightLeft => (other, 1),
        Mode::TopBottom => (eye_index, 2),
        Mode::BottomTop => (other, 2),
    }
}

} // verus!
