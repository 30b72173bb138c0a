//! The headset's eye images: their size, and the order of the work that
//! hands them to the compositor each frame.
use vstd::prelude::*;

verus! {

/// The eye image size for the size the headset recommends: twice as wide and
/// twice as high, for supersampling.
pub fn supersampled(recommended: (u32, u32)) -> (r: (u32, u32))
    requires
        recommended.0 <= u32::MAX / 2,
        recommended.1 <= u32::MAX / 2,
    ensures
        r.0 == 2 * recommended.0,
        r.1 == 2 * recommended.1,
{
    (recommended.0 * 2, recommended.1 * 2)
}

#[derive(Clone, Copy, Debug, PartialEq, Eq, Structural)]
pub enum Eye {
    Left,
    Right,
}

/// One piece of the hand-over of the eye images.
#[derive(Clone, Copy, Debug, PartialEq, Eq, Structural)]
pub enum EyeStep {
    /// From the rendering layout to the transfer-source layout.
    ToTransfer(Eye),
    /// Pass the image, with full bounds, to the compositor.
    Submit(Eye),
    /// Back to the rendering layout.
    ToAttachment(Eye),
}

/// The hand-over of both eye images: both move to the transfer layout, both
/// are submitted, both move back.
pub open spec fn eye_steps() -> Seq<EyeStep> {
    seq![
        EyeStep::ToTransfer(Eye::Left),
        EyeStep::ToTransfer(Eye::Right),
        EyeStep::Submit(Eye::Left),
        EyeStep::Submit(Eye::Right),
        EyeStep::ToAttachment(Eye::Left),
        EyeStep::ToAttachment(Eye::Right),
    ]
}

/// The steps of `submit_eye_textures`, in order.
pub fn submit_eye_steps() -> (r: Vec<EyeStep>)
    ensures
        r@ == eye_steps(),
{
    let mut r: Vec<EyeStep> = Vec::new();
    r.push(EyeStep::ToTransfer(Eye::Left));
    r.push(EyeStep::ToTransfer(Eye::Right));
    r.push(EyeStep::Submit(Eye::Left));
    r.push(EyeStep::Submit(Eye::Right));
    r.push(EyeStep::ToAttachment(Eye::Left));
    r.push(EyeStep::ToAttachment(Eye::Right));
    assert(r@ =~= eye_steps());
    r
}

} // verus!
