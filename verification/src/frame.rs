//! What to do with the outcome of asking the surface for the next frame, and
//! where the colour of a frame is rendered.
use vstd::prelude::*;

verus! {

/// The outcome of asking the surface for the texture of the next frame.
#[derive(Clone, Copy, Debug, PartialEq, Eq, Structural)]
pub enum SurfaceStatus {
    /// A texture was acquired.
    Success,
    /// A texture was acquired, but the surface should be configured again.
    Suboptimal,
    /// Acquiring timed out.
    Timeout,
    /// The window is hidden.
    Occluded,
    /// The configuration no longer matches the surface.
    Outdated,
    /// The surface is gone.
    Lost,
    /// Acquiring raised a validation error.
    Validation,
}

/// How a frame proceeds.
#[derive(Clone, Copy, Debug, PartialEq, Eq, Structural)]
pub enum FrameStep {
    /// Render into the acquired texture and present it.
    Draw,
    /// Give up on this frame without an error; the next one may succeed.
    Skip,
    /// Stop with an error: the device is lost.
    Fail,
}

/// The response to a [`SurfaceStatus`].
#[derive(Clone, Copy, Debug, PartialEq, Eq, Structural)]
pub struct FrameAction {
    /// Configure the surface again before going on.
    pub reconfigure: bool,
    /// How the frame proceeds.
    pub step: FrameStep,
}

/// The response to each outcome: draw whenever a texture was acquired,
/// reconfigure when the surface says so (suboptimal or outdated), skip the
/// frame on the transient failures, and fail when the surface is lost.
pub open spec fn spec_frame_action(status: SurfaceStatus) -> FrameAction {
    FrameAction {
        reconfigure: status == SurfaceStatus::Suboptimal || status == SurfaceStatus::Outdated,
        step: if status == SurfaceStatus::Success || status == SurfaceStatus::Suboptimal {
            FrameStep::Draw
        } else if status == SurfaceStatus::Lost {
            FrameStep::Fail
        } else {
            FrameStep::Skip
        },
    }
}

/// The response to the outcome of acquiring the next frame.
pub fn frame_action(status: SurfaceStatus) -> (action: FrameAction)
    ensures
        action == spec_frame_action(status),
{
    match status {
        SurfaceStatus::Success => FrameAction { reconfigure: false, step: FrameStep::Draw },
        SurfaceStatus::Suboptimal => FrameAction { reconfigure: true, step: FrameStep::Draw },
        SurfaceStatus::Timeout | SurfaceStatus::Occluded | SurfaceStatus::Validation => {
            FrameAction { reconfigure: false, step: FrameStep::Skip }
        },
        SurfaceStatus::Outdated => FrameAction { reconfigure: true, step: FrameStep::Skip },
        SurfaceStatus::Lost => FrameAction { reconfigure: false, step: FrameStep::Fail },
    }
}

/// Where the passes of a frame write their colour.
#[derive(Clone, Copy, Debug, PartialEq, Eq, Structural)]
pub enum ColorTarget {
    /// Into the multisampled texture, resolved into the frame's texture.
    Multisampled,
    /// Straight into the frame's texture, with nothing to resolve.
    Direct,
}

/// The colour target for a sample count: multisampling as soon as there is
/// more than one sample per pixel.
pub fn color_target(samples: u32) -> (target: ColorTarget)
    ensures
        target == (if samples > 1 { ColorTarget::Multisampled } else { ColorTarget::Direct }),
{
    if samples > 1 {
        ColorTarget::Multisampled
    } else {
        ColorTarget::Direct
    }
}

/// A frame fails only when the surface is lost, and every outcome that hands
/// out a texture leads to drawing it.
pub proof fn lemma_only_lost_surface_fails(status: SurfaceStatus)
    ensures
        (spec_frame_action(status).step == FrameStep::Fail) <==> status == SurfaceStatus::Lost,
        (spec_frame_action(status).step == FrameStep::Draw) <==> (status == SurfaceStatus::Success
            || status == SurfaceStatus::Suboptimal),
        spec_frame_action(status).step == FrameStep::Fail ==> !spec_frame_action(status).reconfigure,
{
}

} // verus!
