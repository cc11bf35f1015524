use nbody::frame::{color_target, frame_action, ColorTarget, FrameAction, FrameStep, SurfaceStatus};

#[test]
fn acquired_textures_are_drawn() {
    assert_eq!(
        frame_action(SurfaceStatus::Success),
        FrameAction { reconfigure: false, step: FrameStep::Draw }
    );
    assert_eq!(
        frame_action(SurfaceStatus::Suboptimal),
        FrameAction { reconfigure: true, step: FrameStep::Draw }
    );
}

#[test]
fn transient_failures_skip_the_frame() {
    for status in [SurfaceStatus::Timeout, SurfaceStatus::Occluded, SurfaceStatus::Validation] {
        assert_eq!(frame_action(status), FrameAction { reconfigure: false, step: FrameStep::Skip });
    }
    assert_eq!(
        frame_action(SurfaceStatus::Outdated),
        FrameAction { reconfigure: true, step: FrameStep::Skip }
    );
}

#[test]
fn lost_surface_fails() {
    assert_eq!(
        frame_action(SurfaceStatus::Lost),
        FrameAction { reconfigure: false, step: FrameStep::Fail }
    );
}

#[test]
fn multisampling_needs_more_than_one_sample() {
    assert_eq!(color_target(4), ColorTarget::Multisampled);
    assert_eq!(color_target(2), ColorTarget::Multisampled);
    assert_eq!(color_target(1), ColorTarget::Direct);
    assert_eq!(color_target(0), ColorTarget::Direct);
}
