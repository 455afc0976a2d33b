use crystal_engine::error::InitError;
use crystal_engine::math::{Float, Vector2};
use crystal_engine::render::{
    Acquired, Flushed, FrameAction, FrameEvent, Recreated, RenderPipeline,
};

fn size(width: f32, height: f32) -> Vector2 {
    Vector2::new(Float::from_bits(width.to_bits()), Float::from_bits(height.to_bits()))
}

#[test]
fn a_frame_without_trouble() {
    let mut pipeline = RenderPipeline::new(size(800.0, 600.0));
    assert!(!pipeline.swapchain_needs_refresh);
    assert_eq!(pipeline.step(FrameEvent::Begin), FrameAction::Acquire);
    let image = FrameEvent::Acquired(Acquired::Image { suboptimal: false });
    assert_eq!(pipeline.step(image), FrameAction::Draw);
    assert_eq!(pipeline.step(FrameEvent::Flushed(Flushed::Done)), FrameAction::Present);
    assert!(!pipeline.swapchain_needs_refresh);
    assert_eq!(pipeline.dimensions, size(800.0, 600.0));
}

#[test]
fn a_resized_window_gets_a_new_swapchain() {
    let mut pipeline = RenderPipeline::new(size(800.0, 600.0));
    pipeline.resize(size(1024.0, 768.0));
    assert_eq!(pipeline.dimensions, size(1024.0, 768.0));
    assert!(pipeline.swapchain_needs_refresh);
    assert_eq!(pipeline.step(FrameEvent::Begin), FrameAction::Recreate);
    // while the user drags the window, the frame is given up
    let event = FrameEvent::Recreated(Recreated::UnsupportedDimensions);
    assert_eq!(pipeline.step(event), FrameAction::Skip);
    assert!(pipeline.swapchain_needs_refresh);
    assert_eq!(pipeline.step(FrameEvent::Begin), FrameAction::Recreate);
    assert_eq!(pipeline.step(FrameEvent::Recreated(Recreated::Done)), FrameAction::Acquire);
    assert!(!pipeline.swapchain_needs_refresh);
}

#[test]
fn a_stale_swapchain_is_recreated_and_tried_again() {
    let mut pipeline = RenderPipeline::new(size(8.0, 6.0));
    assert_eq!(pipeline.step(FrameEvent::Acquired(Acquired::OutOfDate)), FrameAction::Recreate);
    assert!(pipeline.swapchain_needs_refresh);
    assert_eq!(pipeline.step(FrameEvent::Recreated(Recreated::Done)), FrameAction::Acquire);
    // a swapchain that still works is used for this frame and recreated for the next
    let image = FrameEvent::Acquired(Acquired::Image { suboptimal: true });
    assert_eq!(pipeline.step(image), FrameAction::Draw);
    assert!(pipeline.swapchain_needs_refresh);
    assert_eq!(pipeline.step(FrameEvent::Flushed(Flushed::Done)), FrameAction::Present);
    assert_eq!(pipeline.step(FrameEvent::Begin), FrameAction::Recreate);
}

#[test]
fn lost_frames_and_failures() {
    let mut pipeline = RenderPipeline::new(size(8.0, 6.0));
    assert_eq!(pipeline.step(FrameEvent::Flushed(Flushed::Failed)), FrameAction::Skip);
    assert!(!pipeline.swapchain_needs_refresh);
    assert_eq!(pipeline.step(FrameEvent::Flushed(Flushed::OutOfDate)), FrameAction::Skip);
    assert!(pipeline.swapchain_needs_refresh);
    assert_eq!(
        pipeline.step(FrameEvent::Recreated(Recreated::Failed)),
        FrameAction::Fail(InitError::CouldNotRecreateSwapchain)
    );
    assert_eq!(
        pipeline.step(FrameEvent::Recreated(Recreated::FramebuffersFailed)),
        FrameAction::Fail(InitError::CouldNotBuildSwapchainImages)
    );
    assert_eq!(
        pipeline.step(FrameEvent::Acquired(Acquired::Failed)),
        FrameAction::Fail(InitError::CouldNotAcquireSwapchainImage)
    );
    assert!(pipeline.swapchain_needs_refresh);
}
