use crate::error::InitError;
use crate::math::Vector2;
use vstd::prelude::*;

verus! {

/// What came of recreating the swapchain and its framebuffers.
#[derive(Clone, Copy, Debug, PartialEq, Eq, Structural)]
pub enum Recreated {
    /// The swapchain and its framebuffers are new.
    Done,
    /// The device does not support the dimensions. This tends to happen
    /// while the user resizes the window.
    UnsupportedDimensions,
    /// The swapchain could not be recreated.
    Failed,
    /// The swapchain is new, and its framebuffers could not be built.
    FramebuffersFailed,
}

/// What came of acquiring the next image of the swapchain.
#[derive(Clone, Copy, Debug, PartialEq, Eq, Structural)]
pub enum Acquired {
    /// An image to draw to. `suboptimal` says that the swapchain still
    /// works and no longer matches the surface.
    Image { suboptimal: bool },
    /// The swapchain no longer fits the surface.
    OutOfDate,
    /// No image could be acquired.
    Failed,
}

/// What came of handing a frame to the device.
#[derive(Clone, Copy, Debug, PartialEq, Eq, Structural)]
pub enum Flushed {
    /// The frame is on its way to the screen.
    Done,
    /// The swapchain no longer fits the surface.
    OutOfDate,
    /// The frame was lost.
    Failed,
}

/// What the renderer learns while it prepares and presents a frame.
#[derive(Clone, Copy, Debug, PartialEq, Eq, Structural)]
pub enum FrameEvent {
    /// A new frame begins.
    Begin,
    Recreated(Recreated),
    Acquired(Acquired),
    Flushed(Flushed),
}

/// What the renderer does next.
#[derive(Clone, Copy, Debug, PartialEq, Eq)]
pub enum FrameAction {
    /// Recreate the swapchain and its framebuffers for the dimensions.
    Recreate,
    /// Acquire the next image of the swapchain.
    Acquire,
    /// Draw the frame to the acquired image and hand it to the device.
    Draw,
    /// Wait for the frame to be shown; with that the frame is done.
    Present,
    /// Give this frame up and go on with the next.
    Skip,
    /// Give up for good.
    Fail(InitError),
}

/// What the renderer keeps between frames: the dimensions to draw at, and
/// whether the swapchain has to be recreated before the next frame.
#[derive(Clone, Copy, Debug, PartialEq, Eq, Structural)]
pub struct RenderPipeline {
    pub dimensions: Vector2,
    pub swapchain_needs_refresh: bool,
}

impl RenderPipeline {
    /// The renderer of a swapchain that was just made for `dimensions`.
    pub fn new(dimensions: Vector2) -> (r: RenderPipeline)
        ensures
            r == (RenderPipeline { dimensions, swapchain_needs_refresh: false }),
    {
        RenderPipeline { dimensions, swapchain_needs_refresh: false }
    }

    /// The window has new dimensions: the swapchain has to be recreated.
    pub fn resize(&mut self, dimensions: Vector2)
        ensures
            *final(self) == (RenderPipeline { dimensions, swapchain_needs_refresh: true }),
    {
        self.dimensions = dimensions;
        self.swapchain_needs_refresh = true;
    }

    /// Whether the swapchain has to be recreated after `event`.
    pub open spec fn refresh_after(self, event: FrameEvent) -> bool {
        match event {
            FrameEvent::Begin => self.swapchain_needs_refresh,
            FrameEvent::Recreated(Recreated::Done) => false,
            FrameEvent::Recreated(_) => self.swapchain_needs_refresh,
            FrameEvent::Acquired(Acquired::Image { suboptimal }) => self.swapchain_needs_refresh
                || suboptimal,
            FrameEvent::Acquired(Acquired::OutOfDate) => true,
            FrameEvent::Acquired(Acquired::Failed) => self.swapchain_needs_refresh,
            FrameEvent::Flushed(Flushed::OutOfDate) => true,
            FrameEvent::Flushed(_) => self.swapchain_needs_refresh,
        }
    }

    /// What the renderer does after `event`.
    ///
    /// A frame begins with a swapchain that fits: one that needs it is
    /// recreated first, and one that turns out to be out of date while an
    /// image is acquired is recreated and tried again. Dimensions that the
    /// device does not support and a frame that is lost cost this frame
    /// only; what else goes wrong ends the rendering.
    pub open spec fn action_after(self, event: FrameEvent) -> FrameAction {
        match event {
            FrameEvent::Begin => if self.swapchain_needs_refresh {
                FrameAction::Recreate
            } else {
                FrameAction::Acquire
            },
            FrameEvent::Recreated(Recreated::Done) => FrameAction::Acquire,
            FrameEvent::Recreated(Recreated::UnsupportedDimensions) => FrameAction::Skip,
            FrameEvent::Recreated(Recreated::Failed) => FrameAction::Fail(
                InitError::CouldNotRecreateSwapchain,
            ),
            FrameEvent::Recreated(Recreated::FramebuffersFailed) => FrameAction::Fail(
                InitError::CouldNotBuildSwapchainImages,
            ),
            FrameEvent::Acquired(Acquired::Image { .. }) => FrameAction::Draw,
            FrameEvent::Acquired(Acquired::OutOfDate) => FrameAction::Recreate,
            FrameEvent::Acquired(Acquired::Failed) => FrameAction::Fail(
                InitError::CouldNotAcquireSwapchainImage,
            ),
            FrameEvent::Flushed(Flushed::Done) => FrameAction::Present,
            FrameEvent::Flushed(_) => FrameAction::Skip,
        }
    }

    /// Takes note of `event` and says what the renderer does next.
    pub fn step(&mut self, event: FrameEvent) -> (action: FrameAction)
        ensures
            action == old(self).action_after(event),
            *final(self) == (RenderPipeline {
                swapchain_needs_refresh: old(self).refresh_after(event),
                ..*old(self)
            }),
    {
        match event {
            FrameEvent::Begin => {
                if self.swapchain_needs_refresh {
                    FrameAction::Recreate
                } else {
                    FrameAction::Acquire
                }
            },
            FrameEvent::Recreated(outcome) => match outcome {
                Recreated::Done => {
                    self.swapchain_needs_refresh = false;
                    FrameAction::Acquire
                },
                // This tends to happen when the user is manually resizing
                // the window. Starting over with the next frame is the
                // easiest way out.
                Recreated::UnsupportedDimensions => FrameAction::Skip,
                Recreated::Failed => FrameAction::Fail(InitError::CouldNotRecreateSwapchain),
                Recreated::FramebuffersFailed => FrameAction::Fail(
                    InitError::CouldNotBuildSwapchainImages,
                ),
            },
            FrameEvent::Acquired(outcome) => match outcome {
                Acquired::Image { suboptimal } => {
                    if suboptimal {
                        self.swapchain_needs_refresh = true;
                    }
                    FrameAction::Draw
                },
                Acquired::OutOfDate => {
                    self.swapchain_needs_refresh = true;
                    FrameAction::Recreate
                },
                Acquired::Failed => FrameAction::Fail(InitError::CouldNotAcquireSwapchainImage),
            },
            FrameEvent::Flushed(outcome) => match outcome {
                Flushed::Done => FrameAction::Present,
                Flushed::OutOfDate => {
                    self.swapchain_needs_refresh = true;
                    FrameAction::Skip
                },
                Flushed::Failed => FrameAction::Skip,
            },
        }
    }
}

} // verus!
