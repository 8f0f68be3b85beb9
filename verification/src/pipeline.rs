use vstd::prelude::*;

verus! {

/// Where the frame pipeline stands inside one redraw request.
///
/// A frame runs `Idle → TargetAcquired → VectorDrawn → OverlayDrawn →
/// Presented → Idle`; no frame begins before the previous frame's present
/// was issued.
#[derive(PartialEq, Eq, Structural, Clone, Copy, Debug)]
pub enum FrameStage {
    Idle,
    TargetAcquired,
    VectorDrawn,
    OverlayDrawn,
    Presented,
}

/// What the platform answered when asked for this frame's target image.
#[derive(PartialEq, Eq, Structural, Clone, Copy, Debug)]
pub enum AcquireOutcome {
    Acquired,
    Lost,
}

/// What the pipeline asks the platform layer to do after an acquire.
#[derive(PartialEq, Eq, Structural, Clone, Copy, Debug)]
pub enum AcquireStep {
    /// The target is in hand; drawing may begin.
    Proceed,
    /// The surface was lost: reconfigure it to the size given — the last
    /// known window size — and acquire once more.
    RetryAfterResize { width: u32, height: u32 },
    /// The surface was lost again right after the retry: fatal; the caller
    /// surfaces the error and stops the render loop.
    Fatal,
}

/// The per-frame driver: acquires a presentable target, has the vector
/// layer drawn (clearing), has the overlay drawn (loading), and presents.
/// It remembers the last known window size so that a lost surface can be
/// reconfigured, and whether the one permitted retry was already spent.
#[derive(PartialEq, Eq, Structural, Clone, Copy, Debug)]
pub struct FramePipeline {
    pub stage: FrameStage,
    pub retried: bool,
    pub last_width: u32,
    pub last_height: u32,
}

impl FramePipeline {
    /// A pipeline at rest, remembering the window's current size.
    pub fn new(width: u32, height: u32) -> (p: FramePipeline)
        ensures
            p.stage is Idle,
            !p.retried,
            p.last_width == width,
            p.last_height == height,
    {
        FramePipeline { stage: FrameStage::Idle, retried: false, last_width: width, last_height:
            height }
    }

    /// Notes the window's size, so that a later lost surface can be
    /// reconfigured to the last known size.
    pub fn record_size(&mut self, width: u32, height: u32)
        ensures
            final(self).stage == old(self).stage,
            final(self).retried == old(self).retried,
            final(self).last_width == width,
            final(self).last_height == height,
    {
        self.last_width = width;
        self.last_height = height;
    }

    /// Feeds the pipeline the outcome of an acquire. On success the frame
    /// proceeds. On the first loss the caller is told to resize to the
    /// last known size and retry once; on a second consecutive loss the
    /// failure is fatal and the pipeline returns to rest.
    pub fn on_acquire(&mut self, outcome: AcquireOutcome) -> (step: AcquireStep)
        requires
            old(self).stage is Idle,
        ensures
            final(self).last_width == old(self).last_width,
            final(self).last_height == old(self).last_height,
            outcome is Acquired ==> final(self).stage is TargetAcquired && !final(self).retried
                && step is Proceed,
            outcome is Lost && !old(self).retried ==> final(self).stage is Idle
                && final(self).retried && step == (AcquireStep::RetryAfterResize {
                width: old(self).last_width,
                height: old(self).last_height,
            }),
            outcome is Lost && old(self).retried ==> final(self).stage is Idle
                && !final(self).retried && step is Fatal,
    {
        match outcome {
            AcquireOutcome::Acquired => {
                self.stage = FrameStage::TargetAcquired;
                self.retried = false;
                AcquireStep::Proceed
            },
            AcquireOutcome::Lost => {
                if !self.retried {
                    self.retried = true;
                    AcquireStep::RetryAfterResize { width: self.last_width, height: self
                        .last_height }
                } else {
                    self.retried = false;
                    AcquireStep::Fatal
                }
            },
        }
    }

    /// The policy for the vector layer's pass: it owns the frame's first
    /// draw, so it clears the target to the background first. Returns
    /// whether the pass clears.
    pub fn vector_pass(&mut self) -> (clears: bool)
        requires
            old(self).stage is TargetAcquired,
        ensures
            final(self).stage is VectorDrawn,
            final(self).retried == old(self).retried,
            final(self).last_width == old(self).last_width,
            final(self).last_height == old(self).last_height,
            clears,
    {
        self.stage = FrameStage::VectorDrawn;
        true
    }

    /// The policy for the overlay's pass: the two layers share one target
    /// image, so the overlay loads the existing contents and must not
    /// clear. Returns whether the pass clears.
    pub fn overlay_pass(&mut self) -> (clears: bool)
        requires
            old(self).stage is VectorDrawn,
        ensures
            final(self).stage is OverlayDrawn,
            final(self).retried == old(self).retried,
            final(self).last_width == old(self).last_width,
            final(self).last_height == old(self).last_height,
            !clears,
    {
        self.stage = FrameStage::OverlayDrawn;
        false
    }

    /// Marks the present issued. Both passes were recorded by now; for a
    /// swapchain backend the caller submits its commands and then
    /// presents, for a context backend it swaps buffers.
    pub fn present(&mut self)
        requires
            old(self).stage is OverlayDrawn,
        ensures
            final(self).stage is Presented,
            final(self).retried == old(self).retried,
            final(self).last_width == old(self).last_width,
            final(self).last_height == old(self).last_height,
    {
        self.stage = FrameStage::Presented;
    }

    /// Returns the pipeline to rest after a present, ready for the next
    /// frame; only then may a new frame begin.
    pub fn finish_frame(&mut self)
        requires
            old(self).stage is Presented,
        ensures
            final(self).stage is Idle,
            !final(self).retried,
            final(self).last_width == old(self).last_width,
            final(self).last_height == old(self).last_height,
    {
        self.stage = FrameStage::Idle;
        self.retried = false;
    }
}

} // verus!
