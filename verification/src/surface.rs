use vstd::prelude::*;

verus! {

/// Which presentation model a backend uses: a persistent context whose
/// presentation is a buffer swap, or a swapchain whose presentation is a
/// queue submission followed by an explicit present.
#[derive(PartialEq, Eq, Structural, Clone, Copy, Debug)]
pub enum BackendKind {
    ContextBacked,
    SwapchainBacked,
}

/// Pixel dimensions that the presentable target is configured with.
///
/// Both sides are kept at 1 or more: a zero-sized target is a degenerate
/// configuration that the presentation layer refuses.
#[derive(PartialEq, Eq, Structural, Clone, Copy, Debug)]
pub struct SurfaceConfig {
    pub width: u32,
    pub height: u32,
}

/// A requested dimension is clamped to a minimum of 1 pixel.
pub open spec fn clamp_dim(d: u32) -> u32 {
    if d == 0 {
        1u32
    } else {
        d
    }
}

/// The configuration a resize to `w × h` leaves behind.
pub open spec fn resized(w: u32, h: u32) -> SurfaceConfig {
    SurfaceConfig { width: clamp_dim(w), height: clamp_dim(h) }
}

/// Whether a resize to `w × h` has any GPU reconfiguration to do from `c`.
pub open spec fn resize_does_work(c: SurfaceConfig, w: u32, h: u32) -> bool {
    c != resized(w, h)
}

impl SurfaceConfig {
    /// The configuration never holds a zero dimension.
    pub open spec fn wf(self) -> bool {
        self.width >= 1 && self.height >= 1
    }

    /// A fresh configuration for a window of the given size, clamped.
    pub fn new(width: u32, height: u32) -> (c: SurfaceConfig)
        ensures
            c == resized(width, height),
            c.wf(),
    {
        SurfaceConfig {
            width: if width == 0 {
                1
            } else {
                width
            },
            height: if height == 0 {
                1
            } else {
                height
            },
        }
    }
}

/// The state a surface backend carries between frames: the device and queue
/// it was created with, its presentation kind, and the current target
/// configuration. The GPU resources themselves live with the platform
/// layer; collaborators must build their commands against the same device,
/// which the identifiers here let them check.
pub struct SurfaceState {
    pub device_id: u64,
    pub queue_id: u64,
    pub kind: BackendKind,
    pub config: SurfaceConfig,
}

impl SurfaceState {
    pub open spec fn wf(self) -> bool {
        self.config.wf()
    }

    /// A backend fresh from device creation, configured to the window's
    /// current size (clamped).
    pub fn new(device_id: u64, queue_id: u64, kind: BackendKind, width: u32, height: u32) -> (s:
        SurfaceState)
        ensures
            s.device_id == device_id,
            s.queue_id == queue_id,
            s.kind == kind,
            s.config == resized(width, height),
            s.wf(),
    {
        SurfaceState { device_id, queue_id, kind, config: SurfaceConfig::new(width, height) }
    }

    /// Reconfigures the presentable target to the given pixel dimensions,
    /// clamped to a minimum of 1×1. Returns whether reconfiguration work
    /// was done: a resize to the current size is a no-op.
    pub fn resize(&mut self, width: u32, height: u32) -> (reconfigured: bool)
        requires
            old(self).wf(),
        ensures
            final(self).config == resized(width, height),
            final(self).device_id == old(self).device_id,
            final(self).queue_id == old(self).queue_id,
            final(self).kind == old(self).kind,
            reconfigured == resize_does_work(old(self).config, width, height),
            final(self).wf(),
    {
        let next = SurfaceConfig::new(width, height);
        if self.config.width == next.width && self.config.height == next.height {
            false
        } else {
            self.config = next;
            true
        }
    }

    /// The device and queue identifiers that collaborators record GPU
    /// commands against; mixing devices is a fatal misuse, checked by the
    /// compositor.
    pub fn device_queue_handles(&self) -> (r: (u64, u64))
        ensures
            r.0 == self.device_id,
            r.1 == self.queue_id,
    {
        (self.device_id, self.queue_id)
    }
}

/// Resizing to the same dimensions twice does reconfiguration work at most
/// once: the second resize finds the clamped size already configured and
/// is a no-op.
pub proof fn lemma_resize_idempotent(w: u32, h: u32)
    ensures
        !resize_does_work(resized(w, h), w, h),
{
}

} // verus!
