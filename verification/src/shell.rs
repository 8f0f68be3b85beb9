use vstd::prelude::*;

use crate::overlay::{ImagePatch, OverlayCompositor};
use crate::pipeline::FramePipeline;
use crate::router::{
    controller_initial, inert_effects, routed_effects, routed_state, InputEvent, RouterEffects,
    UiResponse, ViewController,
};
use crate::surface::{resized, BackendKind, SurfaceState};

verus! {

/// Everything the application controller owns once the GPU device exists:
/// the surface backend state, the pointer-and-viewport controller, the
/// frame pipeline, and the overlay compositor (created once, here, and
/// reused every frame).
pub struct ReadyShell {
    pub surface: SurfaceState,
    pub controller: ViewController,
    pub pipeline: FramePipeline,
    pub compositor: OverlayCompositor,
}

impl ReadyShell {
    pub open spec fn wf(self) -> bool {
        self.surface.wf() && self.controller.wf()
    }

    /// Routes one event and carries its resize effect out on the owned
    /// parts: the surface is reconfigured and the pipeline notes the size
    /// as the last known one, for the lost-surface recovery. All other
    /// effects are handed back for the platform layer to perform.
    pub fn dispatch(&mut self, ev: InputEvent, ui: UiResponse) -> (effects: RouterEffects)
        requires
            old(self).wf(),
            ev.wf(),
        ensures
            final(self).wf(),
            final(self).controller@ == routed_state(old(self).controller@, ev, ui),
            effects == routed_effects(old(self).controller@, ev, ui),
            final(self).compositor == old(self).compositor,
            effects.resize_to matches Some((w, h)) ==> {
                &&& final(self).surface.config == resized(w, h)
                &&& final(self).surface.device_id == old(self).surface.device_id
                &&& final(self).surface.queue_id == old(self).surface.queue_id
                &&& final(self).surface.kind == old(self).surface.kind
                &&& final(self).pipeline.last_width == w
                &&& final(self).pipeline.last_height == h
                &&& final(self).pipeline.stage == old(self).pipeline.stage
                &&& final(self).pipeline.retried == old(self).pipeline.retried
            },
            effects.resize_to is None ==> final(self).surface == old(self).surface
                && final(self).pipeline == old(self).pipeline,
    {
        let effects = self.controller.handle_event(ev, ui);
        match effects.resize_to {
            Some((w, h)) => {
                self.surface.resize(w, h);
                self.pipeline.record_size(w, h);
            },
            None => {},
        }
        effects
    }
}

/// The deferred-initialization lifecycle. On at least one platform the
/// activation that makes GPU setup legal arrives asynchronously, so the
/// shell starts without a device: while `Uninitialized` it drops input and
/// redraw events instead of crashing, and only the `Ready` variant carries
/// the surface, viewport and caches.
pub enum Shell {
    Uninitialized,
    Ready(ReadyShell),
}

impl Shell {
    pub open spec fn wf(self) -> bool {
        match self {
            Shell::Uninitialized => true,
            Shell::Ready(r) => r.wf(),
        }
    }

    pub fn is_ready(&self) -> (r: bool)
        ensures
            r == (self is Ready),
    {
        match self {
            Shell::Uninitialized => false,
            Shell::Ready(_) => true,
        }
    }

    /// The one-time transition to `Ready`, once device creation finished:
    /// builds the backend state, a fresh controller, pipeline and
    /// compositor, and performs the one deferred resize to the window's
    /// current size, before any frame is drawn.
    pub fn activate(
        &mut self,
        device_id: u64,
        queue_id: u64,
        kind: BackendKind,
        width: u32,
        height: u32,
    )
        requires
            *old(self) is Uninitialized,
        ensures
            *final(self) matches Shell::Ready(r) && {
                &&& r.surface.device_id == device_id
                &&& r.surface.queue_id == queue_id
                &&& r.surface.kind == kind
                &&& r.surface.config == resized(width, height)
                &&& r.controller@ == controller_initial()
                &&& r.pipeline.stage is Idle
                &&& !r.pipeline.retried
                &&& r.pipeline.last_width == width
                &&& r.pipeline.last_height == height
                &&& r.compositor.device_id == device_id
                &&& r.compositor.cache@ == Map::<u64, ImagePatch>::empty()
                &&& r.compositor.buffer_capacity == 0
                &&& r.wf()
            },
    {
        *self = Shell::Ready(
            ReadyShell {
                surface: SurfaceState::new(device_id, queue_id, kind, width, height),
                controller: ViewController::new(),
                pipeline: FramePipeline::new(width, height),
                compositor: OverlayCompositor::new(device_id),
            },
        );
    }

    /// Routes one event. Before activation the event is dropped — never a
    /// crash — and nothing is asked of the platform layer; after it, the
    /// ready parts handle the event as `dispatch` says.
    pub fn route_event(&mut self, ev: InputEvent, ui: UiResponse) -> (effects: RouterEffects)
        requires
            old(self).wf(),
            ev.wf(),
        ensures
            final(self).wf(),
            *old(self) is Uninitialized ==> *final(self) is Uninitialized && effects
                == inert_effects(false),
            *old(self) matches Shell::Ready(r0) ==> *final(self) matches Shell::Ready(r1) && {
                &&& r1.controller@ == routed_state(r0.controller@, ev, ui)
                &&& effects == routed_effects(r0.controller@, ev, ui)
                &&& r1.compositor == r0.compositor
                &&& (effects.resize_to matches Some((w, h)) ==> {
                    &&& r1.surface.config == resized(w, h)
                    &&& r1.surface.device_id == r0.surface.device_id
                    &&& r1.surface.queue_id == r0.surface.queue_id
                    &&& r1.surface.kind == r0.surface.kind
                    &&& r1.pipeline.last_width == w
                    &&& r1.pipeline.last_height == h
                    &&& r1.pipeline.stage == r0.pipeline.stage
                    &&& r1.pipeline.retried == r0.pipeline.retried
                })
                &&& (effects.resize_to is None ==> r1.surface == r0.surface && r1.pipeline
                    == r0.pipeline)
            },
    {
        match self {
            Shell::Uninitialized => RouterEffects {
                repaint: false,
                resize_to: None,
                begin_frame: false,
                exit: false,
            },
            Shell::Ready(r) => r.dispatch(ev, ui),
        }
    }
}

/// The state the shell enters the platform event loop with: no GPU device
/// yet, everything deferred until the platform delivers its activation.
pub fn init_event_loop() -> (s: Shell)
    ensures
        s is Uninitialized,
        s.wf(),
{
    Shell::Uninitialized
}

} // verus!
