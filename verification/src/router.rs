use vstd::prelude::*;

use crate::rat::{frac_prod, prod_ok, rat_prod, Frac, Rat};
use crate::transform::{pt_diff, xf_apply, xf_invert, xf_pan, xf_zoom_at, RatPoint, RatXform};
use crate::viewport::{
    clamped_factor, pan_ok, transform_identity, transform_pan, transform_zoom_at, wheel_factor,
    wheel_factor_ok, world_delta, world_delta_ok, zoom_factor_of_notches, zoom_ok, Point,
    Transform, WHEEL_PIXEL_DIVISOR,
};

verus! {

/// A wheel movement: whole detents from a clicky wheel, or pixels from a
/// continuous one.
#[derive(PartialEq, Eq, Structural, Clone, Copy, Debug)]
pub enum WheelDelta {
    Detents(Frac),
    Pixels(Frac),
}

/// One window or input event, as plain values.
#[derive(PartialEq, Eq, Structural, Clone, Copy, Debug)]
pub enum InputEvent {
    PointerPressed,
    PointerReleased,
    PointerMoved(Point),
    Wheel(WheelDelta),
    WindowResized(u32, u32),
    EscapePressed,
    CloseRequested,
    RedrawRequested,
}

impl WheelDelta {
    pub open spec fn wf(self) -> bool {
        match self {
            WheelDelta::Detents(n) => n.wf(),
            WheelDelta::Pixels(p) => p.wf(),
        }
    }
}

impl InputEvent {
    pub open spec fn wf(self) -> bool {
        match self {
            InputEvent::PointerMoved(p) => p.wf(),
            InputEvent::Wheel(d) => d.wf(),
            _ => true,
        }
    }
}

/// What the UI layer said about an event it was offered first.
#[derive(PartialEq, Eq, Structural, Clone, Copy, Debug)]
pub struct UiResponse {
    pub consumed: bool,
    pub wants_repaint: bool,
}

/// What the platform layer must do after one event was routed.
#[derive(PartialEq, Eq, Clone, Copy, Debug)]
pub struct RouterEffects {
    pub repaint: bool,
    pub resize_to: Option<(u32, u32)>,
    pub begin_frame: bool,
    pub exit: bool,
}

/// The effects of an event that asks nothing of the platform layer.
pub open spec fn inert_effects(repaint: bool) -> RouterEffects {
    RouterEffects { repaint, resize_to: None, begin_frame: false, exit: false }
}

/// The wheel movement in detent-like notches: pixels count for a
/// hundredth of a detent each.
pub open spec fn wheel_notches(d: WheelDelta) -> Rat {
    match d {
        WheelDelta::Detents(n) => n@,
        WheelDelta::Pixels(p) => rat_prod(p@, Rat { n: 1, d: WHEEL_PIXEL_DIVISOR as int }),
    }
}

/// The notch computation stays in the machine range.
pub open spec fn wheel_notches_ok(d: WheelDelta) -> bool {
    match d {
        WheelDelta::Detents(_) => true,
        WheelDelta::Pixels(p) => prod_ok(p@, Rat { n: 1, d: WHEEL_PIXEL_DIVISOR as int }),
    }
}

/// Every step from a wheel movement to the zoomed transform stays in the
/// machine range.
pub open spec fn wheel_zoom_ok(t: RatXform, anchor: RatPoint, d: WheelDelta) -> bool {
    &&& wheel_notches_ok(d)
    &&& wheel_factor_ok(wheel_notches(d))
    &&& zoom_ok(t, anchor, clamped_factor(wheel_factor(wheel_notches(d))))
}

/// The transform a wheel movement produces.
pub open spec fn wheel_zoomed(t: RatXform, anchor: RatPoint, d: WheelDelta) -> RatXform {
    xf_zoom_at(t, anchor, clamped_factor(wheel_factor(wheel_notches(d))))
}

/// Every step of a drag pan — the world delta and the pan — stays in the
/// machine range.
pub open spec fn move_pan_ok(t: RatXform, from: RatPoint, to: RatPoint) -> bool {
    world_delta_ok(t, from, to) && pan_ok(t, drag_world_delta(t, from, to))
}

/// The pan delta of a drag, in world space.
pub open spec fn drag_world_delta(t: RatXform, from: RatPoint, to: RatPoint) -> RatPoint {
    pt_diff(xf_apply(xf_invert(t), to), xf_apply(xf_invert(t), from))
}

/// The transform a drag produces.
pub open spec fn drag_panned(t: RatXform, from: RatPoint, to: RatPoint) -> RatXform {
    xf_pan(t, drag_world_delta(t, from, to))
}

/// The pointer-and-viewport state that the event router owns: the stored
/// pointer position, whether the primary button holds a drag, whether
/// shutdown was requested, and the pan/zoom transform.
pub struct ViewController {
    pub pointer: Point,
    pub dragging: bool,
    pub close_requested: bool,
    pub transform: Transform,
}

/// The controller's state as mathematical values.
pub struct ControllerView {
    pub pointer: RatPoint,
    pub dragging: bool,
    pub close_requested: bool,
    pub transform: RatXform,
}

impl View for ViewController {
    type V = ControllerView;

    open spec fn view(&self) -> ControllerView {
        ControllerView {
            pointer: self.pointer@,
            dragging: self.dragging,
            close_requested: self.close_requested,
            transform: self.transform@,
        }
    }
}

/// The state a fresh controller holds: pointer at the origin, no drag, no
/// shutdown request, the identity viewport.
pub open spec fn controller_initial() -> ControllerView {
    ControllerView {
        pointer: RatPoint { x: Rat { n: 0, d: 1 }, y: Rat { n: 0, d: 1 } },
        dragging: false,
        close_requested: false,
        transform: crate::transform::xf_identity(),
    }
}

/// The state the controller holds after routing one event: a consumed
/// event changes nothing; a press or release moves the drag flag; a move
/// stores the pointer and, during a drag whose exact arithmetic fits the
/// machine, pans by the world-space delta; a wheel movement whose
/// arithmetic fits zooms at the stored pointer by the clamped factor;
/// escape and close requests ask for shutdown; resizes and redraws only
/// produce effects.
pub open spec fn routed_state(c: ControllerView, ev: InputEvent, ui: UiResponse) -> ControllerView {
    if ui.consumed {
        c
    } else {
        match ev {
            InputEvent::PointerPressed => ControllerView { dragging: true, ..c },
            InputEvent::PointerReleased => ControllerView { dragging: false, ..c },
            InputEvent::PointerMoved(p) => ControllerView {
                pointer: p@,
                transform: if c.dragging && move_pan_ok(c.transform, c.pointer, p@) {
                    drag_panned(c.transform, c.pointer, p@)
                } else {
                    c.transform
                },
                ..c
            },
            InputEvent::Wheel(d) => ControllerView {
                transform: if wheel_zoom_ok(c.transform, c.pointer, d) {
                    wheel_zoomed(c.transform, c.pointer, d)
                } else {
                    c.transform
                },
                ..c
            },
            InputEvent::WindowResized(_, _) => c,
            InputEvent::EscapePressed => ControllerView { close_requested: true, ..c },
            InputEvent::CloseRequested => ControllerView { close_requested: true, ..c },
            InputEvent::RedrawRequested => c,
        }
    }
}

/// The effects routing one event hands to the platform layer: a repaint
/// whenever the UI wants one or the viewport changed, the resize to
/// forward, the redraw to begin, and whether the loop ends now.
pub open spec fn routed_effects(c: ControllerView, ev: InputEvent, ui: UiResponse) -> RouterEffects {
    if ui.consumed {
        inert_effects(ui.wants_repaint)
    } else {
        match ev {
            InputEvent::PointerMoved(p) => inert_effects(
                ui.wants_repaint || (c.dragging && move_pan_ok(c.transform, c.pointer, p@)),
            ),
            InputEvent::Wheel(d) => inert_effects(
                ui.wants_repaint || wheel_zoom_ok(c.transform, c.pointer, d),
            ),
            InputEvent::WindowResized(w, h) => RouterEffects {
                repaint: ui.wants_repaint,
                resize_to: Some((w, h)),
                begin_frame: false,
                exit: false,
            },
            InputEvent::CloseRequested => RouterEffects {
                repaint: ui.wants_repaint,
                resize_to: None,
                begin_frame: false,
                exit: true,
            },
            InputEvent::RedrawRequested => RouterEffects {
                repaint: ui.wants_repaint,
                resize_to: None,
                begin_frame: true,
                exit: false,
            },
            _ => inert_effects(ui.wants_repaint),
        }
    }
}

impl ViewController {
    pub open spec fn wf(self) -> bool {
        self.pointer.wf() && self.transform.wf()
    }

    /// A controller at rest: pointer at the origin, no drag, the identity
    /// viewport.
    pub fn new() -> (c: ViewController)
        ensures
            c@ == controller_initial(),
            c.wf(),
    {
        ViewController {
            pointer: Point { x: Frac { num: 0, den: 1 }, y: Frac { num: 0, den: 1 } },
            dragging: false,
            close_requested: false,
            transform: transform_identity(),
        }
    }

    /// Whether shutdown was requested (close request or the escape key).
    pub fn should_exit(&self) -> (r: bool)
        ensures
            r == self.close_requested,
    {
        self.close_requested
    }

    /// Routes one event. The UI layer was offered the event first and its
    /// answer is `ui`: a repaint it asked for is always scheduled, and a
    /// consumed event goes no further. Otherwise: presses and releases of
    /// the primary button start and end a drag; a move during a drag pans
    /// by the world-space delta of the move and always updates the stored
    /// pointer; a wheel movement zooms at the stored pointer by the
    /// clamped factor; a resize is handed back to be forwarded to the
    /// surface; escape requests shutdown; a close request ends the loop;
    /// a redraw request hands back `begin_frame`. A pan or zoom whose
    /// exact arithmetic would leave the machine range leaves the transform
    /// unchanged.
    pub fn handle_event(&mut self, ev: InputEvent, ui: UiResponse) -> (effects: RouterEffects)
        requires
            old(self).wf(),
            ev.wf(),
        ensures
            final(self).wf(),
            final(self)@ == routed_state(old(self)@, ev, ui),
            effects == routed_effects(old(self)@, ev, ui),
    {
        let mut effects = RouterEffects {
            repaint: ui.wants_repaint,
            resize_to: None,
            begin_frame: false,
            exit: false,
        };
        if ui.consumed {
            return effects;
        }
        match ev {
            InputEvent::PointerPressed => {
                self.dragging = true;
            },
            InputEvent::PointerReleased => {
                self.dragging = false;
            },
            InputEvent::PointerMoved(p) => {
                if self.dragging {
                    match world_delta(&self.transform, &self.pointer, &p) {
                        Some(d) => {
                            match transform_pan(&self.transform, &d) {
                                Some(t2) => {
                                    self.transform = t2;
                                    effects.repaint = true;
                                },
                                None => {},
                            }
                        },
                        None => {},
                    }
                }
                self.pointer = p;
            },
            InputEvent::Wheel(d) => {
                let notches: Option<Frac> = match d {
                    WheelDelta::Detents(n) => Some(n),
                    WheelDelta::Pixels(px) => frac_prod(
                        &px,
                        &Frac { num: 1, den: WHEEL_PIXEL_DIVISOR },
                    ),
                };
                match notches {
                    Some(n) => {
                        match zoom_factor_of_notches(&n) {
                            Some(f) => {
                                match transform_zoom_at(&self.transform, &self.pointer, &f) {
                                    Some(t2) => {
                                        self.transform = t2;
                                        effects.repaint = true;
                                    },
                                    None => {},
                                }
                            },
                            None => {},
                        }
                    },
                    None => {},
                }
            },
            InputEvent::WindowResized(w, h) => {
                effects.resize_to = Some((w, h));
            },
            InputEvent::EscapePressed => {
                self.close_requested = true;
            },
            InputEvent::CloseRequested => {
                self.close_requested = true;
                effects.exit = true;
            },
            InputEvent::RedrawRequested => {
                effects.begin_frame = true;
            },
        }
        effects
    }
}

} // verus!
