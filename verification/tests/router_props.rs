use canvas_shell::rat::{frac_eq_value, Frac};
use canvas_shell::router::{InputEvent, UiResponse, ViewController, WheelDelta};
use canvas_shell::viewport::{transform_apply, transform_invert, Point};

fn fr(num: i128, den: i128) -> Frac {
    Frac { num, den }
}

fn pt(x: i128, y: i128) -> Point {
    Point { x: fr(x, 1), y: fr(y, 1) }
}

fn quiet() -> UiResponse {
    UiResponse { consumed: false, wants_repaint: false }
}

#[test]
fn drag_pans_then_wheel_keeps_anchor() {
    // The window opens at 1000×600; the pointer presses at (400, 300) and
    // drags to (420, 320): the translation grows by (20, 20) in world
    // units (the scale is 1). A later wheel detent at (400, 300) keeps
    // that point's world position.
    let mut c = ViewController::new();
    let e0 = c.handle_event(InputEvent::PointerMoved(pt(400, 300)), quiet());
    assert!(!e0.repaint);
    c.handle_event(InputEvent::PointerPressed, quiet());
    let e1 = c.handle_event(InputEvent::PointerMoved(pt(420, 320)), quiet());
    assert!(e1.repaint);
    assert_eq!(frac_eq_value(&c.transform.scale, &fr(1, 1)), Some(true));
    assert_eq!(frac_eq_value(&c.transform.tx, &fr(20, 1)), Some(true));
    assert_eq!(frac_eq_value(&c.transform.ty, &fr(20, 1)), Some(true));
    c.handle_event(InputEvent::PointerReleased, quiet());
    let e2 = c.handle_event(InputEvent::PointerMoved(pt(400, 300)), quiet());
    assert!(!e2.repaint);

    let anchor = pt(400, 300);
    let w_before = transform_apply(&transform_invert(&c.transform).unwrap(), &anchor).unwrap();
    let e3 = c.handle_event(InputEvent::Wheel(WheelDelta::Detents(fr(1, 1))), quiet());
    assert!(e3.repaint);
    let w_after = transform_apply(&transform_invert(&c.transform).unwrap(), &anchor).unwrap();
    assert_eq!(frac_eq_value(&w_before.x, &w_after.x), Some(true));
    assert_eq!(frac_eq_value(&w_before.y, &w_after.y), Some(true));
    assert_eq!(frac_eq_value(&c.transform.scale, &fr(11, 10)), Some(true));
}

#[test]
fn move_without_drag_only_stores_pointer() {
    let mut c = ViewController::new();
    let e = c.handle_event(InputEvent::PointerMoved(pt(100, 50)), quiet());
    assert!(!e.repaint);
    assert_eq!(c.pointer, pt(100, 50));
    assert_eq!(frac_eq_value(&c.transform.tx, &fr(0, 1)), Some(true));
    assert_eq!(frac_eq_value(&c.transform.ty, &fr(0, 1)), Some(true));
}

#[test]
fn consumed_event_changes_nothing_but_may_repaint() {
    let mut c = ViewController::new();
    let ui = UiResponse { consumed: true, wants_repaint: true };
    let e = c.handle_event(InputEvent::PointerPressed, ui);
    assert!(e.repaint);
    assert!(!c.dragging);
    let ui2 = UiResponse { consumed: true, wants_repaint: false };
    let e2 = c.handle_event(InputEvent::PointerPressed, ui2);
    assert!(!e2.repaint);
    assert!(!c.dragging);
}

#[test]
fn pixel_wheel_scales_like_a_fraction_of_a_detent() {
    // 150 wheel pixels are 1.5 detents: the factor is 1 + 1.5/10 = 1.15
    let mut c = ViewController::new();
    let e = c.handle_event(InputEvent::Wheel(WheelDelta::Pixels(fr(150, 1))), quiet());
    assert!(e.repaint);
    assert_eq!(frac_eq_value(&c.transform.scale, &fr(23, 20)), Some(true));
}

#[test]
fn escape_requests_shutdown() {
    let mut c = ViewController::new();
    assert!(!c.should_exit());
    let e = c.handle_event(InputEvent::EscapePressed, quiet());
    assert!(!e.exit);
    assert!(c.should_exit());
}

#[test]
fn close_request_exits_the_loop() {
    let mut c = ViewController::new();
    let e = c.handle_event(InputEvent::CloseRequested, quiet());
    assert!(e.exit);
    assert!(c.should_exit());
}

#[test]
fn resize_and_redraw_become_effects() {
    let mut c = ViewController::new();
    let e = c.handle_event(InputEvent::WindowResized(800, 600), quiet());
    assert_eq!(e.resize_to, Some((800, 600)));
    assert!(!e.begin_frame);
    let e2 = c.handle_event(InputEvent::RedrawRequested, quiet());
    assert!(e2.begin_frame);
    assert_eq!(e2.resize_to, None);
}
