use canvas_shell::router::{InputEvent, UiResponse};
use canvas_shell::shell::{init_event_loop, Shell};
use canvas_shell::surface::{BackendKind, SurfaceConfig};

fn quiet() -> UiResponse {
    UiResponse { consumed: false, wants_repaint: false }
}

#[test]
fn events_before_activation_are_dropped() {
    let mut shell = init_event_loop();
    assert!(!shell.is_ready());
    let e = shell.route_event(InputEvent::RedrawRequested, quiet());
    assert!(!e.repaint && !e.begin_frame && !e.exit);
    assert_eq!(e.resize_to, None);
    assert!(!shell.is_ready());
}

#[test]
fn activation_performs_the_deferred_resize() {
    let mut shell = init_event_loop();
    shell.activate(5, 6, BackendKind::SwapchainBacked, 1000, 600);
    assert!(shell.is_ready());
    match &shell {
        Shell::Ready(r) => {
            assert_eq!(r.surface.config, SurfaceConfig { width: 1000, height: 600 });
            assert_eq!(r.surface.device_queue_handles(), (5, 6));
            assert_eq!(r.compositor.device_id, 5);
            assert_eq!(r.pipeline.last_width, 1000);
            assert_eq!(r.pipeline.last_height, 600);
        },
        Shell::Uninitialized => panic!("activation did not reach the ready state"),
    }
}

#[test]
fn a_resize_event_reconfigures_surface_and_recovery_size() {
    let mut shell = init_event_loop();
    shell.activate(1, 2, BackendKind::ContextBacked, 1000, 600);
    let e = shell.route_event(InputEvent::WindowResized(0, 50), quiet());
    assert_eq!(e.resize_to, Some((0, 50)));
    match &shell {
        Shell::Ready(r) => {
            // the surface clamps; the recovery size keeps the raw values
            assert_eq!(r.surface.config, SurfaceConfig { width: 1, height: 50 });
            assert_eq!(r.pipeline.last_width, 0);
            assert_eq!(r.pipeline.last_height, 50);
        },
        Shell::Uninitialized => panic!("shell fell back to uninitialized"),
    }
}

#[test]
fn a_close_request_reaches_the_platform_loop() {
    let mut shell = init_event_loop();
    shell.activate(1, 2, BackendKind::SwapchainBacked, 640, 480);
    let e = shell.route_event(InputEvent::CloseRequested, quiet());
    assert!(e.exit);
    match &shell {
        Shell::Ready(r) => assert!(r.controller.should_exit()),
        Shell::Uninitialized => panic!("shell fell back to uninitialized"),
    }
}
