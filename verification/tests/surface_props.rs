use canvas_shell::surface::{BackendKind, SurfaceConfig, SurfaceState};

#[test]
fn resize_to_same_size_is_a_no_op() {
    let mut s = SurfaceState::new(1, 2, BackendKind::SwapchainBacked, 1000, 600);
    let first = s.resize(800, 600);
    assert!(first);
    let second = s.resize(800, 600);
    assert!(!second);
    assert_eq!(s.config, SurfaceConfig { width: 800, height: 600 });
}

#[test]
fn dimensions_are_clamped_to_one() {
    let mut s = SurfaceState::new(1, 2, BackendKind::ContextBacked, 0, 0);
    assert_eq!(s.config, SurfaceConfig { width: 1, height: 1 });
    let did = s.resize(0, 50);
    assert!(did);
    assert_eq!(s.config, SurfaceConfig { width: 1, height: 50 });
    // resizing to a size that clamps to the current one is a no-op too
    let again = s.resize(0, 50);
    assert!(!again);
}

#[test]
fn handles_name_the_creating_device() {
    let s = SurfaceState::new(7, 9, BackendKind::SwapchainBacked, 10, 10);
    assert_eq!(s.device_queue_handles(), (7, 9));
}
