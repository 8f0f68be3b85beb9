use canvas_shell::errors::ShellError;
use canvas_shell::overlay::{
    DrawPrimitive, FrameOutput, ImagePatch, OverlayCompositor, TextureUpdate,
};
use canvas_shell::rat::Frac;

fn fr(num: i128, den: i128) -> Frac {
    Frac { num, den }
}

fn patch() -> ImagePatch {
    ImagePatch { width: 8, height: 8 }
}

fn frame(
    prims: Vec<DrawPrimitive>,
    updates: Vec<TextureUpdate>,
    frees: Vec<u64>,
) -> FrameOutput {
    FrameOutput {
        primitives: prims,
        texture_updates: updates,
        texture_frees: frees,
        scale_factor: fr(2, 1),
    }
}

#[test]
fn update_then_free_in_one_frame_leaves_no_entry() {
    // texture_updates = {A}, then texture_frees = {A}, no primitive
    // references A: afterwards the cache no longer contains A.
    let mut comp = OverlayCompositor::new(7);
    let f = frame(vec![], vec![TextureUpdate { id: 1, patch: patch() }], vec![1]);
    let plan = comp.compose_frame(&f, 7).unwrap();
    assert!(plan.load_existing);
    assert!(!comp.texture_present(1));
}

#[test]
fn missing_texture_is_a_cache_miss_and_skips_frees() {
    let mut comp = OverlayCompositor::new(3);
    let setup = frame(vec![], vec![TextureUpdate { id: 1, patch: patch() }], vec![]);
    comp.compose_frame(&setup, 3).unwrap();
    assert!(comp.texture_present(1));
    // this frame draws texture 9, which nothing ever created
    let bad = frame(vec![DrawPrimitive { texture_id: 9 }], vec![], vec![1]);
    let r = comp.compose_frame(&bad, 3);
    assert_eq!(r.unwrap_err(), ShellError::TextureCacheMiss);
    // the pass failed before the frees: texture 1 is still cached
    assert!(comp.texture_present(1));
}

#[test]
fn primitives_draw_in_the_order_given() {
    let mut comp = OverlayCompositor::new(0);
    let f = frame(
        vec![
            DrawPrimitive { texture_id: 2 },
            DrawPrimitive { texture_id: 1 },
            DrawPrimitive { texture_id: 2 },
        ],
        vec![
            TextureUpdate { id: 1, patch: patch() },
            TextureUpdate { id: 2, patch: patch() },
        ],
        vec![],
    );
    let plan = comp.compose_frame(&f, 0).unwrap();
    assert!(plan.load_existing);
    assert_eq!(plan.draw_order, vec![2, 1, 2]);
    assert_eq!(plan.pixels_per_point, fr(2, 1));
    assert!(comp.texture_present(1));
    assert!(comp.texture_present(2));
}

#[test]
fn buffers_are_reused_when_the_primitive_count_is_unchanged() {
    let mut comp = OverlayCompositor::new(0);
    let updates = vec![TextureUpdate { id: 1, patch: patch() }];
    let f1 = frame(vec![DrawPrimitive { texture_id: 1 }], updates, vec![]);
    let p1 = comp.compose_frame(&f1, 0).unwrap();
    assert!(p1.buffers_reallocated);
    let f2 = frame(vec![DrawPrimitive { texture_id: 1 }], vec![], vec![]);
    let p2 = comp.compose_frame(&f2, 0).unwrap();
    assert!(!p2.buffers_reallocated);
    let f3 = frame(
        vec![DrawPrimitive { texture_id: 1 }, DrawPrimitive { texture_id: 1 }],
        vec![],
        vec![],
    );
    let p3 = comp.compose_frame(&f3, 0).unwrap();
    assert!(p3.buffers_reallocated);
}

#[test]
fn an_update_in_the_same_frame_satisfies_a_reference() {
    // the update is applied before the primitives are drawn
    let mut comp = OverlayCompositor::new(0);
    let f = frame(
        vec![DrawPrimitive { texture_id: 5 }],
        vec![TextureUpdate { id: 5, patch: patch() }],
        vec![],
    );
    assert!(comp.compose_frame(&f, 0).is_ok());
}

#[test]
fn error_descriptions_name_each_failure() {
    let texts = [
        ShellError::SurfaceLost.describe(),
        ShellError::DeviceCreationFailed.describe(),
        ShellError::DegenerateTransform.describe(),
        ShellError::TextureCacheMiss.describe(),
    ];
    for t in texts.iter() {
        assert!(!t.is_empty());
    }
    assert_ne!(texts[0], texts[3]);
}
