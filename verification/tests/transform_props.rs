use canvas_shell::rat::{frac_eq_value, Frac};
use canvas_shell::viewport::{
    point_opp, transform_apply, transform_invert, transform_pan, transform_zoom_at,
    zoom_factor_of_notches, Point, Transform,
};

fn fr(num: i128, den: i128) -> Frac {
    Frac { num, den }
}

fn pt(x: i128, y: i128) -> Point {
    Point { x: fr(x, 1), y: fr(y, 1) }
}

#[test]
fn invert_undoes_apply() {
    let t = Transform { scale: fr(2, 1), tx: fr(3, 1), ty: fr(4, 1) };
    let p = pt(5, 7);
    let q = transform_apply(&t, &p).unwrap();
    assert_eq!(q.x, fr(13, 1));
    assert_eq!(q.y, fr(18, 1));
    let inv = transform_invert(&t).unwrap();
    let back = transform_apply(&inv, &q).unwrap();
    assert_eq!(frac_eq_value(&back.x, &p.x), Some(true));
    assert_eq!(frac_eq_value(&back.y, &p.y), Some(true));
}

#[test]
fn invert_undoes_apply_fractional_scale() {
    let t = Transform { scale: fr(3, 4), tx: fr(-7, 2), ty: fr(1, 3) };
    let p = Point { x: fr(11, 5), y: fr(-2, 9) };
    let q = transform_apply(&t, &p).unwrap();
    let inv = transform_invert(&t).unwrap();
    let back = transform_apply(&inv, &q).unwrap();
    assert_eq!(frac_eq_value(&back.x, &p.x), Some(true));
    assert_eq!(frac_eq_value(&back.y, &p.y), Some(true));
}

#[test]
fn zoom_keeps_anchor_under_cursor() {
    let t = Transform { scale: fr(2, 1), tx: fr(5, 1), ty: fr(-3, 1) };
    let a = pt(400, 300);
    let f = zoom_factor_of_notches(&fr(1, 1)).unwrap();
    assert_eq!(f, fr(11, 10));
    let tz = transform_zoom_at(&t, &a, &f).unwrap();
    let w_before = transform_apply(&transform_invert(&t).unwrap(), &a).unwrap();
    let w_after = transform_apply(&transform_invert(&tz).unwrap(), &a).unwrap();
    assert_eq!(frac_eq_value(&w_before.x, &w_after.x), Some(true));
    assert_eq!(frac_eq_value(&w_before.y, &w_after.y), Some(true));
}

#[test]
fn zoom_out_keeps_anchor_under_cursor() {
    let t = Transform { scale: fr(1, 1), tx: fr(0, 1), ty: fr(0, 1) };
    let a = pt(123, -456);
    let f = zoom_factor_of_notches(&fr(-1, 1)).unwrap();
    assert_eq!(f, fr(9, 10));
    let tz = transform_zoom_at(&t, &a, &f).unwrap();
    let w_before = transform_apply(&transform_invert(&t).unwrap(), &a).unwrap();
    let w_after = transform_apply(&transform_invert(&tz).unwrap(), &a).unwrap();
    assert_eq!(frac_eq_value(&w_before.x, &w_after.x), Some(true));
    assert_eq!(frac_eq_value(&w_before.y, &w_after.y), Some(true));
}

#[test]
fn thousand_pan_cycles_no_drift() {
    let mut t = Transform { scale: fr(3, 2), tx: fr(7, 1), ty: fr(-4, 1) };
    let orig = t;
    let d = pt(11, -5);
    let nd = point_opp(&d);
    let mut i = 0;
    while i < 1000 {
        t = transform_pan(&t, &d).unwrap();
        t = transform_pan(&t, &nd).unwrap();
        i += 1;
    }
    assert_eq!(t, orig);
}

#[test]
fn wheel_factor_is_clamped_positive() {
    // -20 detents would give the factor -1; it is clamped to stay positive
    assert_eq!(zoom_factor_of_notches(&fr(-20, 1)), Some(fr(1, 10)));
    // -10 detents would give exactly zero
    assert_eq!(zoom_factor_of_notches(&fr(-10, 1)), Some(fr(1, 10)));
    // an ordinary notch count is untouched
    assert_eq!(zoom_factor_of_notches(&fr(3, 1)), Some(fr(13, 10)));
}
