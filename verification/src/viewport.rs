use vstd::prelude::*;

use crate::rat::{
    diff_ok, frac_diff, frac_is_pos, frac_opp, frac_prod, frac_recip, frac_sum, prod_ok,
    rat_of_int, rat_pos, rat_prod, rat_recip, rat_sum, sum_ok, Frac, Rat,
};
use crate::rat::lemma_prod_pos;
use crate::transform::{
    pt_diff, pt_opp, xf_apply, xf_compose, xf_identity, xf_invert, xf_pan, xf_scaling,
    xf_translation, xf_zoom_at, RatPoint, RatXform,
};

verus! {

/// Wheel detents are divided by this before they become a zoom factor.
pub const WHEEL_DETENT_DIVISOR: i128 = 10;

/// Continuous wheel pixels are divided by this to give detent-like notches.
pub const WHEEL_PIXEL_DIVISOR: i128 = 100;

/// When the raw wheel factor would not be positive it is clamped to
/// `1 / ZOOM_FACTOR_FLOOR_DEN`, so the scale can never reach zero.
pub const ZOOM_FACTOR_FLOOR_DEN: i128 = 10;

/// A point of the plane with exact fraction coordinates.
#[derive(PartialEq, Eq, Structural, Clone, Copy, Debug)]
pub struct Point {
    pub x: Frac,
    pub y: Frac,
}

impl Point {
    pub open spec fn wf(self) -> bool {
        self.x.wf() && self.y.wf()
    }
}

impl View for Point {
    type V = RatPoint;

    open spec fn view(&self) -> RatPoint {
        RatPoint { x: self.x@, y: self.y@ }
    }
}

/// The viewport transform `p' = p*scale + (tx, ty)`, held exactly.
#[derive(PartialEq, Eq, Structural, Clone, Copy, Debug)]
pub struct Transform {
    pub scale: Frac,
    pub tx: Frac,
    pub ty: Frac,
}

impl Transform {
    /// Well-formed fractions and a strictly positive scale.
    pub open spec fn wf(self) -> bool {
        self.scale.wf() && self.tx.wf() && self.ty.wf() && self.scale.num > 0
    }
}

impl View for Transform {
    type V = RatXform;

    open spec fn view(&self) -> RatXform {
        RatXform { s: self.scale@, tx: self.tx@, ty: self.ty@ }
    }
}

/// The identity viewport: scale one, no translation.
pub fn transform_identity() -> (r: Transform)
    ensures
        r@ == xf_identity(),
        r.wf(),
{
    Transform {
        scale: Frac { num: 1, den: 1 },
        tx: Frac { num: 0, den: 1 },
        ty: Frac { num: 0, den: 1 },
    }
}

/// Componentwise negation of a point.
pub fn point_opp(p: &Point) -> (r: Point)
    requires
        p.wf(),
    ensures
        r@ == pt_opp(p@),
        r.wf(),
{
    Point { x: frac_opp(&p.x), y: frac_opp(&p.y) }
}

/// Every step of `transform_apply` stays in the machine range.
pub open spec fn apply_ok(t: RatXform, p: RatPoint) -> bool {
    &&& prod_ok(p.x, t.s)
    &&& sum_ok(rat_prod(p.x, t.s), t.tx)
    &&& prod_ok(p.y, t.s)
    &&& sum_ok(rat_prod(p.y, t.s), t.ty)
}

/// `p*scale + translate`; `None` exactly when a step leaves the machine
/// range.
pub fn transform_apply(t: &Transform, p: &Point) -> (r: Option<Point>)
    requires
        t.wf(),
        p.wf(),
    ensures
        r is Some <==> apply_ok(t@, p@),
        r matches Some(q) ==> q@ == xf_apply(t@, p@) && q.wf(),
{
    let xs: Frac = match frac_prod(&p.x, &t.scale) {
        Some(v) => v,
        None => {
            return None;
        },
    };
    let x: Frac = match frac_sum(&xs, &t.tx) {
        Some(v) => v,
        None => {
            return None;
        },
    };
    let ys: Frac = match frac_prod(&p.y, &t.scale) {
        Some(v) => v,
        None => {
            return None;
        },
    };
    let y: Frac = match frac_sum(&ys, &t.ty) {
        Some(v) => v,
        None => {
            return None;
        },
    };
    Some(Point { x, y })
}

/// Every step of `transform_invert` stays in the machine range.
pub open spec fn invert_ok(t: RatXform) -> bool {
    &&& prod_ok(t.tx, rat_recip(t.s))
    &&& prod_ok(t.ty, rat_recip(t.s))
}

/// The inverse viewport `q ↦ (q - translate)/scale`; `None` exactly when a
/// step leaves the machine range. The positive scale keeps inversion total
/// in value: only machine range can fail here.
pub fn transform_invert(t: &Transform) -> (r: Option<Transform>)
    requires
        t.wf(),
    ensures
        r is Some <==> invert_ok(t@),
        r matches Some(u) ==> u@ == xf_invert(t@) && u.wf(),
{
    let rs: Frac = frac_recip(&t.scale);
    let px: Frac = match frac_prod(&t.tx, &rs) {
        Some(v) => v,
        None => {
            return None;
        },
    };
    let py: Frac = match frac_prod(&t.ty, &rs) {
        Some(v) => v,
        None => {
            return None;
        },
    };
    Some(Transform { scale: rs, tx: frac_opp(&px), ty: frac_opp(&py) })
}

/// Every step of `transform_pan` stays in the machine range.
pub open spec fn pan_ok(t: RatXform, d: RatPoint) -> bool {
    &&& sum_ok(t.tx, d.x)
    &&& sum_ok(t.ty, d.y)
}

/// Panning adds the delta to the translation and keeps the scale; `None`
/// exactly when a step leaves the machine range.
pub fn transform_pan(t: &Transform, d: &Point) -> (r: Option<Transform>)
    requires
        t.wf(),
        d.wf(),
    ensures
        r is Some <==> pan_ok(t@, d@),
        r matches Some(u) ==> u@ == xf_pan(t@, d@) && u.wf(),
{
    let tx: Frac = match frac_sum(&t.tx, &d.x) {
        Some(v) => v,
        None => {
            return None;
        },
    };
    let ty: Frac = match frac_sum(&t.ty, &d.y) {
        Some(v) => v,
        None => {
            return None;
        },
    };
    Some(Transform { scale: Frac { num: t.scale.num, den: t.scale.den }, tx, ty })
}

/// Every step of `transform_compose` stays in the machine range.
pub open spec fn compose_ok(outer: RatXform, inner: RatXform) -> bool {
    &&& prod_ok(inner.s, outer.s)
    &&& prod_ok(inner.tx, outer.s)
    &&& sum_ok(rat_prod(inner.tx, outer.s), outer.tx)
    &&& prod_ok(inner.ty, outer.s)
    &&& sum_ok(rat_prod(inner.ty, outer.s), outer.ty)
}

/// `compose(outer, inner)` applies `inner` first, then `outer`; `None`
/// exactly when a step leaves the machine range.
pub fn transform_compose(outer: &Transform, inner: &Transform) -> (r: Option<Transform>)
    requires
        outer.wf(),
        inner.wf(),
    ensures
        r is Some <==> compose_ok(outer@, inner@),
        r matches Some(u) ==> u@ == xf_compose(outer@, inner@) && u.wf(),
{
    let s: Frac = match frac_prod(&inner.scale, &outer.scale) {
        Some(v) => v,
        None => {
            return None;
        },
    };
    let px: Frac = match frac_prod(&inner.tx, &outer.scale) {
        Some(v) => v,
        None => {
            return None;
        },
    };
    let tx: Frac = match frac_sum(&px, &outer.tx) {
        Some(v) => v,
        None => {
            return None;
        },
    };
    let py: Frac = match frac_prod(&inner.ty, &outer.scale) {
        Some(v) => v,
        None => {
            return None;
        },
    };
    let ty: Frac = match frac_sum(&py, &outer.ty) {
        Some(v) => v,
        None => {
            return None;
        },
    };
    proof {
        lemma_prod_pos(inner@.s, outer@.s);
    }
    Some(Transform { scale: s, tx, ty })
}

/// A transform that only translates by `d`.
pub fn transform_translation(d: &Point) -> (r: Transform)
    requires
        d.wf(),
    ensures
        r@ == xf_translation(d@),
        r.wf(),
{
    Transform {
        scale: Frac { num: 1, den: 1 },
        tx: Frac { num: d.x.num, den: d.x.den },
        ty: Frac { num: d.y.num, den: d.y.den },
    }
}

/// A transform that only scales by the positive factor `f`.
pub fn transform_scaling(f: &Frac) -> (r: Transform)
    requires
        f.wf(),
        f.num > 0,
    ensures
        r@ == xf_scaling(f@),
        r.wf(),
{
    Transform {
        scale: Frac { num: f.num, den: f.den },
        tx: Frac { num: 0, den: 1 },
        ty: Frac { num: 0, den: 1 },
    }
}

/// Every step of `transform_zoom_at` stays in the machine range.
pub open spec fn zoom_ok(t: RatXform, a: RatPoint, f: Rat) -> bool {
    invert_ok(t) && {
        let ti = xf_invert(t);
        apply_ok(ti, a) && {
            let w = xf_apply(ti, a);
            compose_ok(t, xf_translation(w)) && {
                let c1 = xf_compose(t, xf_translation(w));
                compose_ok(c1, xf_scaling(f)) && compose_ok(
                    xf_compose(c1, xf_scaling(f)),
                    xf_translation(pt_opp(w)),
                )
            }
        }
    }
}

/// Zoom anchored at the screen point `a` by the positive factor `f`:
/// the anchor's world point is translated to the origin, the plane is
/// scaled, and the anchor is translated back — three compositions, so the
/// anchor stays put by construction. `None` exactly when a step leaves the
/// machine range.
pub fn transform_zoom_at(t: &Transform, a: &Point, f: &Frac) -> (r: Option<Transform>)
    requires
        t.wf(),
        a.wf(),
        f.wf(),
        f.num > 0,
    ensures
        r is Some <==> zoom_ok(t@, a@, f@),
        r matches Some(u) ==> u@ == xf_zoom_at(t@, a@, f@) && u.wf(),
{
    let inv: Transform = match transform_invert(t) {
        Some(v) => v,
        None => {
            return None;
        },
    };
    let w: Point = match transform_apply(&inv, a) {
        Some(v) => v,
        None => {
            return None;
        },
    };
    let t1: Transform = match transform_compose(t, &transform_translation(&w)) {
        Some(v) => v,
        None => {
            return None;
        },
    };
    let t2: Transform = match transform_compose(&t1, &transform_scaling(f)) {
        Some(v) => v,
        None => {
            return None;
        },
    };
    let back: Point = point_opp(&w);
    match transform_compose(&t2, &transform_translation(&back)) {
        Some(v) => Some(v),
        None => None,
    }
}

/// Every step of `world_delta` stays in the machine range.
pub open spec fn world_delta_ok(t: RatXform, from: RatPoint, to: RatPoint) -> bool {
    invert_ok(t) && {
        let ti = xf_invert(t);
        apply_ok(ti, to) && apply_ok(ti, from) && {
            let w1 = xf_apply(ti, to);
            let w0 = xf_apply(ti, from);
            diff_ok(w1.x, w0.x) && diff_ok(w1.y, w0.y)
        }
    }
}

/// The pan delta in world space for a pointer drag from `from` to `to`:
/// `invert(t).apply(to) - invert(t).apply(from)`. `None` exactly when a
/// step leaves the machine range.
pub fn world_delta(t: &Transform, from: &Point, to: &Point) -> (r: Option<Point>)
    requires
        t.wf(),
        from.wf(),
        to.wf(),
    ensures
        r is Some <==> world_delta_ok(t@, from@, to@),
        r matches Some(d) ==> d@ == pt_diff(
            xf_apply(xf_invert(t@), to@),
            xf_apply(xf_invert(t@), from@),
        ) && d.wf(),
{
    let inv: Transform = match transform_invert(t) {
        Some(v) => v,
        None => {
            return None;
        },
    };
    let w1: Point = match transform_apply(&inv, to) {
        Some(v) => v,
        None => {
            return None;
        },
    };
    let w0: Point = match transform_apply(&inv, from) {
        Some(v) => v,
        None => {
            return None;
        },
    };
    let dx: Frac = match frac_diff(&w1.x, &w0.x) {
        Some(v) => v,
        None => {
            return None;
        },
    };
    let dy: Frac = match frac_diff(&w1.y, &w0.y) {
        Some(v) => v,
        None => {
            return None;
        },
    };
    Some(Point { x: dx, y: dy })
}

/// The raw zoom factor for `notches` wheel detents: `1 + notches/10`.
pub open spec fn wheel_factor(notches: Rat) -> Rat {
    rat_sum(rat_of_int(1), rat_prod(notches, Rat { n: 1, d: WHEEL_DETENT_DIVISOR as int }))
}

/// The factor floor that clamping falls back to.
pub open spec fn factor_floor() -> Rat {
    Rat { n: 1, d: ZOOM_FACTOR_FLOOR_DEN as int }
}

/// A raw factor clamped to stay positive, so a zoom can never drive the
/// scale to zero or below.
pub open spec fn clamped_factor(f: Rat) -> Rat {
    if rat_pos(f) {
        f
    } else {
        factor_floor()
    }
}

/// Every step of `zoom_factor_of_notches` stays in the machine range.
pub open spec fn wheel_factor_ok(notches: Rat) -> bool {
    prod_ok(notches, Rat { n: 1, d: WHEEL_DETENT_DIVISOR as int }) && sum_ok(
        rat_of_int(1),
        rat_prod(notches, Rat { n: 1, d: WHEEL_DETENT_DIVISOR as int }),
    )
}

/// Turns wheel detents into the clamped zoom factor `1 + notches/10`;
/// `None` exactly when a step leaves the machine range.
pub fn zoom_factor_of_notches(notches: &Frac) -> (r: Option<Frac>)
    requires
        notches.wf(),
    ensures
        r is Some <==> wheel_factor_ok(notches@),
        r matches Some(f) ==> f@ == clamped_factor(wheel_factor(notches@)) && f.wf() && f.num > 0,
{
    let tenth: Frac = Frac { num: 1, den: WHEEL_DETENT_DIVISOR };
    let scaled: Frac = match frac_prod(notches, &tenth) {
        Some(v) => v,
        None => {
            return None;
        },
    };
    let one: Frac = Frac { num: 1, den: 1 };
    let raw: Frac = match frac_sum(&one, &scaled) {
        Some(v) => v,
        None => {
            return None;
        },
    };
    if frac_is_pos(&raw) {
        Some(raw)
    } else {
        Some(Frac { num: 1, den: ZOOM_FACTOR_FLOOR_DEN })
    }
}

} // verus!
