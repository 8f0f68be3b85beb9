use vstd::prelude::*;

use crate::rat::{
    lemma_diff_prod, lemma_diff_then_sum, lemma_eqv_trans, lemma_ops_wf, lemma_prod_assoc,
    lemma_prod_comm, lemma_prod_congr, lemma_prod_one, lemma_prod_pos, lemma_prod_recip,
    lemma_sum_assoc, lemma_sum_congr, lemma_sum_opp, lemma_sum_prod_distrib, lemma_sum_then_diff,
    rat_diff, rat_eqv, rat_of_int, rat_opp, rat_pos, rat_prod, rat_recip, rat_sum, rat_wf, Rat,
};

verus! {

/// A point of the plane with exact rational coordinates.
pub struct RatPoint {
    pub x: Rat,
    pub y: Rat,
}

/// The viewport transform `p' = p*s + (tx, ty)`: an isotropic scale followed
/// by a translation, mapping world coordinates to screen coordinates.
pub struct RatXform {
    pub s: Rat,
    pub tx: Rat,
    pub ty: Rat,
}

pub open spec fn pt_wf(p: RatPoint) -> bool {
    rat_wf(p.x) && rat_wf(p.y)
}

pub open spec fn pt_eqv(p: RatPoint, q: RatPoint) -> bool {
    rat_eqv(p.x, q.x) && rat_eqv(p.y, q.y)
}

pub open spec fn pt_opp(p: RatPoint) -> RatPoint {
    RatPoint { x: rat_opp(p.x), y: rat_opp(p.y) }
}

/// Componentwise difference of two points.
pub open spec fn pt_diff(p: RatPoint, q: RatPoint) -> RatPoint {
    RatPoint { x: rat_diff(p.x, q.x), y: rat_diff(p.y, q.y) }
}

/// A transform is well formed when its scale is positive: only such
/// transforms are ever constructed, which keeps inversion total.
pub open spec fn xf_wf(t: RatXform) -> bool {
    rat_wf(t.s) && rat_wf(t.tx) && rat_wf(t.ty) && rat_pos(t.s)
}

pub open spec fn xf_eqv(t: RatXform, u: RatXform) -> bool {
    rat_eqv(t.s, u.s) && rat_eqv(t.tx, u.tx) && rat_eqv(t.ty, u.ty)
}

pub open spec fn xf_identity() -> RatXform {
    RatXform { s: rat_of_int(1), tx: rat_of_int(0), ty: rat_of_int(0) }
}

/// `apply(t, p) = p*scale + translate`.
pub open spec fn xf_apply(t: RatXform, p: RatPoint) -> RatPoint {
    RatPoint {
        x: rat_sum(rat_prod(p.x, t.s), t.tx),
        y: rat_sum(rat_prod(p.y, t.s), t.ty),
    }
}

/// The inverse transform: `q ↦ (q - translate) / scale`.
pub open spec fn xf_invert(t: RatXform) -> RatXform {
    let r = rat_recip(t.s);
    RatXform { s: r, tx: rat_opp(rat_prod(t.tx, r)), ty: rat_opp(rat_prod(t.ty, r)) }
}

/// Panning adds the delta to the translation and keeps the scale.
pub open spec fn xf_pan(t: RatXform, d: RatPoint) -> RatXform {
    RatXform { s: t.s, tx: rat_sum(t.tx, d.x), ty: rat_sum(t.ty, d.y) }
}

/// `compose(outer, inner)` applies `inner` first, then `outer`.
pub open spec fn xf_compose(outer: RatXform, inner: RatXform) -> RatXform {
    RatXform {
        s: rat_prod(inner.s, outer.s),
        tx: rat_sum(rat_prod(inner.tx, outer.s), outer.tx),
        ty: rat_sum(rat_prod(inner.ty, outer.s), outer.ty),
    }
}

pub open spec fn xf_translation(d: RatPoint) -> RatXform {
    RatXform { s: rat_of_int(1), tx: d.x, ty: d.y }
}

pub open spec fn xf_scaling(f: Rat) -> RatXform {
    RatXform { s: f, tx: rat_of_int(0), ty: rat_of_int(0) }
}

/// Zooming anchored at the screen point `a`: the anchor's world point is
/// moved to the origin, the plane is scaled by `f`, and the anchor is moved
/// back — three compositions, so that the anchor stays put by construction.
pub open spec fn xf_zoom_at(t: RatXform, a: RatPoint, f: Rat) -> RatXform {
    let w = xf_apply(xf_invert(t), a);
    xf_compose(
        xf_compose(xf_compose(t, xf_translation(w)), xf_scaling(f)),
        xf_translation(pt_opp(w)),
    )
}

pub proof fn lemma_pt_eqv_symm(p: RatPoint, q: RatPoint)
    requires
        pt_eqv(p, q),
    ensures
        pt_eqv(q, p),
{
}

pub proof fn lemma_pt_eqv_trans(p: RatPoint, q: RatPoint, r: RatPoint)
    requires
        pt_wf(p),
        pt_wf(q),
        pt_wf(r),
        pt_eqv(p, q),
        pt_eqv(q, r),
    ensures
        pt_eqv(p, r),
{
    lemma_eqv_trans(p.x, q.x, r.x);
    lemma_eqv_trans(p.y, q.y, r.y);
}

/// Applying a well-formed transform to a well-formed point gives a
/// well-formed point.
pub proof fn lemma_apply_wf(t: RatXform, p: RatPoint)
    requires
        xf_wf(t),
        pt_wf(p),
    ensures
        pt_wf(xf_apply(t, p)),
{
    lemma_ops_wf(p.x, t.s);
    lemma_ops_wf(rat_prod(p.x, t.s), t.tx);
    lemma_ops_wf(p.y, t.s);
    lemma_ops_wf(rat_prod(p.y, t.s), t.ty);
}

/// The inverse of a well-formed transform is well formed.
pub proof fn lemma_invert_wf(t: RatXform)
    requires
        xf_wf(t),
    ensures
        xf_wf(xf_invert(t)),
{
    let r = rat_recip(t.s);
    lemma_ops_wf(t.tx, r);
    lemma_ops_wf(rat_prod(t.tx, r), r);
    lemma_ops_wf(t.ty, r);
    lemma_ops_wf(rat_prod(t.ty, r), r);
}

/// Composition keeps transforms well formed.
pub proof fn lemma_compose_wf(o: RatXform, i: RatXform)
    requires
        xf_wf(o),
        xf_wf(i),
    ensures
        xf_wf(xf_compose(o, i)),
{
    lemma_prod_pos(i.s, o.s);
    lemma_ops_wf(i.tx, o.s);
    lemma_ops_wf(rat_prod(i.tx, o.s), o.tx);
    lemma_ops_wf(i.ty, o.s);
    lemma_ops_wf(rat_prod(i.ty, o.s), o.ty);
}

/// One coordinate of the round trip `invert(t).apply(t.apply(v))`.
proof fn lemma_coord_unapply(s: Rat, c: Rat, v: Rat)
    requires
        rat_wf(s),
        rat_wf(c),
        rat_wf(v),
        rat_pos(s),
    ensures
        rat_eqv(
            rat_sum(
                rat_prod(rat_sum(rat_prod(v, s), c), rat_recip(s)),
                rat_opp(rat_prod(c, rat_recip(s))),
            ),
            v,
        ),
{
    let r = rat_recip(s);
    let q = rat_sum(rat_prod(v, s), c);
    let one = rat_of_int(1);
    lemma_ops_wf(v, s);
    lemma_ops_wf(rat_prod(v, s), c);
    lemma_ops_wf(q, r);
    lemma_ops_wf(c, r);
    lemma_ops_wf(rat_prod(c, r), r);
    lemma_ops_wf(rat_prod(q, r), rat_opp(rat_prod(c, r)));
    lemma_ops_wf(q, c);
    lemma_ops_wf(rat_diff(q, c), r);
    lemma_ops_wf(rat_prod(v, s), r);
    lemma_ops_wf(s, r);
    lemma_ops_wf(v, rat_prod(s, r));
    lemma_ops_wf(v, one);
    let big = rat_sum(rat_prod(q, r), rat_opp(rat_prod(c, r)));
    lemma_diff_prod(q, c, r);
    lemma_sum_then_diff(rat_prod(v, s), c);
    lemma_prod_congr(rat_diff(q, c), rat_prod(v, s), r, r);
    lemma_prod_assoc(v, s, r);
    lemma_prod_recip(s);
    lemma_prod_congr(v, v, rat_prod(s, r), one);
    lemma_prod_one(v);
    lemma_eqv_trans(big, rat_prod(rat_diff(q, c), r), rat_prod(rat_prod(v, s), r));
    lemma_eqv_trans(big, rat_prod(rat_prod(v, s), r), rat_prod(v, rat_prod(s, r)));
    lemma_eqv_trans(big, rat_prod(v, rat_prod(s, r)), rat_prod(v, one));
    lemma_eqv_trans(big, rat_prod(v, one), v);
}

/// Inverting a transform undoes it: for every transform and point,
/// `invert(t).apply(t.apply(p)) == p` as rational values.
pub proof fn lemma_invert_round_trip(t: RatXform, p: RatPoint)
    requires
        xf_wf(t),
        pt_wf(p),
    ensures
        pt_eqv(xf_apply(xf_invert(t), xf_apply(t, p)), p),
{
    lemma_coord_unapply(t.s, t.tx, p.x);
    lemma_coord_unapply(t.s, t.ty, p.y);
}

/// One coordinate of the round trip `t.apply(invert(t).apply(v))`.
proof fn lemma_coord_reapply(s: Rat, c: Rat, v: Rat)
    requires
        rat_wf(s),
        rat_wf(c),
        rat_wf(v),
        rat_pos(s),
    ensures
        rat_eqv(
            rat_sum(
                rat_prod(rat_sum(rat_prod(v, rat_recip(s)), rat_opp(rat_prod(c, rat_recip(s)))), s),
                c,
            ),
            v,
        ),
{
    let r = rat_recip(s);
    let one = rat_of_int(1);
    let w = rat_sum(rat_prod(v, r), rat_opp(rat_prod(c, r)));
    let d = rat_diff(v, c);
    lemma_ops_wf(v, r);
    lemma_ops_wf(c, r);
    lemma_ops_wf(rat_prod(c, r), r);
    lemma_ops_wf(rat_prod(v, r), rat_opp(rat_prod(c, r)));
    lemma_ops_wf(v, c);
    lemma_ops_wf(d, r);
    lemma_ops_wf(w, s);
    lemma_ops_wf(rat_prod(w, s), c);
    lemma_ops_wf(rat_diff(v, c), s);
    lemma_ops_wf(r, s);
    lemma_ops_wf(s, r);
    lemma_ops_wf(d, rat_prod(r, s));
    lemma_ops_wf(d, one);
    lemma_ops_wf(rat_prod(d, r), s);
    // w == (v - c) * r
    lemma_diff_prod(v, c, r);
    // w * s == ((v - c) * r) * s == (v - c) * (r * s) == (v - c) * 1 == v - c
    lemma_prod_congr(w, rat_prod(d, r), s, s);
    lemma_prod_assoc(d, r, s);
    lemma_prod_comm(r, s);
    lemma_prod_recip(s);
    lemma_eqv_trans(rat_prod(r, s), rat_prod(s, r), one);
    lemma_prod_congr(d, d, rat_prod(r, s), one);
    lemma_prod_one(d);
    lemma_eqv_trans(rat_prod(w, s), rat_prod(rat_prod(d, r), s), rat_prod(d, rat_prod(r, s)));
    lemma_eqv_trans(rat_prod(w, s), rat_prod(d, rat_prod(r, s)), rat_prod(d, one));
    lemma_eqv_trans(rat_prod(w, s), rat_prod(d, one), d);
    // (w * s) + c == (v - c) + c == v
    lemma_sum_congr(rat_prod(w, s), d, c, c);
    lemma_diff_then_sum(v, c);
    lemma_ops_wf(rat_prod(w, s), c);
    lemma_ops_wf(d, c);
    lemma_eqv_trans(rat_sum(rat_prod(w, s), c), rat_sum(d, c), v);
}

/// Applying a transform after its inverse lands back on the start:
/// `t.apply(invert(t).apply(a)) == a` as rational values.
pub proof fn lemma_reapply_round_trip(t: RatXform, a: RatPoint)
    requires
        xf_wf(t),
        pt_wf(a),
    ensures
        pt_eqv(xf_apply(t, xf_apply(xf_invert(t), a)), a),
{
    lemma_coord_reapply(t.s, t.tx, a.x);
    lemma_coord_reapply(t.s, t.ty, a.y);
}

/// Equal points map to equal points.
pub proof fn lemma_apply_congr_pt(t: RatXform, p: RatPoint, q: RatPoint)
    requires
        xf_wf(t),
        pt_wf(p),
        pt_wf(q),
        pt_eqv(p, q),
    ensures
        pt_eqv(xf_apply(t, p), xf_apply(t, q)),
{
    lemma_ops_wf(p.x, t.s);
    lemma_ops_wf(q.x, t.s);
    lemma_ops_wf(p.y, t.s);
    lemma_ops_wf(q.y, t.s);
    lemma_prod_congr(p.x, q.x, t.s, t.s);
    lemma_prod_congr(p.y, q.y, t.s, t.s);
    lemma_sum_congr(rat_prod(p.x, t.s), rat_prod(q.x, t.s), t.tx, t.tx);
    lemma_sum_congr(rat_prod(p.y, t.s), rat_prod(q.y, t.s), t.ty, t.ty);
}

/// One coordinate of `apply(compose(o, i), p) == apply(o, apply(i, p))`.
proof fn lemma_coord_compose(si: Rat, ci: Rat, so: Rat, co: Rat, v: Rat)
    requires
        rat_wf(si),
        rat_wf(ci),
        rat_wf(so),
        rat_wf(co),
        rat_wf(v),
    ensures
        rat_eqv(
            rat_sum(rat_prod(v, rat_prod(si, so)), rat_sum(rat_prod(ci, so), co)),
            rat_sum(rat_prod(rat_sum(rat_prod(v, si), ci), so), co),
        ),
{
    let q = rat_sum(rat_prod(v, si), ci);
    let a = rat_prod(v, rat_prod(si, so));
    let b = rat_prod(ci, so);
    lemma_ops_wf(v, si);
    lemma_ops_wf(rat_prod(v, si), ci);
    lemma_ops_wf(q, so);
    lemma_ops_wf(si, so);
    lemma_ops_wf(v, rat_prod(si, so));
    lemma_ops_wf(ci, so);
    lemma_ops_wf(rat_prod(v, si), so);
    lemma_ops_wf(rat_prod(rat_prod(v, si), so), b);
    lemma_ops_wf(a, b);
    lemma_ops_wf(rat_sum(rat_prod(rat_prod(v, si), so), b), co);
    lemma_ops_wf(rat_sum(a, b), co);
    lemma_ops_wf(rat_prod(q, so), co);
    lemma_ops_wf(b, co);
    lemma_ops_wf(a, rat_sum(b, co));
    // q*so == (v*si)*so + ci*so
    lemma_sum_prod_distrib(rat_prod(v, si), ci, so);
    // (v*si)*so == v*(si*so)
    lemma_prod_assoc(v, si, so);
    lemma_sum_congr(rat_prod(rat_prod(v, si), so), a, b, b);
    lemma_eqv_trans(
        rat_prod(q, so),
        rat_sum(rat_prod(rat_prod(v, si), so), b),
        rat_sum(a, b),
    );
    // (q*so) + co == (a + b) + co == a + (b + co)
    lemma_sum_congr(rat_prod(q, so), rat_sum(a, b), co, co);
    lemma_sum_assoc(a, b, co);
    lemma_eqv_trans(
        rat_sum(rat_prod(q, so), co),
        rat_sum(rat_sum(a, b), co),
        rat_sum(a, rat_sum(b, co)),
    );
}

/// Applying a composition is applying the inner transform, then the outer.
pub proof fn lemma_compose_apply(o: RatXform, i: RatXform, p: RatPoint)
    requires
        xf_wf(o),
        xf_wf(i),
        pt_wf(p),
    ensures
        pt_eqv(xf_apply(xf_compose(o, i), p), xf_apply(o, xf_apply(i, p))),
{
    lemma_coord_compose(i.s, i.tx, o.s, o.tx, p.x);
    lemma_coord_compose(i.s, i.ty, o.s, o.ty, p.y);
}

/// Zooming at a positive factor keeps the transform well formed.
pub proof fn lemma_zoom_wf(t: RatXform, a: RatPoint, f: Rat)
    requires
        xf_wf(t),
        pt_wf(a),
        rat_wf(f),
        rat_pos(f),
    ensures
        xf_wf(xf_zoom_at(t, a, f)),
{
    lemma_invert_wf(t);
    lemma_apply_wf(xf_invert(t), a);
    let w = xf_apply(xf_invert(t), a);
    lemma_compose_wf(t, xf_translation(w));
    lemma_compose_wf(xf_compose(t, xf_translation(w)), xf_scaling(f));
    lemma_compose_wf(
        xf_compose(xf_compose(t, xf_translation(w)), xf_scaling(f)),
        xf_translation(pt_opp(w)),
    );
}

/// The world point under the anchor maps back to the anchor after the zoom.
pub proof fn lemma_zoom_anchor_fixed(t: RatXform, a: RatPoint, f: Rat)
    requires
        xf_wf(t),
        pt_wf(a),
        rat_wf(f),
        rat_pos(f),
    ensures
        pt_eqv(xf_apply(xf_zoom_at(t, a, f), xf_apply(xf_invert(t), a)), a),
{
    lemma_invert_wf(t);
    lemma_apply_wf(xf_invert(t), a);
    let w = xf_apply(xf_invert(t), a);
    let trw = xf_translation(w);
    let trnw = xf_translation(pt_opp(w));
    let sf = xf_scaling(f);
    let t1 = xf_compose(t, trw);
    let t2 = xf_compose(t1, sf);
    let tz = xf_compose(t2, trnw);
    let o = RatPoint { x: rat_of_int(0), y: rat_of_int(0) };
    lemma_compose_wf(t, trw);
    lemma_compose_wf(t1, sf);
    lemma_compose_wf(t2, trnw);
    // Step to the origin: the final translation moves `w` to zero.
    lemma_compose_apply(t2, trnw, w);
    let z0 = xf_apply(trnw, w);
    lemma_apply_wf(trnw, w);
    assert(z0.x.n == 0) by (nonlinear_arith)
        requires
            z0.x.n == (w.x.n * 1) * w.x.d + (-w.x.n) * (w.x.d * 1);
    assert(z0.y.n == 0) by (nonlinear_arith)
        requires
            z0.y.n == (w.y.n * 1) * w.y.d + (-w.y.n) * (w.y.d * 1);
    assert(pt_eqv(z0, o));
    lemma_apply_congr_pt(t2, z0, o);
    // Scaling keeps the origin at the origin.
    lemma_compose_apply(t1, sf, o);
    let z1 = xf_apply(sf, o);
    lemma_apply_wf(sf, o);
    assert(z1.x.n == 0) by (nonlinear_arith)
        requires
            z1.x.n == (0 * f.n) * 1 + 0 * (1 * f.d);
    assert(z1.y.n == 0) by (nonlinear_arith)
        requires
            z1.y.n == (0 * f.n) * 1 + 0 * (1 * f.d);
    assert(pt_eqv(z1, o));
    lemma_apply_congr_pt(t1, z1, o);
    // The first translation moves the origin back to `w`.
    lemma_compose_apply(t, trw, o);
    let z2 = xf_apply(trw, o);
    lemma_apply_wf(trw, o);
    assert(rat_eqv(z2.x, w.x)) by (nonlinear_arith)
        requires
            z2.x.n == (0 * 1) * w.x.d + w.x.n * (1 * 1),
            z2.x.d == (1 * 1) * w.x.d,
            rat_eqv(z2.x, w.x) <==> z2.x.n * w.x.d == w.x.n * z2.x.d;
    assert(rat_eqv(z2.y, w.y)) by (nonlinear_arith)
        requires
            z2.y.n == (0 * 1) * w.y.d + w.y.n * (1 * 1),
            z2.y.d == (1 * 1) * w.y.d,
            rat_eqv(z2.y, w.y) <==> z2.y.n * w.y.d == w.y.n * z2.y.d;
    lemma_apply_congr_pt(t, z2, w);
    // And `t` sends `w` back to the anchor.
    lemma_reapply_round_trip(t, a);
    // Chain the steps.
    lemma_apply_wf(t2, z0);
    lemma_apply_wf(t2, o);
    lemma_apply_wf(t1, z1);
    lemma_apply_wf(t1, o);
    lemma_apply_wf(t, z2);
    lemma_apply_wf(t, w);
    lemma_apply_wf(tz, w);
    lemma_pt_eqv_trans(xf_apply(tz, w), xf_apply(t2, z0), xf_apply(t2, o));
    lemma_pt_eqv_trans(xf_apply(tz, w), xf_apply(t2, o), xf_apply(t1, z1));
    lemma_pt_eqv_trans(xf_apply(tz, w), xf_apply(t1, z1), xf_apply(t1, o));
    lemma_pt_eqv_trans(xf_apply(tz, w), xf_apply(t1, o), xf_apply(t, z2));
    lemma_pt_eqv_trans(xf_apply(tz, w), xf_apply(t, z2), xf_apply(t, w));
    lemma_pt_eqv_trans(xf_apply(tz, w), xf_apply(t, w), a);
}

/// Zooming multiplies the scale by exactly the factor: a factor above one
/// zooms in, one below one zooms out, and a positive factor can never
/// drive the scale to zero or below.
pub proof fn lemma_zoom_scales_by_factor(t: RatXform, a: RatPoint, f: Rat)
    requires
        xf_wf(t),
        pt_wf(a),
        rat_wf(f),
        rat_pos(f),
    ensures
        rat_eqv(xf_zoom_at(t, a, f).s, rat_prod(t.s, f)),
        rat_pos(xf_zoom_at(t, a, f).s),
{
    lemma_zoom_wf(t, a, f);
    let one = rat_of_int(1);
    let s1 = rat_prod(one, t.s);
    let s2 = rat_prod(f, s1);
    let s3 = rat_prod(one, s2);
    lemma_ops_wf(one, t.s);
    lemma_ops_wf(f, s1);
    lemma_ops_wf(one, s2);
    lemma_ops_wf(f, t.s);
    lemma_ops_wf(t.s, f);
    // peel the two multiplications by one, then commute
    lemma_prod_one(s2);
    lemma_prod_one(t.s);
    lemma_prod_congr(f, f, s1, t.s);
    lemma_eqv_trans(s3, s2, rat_prod(f, t.s));
    lemma_prod_comm(f, t.s);
    lemma_eqv_trans(s3, rat_prod(f, t.s), rat_prod(t.s, f));
}

/// Anchor invariance under zoom: the world point under the anchor is the
/// same before and after `zoom_at`.
pub proof fn lemma_zoom_anchor_invariance(t: RatXform, a: RatPoint, f: Rat)
    requires
        xf_wf(t),
        pt_wf(a),
        rat_wf(f),
        rat_pos(f),
    ensures
        pt_eqv(xf_apply(xf_invert(xf_zoom_at(t, a, f)), a), xf_apply(xf_invert(t), a)),
{
    let tz = xf_zoom_at(t, a, f);
    let w = xf_apply(xf_invert(t), a);
    lemma_invert_wf(t);
    lemma_apply_wf(xf_invert(t), a);
    lemma_zoom_wf(t, a, f);
    lemma_invert_wf(tz);
    lemma_zoom_anchor_fixed(t, a, f);
    lemma_apply_wf(tz, w);
    lemma_apply_wf(xf_invert(tz), a);
    lemma_apply_wf(xf_invert(tz), xf_apply(tz, w));
    lemma_pt_eqv_symm(xf_apply(tz, w), a);
    lemma_apply_congr_pt(xf_invert(tz), a, xf_apply(tz, w));
    lemma_invert_round_trip(tz, w);
    lemma_pt_eqv_trans(
        xf_apply(xf_invert(tz), a),
        xf_apply(xf_invert(tz), xf_apply(tz, w)),
        w,
    );
}

/// Panning by a delta and then by its opposite gives the original
/// transform back, with no drift.
pub proof fn lemma_pan_round_trip(t: RatXform, d: RatPoint)
    requires
        xf_wf(t),
        pt_wf(d),
    ensures
        xf_eqv(xf_pan(xf_pan(t, d), pt_opp(d)), t),
{
    lemma_sum_opp(t.tx, d.x);
    lemma_sum_opp(t.ty, d.y);
}

} // verus!
