use vstd::prelude::*;

verus! {

/// Mathematical rational number: a numerator over a positive denominator.
///
/// Two values stand for the same rational exactly when they cross-multiply
/// equal (`rat_eqv`); representations are not kept reduced.
pub struct Rat {
    pub n: int,
    pub d: int,
}

/// A rational representation is well formed when its denominator is positive.
pub open spec fn rat_wf(a: Rat) -> bool {
    a.d > 0
}

/// Value equality of two rationals, by cross multiplication.
pub open spec fn rat_eqv(a: Rat, b: Rat) -> bool {
    a.n * b.d == b.n * a.d
}

/// The rational with the value of the integer `k`.
pub open spec fn rat_of_int(k: int) -> Rat {
    Rat { n: k, d: 1 }
}

/// `a + b`.
pub open spec fn rat_sum(a: Rat, b: Rat) -> Rat {
    Rat { n: a.n * b.d + b.n * a.d, d: a.d * b.d }
}

/// `a - b`.
pub open spec fn rat_diff(a: Rat, b: Rat) -> Rat {
    Rat { n: a.n * b.d - b.n * a.d, d: a.d * b.d }
}

/// `a * b`.
pub open spec fn rat_prod(a: Rat, b: Rat) -> Rat {
    Rat { n: a.n * b.n, d: a.d * b.d }
}

/// `-a`.
pub open spec fn rat_opp(a: Rat) -> Rat {
    Rat { n: -a.n, d: a.d }
}

/// `1 / a`, meaningful only when `a.n != 0`; the sign moves into the
/// numerator so that the result keeps a positive denominator.
pub open spec fn rat_recip(a: Rat) -> Rat {
    if a.n >= 0 {
        Rat { n: a.d, d: a.n }
    } else {
        Rat { n: -a.d, d: -a.n }
    }
}

/// `a > 0`, read on a well-formed representation.
pub open spec fn rat_pos(a: Rat) -> bool {
    a.n > 0
}

/// Executable rational: an exact fraction held in machine integers.
///
/// Arithmetic on fractions grows numerators and denominators, so the
/// executable operations check every intermediate product and report
/// `None` instead of wrapping when one would leave the machine range.
#[derive(PartialEq, Eq, Structural, Clone, Copy, Debug)]
pub struct Frac {
    pub num: i128,
    pub den: i128,
}

impl Frac {
    /// Positive denominator; the numerator leaves room for negation.
    pub open spec fn wf(self) -> bool {
        self.den > 0 && self.num > i128::MIN
    }
}

impl View for Frac {
    type V = Rat;

    open spec fn view(&self) -> Rat {
        Rat { n: self.num as int, d: self.den as int }
    }
}

/// `x` is a value a well-formed `Frac` numerator can hold.
pub open spec fn in_machine(x: int) -> bool {
    i128::MIN < x <= i128::MAX
}

/// Every intermediate step of `frac_sum` stays in the machine range.
pub open spec fn sum_ok(a: Rat, b: Rat) -> bool {
    &&& i128::MIN <= a.n * b.d <= i128::MAX
    &&& i128::MIN <= b.n * a.d <= i128::MAX
    &&& in_machine(a.n * b.d + b.n * a.d)
    &&& i128::MIN <= a.d * b.d <= i128::MAX
}

/// Every intermediate step of `frac_diff` stays in the machine range.
pub open spec fn diff_ok(a: Rat, b: Rat) -> bool {
    &&& i128::MIN <= a.n * b.d <= i128::MAX
    &&& i128::MIN <= b.n * a.d <= i128::MAX
    &&& in_machine(a.n * b.d - b.n * a.d)
    &&& i128::MIN <= a.d * b.d <= i128::MAX
}

/// Every intermediate step of `frac_prod` stays in the machine range.
pub open spec fn prod_ok(a: Rat, b: Rat) -> bool {
    &&& in_machine(a.n * b.n)
    &&& i128::MIN <= a.d * b.d <= i128::MAX
}

/// Exact addition; `None` exactly when a step leaves the machine range.
pub fn frac_sum(a: &Frac, b: &Frac) -> (r: Option<Frac>)
    requires
        a.wf(),
        b.wf(),
    ensures
        r is Some <==> sum_ok(a@, b@),
        r matches Some(f) ==> f@ == rat_sum(a@, b@) && f.wf(),
{
    let n1: i128 = match a.num.checked_mul(b.den) {
        Some(v) => v,
        None => {
            return None;
        },
    };
    let n2: i128 = match b.num.checked_mul(a.den) {
        Some(v) => v,
        None => {
            return None;
        },
    };
    let n: i128 = match n1.checked_add(n2) {
        Some(v) => v,
        None => {
            return None;
        },
    };
    if n == i128::MIN {
        return None;
    }
    let d: i128 = match a.den.checked_mul(b.den) {
        Some(v) => v,
        None => {
            return None;
        },
    };
    proof {
        assert(d > 0) by (nonlinear_arith)
            requires
                a.den > 0,
                b.den > 0,
                d == a.den * b.den;
    }
    Some(Frac { num: n, den: d })
}

/// Exact subtraction; `None` exactly when a step leaves the machine range.
pub fn frac_diff(a: &Frac, b: &Frac) -> (r: Option<Frac>)
    requires
        a.wf(),
        b.wf(),
    ensures
        r is Some <==> diff_ok(a@, b@),
        r matches Some(f) ==> f@ == rat_diff(a@, b@) && f.wf(),
{
    let n1: i128 = match a.num.checked_mul(b.den) {
        Some(v) => v,
        None => {
            return None;
        },
    };
    let n2: i128 = match b.num.checked_mul(a.den) {
        Some(v) => v,
        None => {
            return None;
        },
    };
    let n: i128 = match n1.checked_sub(n2) {
        Some(v) => v,
        None => {
            return None;
        },
    };
    if n == i128::MIN {
        return None;
    }
    let d: i128 = match a.den.checked_mul(b.den) {
        Some(v) => v,
        None => {
            return None;
        },
    };
    proof {
        assert(d > 0) by (nonlinear_arith)
            requires
                a.den > 0,
                b.den > 0,
                d == a.den * b.den;
    }
    Some(Frac { num: n, den: d })
}

/// Exact multiplication; `None` exactly when a step leaves the machine range.
pub fn frac_prod(a: &Frac, b: &Frac) -> (r: Option<Frac>)
    requires
        a.wf(),
        b.wf(),
    ensures
        r is Some <==> prod_ok(a@, b@),
        r matches Some(f) ==> f@ == rat_prod(a@, b@) && f.wf(),
{
    let n: i128 = match a.num.checked_mul(b.num) {
        Some(v) => v,
        None => {
            return None;
        },
    };
    if n == i128::MIN {
        return None;
    }
    let d: i128 = match a.den.checked_mul(b.den) {
        Some(v) => v,
        None => {
            return None;
        },
    };
    proof {
        assert(d > 0) by (nonlinear_arith)
            requires
                a.den > 0,
                b.den > 0,
                d == a.den * b.den;
    }
    Some(Frac { num: n, den: d })
}

/// Exact negation; always in range for a well-formed fraction.
pub fn frac_opp(a: &Frac) -> (r: Frac)
    requires
        a.wf(),
    ensures
        r@ == rat_opp(a@),
        r.wf(),
{
    Frac { num: -a.num, den: a.den }
}

/// Exact reciprocal of a nonzero fraction; the sign moves into the
/// numerator so that the denominator stays positive.
pub fn frac_recip(a: &Frac) -> (r: Frac)
    requires
        a.wf(),
        a.num != 0,
    ensures
        r@ == rat_recip(a@),
        r.wf(),
{
    if a.num >= 0 {
        Frac { num: a.den, den: a.num }
    } else {
        Frac { num: -a.den, den: -a.num }
    }
}

/// The fraction with the value of the integer `k`.
pub fn frac_of_i64(k: i64) -> (r: Frac)
    ensures
        r@ == rat_of_int(k as int),
        r.wf(),
{
    Frac { num: k as i128, den: 1 }
}

/// Whether the fraction is strictly positive.
pub fn frac_is_pos(a: &Frac) -> (r: bool)
    requires
        a.wf(),
    ensures
        r == rat_pos(a@),
{
    a.num > 0
}

/// Value equality of two fractions; `None` exactly when a cross product
/// leaves the machine range.
pub fn frac_eq_value(a: &Frac, b: &Frac) -> (r: Option<bool>)
    requires
        a.wf(),
        b.wf(),
    ensures
        r is Some <==> (i128::MIN <= a@.n * b@.d <= i128::MAX && i128::MIN <= b@.n * a@.d
            <= i128::MAX),
        r matches Some(v) ==> (v <==> rat_eqv(a@, b@)),
{
    let n1: i128 = match a.num.checked_mul(b.den) {
        Some(v) => v,
        None => {
            return None;
        },
    };
    let n2: i128 = match b.num.checked_mul(a.den) {
        Some(v) => v,
        None => {
            return None;
        },
    };
    Some(n1 == n2)
}

/// Value equality is transitive across well-formed representations.
pub proof fn lemma_eqv_trans(a: Rat, b: Rat, c: Rat)
    requires
        rat_wf(a),
        rat_wf(b),
        rat_wf(c),
        rat_eqv(a, b),
        rat_eqv(b, c),
    ensures
        rat_eqv(a, c),
{
    assert(a.n * c.d == c.n * a.d) by (nonlinear_arith)
        requires
            b.d > 0,
            a.n * b.d == b.n * a.d,
            b.n * c.d == c.n * b.d;
}

/// The arithmetic operations keep denominators positive.
pub proof fn lemma_ops_wf(a: Rat, b: Rat)
    requires
        rat_wf(a),
        rat_wf(b),
    ensures
        rat_wf(rat_sum(a, b)),
        rat_wf(rat_diff(a, b)),
        rat_wf(rat_prod(a, b)),
        rat_wf(rat_opp(a)),
        a.n != 0 ==> rat_wf(rat_recip(a)),
{
    assert(a.d * b.d > 0) by (nonlinear_arith)
        requires
            a.d > 0,
            b.d > 0;
}

/// Sums of equal values are equal.
pub proof fn lemma_sum_congr(a1: Rat, a2: Rat, b1: Rat, b2: Rat)
    requires
        rat_wf(a1),
        rat_wf(a2),
        rat_wf(b1),
        rat_wf(b2),
        rat_eqv(a1, a2),
        rat_eqv(b1, b2),
    ensures
        rat_eqv(rat_sum(a1, b1), rat_sum(a2, b2)),
{
    let l = rat_sum(a1, b1);
    let r = rat_sum(a2, b2);
    assert((a1.n * b1.d) * (a2.d * b2.d) == (a2.n * b2.d) * (a1.d * b1.d)) by (nonlinear_arith)
        requires
            a1.n * a2.d == a2.n * a1.d;
    assert((b1.n * a1.d) * (a2.d * b2.d) == (b2.n * a2.d) * (a1.d * b1.d)) by (nonlinear_arith)
        requires
            b1.n * b2.d == b2.n * b1.d;
    assert(l.n * r.d == (a1.n * b1.d) * (a2.d * b2.d) + (b1.n * a1.d) * (a2.d * b2.d))
        by (nonlinear_arith)
        requires
            l.n == a1.n * b1.d + b1.n * a1.d,
            r.d == a2.d * b2.d;
    assert(r.n * l.d == (a2.n * b2.d) * (a1.d * b1.d) + (b2.n * a2.d) * (a1.d * b1.d))
        by (nonlinear_arith)
        requires
            r.n == a2.n * b2.d + b2.n * a2.d,
            l.d == a1.d * b1.d;
}

/// Products of equal values are equal.
pub proof fn lemma_prod_congr(a1: Rat, a2: Rat, b1: Rat, b2: Rat)
    requires
        rat_wf(a1),
        rat_wf(a2),
        rat_wf(b1),
        rat_wf(b2),
        rat_eqv(a1, a2),
        rat_eqv(b1, b2),
    ensures
        rat_eqv(rat_prod(a1, b1), rat_prod(a2, b2)),
{
    let l = rat_prod(a1, b1);
    let r = rat_prod(a2, b2);
    assert(l.n * r.d == r.n * l.d) by (nonlinear_arith)
        requires
            l.n == a1.n * b1.n,
            l.d == a1.d * b1.d,
            r.n == a2.n * b2.n,
            r.d == a2.d * b2.d,
            a1.n * a2.d == a2.n * a1.d,
            b1.n * b2.d == b2.n * b1.d;
}

/// Adding a value and then its opposite gives the original value back.
pub proof fn lemma_sum_opp(a: Rat, b: Rat)
    requires
        rat_wf(a),
        rat_wf(b),
    ensures
        rat_eqv(rat_sum(rat_sum(a, b), rat_opp(b)), a),
{
    let s = rat_sum(a, b);
    let l = rat_sum(s, rat_opp(b));
    assert(l.n * a.d == a.n * l.d) by (nonlinear_arith)
        requires
            s.n == a.n * b.d + b.n * a.d,
            s.d == a.d * b.d,
            l.n == s.n * b.d + (-b.n) * s.d,
            l.d == s.d * b.d;
}

/// A value times its reciprocal is one.
pub proof fn lemma_prod_recip(a: Rat)
    requires
        rat_wf(a),
        a.n != 0,
    ensures
        rat_eqv(rat_prod(a, rat_recip(a)), rat_of_int(1)),
{
    let p = rat_prod(a, rat_recip(a));
    assert(p.n * 1 == 1 * p.d) by (nonlinear_arith)
        requires
            a.n != 0,
            p.n == if a.n >= 0 { a.n * a.d } else { a.n * (-a.d) },
            p.d == if a.n >= 0 { a.d * a.n } else { a.d * (-a.n) };
}

/// Multiplying by one gives the value back.
pub proof fn lemma_prod_one(a: Rat)
    requires
        rat_wf(a),
    ensures
        rat_eqv(rat_prod(a, rat_of_int(1)), a),
        rat_eqv(rat_prod(rat_of_int(1), a), a),
{
}

/// Multiplication is associative up to value equality.
pub proof fn lemma_prod_assoc(a: Rat, b: Rat, c: Rat)
    ensures
        rat_eqv(rat_prod(rat_prod(a, b), c), rat_prod(a, rat_prod(b, c))),
{
    let l = rat_prod(rat_prod(a, b), c);
    let r = rat_prod(a, rat_prod(b, c));
    assert(l.n * r.d == r.n * l.d) by (nonlinear_arith)
        requires
            l.n == (a.n * b.n) * c.n,
            l.d == (a.d * b.d) * c.d,
            r.n == a.n * (b.n * c.n),
            r.d == a.d * (b.d * c.d);
}

/// Multiplying a difference out: `a*r - b*r == (a - b)*r`.
pub proof fn lemma_diff_prod(a: Rat, b: Rat, r: Rat)
    requires
        rat_wf(a),
        rat_wf(b),
        rat_wf(r),
    ensures
        rat_eqv(
            rat_sum(rat_prod(a, r), rat_opp(rat_prod(b, r))),
            rat_prod(rat_diff(a, b), r),
        ),
{
    let l = rat_sum(rat_prod(a, r), rat_opp(rat_prod(b, r)));
    let m = rat_prod(rat_diff(a, b), r);
    let x: int = (a.d * b.d) * r.d;
    let y: int = (a.d * r.d) * (b.d * r.d);
    assert(l.n * x == ((a.n * r.n) * (b.d * r.d)) * x - ((b.n * r.n) * (a.d * r.d)) * x)
        by (nonlinear_arith)
        requires
            l.n == (a.n * r.n) * (b.d * r.d) + (-(b.n * r.n)) * (a.d * r.d);
    assert(m.n * y == ((a.n * b.d) * r.n) * y - ((b.n * a.d) * r.n) * y) by (nonlinear_arith)
        requires
            m.n == (a.n * b.d - b.n * a.d) * r.n;
    lemma_seven_factor_shuffle(a.n, r.n, b.d, r.d, a.d);
    lemma_seven_factor_shuffle(b.n, r.n, a.d, r.d, b.d);
    assert((b.d * a.d) * r.d == (a.d * b.d) * r.d) by (nonlinear_arith);
    assert((b.d * r.d) * (a.d * r.d) == (a.d * r.d) * (b.d * r.d)) by (nonlinear_arith);
}

/// Rearranging a four-factor product.
proof fn lemma_mul_shuffle(p: int, u: int, q: int, v: int)
    ensures
        (p * u) * (q * v) == (p * q) * (u * v),
{
    assert((p * u) * (q * v) == (p * q) * (u * v)) by (nonlinear_arith);
}

/// Rearranging the seven-factor product that `lemma_diff_prod` meets.
proof fn lemma_seven_factor_shuffle(an: int, rn: int, bd: int, rd: int, ad: int)
    ensures
        ((an * rn) * (bd * rd)) * ((ad * bd) * rd) == ((an * bd) * rn) * ((ad * rd) * (bd * rd)),
{
    lemma_mul_shuffle(an, rn, bd, rd);
    lemma_mul_shuffle(an * bd, rn * rd, ad * bd, rd);
    assert((rn * rd) * rd == rn * (rd * rd)) by (nonlinear_arith);
    lemma_mul_shuffle(an * bd, ad * bd, rn, rd * rd);
    lemma_mul_shuffle(ad, bd, rd, rd);
}

/// Taking a sum apart: `(a + b) - b == a`.
pub proof fn lemma_sum_then_diff(a: Rat, b: Rat)
    requires
        rat_wf(a),
        rat_wf(b),
    ensures
        rat_eqv(rat_diff(rat_sum(a, b), b), a),
{
    let s = rat_sum(a, b);
    let l = rat_diff(s, b);
    assert(l.n * a.d == a.n * l.d) by (nonlinear_arith)
        requires
            s.n == a.n * b.d + b.n * a.d,
            s.d == a.d * b.d,
            l.n == s.n * b.d - b.n * s.d,
            l.d == s.d * b.d;
}

/// Multiplication is commutative up to value equality.
pub proof fn lemma_prod_comm(a: Rat, b: Rat)
    ensures
        rat_eqv(rat_prod(a, b), rat_prod(b, a)),
{
    assert((a.n * b.n) * (b.d * a.d) == (b.n * a.n) * (a.d * b.d)) by (nonlinear_arith);
}

/// Putting a difference back together: `(a - b) + b == a`.
pub proof fn lemma_diff_then_sum(a: Rat, b: Rat)
    requires
        rat_wf(a),
        rat_wf(b),
    ensures
        rat_eqv(rat_sum(rat_diff(a, b), b), a),
{
    let m = rat_diff(a, b);
    let l = rat_sum(m, b);
    assert(l.n * a.d == a.n * l.d) by (nonlinear_arith)
        requires
            m.n == a.n * b.d - b.n * a.d,
            m.d == a.d * b.d,
            l.n == m.n * b.d + b.n * m.d,
            l.d == m.d * b.d;
}

/// Multiplying a sum out: `(a + b)*c == a*c + b*c`.
pub proof fn lemma_sum_prod_distrib(a: Rat, b: Rat, c: Rat)
    requires
        rat_wf(a),
        rat_wf(b),
        rat_wf(c),
    ensures
        rat_eqv(rat_prod(rat_sum(a, b), c), rat_sum(rat_prod(a, c), rat_prod(b, c))),
{
    lemma_diff_prod(a, rat_opp(b), c);
    assert((-b.n) * a.d == -(b.n * a.d)) by (nonlinear_arith);
    assert((-b.n) * c.n == -(b.n * c.n)) by (nonlinear_arith);
    assert(rat_diff(a, rat_opp(b)) == rat_sum(a, b));
    assert(rat_opp(rat_prod(rat_opp(b), c)) == rat_prod(b, c));
}

/// Addition is associative up to value equality.
pub proof fn lemma_sum_assoc(a: Rat, b: Rat, c: Rat)
    requires
        rat_wf(a),
        rat_wf(b),
        rat_wf(c),
    ensures
        rat_eqv(rat_sum(rat_sum(a, b), c), rat_sum(a, rat_sum(b, c))),
{
    let s = rat_sum(a, b);
    let u = rat_sum(b, c);
    let l = rat_sum(s, c);
    let r = rat_sum(a, u);
    let an = a.n;
    let ad = a.d;
    let bn = b.n;
    let bd = b.d;
    let cn = c.n;
    let cd = c.d;
    assert(l.n == (an * bd) * cd + ((bn * ad) * cd + cn * (ad * bd))) by (nonlinear_arith)
        requires
            l.n == (an * bd + bn * ad) * cd + cn * (ad * bd);
    assert(r.n == an * (bd * cd) + ((bn * cd) * ad + (cn * bd) * ad)) by (nonlinear_arith)
        requires
            r.n == an * (bd * cd) + (bn * cd + cn * bd) * ad;
    assert(l.n * r.d == ((an * bd) * cd) * r.d + (((bn * ad) * cd) * r.d + (cn * (ad * bd))
        * r.d)) by (nonlinear_arith)
        requires
            l.n == (an * bd) * cd + ((bn * ad) * cd + cn * (ad * bd));
    assert(r.n * l.d == (an * (bd * cd)) * l.d + (((bn * cd) * ad) * l.d + ((cn * bd) * ad)
        * l.d)) by (nonlinear_arith)
        requires
            r.n == an * (bd * cd) + ((bn * cd) * ad + (cn * bd) * ad);
    assert(((an * bd) * cd) * r.d == (an * (bd * cd)) * l.d) by (nonlinear_arith)
        requires
            r.d == ad * (bd * cd),
            l.d == (ad * bd) * cd;
    assert(((bn * ad) * cd) * r.d == ((bn * cd) * ad) * l.d) by (nonlinear_arith)
        requires
            r.d == ad * (bd * cd),
            l.d == (ad * bd) * cd;
    assert((cn * (ad * bd)) * r.d == ((cn * bd) * ad) * l.d) by (nonlinear_arith)
        requires
            r.d == ad * (bd * cd),
            l.d == (ad * bd) * cd;
}

/// The product of two positive values is positive.
pub proof fn lemma_prod_pos(a: Rat, b: Rat)
    requires
        rat_wf(a),
        rat_wf(b),
        rat_pos(a),
        rat_pos(b),
    ensures
        rat_pos(rat_prod(a, b)),
        rat_wf(rat_prod(a, b)),
{
    assert(a.n * b.n > 0 && a.d * b.d > 0) by (nonlinear_arith)
        requires
            a.n > 0,
            b.n > 0,
            a.d > 0,
            b.d > 0;
}

} // verus!
