//! Laws that need division and an order on the scalar: projecting a point (dividing its
//! homogeneous image by `w`, which must be positive), the sign test of
//! `is_backface_visible`, and where `ortho` sends the corners of its box.  They hold over an
//! ordered field (see `ordered_field`); floating point is none.
use crate::geom::{HomogeneousVector, Point2D, Point3D};
use crate::laws::{lemma_point_image_composes, semiring, unital};
use crate::matrix::{adjugate, determinant, dot4, mat_mul, mat_ortho, mat_perspective, mat_scale, mat_scaled, mat_skew, mat_translation, Matrix4};
use crate::num::{minus, negated, plus, quot, times, One, Trig, Zero};
use crate::signed_sum::{commutative_ring, field, lemma_ring_zero};
use crate::transform3d::{affine2, affine3, is_2d_matrix, mat_projected_2d, project_point2d, project_point3d};
use crate::laws::lemma_projected_2d_entries;
use core::marker::PhantomData;
use core::ops::{Add, Div, Mul, Neg, Sub};
use vstd::calc;
use vstd::prelude::*;
use vstd::std_specs::cmp::{PartialEqSpec, PartialOrdIs};

verus! {

/// A field (see `field`) in which `1 != 0` and `x / y` is `x * (1 / y)`, ordered so that
/// `0 < 0` fails, the square of a nonzero element is positive, and multiplying by a positive
/// element keeps the sign of the other factor.
pub open spec fn ordered_field<T: Add<Output = T> + Sub<Output = T> + Mul<Output = T> + Div<Output = T> + Zero + One + PartialOrd>() -> bool {
    let o = T::spec_zero();
    let l = T::spec_one();
    &&& field::<T>()
    &&& l != o
    &&& forall|x: T, y: T| y != o ==> #[trigger] quot(x, y) == times(x, quot(l, y))
    &&& !o.is_gt(&o)
    &&& !o.is_lt(&o)
    &&& forall|x: T| x != o ==> (#[trigger] times(x, x)).is_gt(&o)
    &&& forall|s: T, y: T| s.is_gt(&o) ==> ((#[trigger] times(s, y)).is_gt(&o) <==> y.is_gt(&o))
    &&& forall|s: T, y: T| s.is_gt(&o) ==> ((#[trigger] times(s, y)).is_lt(&o) <==> y.is_lt(&o))
}

/// A commutative ring satisfies the identities that `laws` names `semiring` and `unital`.
proof fn lemma_ring_laws<T: Add<Output = T> + Sub<Output = T> + Mul<Output = T> + Zero + One>()
    requires
        commutative_ring::<T>(),
    ensures
        semiring::<T>(),
        unital::<T>(),
{
    reveal(commutative_ring);
    reveal(semiring);
    let o = T::spec_zero();
    let l = T::spec_one();
    assert forall|x: T, y: T, z: T| #[trigger] times(x, plus(y, z)) == plus(times(x, y), times(x, z)) by {
        assert(times(x, plus(y, z)) == times(plus(y, z), x));
        assert(times(x, y) == times(y, x));
        assert(times(x, z) == times(z, x));
    }
    assert forall|x: T| #[trigger] plus(o, x) == x by {
        assert(plus(o, x) == plus(x, o));
    }
    assert forall|x: T| #[trigger] times(l, x) == x by {
        assert(times(l, x) == times(x, l));
    }
    assert forall|x: T| #[trigger] times(x, o) == o by {
        assert(times(x, o) == times(o, x));
    }
}

/// `x * (y * z) == (x * y) * z` and `x * y == y * x`, for the given values.
pub(crate) proof fn lemma_mul_shuffle<T: Add<Output = T> + Sub<Output = T> + Mul<Output = T> + Zero + One>(x: T, y: T, z: T)
    requires
        commutative_ring::<T>(),
    ensures
        times(x, times(y, z)) == times(times(x, y), z),
        times(x, y) == times(y, x),
        times(x, T::spec_one()) == x,
{
    reveal(commutative_ring);
}

/// `x * (y + z) == x * y + x * z`, for the given values.
proof fn lemma_mul_distributes<T: Add<Output = T> + Sub<Output = T> + Mul<Output = T> + Zero + One>(x: T, y: T, z: T)
    requires
        commutative_ring::<T>(),
    ensures
        times(x, plus(y, z)) == plus(times(x, y), times(x, z)),
{
    lemma_ring_laws::<T>();
    reveal(semiring);
}

/// `h * (x / h) == x` for a nonzero `h`.
proof fn lemma_mul_quot_cancel<T: Add<Output = T> + Sub<Output = T> + Mul<Output = T> + Div<Output = T> + Zero + One + PartialOrd>(
    h: T,
    x: T,
)
    requires
        ordered_field::<T>(),
        h != T::spec_zero(),
    ensures
        times(h, quot(x, h)) == x,
{
    let l = T::spec_one();
    let s = quot(l, h);
    assert(quot(x, h) == times(x, s));
    assert(times(h, s) == l);
    lemma_mul_shuffle(h, x, s);
    lemma_mul_shuffle(x, h, s);
    lemma_mul_shuffle(x, s, h);
    calc! {
        (==)
        times(h, times(x, s)); {}
        times(times(h, x), s); {}
        times(times(x, h), s); { lemma_mul_shuffle(x, h, s); }
        times(x, times(h, s)); {}
        times(x, l); {}
        x;
    }
}

/// `h * (a * c) == (h * a) * c`, and `h * (h1 / h) * c == h1 * c` for a nonzero `h`.
proof fn lemma_scaled_term<T: Add<Output = T> + Sub<Output = T> + Mul<Output = T> + Div<Output = T> + Zero + One + PartialOrd>(
    h: T,
    hi: T,
    c: T,
)
    requires
        ordered_field::<T>(),
        h != T::spec_zero(),
    ensures
        times(h, times(quot(hi, h), c)) == times(hi, c),
{
    lemma_mul_shuffle(h, quot(hi, h), c);
    lemma_mul_quot_cancel(h, hi);
}

/// The homogeneous image `(h1 h2 h3 h4)` of a point, multiplied by a column of a matrix,
/// is `h4` times the image of the projected point `(h1/h4 h2/h4 h3/h4)` by that column.
proof fn lemma_dot_of_projected<T: Add<Output = T> + Sub<Output = T> + Mul<Output = T> + Div<Output = T> + Zero + One + PartialOrd>(
    h1: T,
    h2: T,
    h3: T,
    h4: T,
    c1: T,
    c2: T,
    c3: T,
    c4: T,
)
    requires
        ordered_field::<T>(),
        h4 != T::spec_zero(),
    ensures
        dot4(h1, h2, h3, h4, c1, c2, c3, c4) == times(
            h4,
            affine3(quot(h1, h4), quot(h2, h4), quot(h3, h4), c1, c2, c3, c4),
        ),
{
    let t1 = times(quot(h1, h4), c1);
    let t2 = times(quot(h2, h4), c2);
    let t3 = times(quot(h3, h4), c3);
    lemma_scaled_term(h4, h1, c1);
    lemma_scaled_term(h4, h2, c2);
    lemma_scaled_term(h4, h3, c3);
    lemma_mul_distributes(h4, plus(plus(t1, t2), t3), c4);
    lemma_mul_distributes(h4, plus(t1, t2), t3);
    lemma_mul_distributes(h4, t1, t2);
}

/// `(h * k) / (h * w) == k / w` for a nonzero `h` and `w`.
proof fn lemma_quot_common_factor<T: Add<Output = T> + Sub<Output = T> + Mul<Output = T> + Div<Output = T> + Zero + One + PartialOrd>(
    h: T,
    k: T,
    w: T,
)
    requires
        ordered_field::<T>(),
        h != T::spec_zero(),
        w != T::spec_zero(),
        times(h, w) != T::spec_zero(),
    ensures
        quot(times(h, k), times(h, w)) == quot(k, w),
{
    let l = T::spec_one();
    let g = times(h, w);
    let u = quot(l, g);
    let v = quot(l, w);
    let x = times(times(h, k), u);
    assert(quot(times(h, k), g) == x);
    assert(quot(k, w) == times(k, v));
    assert(times(g, u) == l);
    assert(times(w, v) == l);
    // x * w == k: the factor `h * w` in `g` cancels against `u`
    assert(times(x, w) == k) by {
        lemma_mul_shuffle(times(h, k), u, w);
        lemma_mul_shuffle(u, w, l);
        lemma_mul_shuffle(h, k, times(w, u));
        lemma_mul_shuffle(k, w, u);
        lemma_mul_shuffle(h, w, u);
        lemma_mul_shuffle(k, g, u);
        lemma_mul_shuffle(h, w, k);
        lemma_mul_shuffle(k, h, w);
        calc! {
            (==)
            times(x, w); {}
            times(times(h, k), times(u, w)); {}
            times(times(h, k), times(w, u)); {}
            times(h, times(k, times(w, u))); { lemma_mul_shuffle(k, w, u); }
            times(h, times(times(k, w), u)); { lemma_mul_shuffle(h, times(k, w), u); }
            times(times(h, times(k, w)), u); { lemma_mul_shuffle(h, k, w); lemma_mul_shuffle(k, w, h); lemma_mul_shuffle(h, w, k); }
            times(times(k, g), u); {}
            times(k, times(g, u)); {}
            times(k, l); {}
            k;
        }
    }
    // so x == x * (w * v) == (x * w) * v == k * v
    lemma_mul_shuffle(x, w, v);
}

/// Projecting a point through the product `a * b` (`a` then `b`) gives `b`'s projection of
/// `a`'s projection of the point, wherever `a` projects it (its `w` is positive).
pub proof fn lemma_point_projection_composes<T: Add<Output = T> + Sub<Output = T> + Mul<Output = T> + Div<Output = T> + Zero + One + PartialOrd, U, V, W>(
    a: Matrix4<T>,
    b: Matrix4<T>,
    p: Point3D<T, U>,
)
    requires
        ordered_field::<T>(),
        project_point3d::<T, U, V>(a, p) is Some,
    ensures
        project_point3d::<T, U, W>(mat_mul(a, b), p) == project_point3d::<T, V, W>(
            b,
            project_point3d::<T, U, V>(a, p)->0,
        ),
{
    let o = T::spec_zero();
    let ab = mat_mul(a, b);
    let q = project_point3d::<T, U, V>(a, p)->0;
    let h1 = affine3(p.x, p.y, p.z, a.m11, a.m21, a.m31, a.m41);
    let h2 = affine3(p.x, p.y, p.z, a.m12, a.m22, a.m32, a.m42);
    let h3 = affine3(p.x, p.y, p.z, a.m13, a.m23, a.m33, a.m43);
    let h4 = affine3(p.x, p.y, p.z, a.m14, a.m24, a.m34, a.m44);
    assert(h4.is_gt(&o));
    assert(h4 != o);
    assert(q.x == quot(h1, h4) && q.y == quot(h2, h4) && q.z == quot(h3, h4));
    lemma_ring_laws::<T>();
    lemma_point_image_composes(a, b, p.x, p.y, p.z);
    lemma_dot_of_projected(h1, h2, h3, h4, b.m11, b.m21, b.m31, b.m41);
    lemma_dot_of_projected(h1, h2, h3, h4, b.m12, b.m22, b.m32, b.m42);
    lemma_dot_of_projected(h1, h2, h3, h4, b.m13, b.m23, b.m33, b.m43);
    lemma_dot_of_projected(h1, h2, h3, h4, b.m14, b.m24, b.m34, b.m44);
    // the images of q under b
    let k1 = affine3(q.x, q.y, q.z, b.m11, b.m21, b.m31, b.m41);
    let k2 = affine3(q.x, q.y, q.z, b.m12, b.m22, b.m32, b.m42);
    let k3 = affine3(q.x, q.y, q.z, b.m13, b.m23, b.m33, b.m43);
    let k4 = affine3(q.x, q.y, q.z, b.m14, b.m24, b.m34, b.m44);
    // and those of p under a * b: h4 times the former
    let g4 = affine3(p.x, p.y, p.z, ab.m14, ab.m24, ab.m34, ab.m44);
    assert(g4 == times(h4, k4));
    assert(affine3(p.x, p.y, p.z, ab.m11, ab.m21, ab.m31, ab.m41) == times(h4, k1));
    assert(affine3(p.x, p.y, p.z, ab.m12, ab.m22, ab.m32, ab.m42) == times(h4, k2));
    assert(affine3(p.x, p.y, p.z, ab.m13, ab.m23, ab.m33, ab.m43) == times(h4, k3));
    // a positive h4 keeps the sign of w
    assert(g4.is_gt(&o) <==> k4.is_gt(&o));
    if k4.is_gt(&o) {
        assert(k4 != o);
        assert(g4 != o);
        lemma_quot_common_factor(h4, k1, k4);
        lemma_quot_common_factor(h4, k2, k4);
        lemma_quot_common_factor(h4, k3, k4);
    }
}

/// Over an ordered field whose `==` is equality, the back face is visible exactly when the
/// transform is invertible and the `m33` of its inverse is negative: the product
/// `adjugate.m33 * det` that `is_backface_visible` tests has the sign of
/// `adjugate.m33 / det`, the inverse's `m33`.
pub proof fn lemma_backface_visible_iff_inverse_m33_negative<T: Add<Output = T> + Sub<Output = T> + Mul<Output = T> + Div<Output = T> + Zero + One + PartialOrd + PartialEq>(
    m: Matrix4<T>,
)
    requires
        ordered_field::<T>(),
        forall|x: T, y: T| #[trigger] x.eq_spec(&y) <==> x == y,
    ensures
        times(adjugate(m).m33, determinant(m)).is_lt(&T::spec_zero()) <==> {
            &&& !determinant(m).eq_spec(&T::spec_zero())
            &&& mat_scaled(adjugate(m), quot(T::spec_one(), determinant(m))).m33.is_lt(&T::spec_zero())
        },
{
    let o = T::spec_zero();
    let l = T::spec_one();
    let d = determinant(m);
    let c = adjugate(m).m33;
    assert(d.eq_spec(&o) <==> d == o);
    if d == o {
        lemma_ring_zero(c);
    } else {
        let s = quot(l, d);
        let y = times(c, s);
        let dd = times(d, d);
        assert(dd.is_gt(&o));
        assert(times(dd, y).is_lt(&o) <==> y.is_lt(&o));
        assert(times(d, quot(c, d)) == c) by {
            lemma_mul_quot_cancel(d, c);
        }
        assert(quot(c, d) == y);
        lemma_mul_shuffle(d, d, y);
        lemma_mul_shuffle(d, c, l);
        assert(times(dd, y) == times(c, d));
    }
}

/// Transforming a 2d point is dividing its homogeneous image by `w`: given the homogeneous
/// vector `h` that `transform_point2d_homogeneous` returns for `p`, the transformed point is
/// `None` exactly when `h.w` is not positive, and `(h.x / h.w, h.y / h.w)` otherwise.
pub proof fn lemma_point2d_divides_homogeneous<T: Add<Output = T> + Mul<Output = T> + Div<Output = T> + Zero + PartialOrd, U, V>(
    m: Matrix4<T>,
    p: Point2D<T, U>,
    h: HomogeneousVector<T, V>,
)
    requires
        h.x == affine2(p.x, p.y, m.m11, m.m21, m.m41),
        h.y == affine2(p.x, p.y, m.m12, m.m22, m.m42),
        h.w == affine2(p.x, p.y, m.m14, m.m24, m.m44),
    ensures
        project_point2d::<T, U, V>(m, p) == (if h.w.is_gt(&T::spec_zero()) {
            Some(Point2D::<T, V> { x: quot(h.x, h.w), y: quot(h.y, h.w), _unit: PhantomData })
        } else {
            None
        }),
{
}

/// Transforming a 3d point is dividing its homogeneous image by `w`: given the homogeneous
/// vector `h` that `transform_point3d_homogeneous` returns for `p`, the transformed point is
/// `None` exactly when `h.w` is not positive, and `(h.x / h.w, h.y / h.w, h.z / h.w)` otherwise.
pub proof fn lemma_point3d_divides_homogeneous<T: Add<Output = T> + Mul<Output = T> + Div<Output = T> + Zero + PartialOrd, U, V>(
    m: Matrix4<T>,
    p: Point3D<T, U>,
    h: HomogeneousVector<T, V>,
)
    requires
        h.x == affine3(p.x, p.y, p.z, m.m11, m.m21, m.m31, m.m41),
        h.y == affine3(p.x, p.y, p.z, m.m12, m.m22, m.m32, m.m42),
        h.z == affine3(p.x, p.y, p.z, m.m13, m.m23, m.m33, m.m43),
        h.w == affine3(p.x, p.y, p.z, m.m14, m.m24, m.m34, m.m44),
    ensures
        project_point3d::<T, U, V>(m, p) == (if h.w.is_gt(&T::spec_zero()) {
            Some(Point3D::<T, V> { x: quot(h.x, h.w), y: quot(h.y, h.w), z: quot(h.z, h.w), _unit: PhantomData })
        } else {
            None
        }),
{
}

/// `x + g == 0` makes `x` the negation `0 - g` of `g`.
pub(crate) proof fn lemma_neg_unique<T: Add<Output = T> + Sub<Output = T> + Mul<Output = T> + Zero + One>(x: T, g: T)
    requires
        commutative_ring::<T>(),
        plus(x, g) == T::spec_zero(),
    ensures
        x == minus(T::spec_zero(), g),
{
    reveal(commutative_ring);
    let o = T::spec_zero();
    let n = minus(o, g);
    assert(plus(n, o) == n);
    assert(plus(n, plus(x, g)) == plus(plus(x, g), n));
    assert(plus(plus(x, g), n) == plus(x, plus(g, n)));
    assert(plus(g, n) == o);
    assert(plus(x, o) == x);
}

/// `(0 - a) * b == 0 - a * b`.
pub(crate) proof fn lemma_neg_times<T: Add<Output = T> + Sub<Output = T> + Mul<Output = T> + Zero + One>(a: T, b: T)
    requires
        commutative_ring::<T>(),
    ensures
        times(minus(T::spec_zero(), a), b) == minus(T::spec_zero(), times(a, b)),
        times(b, minus(T::spec_zero(), a)) == minus(T::spec_zero(), times(a, b)),
{
    reveal(commutative_ring);
    let o = T::spec_zero();
    assert(times(minus(o, a), b) == minus(times(o, b), times(a, b)));
    assert(times(b, minus(o, a)) == times(minus(o, a), b));
}

/// `0 - (0 - x) == x`.
pub(crate) proof fn lemma_neg_neg<T: Add<Output = T> + Sub<Output = T> + Mul<Output = T> + Zero + One>(x: T)
    requires
        commutative_ring::<T>(),
    ensures
        minus(T::spec_zero(), minus(T::spec_zero(), x)) == x,
{
    assert(plus(x, minus(T::spec_zero(), x)) == T::spec_zero()) by {
        reveal(commutative_ring);
    }
    lemma_neg_unique(x, minus(T::spec_zero(), x));
}

/// Rule of signs: `(0 - a) * (0 - b) == a * b`.
pub(crate) proof fn lemma_neg_times_neg<T: Add<Output = T> + Sub<Output = T> + Mul<Output = T> + Zero + One>(a: T, b: T)
    requires
        commutative_ring::<T>(),
    ensures
        times(minus(T::spec_zero(), a), minus(T::spec_zero(), b)) == times(a, b),
{
    let o = T::spec_zero();
    lemma_neg_times(a, minus(o, b));
    lemma_neg_times(b, a);
    lemma_neg_neg(times(b, a));
    lemma_mul_shuffle(a, b, o);
}

/// `v * ((1 + 1) * s) == (v + v) * s`.
proof fn lemma_times_two<T: Add<Output = T> + Sub<Output = T> + Mul<Output = T> + Zero + One>(v: T, s: T)
    requires
        commutative_ring::<T>(),
    ensures
        times(v, times(plus(T::spec_one(), T::spec_one()), s)) == times(plus(v, v), s),
{
    reveal(commutative_ring);
    let l = T::spec_one();
    let two = plus(l, l);
    assert(times(v, times(two, s)) == times(times(v, two), s));
    assert(times(v, two) == times(two, v));
    assert(times(plus(l, l), v) == plus(times(l, v), times(l, v)));
    assert(times(l, v) == times(v, l));
}

/// `(hi - lo) + lo == hi` and `lo + (hi - lo) == hi`.
proof fn lemma_difference_back<T: Add<Output = T> + Sub<Output = T> + Mul<Output = T> + Zero + One>(hi: T, lo: T)
    requires
        commutative_ring::<T>(),
    ensures
        plus(minus(hi, lo), lo) == hi,
        plus(lo, minus(hi, lo)) == hi,
{
    reveal(commutative_ring);
    let o = T::spec_zero();
    let nlo = minus(o, lo);
    assert(minus(hi, lo) == plus(hi, nlo));
    assert(plus(plus(hi, nlo), lo) == plus(hi, plus(nlo, lo)));
    assert(plus(nlo, lo) == plus(lo, nlo));
    assert(plus(lo, minus(hi, lo)) == plus(minus(hi, lo), lo));
}

/// `(x + y) + z == x + (y + z)`, `((x + y) + z) * s == x * s + (y + z) * s`, and
/// `(x + y) * s == x * s + y * s`.
proof fn lemma_regroup<T: Add<Output = T> + Sub<Output = T> + Mul<Output = T> + Zero + One>(x: T, y: T, z: T, s: T)
    requires
        commutative_ring::<T>(),
    ensures
        plus(plus(x, y), z) == plus(x, plus(y, z)),
        times(plus(plus(x, y), z), s) == plus(times(x, s), times(plus(y, z), s)),
        times(plus(x, y), s) == plus(times(x, s), times(y, s)),
{
    reveal(commutative_ring);
    assert(plus(plus(x, y), z) == plus(x, plus(y, z)));
}

/// `(a + (0 - b)) + c == o` where `b == c + a`; and `(b + c) + (0 - b) == c`.
proof fn lemma_cancel_sums<T: Add<Output = T> + Sub<Output = T> + Mul<Output = T> + Zero + One>(a: T, b: T, c: T)
    requires
        commutative_ring::<T>(),
    ensures
        b == plus(c, a) ==> plus(plus(a, minus(T::spec_zero(), b)), c) == T::spec_zero(),
        plus(plus(b, c), minus(T::spec_zero(), b)) == c,
{
    reveal(commutative_ring);
    let o = T::spec_zero();
    let n = minus(o, b);
    assert(plus(b, n) == o);
    assert(plus(plus(a, n), c) == plus(a, plus(n, c)));
    assert(plus(n, c) == plus(c, n));
    assert(plus(a, plus(c, n)) == plus(plus(a, c), n));
    assert(plus(a, c) == plus(c, a));
    assert(plus(plus(b, c), n) == plus(b, plus(c, n)));
    assert(plus(b, plus(n, c)) == plus(plus(b, n), c));
    assert(plus(o, c) == plus(c, o));
}

/// One axis of `ortho`, over the interval `lo..hi` with `d = hi - lo`: the coordinate
/// that the projection computes at `lo` is `-1`, at `hi` it is `1`.
proof fn lemma_ortho_axis<T: Add<Output = T> + Sub<Output = T> + Mul<Output = T> + Div<Output = T> + Zero + One + PartialOrd>(
    lo: T,
    hi: T,
)
    requires
        ordered_field::<T>(),
        minus(hi, lo) != T::spec_zero(),
    ensures
        ({
            let o = T::spec_zero();
            let l = T::spec_one();
            let two = plus(l, l);
            let d = minus(hi, lo);
            &&& plus(times(lo, quot(two, d)), minus(o, quot(plus(hi, lo), d))) == minus(o, l)
            &&& plus(times(hi, quot(two, d)), minus(o, quot(plus(hi, lo), d))) == l
        }),
{
    let o = T::spec_zero();
    let l = T::spec_one();
    let two = plus(l, l);
    let d = minus(hi, lo);
    let s = quot(l, d);
    assert(times(d, s) == l);
    assert(quot(two, d) == times(two, s));
    assert(quot(plus(hi, lo), d) == times(plus(hi, lo), s));
    let b = times(plus(hi, lo), s);
    lemma_difference_back(hi, lo);
    lemma_times_two(lo, s);
    lemma_times_two(hi, s);
    // at lo: b == 1 + a, so a - b == -1
    let a = times(plus(lo, lo), s);
    lemma_regroup(d, lo, lo, s);
    assert(b == plus(l, a));
    lemma_cancel_sums(a, b, l);
    lemma_neg_unique(plus(a, minus(o, b)), l);
    // at hi: b + 1 == c, so c - b == 1
    let c = times(plus(hi, hi), s);
    lemma_regroup(hi, lo, d, s);
    lemma_regroup(plus(hi, lo), d, o, s);
    assert(plus(b, l) == c);
    lemma_cancel_sums(c, b, l);
}

/// Distinct values have a nonzero difference.
proof fn lemma_nonzero_difference<T: Add<Output = T> + Sub<Output = T> + Mul<Output = T> + Zero + One>(a: T, b: T)
    requires
        commutative_ring::<T>(),
        a != b,
    ensures
        minus(b, a) != T::spec_zero(),
{
    lemma_difference_back(b, a);
    lemma_ring_zero(a);
}

/// `x / 1 == x`, and `1 > 0`.
proof fn lemma_unit_divisor<T: Add<Output = T> + Sub<Output = T> + Mul<Output = T> + Div<Output = T> + Zero + One + PartialOrd>(x: T)
    requires
        ordered_field::<T>(),
    ensures
        quot(x, T::spec_one()) == x,
        T::spec_one().is_gt(&T::spec_zero()),
{
    let l = T::spec_one();
    let q = quot(l, l);
    assert(times(l, q) == l);
    lemma_mul_shuffle(q, l, l);
    lemma_mul_shuffle(x, l, l);
    lemma_mul_shuffle(l, l, l);
    assert(quot(x, l) == times(x, q));
    assert(times(l, l).is_gt(&T::spec_zero()));
}

/// Over an ordered field whose negation is subtraction from zero, the orthographic
/// projection of a box with distinct bounds maps its near corner `(left, bottom, -near)` to
/// `(-1, -1, -1)` and its far corner `(right, top, -far)` to `(1, 1, 1)`.
pub proof fn lemma_ortho_maps_box_corners<T: Add<Output = T> + Sub<Output = T> + Mul<Output = T> + Div<Output = T> + Neg<Output = T> + Zero + One + PartialOrd, U, V>(
    left: T,
    right: T,
    bottom: T,
    top: T,
    near: T,
    far: T,
)
    requires
        ordered_field::<T>(),
        forall|x: T| #[trigger] negated(x) == minus(T::spec_zero(), x),
        left != right,
        bottom != top,
        near != far,
    ensures
        ({
            let m = mat_ortho(left, right, bottom, top, near, far);
            let l = T::spec_one();
            let n = negated(l);
            &&& project_point3d::<T, U, V>(m, Point3D { x: left, y: bottom, z: negated(near), _unit: PhantomData })
                == Some(Point3D::<T, V> { x: n, y: n, z: n, _unit: PhantomData })
            &&& project_point3d::<T, U, V>(m, Point3D { x: right, y: top, z: negated(far), _unit: PhantomData })
                == Some(Point3D::<T, V> { x: l, y: l, z: l, _unit: PhantomData })
        }),
{
    let o = T::spec_zero();
    let l = T::spec_one();
    let two = plus(l, l);
    lemma_nonzero_difference(left, right);
    lemma_nonzero_difference(bottom, top);
    lemma_nonzero_difference(near, far);
    lemma_ortho_axis(left, right);
    lemma_ortho_axis(bottom, top);
    lemma_ortho_axis(near, far);
    // the depth axis has the opposite sign on both factors of its first term
    let df = minus(far, near);
    let sf = quot(l, df);
    assert(quot(negated(two), df) == times(minus(o, two), sf));
    assert(quot(two, df) == times(two, sf));
    lemma_neg_times(two, sf);
    lemma_neg_times_neg(near, times(two, sf));
    lemma_neg_times_neg(far, times(two, sf));
    // `w` is one, and dividing by one changes nothing
    lemma_unit_divisor(minus(o, l));
    lemma_unit_divisor(l);
    lemma_ring_zero(left);
    lemma_ring_zero(right);
    lemma_ring_zero(bottom);
    lemma_ring_zero(top);
    lemma_ring_zero(negated(near));
    lemma_ring_zero(negated(far));
    lemma_ring_zero(o);
    lemma_ring_zero(l);
    lemma_ring_zero(times(left, quot(two, minus(right, left))));
    lemma_ring_zero(times(right, quot(two, minus(right, left))));
    lemma_ring_zero(times(bottom, quot(two, minus(top, bottom))));
    lemma_ring_zero(times(top, quot(two, minus(top, bottom))));
    lemma_ring_zero(times(negated(near), quot(negated(two), df)));
    lemma_ring_zero(times(negated(far), quot(negated(two), df)));
}

/// Over an ordered field, a translation moves every point by its offset.
pub proof fn lemma_translation_moves_points<T: Add<Output = T> + Sub<Output = T> + Mul<Output = T> + Div<Output = T> + Zero + One + PartialOrd, U, V>(
    vx: T,
    vy: T,
    vz: T,
    p: Point3D<T, U>,
)
    requires
        ordered_field::<T>(),
    ensures
        project_point3d::<T, U, V>(mat_translation(vx, vy, vz), p) == Some(
            Point3D::<T, V> { x: plus(p.x, vx), y: plus(p.y, vy), z: plus(p.z, vz), _unit: PhantomData },
        ),
{
    let o = T::spec_zero();
    let l = T::spec_one();
    lemma_ring_zero(p.x);
    lemma_ring_zero(p.y);
    lemma_ring_zero(p.z);
    lemma_ring_zero(o);
    lemma_ring_zero(l);
    lemma_mul_shuffle(p.x, l, l);
    lemma_mul_shuffle(p.y, l, l);
    lemma_mul_shuffle(p.z, l, l);
    lemma_ring_zero(times(p.x, l));
    lemma_ring_zero(plus(p.x, o));
    lemma_unit_divisor(plus(p.x, vx));
    lemma_unit_divisor(plus(p.y, vy));
    lemma_unit_divisor(plus(p.z, vz));
    lemma_ring_zero(vx);
    lemma_ring_zero(vy);
    lemma_ring_zero(vz);
}

/// Over an ordered field, translating by `v` before `m` (what `pre_translate` builds)
/// maps each point `p` where `m` maps `p + v`.
pub proof fn lemma_pre_translation_shifts_points<T: Add<Output = T> + Sub<Output = T> + Mul<Output = T> + Div<Output = T> + Zero + One + PartialOrd, U, V, W>(
    m: Matrix4<T>,
    vx: T,
    vy: T,
    vz: T,
    p: Point3D<T, U>,
)
    requires
        ordered_field::<T>(),
    ensures
        project_point3d::<T, U, W>(mat_mul(mat_translation(vx, vy, vz), m), p) == project_point3d::<T, V, W>(
            m,
            Point3D::<T, V> { x: plus(p.x, vx), y: plus(p.y, vy), z: plus(p.z, vz), _unit: PhantomData },
        ),
{
    lemma_translation_moves_points::<T, U, V>(vx, vy, vz, p);
    lemma_point_projection_composes::<T, U, V, W>(mat_translation(vx, vy, vz), m, p);
}

/// Over an ordered field, translating by `v` after `m` (what `post_translate` builds)
/// moves the image of each point by `v`, and leaves the points without an image without one.
pub proof fn lemma_post_translation_shifts_images<T: Add<Output = T> + Sub<Output = T> + Mul<Output = T> + Div<Output = T> + Zero + One + PartialOrd, U, V, W>(
    m: Matrix4<T>,
    vx: T,
    vy: T,
    vz: T,
    p: Point3D<T, U>,
)
    requires
        ordered_field::<T>(),
    ensures
        project_point3d::<T, U, W>(mat_mul(m, mat_translation(vx, vy, vz)), p) == match project_point3d::<T, U, V>(m, p) {
            Some(q) => Some(Point3D::<T, W> { x: plus(q.x, vx), y: plus(q.y, vy), z: plus(q.z, vz), _unit: PhantomData }),
            None => None,
        },
{
    let o = T::spec_zero();
    let l = T::spec_one();
    let t = mat_translation(vx, vy, vz);
    match project_point3d::<T, U, V>(m, p) {
        Some(q) => {
            lemma_point_projection_composes::<T, U, V, W>(m, t, p);
            lemma_translation_moves_points::<T, V, W>(vx, vy, vz, q);
        },
        None => {
            // the product's w is m's w, which is not positive
            let h1 = affine3(p.x, p.y, p.z, m.m11, m.m21, m.m31, m.m41);
            let h2 = affine3(p.x, p.y, p.z, m.m12, m.m22, m.m32, m.m42);
            let h3 = affine3(p.x, p.y, p.z, m.m13, m.m23, m.m33, m.m43);
            let h4 = affine3(p.x, p.y, p.z, m.m14, m.m24, m.m34, m.m44);
            lemma_ring_laws::<T>();
            lemma_point_image_composes(m, t, p.x, p.y, p.z);
            lemma_ring_zero(h1);
            lemma_ring_zero(h2);
            lemma_ring_zero(h3);
            lemma_ring_zero(o);
            lemma_mul_shuffle(h4, l, l);
            lemma_ring_zero(times(h4, l));
        },
    }
}

/// Over an ordered field whose negation is subtraction from zero and whose `==` is
/// equality, a perspective transform at a nonzero distance is not a 2d transform: its `m34`,
/// `-1 / d`, is not zero.
pub proof fn lemma_perspective_is_not_2d<T: Add<Output = T> + Sub<Output = T> + Mul<Output = T> + Div<Output = T> + Neg<Output = T> + Zero + One + PartialOrd + PartialEq>(d: T)
    requires
        ordered_field::<T>(),
        forall|x: T| #[trigger] negated(x) == minus(T::spec_zero(), x),
        forall|x: T, y: T| #[trigger] x.eq_spec(&y) <==> x == y,
        d != T::spec_zero(),
    ensures
        mat_perspective(d).m34 != T::spec_zero(),
        !is_2d_matrix(mat_perspective(d)),
{
    let o = T::spec_zero();
    let l = T::spec_one();
    let m = mat_perspective(d);
    let nl = minus(o, l);
    let s = quot(l, d);
    assert(m.m34 == quot(nl, d));
    assert(quot(nl, d) == times(nl, s));
    assert(times(d, s) == l);
    if m.m34 == o {
        // d * (-1 / d) == -1, while d * 0 == 0
        lemma_ring_zero(d);
        lemma_mul_shuffle(d, nl, s);
        lemma_mul_shuffle(nl, d, s);
        lemma_mul_shuffle(nl, l, l);
        assert(times(d, times(nl, s)) == nl);
        lemma_neg_neg(l);
        lemma_ring_zero(o);
        assert(false);
    }
    assert(!m.m34.eq_spec(&o));
}

/// Over an ordered field, the skew by `alpha` and `beta` maps each point `(x, y)` to
/// `(x + y tan(alpha), x tan(beta) + y)`: it shears x along y by the tangent of `alpha` and
/// y along x by the tangent of `beta`.
pub proof fn lemma_skew_maps_points<T: Add<Output = T> + Sub<Output = T> + Mul<Output = T> + Div<Output = T> + Zero + One + PartialOrd + Trig, U, V>(
    alpha: T,
    beta: T,
    p: Point2D<T, U>,
)
    requires
        ordered_field::<T>(),
    ensures
        project_point2d::<T, U, V>(mat_skew(alpha, beta), p) == Some(
            Point2D::<T, V> {
                x: plus(p.x, times(p.y, alpha.spec_tan())),
                y: plus(times(p.x, beta.spec_tan()), p.y),
                _unit: PhantomData,
            },
        ),
{
    let o = T::spec_zero();
    let l = T::spec_one();
    let x = plus(p.x, times(p.y, alpha.spec_tan()));
    let y = plus(times(p.x, beta.spec_tan()), p.y);
    lemma_ring_zero(p.x);
    lemma_ring_zero(p.y);
    lemma_ring_zero(o);
    lemma_ring_zero(l);
    lemma_ring_zero(x);
    lemma_ring_zero(y);
    lemma_mul_shuffle(p.x, l, l);
    lemma_mul_shuffle(p.y, l, l);
    lemma_unit_divisor(x);
    lemma_unit_divisor(y);
}

/// Over an ordered field whose `==` is equality, projecting a transform to 2d does not
/// change where it sends 2d points, unless the projection normalizes it (`m14` and `m24`
/// zero and `m44` neither zero nor one).
pub proof fn lemma_projected_2d_keeps_points<T: Add<Output = T> + Sub<Output = T> + Mul<Output = T> + Div<Output = T> + Zero + One + PartialOrd + PartialEq, U, V>(
    m: Matrix4<T>,
    p: Point2D<T, U>,
)
    requires
        ordered_field::<T>(),
        forall|x: T, y: T| #[trigger] x.eq_spec(&y) <==> x == y,
        !(m.m14 == T::spec_zero() && m.m24 == T::spec_zero() && m.m44 != T::spec_zero() && m.m44 != T::spec_one()),
    ensures
        project_point2d::<T, U, V>(mat_projected_2d(m), p) == project_point2d::<T, U, V>(m, p),
{
    lemma_projected_2d_entries(m);
}

/// Over an ordered field, a scale multiplies each coordinate of a point by its own factor.
pub proof fn lemma_scale_maps_points<T: Add<Output = T> + Sub<Output = T> + Mul<Output = T> + Div<Output = T> + Zero + One + PartialOrd, U, V>(
    x: T,
    y: T,
    z: T,
    p: Point3D<T, U>,
)
    requires
        ordered_field::<T>(),
    ensures
        project_point3d::<T, U, V>(mat_scale(x, y, z), p) == Some(
            Point3D::<T, V> { x: times(p.x, x), y: times(p.y, y), z: times(p.z, z), _unit: PhantomData },
        ),
{
    let o = T::spec_zero();
    let l = T::spec_one();
    lemma_ring_zero(p.x);
    lemma_ring_zero(p.y);
    lemma_ring_zero(p.z);
    lemma_ring_zero(o);
    lemma_ring_zero(l);
    lemma_ring_zero(times(p.x, x));
    lemma_ring_zero(times(p.y, y));
    lemma_ring_zero(times(p.z, z));
    lemma_unit_divisor(times(p.x, x));
    lemma_unit_divisor(times(p.y, y));
    lemma_unit_divisor(times(p.z, z));
}

/// Over an ordered field whose negation is subtraction from zero, the perspective at a
/// nonzero distance `d` leaves the points of the plane `z = 0` where they are, and sends
/// the points of the plane `z = d` to infinity (their `w` is zero, so they have no image).
pub proof fn lemma_perspective_planes<T: Add<Output = T> + Sub<Output = T> + Mul<Output = T> + Div<Output = T> + Neg<Output = T> + Zero + One + PartialOrd, U, V>(
    d: T,
    px: T,
    py: T,
)
    requires
        ordered_field::<T>(),
        forall|x: T| #[trigger] negated(x) == minus(T::spec_zero(), x),
        d != T::spec_zero(),
    ensures
        project_point3d::<T, U, V>(mat_perspective(d), Point3D { x: px, y: py, z: T::spec_zero(), _unit: PhantomData })
            == Some(Point3D::<T, V> { x: px, y: py, z: T::spec_zero(), _unit: PhantomData }),
        project_point3d::<T, U, V>(mat_perspective(d), Point3D { x: px, y: py, z: d, _unit: PhantomData }) is None,
{
    let o = T::spec_zero();
    let l = T::spec_one();
    let nl = minus(o, l);
    let s = quot(l, d);
    lemma_ring_zero(px);
    lemma_ring_zero(py);
    lemma_ring_zero(d);
    lemma_ring_zero(o);
    lemma_ring_zero(l);
    lemma_mul_shuffle(px, l, l);
    lemma_mul_shuffle(py, l, l);
    lemma_mul_shuffle(d, l, l);
    lemma_ring_zero(quot(nl, d));
    lemma_unit_divisor(px);
    lemma_unit_divisor(py);
    lemma_unit_divisor(o);
    // at z = d: w == d (-1 / d) + 1 == -1 + 1 == 0
    assert(quot(nl, d) == times(nl, s));
    assert(times(d, s) == l);
    lemma_mul_shuffle(d, nl, s);
    lemma_mul_shuffle(nl, d, s);
    lemma_mul_shuffle(nl, l, l);
    assert(times(d, quot(nl, d)) == nl);
    lemma_plus_negation(l);
    lemma_ring_zero(nl);
}

/// `x + (0 - x) == 0` and `(0 - x) + x == 0`.
proof fn lemma_plus_negation<T: Add<Output = T> + Sub<Output = T> + Mul<Output = T> + Zero + One>(x: T)
    requires
        commutative_ring::<T>(),
    ensures
        plus(x, minus(T::spec_zero(), x)) == T::spec_zero(),
        plus(minus(T::spec_zero(), x), x) == T::spec_zero(),
{
    reveal(commutative_ring);
    assert(plus(minus(T::spec_zero(), x), x) == plus(x, minus(T::spec_zero(), x)));
}

} // verus!
