//! Laws of rotations.  The formula uses the angle only through the sine and cosine of half
//! of it, and its terms cancel on the axis, whatever the angle.  About a coordinate axis,
//! the rotation's block is the square of the complex number `cos(t/2) + sin(t/2) i`, so,
//! given the identities of sine and cosine that `Trig` does not state (taken as
//! hypotheses), rotations compose by adding angles and are proper (orthogonal, with
//! determinant one).
use crate::laws_projective::{lemma_mul_shuffle, lemma_neg_neg, lemma_neg_times, lemma_neg_times_neg, lemma_neg_unique};
use crate::matrix::{determinant, dot4, mat_identity, mat_mul, mat_rotation, matrix, transpose, Matrix4};
use crate::num::{minus, plus, quot, times, times3, times4, One, Trig, Zero};
use crate::signed_sum::{commutative_ring, lemma_ring_zero, lemma_signed_sum_permutation, signed_sum, step};
use core::ops::{Add, Div, Mul, Sub};
use vstd::multiset::group_multiset_axioms;
use vstd::prelude::*;
use vstd::seq_lib::group_to_multiset_ensures;

verus! {

/// `a * (u - k) == a * u - a * k` and `a * (u + k) == a * u + a * k`.
proof fn lemma_times_distributes<T: Add<Output = T> + Sub<Output = T> + Mul<Output = T> + Zero + One>(a: T, u: T, k: T)
    requires
        commutative_ring::<T>(),
    ensures
        times(a, minus(u, k)) == minus(times(a, u), times(a, k)),
        times(a, plus(u, k)) == plus(times(a, u), times(a, k)),
{
    reveal(commutative_ring);
    assert(times(a, minus(u, k)) == times(minus(u, k), a));
    assert(times(a, plus(u, k)) == times(plus(u, k), a));
    assert(times(u, a) == times(a, u));
    assert(times(k, a) == times(a, k));
}

/// `a * (t * w) == t * (a * w)`.
proof fn lemma_times_swap_front<T: Add<Output = T> + Sub<Output = T> + Mul<Output = T> + Zero + One>(a: T, t: T, w: T)
    requires
        commutative_ring::<T>(),
    ensures
        times(a, times(t, w)) == times(t, times(a, w)),
{
    reveal(commutative_ring);
    assert(times(a, times(t, w)) == times(times(a, t), w));
    assert(times(a, t) == times(t, a));
    assert(times(times(t, a), w) == times(t, times(a, w)));
}

/// The products of three and four factors that the entries of a rotation form:
/// `b * ((a * b) * q) == q * (a * (b * b))`, `a * ((a * b) * q) == q * (b * (a * a))`,
/// `a * ((2 * w) * q) == 2 * (q * (a * w))`, `a * (c * s) == s * (a * c)` and
/// `c * (a * s) == s * (a * c)`.
proof fn lemma_rotation_products<T: Add<Output = T> + Sub<Output = T> + Mul<Output = T> + Zero + One>(a: T, b: T, c: T, q: T, s: T, two: T, w: T)
    requires
        commutative_ring::<T>(),
    ensures
        times(b, times3(a, b, q)) == times(q, times(a, times(b, b))),
        times(a, times3(a, b, q)) == times(q, times(b, times(a, a))),
        times(a, times(times(two, w), q)) == times(two, times(q, times(a, w))),
        times(a, times(c, s)) == times(s, times(a, c)),
        times(c, times(a, s)) == times(s, times(a, c)),
{
    reveal(commutative_ring);
    let ab = times(a, b);
    // b * ((a b) q) == q * (a (b b))
    assert(times(b, times(ab, q)) == times(times(ab, q), b));
    assert(times(times(ab, q), b) == times(ab, times(q, b)));
    assert(times(q, b) == times(b, q));
    assert(times(ab, times(b, q)) == times(times(ab, b), q));
    assert(times(times(a, b), b) == times(a, times(b, b)));
    assert(times(times(a, times(b, b)), q) == times(q, times(a, times(b, b))));
    // a * ((a b) q) == q * (b (a a))
    assert(times(a, times(ab, q)) == times(times(a, ab), q));
    assert(times(a, ab) == times(times(a, a), b));
    assert(times(times(a, a), b) == times(b, times(a, a)));
    assert(times(times(b, times(a, a)), q) == times(q, times(b, times(a, a))));
    // a * ((2 w) q) == 2 (q (a w))
    assert(times(a, times(times(two, w), q)) == times(times(a, times(two, w)), q));
    assert(times(a, times(two, w)) == times(times(a, two), w));
    assert(times(a, two) == times(two, a));
    assert(times(times(two, a), w) == times(two, times(a, w)));
    assert(times(times(two, times(a, w)), q) == times(two, times(times(a, w), q)));
    assert(times(times(a, w), q) == times(q, times(a, w)));
    // a (c s) == s (a c), c (a s) == s (a c)
    assert(times(a, times(c, s)) == times(times(a, c), s));
    assert(times(times(a, c), s) == times(s, times(a, c)));
    assert(times(c, times(a, s)) == times(times(c, a), s));
    assert(times(c, a) == times(a, c));
}

/// `+` is associative and commutative, for the given values.
proof fn lemma_add_ac<T: Add<Output = T> + Sub<Output = T> + Mul<Output = T> + Zero + One>(x: T, y: T, z: T)
    requires
        commutative_ring::<T>(),
    ensures
        plus(plus(x, y), z) == plus(x, plus(y, z)),
        plus(x, y) == plus(y, x),
{
    reveal(commutative_ring);
}

/// `x - y == x + (0 - y)` and `x + (0 - x) == 0`.
proof fn lemma_sub_facts<T: Add<Output = T> + Sub<Output = T> + Mul<Output = T> + Zero + One>(x: T, y: T)
    requires
        commutative_ring::<T>(),
    ensures
        minus(x, y) == plus(x, minus(T::spec_zero(), y)),
        plus(x, minus(T::spec_zero(), x)) == T::spec_zero(),
{
    reveal(commutative_ring);
}

/// The laws of `+` and `-` for the given values: associativity, commutativity, `0`, and
/// `x - y == x + (0 - y)`, `x + (0 - x) == 0`.
proof fn lemma_add_facts<T: Add<Output = T> + Sub<Output = T> + Mul<Output = T> + Zero + One>(x: T, y: T, z: T)
    requires
        commutative_ring::<T>(),
    ensures
        plus(plus(x, y), z) == plus(x, plus(y, z)),
        plus(x, y) == plus(y, x),
        plus(x, T::spec_zero()) == x,
        plus(T::spec_zero(), x) == x,
        minus(x, y) == plus(x, minus(T::spec_zero(), y)),
        plus(x, minus(T::spec_zero(), x)) == T::spec_zero(),
{
    lemma_add_ac(x, y, z);
    lemma_sub_facts(x, y);
    lemma_ring_zero(x);
}

/// The additive identities that close the proof that a rotation fixes its axis.
proof fn lemma_rotation_sums<T: Add<Output = T> + Sub<Output = T> + Mul<Output = T> + Zero + One>(a: T, p: T, q: T, r: T)
    requires
        commutative_ring::<T>(),
    ensures
        plus(plus(minus(a, plus(p, q)), minus(p, r)), plus(q, r)) == a,
        plus(plus(plus(p, r), minus(a, plus(p, q))), minus(q, r)) == a,
        plus(plus(minus(p, r), plus(q, r)), minus(a, plus(p, q))) == a,
{
    let o = T::spec_zero();
    let np = minus(o, p);
    let nq = minus(o, q);
    let nr = minus(o, r);
    let pq = plus(p, q);
    lemma_add_facts(p, r, o);
    lemma_add_facts(q, r, o);
    lemma_add_facts(r, o, o);
    lemma_add_facts(a, pq, o);
    // 0 - (p + q) == (0 - p) + (0 - q)
    lemma_add_facts(np, nq, pq);
    lemma_add_facts(p, q, o);
    lemma_add_facts(nq, q, p);
    lemma_add_facts(np, p, o);
    lemma_neg_unique(plus(np, nq), pq);
    lemma_sum_of_six(a, np, nq, p, nr, q, r);
}

/// `((a + (np + nq)) + (p + nr)) + (q + r)` and its two rearrangements equal `a` where
/// `p + np`, `q + nq` and `r + nr` are zero.
proof fn lemma_sum_of_six<T: Add<Output = T> + Sub<Output = T> + Mul<Output = T> + Zero + One>(a: T, np: T, nq: T, p: T, nr: T, q: T, r: T)
    requires
        commutative_ring::<T>(),
        plus(p, np) == T::spec_zero(),
        plus(q, nq) == T::spec_zero(),
        plus(r, nr) == T::spec_zero(),
    ensures
        plus(plus(plus(a, plus(np, nq)), plus(p, nr)), plus(q, r)) == a,
        plus(plus(plus(p, r), plus(a, plus(np, nq))), plus(q, nr)) == a,
        plus(plus(plus(p, nr), plus(q, r)), plus(a, plus(np, nq))) == a,
{
    let o = T::spec_zero();
    let n = plus(np, nq);
    let pq = plus(p, q);
    let an = plus(a, n);
    // (p + nr) + (q + r) == p + q
    lemma_add_facts(p, nr, plus(q, r));
    lemma_add_facts(q, r, o);
    lemma_add_facts(nr, r, q);
    lemma_add_facts(q, o, o);
    assert(plus(plus(p, nr), plus(q, r)) == pq);
    // (p + q) + n == 0
    lemma_add_facts(p, q, n);
    lemma_add_facts(q, np, nq);
    lemma_add_facts(np, q, nq);
    assert(plus(pq, n) == o);
    // (p + r) + (q + nr) == p + q
    lemma_add_facts(p, r, plus(q, nr));
    lemma_add_facts(q, nr, o);
    lemma_add_facts(r, nr, q);
    assert(plus(plus(p, r), plus(q, nr)) == pq);
    // each of the three sums is (a + n) + (p + q)
    lemma_add_facts(an, plus(p, nr), plus(q, r));
    lemma_add_facts(a, n, pq);
    lemma_add_facts(n, pq, o);
    lemma_add_facts(a, o, o);
    lemma_add_facts(pq, an, o);
    lemma_add_facts(plus(p, r), an, o);
    lemma_add_facts(an, plus(p, r), plus(q, nr));
}

/// A rotation leaves its axis fixed: the vector `(x, y, z)` is its own image under the
/// rotation about it, whatever the angle (the proof needs no law of sine or cosine).
pub proof fn lemma_rotation_fixes_axis<T: Add<Output = T> + Sub<Output = T> + Mul<Output = T> + Div<Output = T> + Zero + One + Trig>(
    x: T,
    y: T,
    z: T,
    theta: T,
)
    requires
        commutative_ring::<T>(),
    ensures
        ({
            let m = mat_rotation(x, y, z, theta);
            &&& plus(plus(times(x, m.m11), times(y, m.m21)), times(z, m.m31)) == x
            &&& plus(plus(times(x, m.m12), times(y, m.m22)), times(z, m.m32)) == y
            &&& plus(plus(times(x, m.m13), times(y, m.m23)), times(z, m.m33)) == z
        }),
{
    let l = T::spec_one();
    let two = plus(l, l);
    let xx = times(x, x);
    let yy = times(y, y);
    let zz = times(z, z);
    let half = quot(theta, two);
    let s = times(half.spec_sin(), half.spec_cos());
    let q = times(half.spec_sin(), half.spec_sin());
    // x component
    lemma_rotation_axis_component(x, y, z, yy, zz, q, s, two);
    // y component
    lemma_rotation_axis_component(y, x, z, xx, zz, q, s, two);
    // z component
    lemma_rotation_axis_component(z, x, y, xx, yy, q, s, two);
    lemma_rotation_products(x, y, z, q, s, two, yy);
    lemma_rotation_products(y, z, x, q, s, two, zz);
    lemma_rotation_products(x, z, y, q, s, two, zz);
    lemma_rotation_products(y, x, z, q, s, two, xx);
    lemma_rotation_products(z, x, y, q, s, two, xx);
    lemma_rotation_products(z, y, x, q, s, two, yy);
    lemma_rotation_products(x, y, z, q, s, two, zz);
    lemma_rotation_products(y, x, z, q, s, two, zz);
    lemma_rotation_products(z, x, y, q, s, two, yy);
    lemma_rotation_products(x, z, y, q, s, two, yy);
    lemma_rotation_products(y, z, x, q, s, two, xx);
    lemma_rotation_products(z, y, x, q, s, two, xx);
    let m = mat_rotation(x, y, z, theta);
    // x: x m11 == x - (P + Q), y m21 == P - R, z m31 == Q + R
    let p = times(two, times(q, times(x, yy)));
    let qq = times(two, times(q, times(x, zz)));
    let r = times(two, times(s, times(y, z)));
    lemma_times_distributes(y, times(two, times3(x, y, q)), times(two, times(z, s)));
    lemma_times_distributes(two, times3(x, y, q), times(z, s));
    lemma_times_distributes(two, times3(x, z, q), times(y, s));
    lemma_times_swap_front(y, two, minus(times3(x, y, q), times(z, s)));
    lemma_times_swap_front(z, two, plus(times3(x, z, q), times(y, s)));
    lemma_times_distributes(y, times3(x, y, q), times(z, s));
    lemma_times_distributes(z, times3(x, z, q), times(y, s));
    lemma_times_distributes(two, times(y, times3(x, y, q)), times(y, times(z, s)));
    lemma_times_distributes(two, times(z, times3(x, z, q)), times(z, times(y, s)));
    assert(times(y, m.m21) == minus(p, r));
    assert(times(z, m.m31) == plus(qq, r));
    lemma_rotation_sums(x, p, qq, r);
    // y: x m12 == P + R, y m22 == y - (P + Q), z m32 == Q - R
    let p = times(two, times(q, times(y, xx)));
    let qq = times(two, times(q, times(y, zz)));
    let r = times(two, times(s, times(x, z)));
    lemma_times_distributes(two, times3(x, y, q), times(z, s));
    lemma_times_distributes(two, times3(y, z, q), times(x, s));
    lemma_times_swap_front(x, two, plus(times3(x, y, q), times(z, s)));
    lemma_times_swap_front(z, two, minus(times3(y, z, q), times(x, s)));
    lemma_times_distributes(x, times3(x, y, q), times(z, s));
    lemma_times_distributes(z, times3(y, z, q), times(x, s));
    lemma_times_distributes(two, times(x, times3(x, y, q)), times(x, times(z, s)));
    lemma_times_distributes(two, times(z, times3(y, z, q)), times(z, times(x, s)));
    assert(times(x, m.m12) == plus(p, r));
    assert(times(z, m.m32) == minus(qq, r));
    lemma_rotation_sums(y, p, qq, r);
    // z: x m13 == P - R, y m23 == Q + R, z m33 == z - (P + Q)
    let p = times(two, times(q, times(z, xx)));
    let qq = times(two, times(q, times(z, yy)));
    let r = times(two, times(s, times(x, y)));
    lemma_times_distributes(two, times3(x, z, q), times(y, s));
    lemma_times_distributes(two, times3(y, z, q), times(x, s));
    lemma_times_swap_front(x, two, minus(times3(x, z, q), times(y, s)));
    lemma_times_swap_front(y, two, plus(times3(y, z, q), times(x, s)));
    lemma_times_distributes(x, times3(x, z, q), times(y, s));
    lemma_times_distributes(y, times3(y, z, q), times(x, s));
    lemma_times_distributes(two, times(x, times3(x, z, q)), times(x, times(y, s)));
    lemma_times_distributes(two, times(y, times3(y, z, q)), times(y, times(x, s)));
    assert(times(x, m.m13) == minus(p, r));
    assert(times(y, m.m23) == plus(qq, r));
    lemma_rotation_sums(z, p, qq, r);
}

/// The diagonal entry of a rotation times the matching axis coordinate:
/// `a * (1 - (2 (u + v)) q) == a - (2 (q (a u)) + 2 (q (a v)))`.
proof fn lemma_rotation_axis_component<T: Add<Output = T> + Sub<Output = T> + Mul<Output = T> + Zero + One>(
    a: T,
    b: T,
    c: T,
    u: T,
    v: T,
    q: T,
    s: T,
    two: T,
)
    requires
        commutative_ring::<T>(),
    ensures
        times(a, minus(T::spec_one(), times(times(two, plus(u, v)), q))) == minus(
            a,
            plus(times(two, times(q, times(a, u))), times(two, times(q, times(a, v)))),
        ),
{
    let l = T::spec_one();
    let k = times(times(two, plus(u, v)), q);
    lemma_times_distributes(a, l, k);
    lemma_mul_shuffle(a, l, l);
    lemma_rotation_products(a, b, c, q, s, two, plus(u, v));
    lemma_times_distributes(a, u, v);
    lemma_times_distributes(q, times(a, u), times(a, v));
    lemma_times_distributes(two, times(q, times(a, u)), times(q, times(a, v)));
}

/// The rotation depends on its angle only through the sine and cosine of half of it: where
/// the sine of half the angle is zero (as at the angle zero), the rotation is the identity,
/// whatever the axis.
pub proof fn lemma_rotation_by_zero_half_sine<T: Add<Output = T> + Sub<Output = T> + Mul<Output = T> + Div<Output = T> + Zero + One + Trig>(
    x: T,
    y: T,
    z: T,
    theta: T,
)
    requires
        commutative_ring::<T>(),
        quot(theta, plus(T::spec_one(), T::spec_one())).spec_sin() == T::spec_zero(),
    ensures
        mat_rotation(x, y, z, theta) == mat_identity::<T>(),
{
    let o = T::spec_zero();
    let l = T::spec_one();
    let two = plus(l, l);
    let half = quot(theta, two);
    lemma_ring_zero(o);
    lemma_ring_zero(l);
    lemma_ring_zero(two);
    lemma_ring_zero(half.spec_cos());
    lemma_ring_zero(times(x, y));
    lemma_ring_zero(times(x, z));
    lemma_ring_zero(times(y, z));
    lemma_ring_zero(x);
    lemma_ring_zero(y);
    lemma_ring_zero(z);
    lemma_ring_zero(times(two, plus(times(y, y), times(z, z))));
    lemma_ring_zero(times(two, plus(times(x, x), times(z, z))));
    lemma_ring_zero(times(two, plus(times(x, x), times(y, y))));
}

/// The real part of the product of the complex numbers `a0 + a1 i` and `b0 + b1 i`.
pub open spec fn complex_re<T: Sub<Output = T> + Mul<Output = T>>(a0: T, a1: T, b0: T, b1: T) -> T {
    minus(times(a0, b0), times(a1, b1))
}

/// The imaginary part of the product of the complex numbers `a0 + a1 i` and `b0 + b1 i`.
pub open spec fn complex_im<T: Add<Output = T> + Mul<Output = T>>(a0: T, a1: T, b0: T, b1: T) -> T {
    plus(times(a0, b1), times(a1, b0))
}

/// `(u - k) * a == u * a - k * a` and `(u + k) * a == u * a + k * a`.
proof fn lemma_times_distributes_right<T: Add<Output = T> + Sub<Output = T> + Mul<Output = T> + Zero + One>(u: T, k: T, a: T)
    requires
        commutative_ring::<T>(),
    ensures
        times(minus(u, k), a) == minus(times(u, a), times(k, a)),
        times(plus(u, k), a) == plus(times(u, a), times(k, a)),
{
    reveal(commutative_ring);
}

/// `a - (r + s) == (a - r) - s`.
proof fn lemma_minus_of_sum<T: Add<Output = T> + Sub<Output = T> + Mul<Output = T> + Zero + One>(a: T, r: T, s: T)
    requires
        commutative_ring::<T>(),
    ensures
        minus(a, plus(r, s)) == minus(minus(a, r), s),
{
    let o = T::spec_zero();
    let nr = minus(o, r);
    let ns = minus(o, s);
    let rs = plus(r, s);
    // 0 - (r + s) == (0 - r) + (0 - s)
    lemma_add_facts(nr, ns, rs);
    lemma_add_facts(r, s, o);
    lemma_add_facts(ns, s, r);
    lemma_add_facts(nr, r, o);
    lemma_add_facts(s, o, o);
    lemma_add_facts(r, o, o);
    assert(plus(plus(nr, ns), rs) == o);
    lemma_neg_unique(plus(nr, ns), rs);
    lemma_add_facts(a, rs, o);
    lemma_add_facts(a, r, o);
    lemma_add_facts(minus(a, r), s, o);
    lemma_add_facts(a, nr, ns);
}

/// `x + (y - z) == (x + y) - z`.
proof fn lemma_plus_of_minus<T: Add<Output = T> + Sub<Output = T> + Mul<Output = T> + Zero + One>(x: T, y: T, z: T)
    requires
        commutative_ring::<T>(),
    ensures
        plus(x, minus(y, z)) == minus(plus(x, y), z),
{
    let o = T::spec_zero();
    lemma_add_facts(y, z, o);
    lemma_add_facts(plus(x, y), z, o);
    lemma_add_facts(x, y, minus(o, z));
}

/// A signed sum of four terms, written out.
proof fn lemma_signed_sum4<T: Add<Output = T> + Sub<Output = T> + Mul<Output = T> + Zero + One>(
    t1: (bool, T),
    t2: (bool, T),
    t3: (bool, T),
    t4: (bool, T),
)
    requires
        commutative_ring::<T>(),
    ensures
        signed_sum(Seq::empty().push(t1).push(t2).push(t3).push(t4)) == step(
            step(step(step(T::spec_zero(), t1), t2), t3),
            t4,
        ),
{
    let s1 = Seq::empty().push(t1);
    let s2 = s1.push(t2);
    let s3 = s2.push(t3);
    let s4 = s3.push(t4);
    assert(s1.drop_last() =~= Seq::<(bool, T)>::empty());
    assert(s2.drop_last() =~= s1);
    assert(s3.drop_last() =~= s2);
    assert(s4.drop_last() =~= s3);
    assert(signed_sum(Seq::<(bool, T)>::empty()) == T::spec_zero());
    assert(signed_sum(s1) == step(signed_sum(s1.drop_last()), s1.last()));
    assert(signed_sum(s2) == step(signed_sum(s2.drop_last()), s2.last()));
    assert(signed_sum(s3) == step(signed_sum(s3.drop_last()), s3.last()));
    assert(signed_sum(s4) == step(signed_sum(s4.drop_last()), s4.last()));
}

/// Multiplication of complex numbers (pairs of scalars of a commutative ring) is associative.
proof fn lemma_complex_associative<T: Add<Output = T> + Sub<Output = T> + Mul<Output = T> + Zero + One>(
    a0: T,
    a1: T,
    b0: T,
    b1: T,
    c0: T,
    c1: T,
)
    requires
        commutative_ring::<T>(),
    ensures
        complex_re(complex_re(a0, a1, b0, b1), complex_im(a0, a1, b0, b1), c0, c1) == complex_re(
            a0,
            a1,
            complex_re(b0, b1, c0, c1),
            complex_im(b0, b1, c0, c1),
        ),
        complex_im(complex_re(a0, a1, b0, b1), complex_im(a0, a1, b0, b1), c0, c1) == complex_im(
            a0,
            a1,
            complex_re(b0, b1, c0, c1),
            complex_im(b0, b1, c0, c1),
        ),
{
    broadcast use group_to_multiset_ensures, group_multiset_axioms;

    let o = T::spec_zero();
    let ab0 = times(a0, b0);
    let ab1 = times(a1, b1);
    let ab2 = times(a0, b1);
    let ab3 = times(a1, b0);
    let bc0 = times(b0, c0);
    let bc1 = times(b1, c1);
    let bc2 = times(b0, c1);
    let bc3 = times(b1, c0);
    // the eight products of three factors
    let p000 = times3(a0, b0, c0);
    let p110 = times3(a1, b1, c0);
    let p011 = times3(a0, b1, c1);
    let p101 = times3(a1, b0, c1);
    let p001 = times3(a0, b0, c1);
    let p111 = times3(a1, b1, c1);
    let p010 = times3(a0, b1, c0);
    let p100 = times3(a1, b0, c0);
    lemma_mul_shuffle(a0, b0, c0);
    lemma_mul_shuffle(a1, b1, c0);
    lemma_mul_shuffle(a0, b1, c1);
    lemma_mul_shuffle(a1, b0, c1);
    lemma_mul_shuffle(a0, b0, c1);
    lemma_mul_shuffle(a1, b1, c1);
    lemma_mul_shuffle(a0, b1, c0);
    lemma_mul_shuffle(a1, b0, c0);
    lemma_ring_zero(p000);
    lemma_ring_zero(p001);
    // real parts
    lemma_times_distributes_right(ab0, ab1, c0);
    lemma_times_distributes_right(ab2, ab3, c1);
    lemma_minus_of_sum(minus(p000, p110), p011, p101);
    lemma_times_distributes(a0, bc0, bc1);
    lemma_times_distributes(a1, bc2, bc3);
    lemma_minus_of_sum(minus(p000, p011), p101, p110);
    let l1 = Seq::empty().push((true, p000)).push((false, p110)).push((false, p011)).push((false, p101));
    let r1 = Seq::empty().push((true, p000)).push((false, p011)).push((false, p101)).push((false, p110));
    lemma_signed_sum4((true, p000), (false, p110), (false, p011), (false, p101));
    lemma_signed_sum4((true, p000), (false, p011), (false, p101), (false, p110));
    assert(l1.to_multiset() =~= r1.to_multiset());
    lemma_signed_sum_permutation(l1, r1);
    // imaginary parts
    lemma_times_distributes_right(ab0, ab1, c1);
    lemma_times_distributes_right(ab2, ab3, c0);
    lemma_add_facts(minus(p001, p111), p010, p100);
    lemma_times_distributes(a0, bc2, bc3);
    lemma_times_distributes(a1, bc0, bc1);
    lemma_plus_of_minus(plus(p001, p010), p100, p111);
    let l2 = Seq::empty().push((true, p001)).push((false, p111)).push((true, p010)).push((true, p100));
    let r2 = Seq::empty().push((true, p001)).push((true, p010)).push((true, p100)).push((false, p111));
    lemma_signed_sum4((true, p001), (false, p111), (true, p010), (true, p100));
    lemma_signed_sum4((true, p001), (true, p010), (true, p100), (false, p111));
    assert(l2.to_multiset() =~= r2.to_multiset());
    lemma_signed_sum_permutation(l2, r2);
}

/// Multiplication of complex numbers is commutative.
proof fn lemma_complex_commutative<T: Add<Output = T> + Sub<Output = T> + Mul<Output = T> + Zero + One>(a0: T, a1: T, b0: T, b1: T)
    requires
        commutative_ring::<T>(),
    ensures
        complex_re(a0, a1, b0, b1) == complex_re(b0, b1, a0, a1),
        complex_im(a0, a1, b0, b1) == complex_im(b0, b1, a0, a1),
{
    lemma_mul_shuffle(a0, b0, a0);
    lemma_mul_shuffle(a1, b1, a0);
    lemma_mul_shuffle(a0, b1, a0);
    lemma_mul_shuffle(a1, b0, a0);
    lemma_add_facts(times(a0, b1), times(a1, b0), a0);
}

/// The rotation about the z axis whose XY block is `[[c, d], [-d, c]]` (row vectors).
pub open spec fn z_turn<T: Sub<Output = T> + Zero + One>(c: T, d: T) -> Matrix4<T> {
    let o = T::spec_zero();
    let l = T::spec_one();
    matrix(
        c, d, o, o,
        minus(o, d), c, o, o,
        o, o, l, o,
        o, o, o, l,
    )
}

/// The rotation about the z axis by `theta` is `z_turn(1 - 2 s s, 2 s k)`, where `s` and `k`
/// are the sine and cosine of half of `theta`.
proof fn lemma_z_rotation_is_turn<T: Add<Output = T> + Sub<Output = T> + Mul<Output = T> + Div<Output = T> + Zero + One + Trig>(theta: T)
    requires
        commutative_ring::<T>(),
    ensures
        ({
            let l = T::spec_one();
            let two = plus(l, l);
            let h = quot(theta, two);
            let s = h.spec_sin();
            let k = h.spec_cos();
            mat_rotation(T::spec_zero(), T::spec_zero(), l, theta) == z_turn(
                minus(l, times(two, times(s, s))),
                times(two, times(s, k)),
            )
        }),
{
    let o = T::spec_zero();
    let l = T::spec_one();
    let two = plus(l, l);
    let h = quot(theta, two);
    let q = times(h.spec_sin(), h.spec_sin());
    let p = times(h.spec_sin(), h.spec_cos());
    lemma_ring_zero(o);
    lemma_ring_zero(l);
    lemma_ring_zero(q);
    lemma_ring_zero(p);
    lemma_ring_zero(two);
    lemma_mul_shuffle(l, l, l);
    lemma_mul_shuffle(two, l, l);
    lemma_mul_shuffle(p, l, l);
    lemma_mul_shuffle(l, p, l);
    lemma_mul_shuffle(p, two, l);
    lemma_ring_zero(times(two, o));
    lemma_ring_zero(times(o, l));
    lemma_ring_zero(times(two, q));
    lemma_neg_times(p, two);
    lemma_add_facts(o, o, o);
    lemma_add_facts(o, p, o);
    lemma_add_facts(l, o, o);
    lemma_add_facts(o, l, o);
}

/// The product of two turns about the z axis is the turn whose block is the complex
/// product of theirs: `(c1 + d1 i) (c2 + d2 i)`.
proof fn lemma_z_turns_multiply<T: Add<Output = T> + Sub<Output = T> + Mul<Output = T> + Zero + One>(c1: T, d1: T, c2: T, d2: T)
    requires
        commutative_ring::<T>(),
    ensures
        mat_mul(z_turn(c1, d1), z_turn(c2, d2)) == z_turn(complex_re(c1, d1, c2, d2), complex_im(c1, d1, c2, d2)),
{
    let o = T::spec_zero();
    let l = T::spec_one();
    let nd1 = minus(o, d1);
    let nd2 = minus(o, d2);
    lemma_turn_product_facts(c1, d1, c2, d2);
    lemma_ring_zero(o);
    lemma_ring_zero(l);
    lemma_mul_shuffle(l, l, l);
    lemma_ring_zero(c1);
    lemma_ring_zero(d1);
    lemma_ring_zero(c2);
    lemma_ring_zero(d2);
    lemma_ring_zero(nd1);
    lemma_ring_zero(nd2);
    lemma_ring_zero(times(c1, c2));
    lemma_ring_zero(times(nd1, d2));
    lemma_ring_zero(times(d1, nd2));
    lemma_ring_zero(times(nd1, c2));
    lemma_ring_zero(times(c1, nd2));
    lemma_ring_zero(times(c1, d2));
    lemma_ring_zero(times(d1, c2));
    lemma_ring_zero(complex_re(c1, d1, c2, d2));
    lemma_ring_zero(complex_im(c1, d1, c2, d2));
    lemma_ring_zero(minus(o, complex_im(c1, d1, c2, d2)));
}

/// Where `s * s + k * k == 1`, `1 - 2 s s` and `2 s k` are the real and imaginary parts of
/// `(k + s i)^2`.
proof fn lemma_half_angle_square<T: Add<Output = T> + Sub<Output = T> + Mul<Output = T> + Zero + One>(s: T, k: T)
    requires
        commutative_ring::<T>(),
        plus(times(s, s), times(k, k)) == T::spec_one(),
    ensures
        minus(T::spec_one(), times(plus(T::spec_one(), T::spec_one()), times(s, s))) == complex_re(k, s, k, s),
        times(plus(T::spec_one(), T::spec_one()), times(s, k)) == complex_im(k, s, k, s),
{
    let o = T::spec_zero();
    let l = T::spec_one();
    let two = plus(l, l);
    let ss = times(s, s);
    let kk = times(k, k);
    let sk = times(s, k);
    // 2 x == x + x
    assert forall|x: T| #[trigger] times(two, x) == plus(x, x) by {
        lemma_times_distributes_right(l, l, x);
        lemma_mul_shuffle(l, x, l);
        lemma_mul_shuffle(x, l, l);
    }
    assert(times(two, ss) == plus(ss, ss));
    assert(times(two, sk) == plus(sk, sk));
    lemma_mul_shuffle(k, s, l);
    // (ss + kk) - (ss + ss) == kk - ss
    lemma_minus_of_sum(plus(ss, kk), ss, ss);
    lemma_add_facts(ss, kk, minus(o, ss));
    lemma_add_facts(kk, ss, minus(o, ss));
    lemma_add_facts(plus(ss, kk), ss, o);
    lemma_add_facts(plus(kk, ss), ss, o);
    lemma_add_facts(ss, o, o);
    lemma_add_facts(kk, o, o);
    lemma_add_facts(kk, ss, o);
    lemma_add_facts(minus(o, ss), ss, o);
    assert(minus(plus(ss, kk), ss) == kk);
}

/// The identities of sine and cosine (which `Trig` does not state) that composing two
/// rotations needs, at half of each angle: `sin² + cos² == 1` at `a/2`, `b/2` and
/// `(a+b)/2`, and the addition formulas
/// `sin((a+b)/2) == sin(a/2) cos(b/2) + cos(a/2) sin(b/2)` and
/// `cos((a+b)/2) == cos(a/2) cos(b/2) - sin(a/2) sin(b/2)`.
pub open spec fn half_angle_laws<T: Add<Output = T> + Sub<Output = T> + Mul<Output = T> + Div<Output = T> + Zero + One + Trig>(a: T, b: T) -> bool {
    let l = T::spec_one();
    let two = plus(l, l);
    let ha = quot(a, two);
    let hb = quot(b, two);
    let hc = quot(plus(a, b), two);
    &&& plus(times(ha.spec_sin(), ha.spec_sin()), times(ha.spec_cos(), ha.spec_cos())) == l
    &&& plus(times(hb.spec_sin(), hb.spec_sin()), times(hb.spec_cos(), hb.spec_cos())) == l
    &&& plus(times(hc.spec_sin(), hc.spec_sin()), times(hc.spec_cos(), hc.spec_cos())) == l
    &&& hc.spec_sin() == plus(times(ha.spec_sin(), hb.spec_cos()), times(ha.spec_cos(), hb.spec_sin()))
    &&& hc.spec_cos() == minus(times(ha.spec_cos(), hb.spec_cos()), times(ha.spec_sin(), hb.spec_sin()))
}

/// `1 - 2 sin²(t/2)`: the cosine term of the rotation by `t`.
pub open spec fn turn_cos<T: Add<Output = T> + Sub<Output = T> + Mul<Output = T> + Div<Output = T> + Zero + One + Trig>(t: T) -> T {
    let l = T::spec_one();
    let two = plus(l, l);
    let h = quot(t, two);
    minus(l, times(two, times(h.spec_sin(), h.spec_sin())))
}

/// `2 sin(t/2) cos(t/2)`: the sine term of the rotation by `t`.
pub open spec fn turn_sin<T: Add<Output = T> + Sub<Output = T> + Mul<Output = T> + Div<Output = T> + Zero + One + Trig>(t: T) -> T {
    let l = T::spec_one();
    let two = plus(l, l);
    let h = quot(t, two);
    times(two, times(h.spec_sin(), h.spec_cos()))
}

/// Given the half-angle laws, the cosine and sine terms of `a + b` are the real and
/// imaginary parts of the complex product of those of `a` and `b`.
proof fn lemma_turn_terms_compose<T: Add<Output = T> + Sub<Output = T> + Mul<Output = T> + Div<Output = T> + Zero + One + Trig>(a: T, b: T)
    requires
        commutative_ring::<T>(),
        half_angle_laws(a, b),
    ensures
        complex_re(turn_cos(a), turn_sin(a), turn_cos(b), turn_sin(b)) == turn_cos(plus(a, b)),
        complex_im(turn_cos(a), turn_sin(a), turn_cos(b), turn_sin(b)) == turn_sin(plus(a, b)),
{
    let l = T::spec_one();
    let two = plus(l, l);
    let ha = quot(a, two);
    let hb = quot(b, two);
    let hc = quot(plus(a, b), two);
    let (s1, k1) = (ha.spec_sin(), ha.spec_cos());
    let (s2, k2) = (hb.spec_sin(), hb.spec_cos());
    let (s3, k3) = (hc.spec_sin(), hc.spec_cos());
    lemma_half_angle_square(s1, k1);
    lemma_half_angle_square(s2, k2);
    lemma_half_angle_square(s3, k3);
    // the half-angle numbers multiply: k3 + s3 i == (k1 + s1 i)(k2 + s2 i)
    lemma_mul_shuffle(s1, k2, l);
    lemma_mul_shuffle(k1, s2, l);
    lemma_add_facts(times(k1, s2), times(s1, k2), l);
    assert(k3 == complex_re(k1, s1, k2, s2));
    assert(s3 == complex_im(k1, s1, k2, s2));
    // (z1 z1)(z2 z2) == (z1 z2)(z1 z2)
    let w22_re = complex_re(k2, s2, k2, s2);
    let w22_im = complex_im(k2, s2, k2, s2);
    let w_re = complex_re(k1, s1, k2, s2);
    let w_im = complex_im(k1, s1, k2, s2);
    lemma_complex_associative(k1, s1, k1, s1, w22_re, w22_im);
    lemma_complex_associative(k1, s1, k2, s2, k2, s2);
    lemma_complex_commutative(w_re, w_im, k2, s2);
    lemma_complex_associative(k1, s1, k2, s2, w_re, w_im);
}

/// Over a commutative ring, rotations about the z axis compose by adding their angles,
/// given the half-angle laws of sine and cosine (see `half_angle_laws`).
pub proof fn lemma_z_rotations_compose<T: Add<Output = T> + Sub<Output = T> + Mul<Output = T> + Div<Output = T> + Zero + One + Trig>(
    a: T,
    b: T,
)
    requires
        commutative_ring::<T>(),
        half_angle_laws(a, b),
    ensures
        mat_mul(
            mat_rotation(T::spec_zero(), T::spec_zero(), T::spec_one(), a),
            mat_rotation(T::spec_zero(), T::spec_zero(), T::spec_one(), b),
        ) == mat_rotation(T::spec_zero(), T::spec_zero(), T::spec_one(), plus(a, b)),
{
    lemma_z_rotation_is_turn(a);
    lemma_z_rotation_is_turn(b);
    lemma_z_rotation_is_turn(plus(a, b));
    lemma_turn_terms_compose(a, b);
    lemma_z_turns_multiply(turn_cos(a), turn_sin(a), turn_cos(b), turn_sin(b));
}

/// The rotation about the x axis whose YZ block is `[[c, d], [-d, c]]` (row vectors).
pub open spec fn x_turn<T: Sub<Output = T> + Zero + One>(c: T, d: T) -> Matrix4<T> {
    let o = T::spec_zero();
    let l = T::spec_one();
    matrix(
        l, o, o, o,
        o, c, d, o,
        o, minus(o, d), c, o,
        o, o, o, l,
    )
}

/// The rotation about the y axis whose XZ block is `[[c, -d], [d, c]]` (row vectors).
pub open spec fn y_turn<T: Sub<Output = T> + Zero + One>(c: T, d: T) -> Matrix4<T> {
    let o = T::spec_zero();
    let l = T::spec_one();
    matrix(
        c, o, minus(o, d), o,
        o, l, o, o,
        d, o, c, o,
        o, o, o, l,
    )
}

/// The facts about `0`, `1` and the terms of a rotation about a coordinate axis that
/// reduce its entries.
proof fn lemma_axis_rotation_facts<T: Add<Output = T> + Sub<Output = T> + Mul<Output = T> + Div<Output = T> + Zero + One + Trig>(theta: T)
    requires
        commutative_ring::<T>(),
    ensures
        ({
            let o = T::spec_zero();
            let l = T::spec_one();
            let two = plus(l, l);
            let h = quot(theta, two);
            let q = times(h.spec_sin(), h.spec_sin());
            let p = times(h.spec_sin(), h.spec_cos());
            &&& times(o, o) == o && times(l, l) == l && times(o, l) == o && times(l, o) == o
            &&& plus(o, o) == o && plus(o, l) == l && plus(l, o) == l
            &&& times3(o, o, q) == o && times3(o, l, q) == o && times3(l, o, q) == o
            &&& times(o, p) == o && times(l, p) == p && plus(o, p) == p && plus(o, o) == o
            &&& minus(o, o) == o && times(two, o) == o && times(two, l) == two && minus(l, o) == l
            &&& times(times(two, o), q) == o && times(times(two, l), q) == times(two, q)
            &&& times(two, minus(o, p)) == minus(o, times(two, p))
            &&& plus(o, minus(o, p)) == minus(o, p)
            &&& times(two, plus(o, p)) == times(two, p)
            &&& times(two, minus(o, o)) == o
        }),
{
    let o = T::spec_zero();
    let l = T::spec_one();
    let two = plus(l, l);
    let h = quot(theta, two);
    let q = times(h.spec_sin(), h.spec_sin());
    let p = times(h.spec_sin(), h.spec_cos());
    lemma_ring_zero(o);
    lemma_ring_zero(l);
    lemma_ring_zero(q);
    lemma_ring_zero(p);
    lemma_ring_zero(two);
    lemma_ring_zero(minus(o, p));
    lemma_mul_shuffle(l, l, l);
    lemma_mul_shuffle(two, l, l);
    lemma_mul_shuffle(p, l, l);
    lemma_mul_shuffle(l, p, l);
    lemma_mul_shuffle(p, two, l);
    lemma_ring_zero(times(two, o));
    lemma_ring_zero(times(o, l));
    lemma_ring_zero(times(l, o));
    lemma_neg_times(p, two);
    lemma_add_facts(o, o, o);
    lemma_add_facts(o, p, o);
    lemma_add_facts(l, o, o);
    lemma_add_facts(o, l, o);
}

/// The rotation about the x axis by `theta` is `x_turn` of its cosine and sine terms.
proof fn lemma_x_rotation_is_turn<T: Add<Output = T> + Sub<Output = T> + Mul<Output = T> + Div<Output = T> + Zero + One + Trig>(theta: T)
    requires
        commutative_ring::<T>(),
    ensures
        mat_rotation(T::spec_one(), T::spec_zero(), T::spec_zero(), theta) == x_turn(turn_cos(theta), turn_sin(theta)),
{
    lemma_axis_rotation_facts(theta);
}

/// The rotation about the y axis by `theta` is `y_turn` of its cosine and sine terms.
proof fn lemma_y_rotation_is_turn<T: Add<Output = T> + Sub<Output = T> + Mul<Output = T> + Div<Output = T> + Zero + One + Trig>(theta: T)
    requires
        commutative_ring::<T>(),
    ensures
        mat_rotation(T::spec_zero(), T::spec_one(), T::spec_zero(), theta) == y_turn(turn_cos(theta), turn_sin(theta)),
{
    lemma_axis_rotation_facts(theta);
}

/// The scalar facts that reduce the entries of a product of two turns.
proof fn lemma_turn_product_facts<T: Add<Output = T> + Sub<Output = T> + Mul<Output = T> + Zero + One>(c1: T, d1: T, c2: T, d2: T)
    requires
        commutative_ring::<T>(),
    ensures
        plus(times(c1, c2), times(minus(T::spec_zero(), d1), d2)) == complex_re(c1, d1, c2, d2),
        plus(times(c1, c2), times(d1, minus(T::spec_zero(), d2))) == complex_re(c1, d1, c2, d2),
        plus(times(minus(T::spec_zero(), d1), d2), times(c1, c2)) == complex_re(c1, d1, c2, d2),
        plus(times(d1, minus(T::spec_zero(), d2)), times(c1, c2)) == complex_re(c1, d1, c2, d2),
        plus(times(minus(T::spec_zero(), d1), c2), times(c1, minus(T::spec_zero(), d2))) == minus(T::spec_zero(), complex_im(c1, d1, c2, d2)),
        plus(times(c1, minus(T::spec_zero(), d2)), times(minus(T::spec_zero(), d1), c2)) == minus(T::spec_zero(), complex_im(c1, d1, c2, d2)),
        plus(times(c1, d2), times(d1, c2)) == complex_im(c1, d1, c2, d2),
        plus(times(d1, c2), times(c1, d2)) == complex_im(c1, d1, c2, d2),
{
    let o = T::spec_zero();
    let l = T::spec_one();
    let nd1 = minus(o, d1);
    let nd2 = minus(o, d2);
    lemma_ring_zero(o);
    lemma_ring_zero(l);
    lemma_ring_zero(c1);
    lemma_ring_zero(d1);
    lemma_ring_zero(c2);
    lemma_ring_zero(d2);
    lemma_ring_zero(nd1);
    lemma_ring_zero(nd2);
    lemma_mul_shuffle(l, l, l);
    lemma_mul_shuffle(c1, c2, l);
    lemma_mul_shuffle(d1, d2, l);
    lemma_mul_shuffle(c1, d2, l);
    lemma_mul_shuffle(d1, c2, l);
    lemma_neg_times(d2, d1);
    lemma_neg_times(d1, d2);
    lemma_neg_times(d1, c2);
    lemma_neg_times(d2, c1);
    let re = complex_re(c1, d1, c2, d2);
    let im = complex_im(c1, d1, c2, d2);
    let a = times(c1, c2);
    let b = times(d1, d2);
    // plain sums with zeros
    lemma_ring_zero(plus(a, minus(o, b)));
    lemma_ring_zero(plus(minus(o, b), a));
    lemma_ring_zero(im);
    lemma_ring_zero(plus(minus(o, times(d1, c2)), minus(o, times(d2, c1))));
    lemma_add_facts(a, b, o);
    lemma_add_facts(minus(o, b), a, o);
    // (-d1) c2 + c1 (-d2) == -(c1 d2 + d1 c2)
    lemma_minus_of_sum(o, times(c1, d2), times(d1, c2));
    lemma_add_facts(minus(o, times(d1, c2)), minus(o, times(c1, d2)), o);
    lemma_add_facts(o, times(c1, d2), o);
    lemma_add_facts(minus(o, times(c1, d2)), times(d1, c2), o);
    lemma_ring_zero(times(c1, d2));
    lemma_ring_zero(times(d1, c2));
    lemma_ring_zero(times(c1, c2));
    lemma_ring_zero(plus(times(c1, d2), times(d1, c2)));
    lemma_add_facts(times(d1, c2), times(c1, d2), o);
    lemma_add_facts(minus(o, times(c1, d2)), minus(o, times(d1, c2)), o);
}

/// The product of two turns about the x axis is the turn of the complex product.
proof fn lemma_x_turns_multiply<T: Add<Output = T> + Sub<Output = T> + Mul<Output = T> + Zero + One>(c1: T, d1: T, c2: T, d2: T)
    requires
        commutative_ring::<T>(),
    ensures
        mat_mul(x_turn(c1, d1), x_turn(c2, d2)) == x_turn(complex_re(c1, d1, c2, d2), complex_im(c1, d1, c2, d2)),
{
    let o = T::spec_zero();
    let l = T::spec_one();
    let nd1 = minus(o, d1);
    let nd2 = minus(o, d2);
    lemma_turn_product_facts(c1, d1, c2, d2);
    lemma_ring_zero(o);
    lemma_ring_zero(l);
    lemma_mul_shuffle(l, l, l);
    lemma_ring_zero(c1);
    lemma_ring_zero(d1);
    lemma_ring_zero(c2);
    lemma_ring_zero(d2);
    lemma_ring_zero(nd1);
    lemma_ring_zero(nd2);
    lemma_ring_zero(times(c1, c2));
    lemma_ring_zero(times(nd1, d2));
    lemma_ring_zero(times(d1, nd2));
    lemma_ring_zero(times(nd1, c2));
    lemma_ring_zero(times(c1, nd2));
    lemma_ring_zero(times(c1, d2));
    lemma_ring_zero(times(d1, c2));
    lemma_ring_zero(complex_re(c1, d1, c2, d2));
    lemma_ring_zero(complex_im(c1, d1, c2, d2));
    lemma_ring_zero(minus(o, complex_im(c1, d1, c2, d2)));
}

/// The product of two turns about the y axis is the turn of the complex product.
proof fn lemma_y_turns_multiply<T: Add<Output = T> + Sub<Output = T> + Mul<Output = T> + Zero + One>(c1: T, d1: T, c2: T, d2: T)
    requires
        commutative_ring::<T>(),
    ensures
        mat_mul(y_turn(c1, d1), y_turn(c2, d2)) == y_turn(complex_re(c1, d1, c2, d2), complex_im(c1, d1, c2, d2)),
{
    let o = T::spec_zero();
    let l = T::spec_one();
    let nd1 = minus(o, d1);
    let nd2 = minus(o, d2);
    lemma_turn_product_facts(c1, d1, c2, d2);
    lemma_ring_zero(o);
    lemma_ring_zero(l);
    lemma_mul_shuffle(l, l, l);
    lemma_ring_zero(c1);
    lemma_ring_zero(d1);
    lemma_ring_zero(c2);
    lemma_ring_zero(d2);
    lemma_ring_zero(nd1);
    lemma_ring_zero(nd2);
    lemma_ring_zero(times(c1, c2));
    lemma_ring_zero(times(nd1, d2));
    lemma_ring_zero(times(d1, nd2));
    lemma_ring_zero(times(nd1, c2));
    lemma_ring_zero(times(c1, nd2));
    lemma_ring_zero(times(c1, d2));
    lemma_ring_zero(times(d1, c2));
    lemma_ring_zero(complex_re(c1, d1, c2, d2));
    lemma_ring_zero(complex_im(c1, d1, c2, d2));
    lemma_ring_zero(minus(o, complex_im(c1, d1, c2, d2)));
}

/// Over a commutative ring, rotations about the x axis compose by adding their angles,
/// given the half-angle laws of sine and cosine (see `half_angle_laws`).
pub proof fn lemma_x_rotations_compose<T: Add<Output = T> + Sub<Output = T> + Mul<Output = T> + Div<Output = T> + Zero + One + Trig>(
    a: T,
    b: T,
)
    requires
        commutative_ring::<T>(),
        half_angle_laws(a, b),
    ensures
        mat_mul(
            mat_rotation(T::spec_one(), T::spec_zero(), T::spec_zero(), a),
            mat_rotation(T::spec_one(), T::spec_zero(), T::spec_zero(), b),
        ) == mat_rotation(T::spec_one(), T::spec_zero(), T::spec_zero(), plus(a, b)),
{
    lemma_x_rotation_is_turn(a);
    lemma_x_rotation_is_turn(b);
    lemma_x_rotation_is_turn(plus(a, b));
    lemma_turn_terms_compose(a, b);
    lemma_x_turns_multiply(turn_cos(a), turn_sin(a), turn_cos(b), turn_sin(b));
}

/// Over a commutative ring, rotations about the y axis compose by adding their angles,
/// given the half-angle laws of sine and cosine (see `half_angle_laws`).
pub proof fn lemma_y_rotations_compose<T: Add<Output = T> + Sub<Output = T> + Mul<Output = T> + Div<Output = T> + Zero + One + Trig>(
    a: T,
    b: T,
)
    requires
        commutative_ring::<T>(),
        half_angle_laws(a, b),
    ensures
        mat_mul(
            mat_rotation(T::spec_zero(), T::spec_one(), T::spec_zero(), a),
            mat_rotation(T::spec_zero(), T::spec_one(), T::spec_zero(), b),
        ) == mat_rotation(T::spec_zero(), T::spec_one(), T::spec_zero(), plus(a, b)),
{
    lemma_y_rotation_is_turn(a);
    lemma_y_rotation_is_turn(b);
    lemma_y_rotation_is_turn(plus(a, b));
    lemma_turn_terms_compose(a, b);
    lemma_y_turns_multiply(turn_cos(a), turn_sin(a), turn_cos(b), turn_sin(b));
}

/// `(a + b) + (c + d) == (a + c) + (b + d)` and `(a + b) + (c + d) == (a + d) + (b + c)`.
proof fn lemma_add_regroup4<T: Add<Output = T> + Sub<Output = T> + Mul<Output = T> + Zero + One>(a: T, b: T, c: T, d: T)
    requires
        commutative_ring::<T>(),
    ensures
        plus(plus(a, b), plus(c, d)) == plus(plus(a, c), plus(b, d)),
        plus(plus(a, b), plus(c, d)) == plus(plus(a, d), plus(b, c)),
{
    reveal(commutative_ring);
    assert(plus(plus(a, b), plus(c, d)) == plus(a, plus(b, plus(c, d))));
    assert(plus(b, plus(c, d)) == plus(plus(b, c), d));
    assert(plus(b, c) == plus(c, b));
    assert(plus(plus(c, b), d) == plus(c, plus(b, d)));
    assert(plus(a, plus(c, plus(b, d))) == plus(plus(a, c), plus(b, d)));
    assert(plus(plus(b, c), d) == plus(d, plus(b, c)));
    assert(plus(a, plus(d, plus(b, c))) == plus(plus(a, d), plus(b, c)));
}

/// `(p + q)(p + q) == (p p + q q) + (p q + p q)` and
/// `(p - q)(p - q) == (p p + q q) - (p q + p q)`.
proof fn lemma_squares<T: Add<Output = T> + Sub<Output = T> + Mul<Output = T> + Zero + One>(p: T, q: T)
    requires
        commutative_ring::<T>(),
    ensures
        times(plus(p, q), plus(p, q)) == plus(plus(times(p, p), times(q, q)), plus(times(p, q), times(p, q))),
        times(minus(p, q), minus(p, q)) == minus(plus(times(p, p), times(q, q)), plus(times(p, q), times(p, q))),
{
    let o = T::spec_zero();
    lemma_square_of_sum(p, q);
    let n = minus(o, q);
    let pq = times(p, q);
    lemma_square_of_sum(p, n);
    lemma_sub_facts(p, q);
    lemma_neg_times_neg(q, q);
    lemma_neg_times(q, p);
    lemma_mul_shuffle(q, p, o);
    // (-pq) + (-pq) == -(pq + pq)
    lemma_minus_of_sum(o, pq, pq);
    lemma_sub_facts(minus(o, pq), pq);
    lemma_sub_facts(plus(times(p, p), times(q, q)), plus(pq, pq));
}

/// `(p + q)(p + q) == (p p + q q) + (p q + p q)`.
proof fn lemma_square_of_sum<T: Add<Output = T> + Sub<Output = T> + Mul<Output = T> + Zero + One>(p: T, q: T)
    requires
        commutative_ring::<T>(),
    ensures
        times(plus(p, q), plus(p, q)) == plus(plus(times(p, p), times(q, q)), plus(times(p, q), times(p, q))),
{
    let o = T::spec_zero();
    let pp = times(p, p);
    let qq = times(q, q);
    let pq = times(p, q);
    lemma_mul_shuffle(q, p, o);
    lemma_times_distributes_right(p, q, plus(p, q));
    lemma_times_distributes(p, p, q);
    lemma_times_distributes(q, p, q);
    lemma_add_regroup4(pp, pq, pq, qq);
}

/// `(x y)(z w) == (x z)(y w)`.
proof fn lemma_times_middle_swap<T: Add<Output = T> + Sub<Output = T> + Mul<Output = T> + Zero + One>(x: T, y: T, z: T, w: T)
    requires
        commutative_ring::<T>(),
    ensures
        times(times(x, y), times(z, w)) == times(times(x, z), times(y, w)),
{
    reveal(commutative_ring);
    assert(times(times(x, y), times(z, w)) == times(x, times(y, times(z, w))));
    assert(times(y, times(z, w)) == times(times(y, z), w));
    assert(times(y, z) == times(z, y));
    assert(times(times(z, y), w) == times(z, times(y, w)));
    assert(times(x, times(z, times(y, w))) == times(times(x, z), times(y, w)));
}

/// The norm of a product of complex numbers is the product of their norms:
/// `re(ab)² + im(ab)² == (a0² + a1²)(b0² + b1²)`.
proof fn lemma_complex_norm_multiplies<T: Add<Output = T> + Sub<Output = T> + Mul<Output = T> + Zero + One>(a0: T, a1: T, b0: T, b1: T)
    requires
        commutative_ring::<T>(),
    ensures
        ({
            let re = complex_re(a0, a1, b0, b1);
            let im = complex_im(a0, a1, b0, b1);
            plus(times(re, re), times(im, im)) == times(plus(times(a0, a0), times(a1, a1)), plus(times(b0, b0), times(b1, b1)))
        }),
{
    let p = times(a0, b0);
    let q = times(a1, b1);
    let r = times(a0, b1);
    let s = times(a1, b0);
    let pp = times(p, p);
    let qq = times(q, q);
    let rr = times(r, r);
    let ss = times(s, s);
    let x = plus(times(p, q), times(p, q));
    lemma_squares(p, q);
    lemma_squares(r, s);
    // p q == r s
    lemma_times_middle_swap(a0, b0, a1, b1);
    lemma_times_middle_swap(a0, b1, a1, b0);
    lemma_mul_shuffle(b0, b1, a0);
    // ((pp + qq) - x) + ((rr + ss) + x) == (pp + qq) + (rr + ss)
    let u = plus(pp, qq);
    let v = plus(rr, ss);
    lemma_sub_facts(u, x);
    lemma_add_regroup4(u, minus(T::spec_zero(), x), v, x);
    lemma_sub_facts(x, x);
    lemma_add_facts(minus(T::spec_zero(), x), x, u);
    lemma_add_facts(u, v, T::spec_zero());
    lemma_add_facts(plus(u, v), T::spec_zero(), T::spec_zero());
    assert(plus(minus(u, x), plus(v, x)) == plus(u, v)) by {
        lemma_add_facts(x, minus(T::spec_zero(), x), T::spec_zero());
        lemma_add_regroup4(u, minus(T::spec_zero(), x), v, x);
        lemma_add_regroup4(u, v, minus(T::spec_zero(), x), x);
    }
    // (a0² + a1²)(b0² + b1²) == pp + rr + ss + qq
    let a00 = times(a0, a0);
    let a11 = times(a1, a1);
    let b00 = times(b0, b0);
    let b11 = times(b1, b1);
    lemma_times_distributes_right(a00, a11, plus(b00, b11));
    lemma_times_distributes(a00, b00, b11);
    lemma_times_distributes(a11, b00, b11);
    lemma_times_middle_swap(a0, a0, b0, b0);
    lemma_times_middle_swap(a0, a0, b1, b1);
    lemma_times_middle_swap(a1, a1, b0, b0);
    lemma_times_middle_swap(a1, a1, b1, b1);
    lemma_add_regroup4(pp, rr, ss, qq);
    lemma_add_regroup4(pp, qq, rr, ss);
    lemma_add_facts(pp, rr, plus(ss, qq));
}

/// The products of the entries of a turn `[[c, d], [-d, c]]`.
proof fn lemma_turn_entry_facts<T: Add<Output = T> + Sub<Output = T> + Mul<Output = T> + Zero + One>(c: T, d: T)
    requires
        commutative_ring::<T>(),
    ensures
        ({
            let o = T::spec_zero();
            let l = T::spec_one();
            let nd = minus(o, d);
            let cc = times(c, c);
            let dd = times(d, d);
            let cd = times(c, d);
            &&& times4(c, c, l, l) == cc && times4(l, c, c, l) == cc && times4(c, l, c, l) == cc
            &&& times4(d, nd, l, l) == minus(o, dd) && times4(l, d, nd, l) == minus(o, dd)
            &&& times4(nd, l, d, l) == minus(o, dd)
            &&& minus(o, minus(o, dd)) == dd
            &&& plus(dd, cc) == plus(cc, dd)
            &&& times(c, nd) == minus(o, cd) && times(nd, c) == minus(o, cd) && times(d, c) == cd
            &&& times(nd, nd) == dd && times(l, l) == l
            &&& plus(minus(o, cd), cd) == o && plus(cd, minus(o, cd)) == o
        }),
{
    let o = T::spec_zero();
    let l = T::spec_one();
    let nd = minus(o, d);
    let cc = times(c, c);
    let dd = times(d, d);
    let cd = times(c, d);
    lemma_mul_shuffle(l, c, l);
    lemma_mul_shuffle(c, l, l);
    lemma_mul_shuffle(l, d, l);
    lemma_mul_shuffle(d, l, l);
    lemma_mul_shuffle(l, l, l);
    lemma_mul_shuffle(nd, l, l);
    lemma_mul_shuffle(cc, l, l);
    lemma_mul_shuffle(times(d, nd), l, l);
    lemma_mul_shuffle(times(nd, d), l, l);
    lemma_mul_shuffle(d, c, l);
    lemma_neg_times(d, d);
    lemma_neg_times(d, c);
    lemma_neg_times_neg(d, d);
    lemma_neg_neg(dd);
    lemma_add_facts(dd, cc, o);
    lemma_add_facts(cd, o, o);
    lemma_add_facts(minus(o, cd), cd, o);
}

/// The determinant of a turn about the z axis is `c c + d d`.
#[verifier::spinoff_prover]
proof fn lemma_z_turn_determinant<T: Add<Output = T> + Sub<Output = T> + Mul<Output = T> + Zero + One>(c: T, d: T)
    requires
        commutative_ring::<T>(),
    ensures
        determinant(z_turn(c, d)) == plus(times(c, c), times(d, d)),
{
    let o = T::spec_zero();
    let l = T::spec_one();
    let nd = minus(o, d);
    lemma_turn_entry_facts(c, d);
    lemma_ring_zero(times(d, d));
    lemma_ring_zero(o);
    lemma_ring_zero(times(o, o));
    lemma_ring_zero(times3(o, o, o));
    lemma_ring_zero(times4(o, o, o, o));
    lemma_ring_zero(c);
    lemma_ring_zero(l);
    lemma_ring_zero(times(o, c));
    lemma_ring_zero(times3(o, c, l));
    lemma_ring_zero(times4(o, c, l, o));
    lemma_ring_zero(d);
    lemma_ring_zero(times(d, o));
    lemma_ring_zero(times3(d, o, l));
    lemma_ring_zero(times4(d, o, l, o));
    lemma_ring_zero(times3(o, c, o));
    lemma_ring_zero(times4(o, c, o, o));
    lemma_ring_zero(times3(d, o, o));
    lemma_ring_zero(times4(d, o, o, o));
    lemma_ring_zero(nd);
    lemma_ring_zero(times(o, nd));
    lemma_ring_zero(times3(o, nd, l));
    lemma_ring_zero(times4(o, nd, l, o));
    lemma_ring_zero(times(c, o));
    lemma_ring_zero(times3(c, o, l));
    lemma_ring_zero(times4(c, o, l, o));
    lemma_ring_zero(times3(o, nd, o));
    lemma_ring_zero(times4(o, nd, o, o));
    lemma_ring_zero(times3(c, o, o));
    lemma_ring_zero(times4(c, o, o, o));
    lemma_ring_zero(times(d, nd));
    lemma_ring_zero(times3(d, nd, o));
    lemma_ring_zero(times4(d, nd, o, o));
    lemma_ring_zero(times(c, c));
    lemma_ring_zero(times3(c, c, o));
    lemma_ring_zero(times4(c, c, o, o));
    lemma_ring_zero(times4(o, c, o, l));
    lemma_ring_zero(times4(d, o, o, l));
    lemma_ring_zero(times4(o, nd, o, l));
    lemma_ring_zero(times4(c, o, o, l));
    lemma_ring_zero(times3(d, nd, l));
    lemma_ring_zero(times4(d, nd, l, l));
    lemma_ring_zero(times3(c, c, l));
    lemma_ring_zero(times4(c, c, l, l));
}

/// The determinant of a turn about the x axis is `c c + d d`.
#[verifier::spinoff_prover]
proof fn lemma_x_turn_determinant<T: Add<Output = T> + Sub<Output = T> + Mul<Output = T> + Zero + One>(c: T, d: T)
    requires
        commutative_ring::<T>(),
    ensures
        determinant(x_turn(c, d)) == plus(times(c, c), times(d, d)),
{
    let o = T::spec_zero();
    let l = T::spec_one();
    let nd = minus(o, d);
    lemma_turn_entry_facts(c, d);
    lemma_ring_zero(times(d, d));
    lemma_ring_zero(o);
    lemma_ring_zero(d);
    lemma_ring_zero(nd);
    lemma_ring_zero(times(o, d));
    lemma_ring_zero(times3(o, d, nd));
    lemma_ring_zero(times4(o, d, nd, o));
    lemma_ring_zero(times(o, o));
    lemma_ring_zero(times3(o, o, nd));
    lemma_ring_zero(times4(o, o, nd, o));
    lemma_ring_zero(c);
    lemma_ring_zero(times(o, c));
    lemma_ring_zero(times3(o, c, c));
    lemma_ring_zero(times4(o, c, c, o));
    lemma_ring_zero(times3(o, o, c));
    lemma_ring_zero(times4(o, o, c, o));
    lemma_ring_zero(times3(o, c, o));
    lemma_ring_zero(times4(o, c, o, o));
    lemma_ring_zero(times3(o, d, o));
    lemma_ring_zero(times4(o, d, o, o));
    lemma_ring_zero(times3(o, o, o));
    lemma_ring_zero(times4(o, o, o, o));
    lemma_ring_zero(l);
    lemma_ring_zero(times(l, o));
    lemma_ring_zero(times3(l, o, c));
    lemma_ring_zero(times4(l, o, c, o));
    lemma_ring_zero(times(l, d));
    lemma_ring_zero(times3(l, d, o));
    lemma_ring_zero(times4(l, d, o, o));
    lemma_ring_zero(times3(l, o, nd));
    lemma_ring_zero(times4(l, o, nd, o));
    lemma_ring_zero(times(l, c));
    lemma_ring_zero(times3(l, c, o));
    lemma_ring_zero(times4(l, c, o, o));
    lemma_ring_zero(times4(o, c, o, l));
    lemma_ring_zero(times4(o, d, o, l));
    lemma_ring_zero(times4(o, o, nd, l));
    lemma_ring_zero(times3(l, d, nd));
    lemma_ring_zero(times4(l, d, nd, l));
    lemma_ring_zero(times4(o, o, c, l));
    lemma_ring_zero(times3(l, c, c));
    lemma_ring_zero(times4(l, c, c, l));
}

/// The determinant of a turn about the y axis is `c c + d d`.
#[verifier::spinoff_prover]
proof fn lemma_y_turn_determinant<T: Add<Output = T> + Sub<Output = T> + Mul<Output = T> + Zero + One>(c: T, d: T)
    requires
        commutative_ring::<T>(),
    ensures
        determinant(y_turn(c, d)) == plus(times(c, c), times(d, d)),
{
    let o = T::spec_zero();
    let l = T::spec_one();
    let nd = minus(o, d);
    lemma_turn_entry_facts(c, d);
    lemma_ring_zero(times(d, d));
    lemma_ring_zero(o);
    lemma_ring_zero(times(o, o));
    lemma_ring_zero(times3(o, o, o));
    lemma_ring_zero(times4(o, o, o, o));
    lemma_ring_zero(nd);
    lemma_ring_zero(times(nd, o));
    lemma_ring_zero(times3(nd, o, o));
    lemma_ring_zero(times4(nd, o, o, o));
    lemma_ring_zero(l);
    lemma_ring_zero(c);
    lemma_ring_zero(times(o, l));
    lemma_ring_zero(times3(o, l, c));
    lemma_ring_zero(times4(o, l, c, o));
    lemma_ring_zero(times3(o, o, c));
    lemma_ring_zero(times4(o, o, c, o));
    lemma_ring_zero(times(nd, l));
    lemma_ring_zero(times3(nd, l, o));
    lemma_ring_zero(times4(nd, l, o, o));
    lemma_ring_zero(d);
    lemma_ring_zero(times3(o, o, d));
    lemma_ring_zero(times4(o, o, d, o));
    lemma_ring_zero(times3(nd, o, d));
    lemma_ring_zero(times4(nd, o, d, o));
    lemma_ring_zero(times(c, o));
    lemma_ring_zero(times3(c, o, c));
    lemma_ring_zero(times4(c, o, c, o));
    lemma_ring_zero(times3(c, o, o));
    lemma_ring_zero(times4(c, o, o, o));
    lemma_ring_zero(times3(o, l, d));
    lemma_ring_zero(times4(o, l, d, o));
    lemma_ring_zero(times(c, l));
    lemma_ring_zero(times3(c, l, o));
    lemma_ring_zero(times4(c, l, o, o));
    lemma_ring_zero(times3(nd, l, d));
    lemma_ring_zero(times4(nd, l, d, l));
    lemma_ring_zero(times4(o, o, d, l));
    lemma_ring_zero(times4(nd, o, o, l));
    lemma_ring_zero(times4(c, o, o, l));
    lemma_ring_zero(times4(o, o, c, l));
    lemma_ring_zero(times3(c, l, c));
    lemma_ring_zero(times4(c, l, c, l));
}

/// `c c + d d == 1` for the cosine and sine terms of a rotation, given
/// `sin² + cos² == 1` at half its angle.
proof fn lemma_turn_norm<T: Add<Output = T> + Sub<Output = T> + Mul<Output = T> + Div<Output = T> + Zero + One + Trig>(t: T)
    requires
        commutative_ring::<T>(),
        ({
            let h = quot(t, plus(T::spec_one(), T::spec_one()));
            plus(times(h.spec_sin(), h.spec_sin()), times(h.spec_cos(), h.spec_cos())) == T::spec_one()
        }),
    ensures
        plus(times(turn_cos(t), turn_cos(t)), times(turn_sin(t), turn_sin(t))) == T::spec_one(),
{
    let l = T::spec_one();
    let h = quot(t, plus(l, l));
    let s = h.spec_sin();
    let k = h.spec_cos();
    lemma_half_angle_square(s, k);
    lemma_complex_norm_multiplies(k, s, k, s);
    lemma_add_facts(times(k, k), times(s, s), l);
    lemma_mul_shuffle(l, l, l);
}

/// Where `c c + d d == 1`, a turn about the z axis is orthogonal with determinant one.
proof fn lemma_z_turn_is_proper<T: Add<Output = T> + Sub<Output = T> + Mul<Output = T> + Zero + One>(c: T, d: T)
    requires
        commutative_ring::<T>(),
        plus(times(c, c), times(d, d)) == T::spec_one(),
    ensures
        mat_mul(z_turn(c, d), transpose(z_turn(c, d))) == mat_identity::<T>(),
        determinant(z_turn(c, d)) == T::spec_one(),
{
    lemma_turn_zero_facts(c, d);
    lemma_z_turn_determinant(c, d);
}

/// Where `c c + d d == 1`, a turn about the x axis is orthogonal with determinant one.
proof fn lemma_x_turn_is_proper<T: Add<Output = T> + Sub<Output = T> + Mul<Output = T> + Zero + One>(c: T, d: T)
    requires
        commutative_ring::<T>(),
        plus(times(c, c), times(d, d)) == T::spec_one(),
    ensures
        mat_mul(x_turn(c, d), transpose(x_turn(c, d))) == mat_identity::<T>(),
        determinant(x_turn(c, d)) == T::spec_one(),
{
    lemma_turn_zero_facts(c, d);
    lemma_x_turn_determinant(c, d);
}

/// Where `c c + d d == 1`, a turn about the y axis is orthogonal with determinant one.
proof fn lemma_y_turn_is_proper<T: Add<Output = T> + Sub<Output = T> + Mul<Output = T> + Zero + One>(c: T, d: T)
    requires
        commutative_ring::<T>(),
        plus(times(c, c), times(d, d)) == T::spec_one(),
    ensures
        mat_mul(y_turn(c, d), transpose(y_turn(c, d))) == mat_identity::<T>(),
        determinant(y_turn(c, d)) == T::spec_one(),
{
    lemma_turn_zero_facts(c, d);
    lemma_y_turn_determinant(c, d);
}

/// The facts about `0` for the entries of a turn and their products.
proof fn lemma_turn_zero_facts<T: Add<Output = T> + Sub<Output = T> + Mul<Output = T> + Zero + One>(c: T, d: T)
    requires
        commutative_ring::<T>(),
    ensures
        ({
            let o = T::spec_zero();
            let l = T::spec_one();
            let nd = minus(o, d);
            let cc = times(c, c);
            let dd = times(d, d);
            let cd = times(c, d);
            &&& times(c, nd) == minus(o, cd) && times(nd, c) == minus(o, cd) && times(d, c) == cd
            &&& times(nd, nd) == dd && times(l, l) == l
            &&& plus(minus(o, cd), cd) == o && plus(cd, minus(o, cd)) == o
            &&& plus(dd, cc) == plus(cc, dd)
            &&& forall|u: T| #[trigger] times(u, o) == o
            &&& forall|u: T| #[trigger] times(o, u) == o
            &&& forall|u: T| #[trigger] plus(u, o) == u
            &&& forall|u: T| #[trigger] plus(o, u) == u
        }),
{
    lemma_turn_entry_facts(c, d);
    assert forall|u: T| #[trigger] times(u, T::spec_zero()) == T::spec_zero() by {
        lemma_ring_zero(u);
    }
    assert forall|u: T| #[trigger] times(T::spec_zero(), u) == T::spec_zero() by {
        lemma_ring_zero(u);
    }
    assert forall|u: T| #[trigger] plus(u, T::spec_zero()) == u by {
        lemma_ring_zero(u);
    }
    assert forall|u: T| #[trigger] plus(T::spec_zero(), u) == u by {
        lemma_ring_zero(u);
    }
}

/// Given `sin² + cos² == 1` at half the angle, a rotation about the z axis is proper: it is
/// orthogonal (its product with its transpose is the identity) and its determinant is one.
pub proof fn lemma_z_rotation_is_proper<T: Add<Output = T> + Sub<Output = T> + Mul<Output = T> + Div<Output = T> + Zero + One + Trig>(t: T)
    requires
        commutative_ring::<T>(),
        ({
            let h = quot(t, plus(T::spec_one(), T::spec_one()));
            plus(times(h.spec_sin(), h.spec_sin()), times(h.spec_cos(), h.spec_cos())) == T::spec_one()
        }),
    ensures
        ({
            let r = mat_rotation(T::spec_zero(), T::spec_zero(), T::spec_one(), t);
            &&& mat_mul(r, transpose(r)) == mat_identity::<T>()
            &&& determinant(r) == T::spec_one()
        }),
{
    lemma_z_rotation_is_turn(t);
    lemma_turn_norm(t);
    lemma_z_turn_is_proper(turn_cos(t), turn_sin(t));
}

/// Given `sin² + cos² == 1` at half the angle, a rotation about the x axis is proper: it is
/// orthogonal and its determinant is one.
pub proof fn lemma_x_rotation_is_proper<T: Add<Output = T> + Sub<Output = T> + Mul<Output = T> + Div<Output = T> + Zero + One + Trig>(t: T)
    requires
        commutative_ring::<T>(),
        ({
            let h = quot(t, plus(T::spec_one(), T::spec_one()));
            plus(times(h.spec_sin(), h.spec_sin()), times(h.spec_cos(), h.spec_cos())) == T::spec_one()
        }),
    ensures
        ({
            let r = mat_rotation(T::spec_one(), T::spec_zero(), T::spec_zero(), t);
            &&& mat_mul(r, transpose(r)) == mat_identity::<T>()
            &&& determinant(r) == T::spec_one()
        }),
{
    lemma_x_rotation_is_turn(t);
    lemma_turn_norm(t);
    lemma_x_turn_is_proper(turn_cos(t), turn_sin(t));
}

/// Given `sin² + cos² == 1` at half the angle, a rotation about the y axis is proper: it is
/// orthogonal and its determinant is one.
pub proof fn lemma_y_rotation_is_proper<T: Add<Output = T> + Sub<Output = T> + Mul<Output = T> + Div<Output = T> + Zero + One + Trig>(t: T)
    requires
        commutative_ring::<T>(),
        ({
            let h = quot(t, plus(T::spec_one(), T::spec_one()));
            plus(times(h.spec_sin(), h.spec_sin()), times(h.spec_cos(), h.spec_cos())) == T::spec_one()
        }),
    ensures
        ({
            let r = mat_rotation(T::spec_zero(), T::spec_one(), T::spec_zero(), t);
            &&& mat_mul(r, transpose(r)) == mat_identity::<T>()
            &&& determinant(r) == T::spec_one()
        }),
{
    lemma_y_rotation_is_turn(t);
    lemma_turn_norm(t);
    lemma_y_turn_is_proper(turn_cos(t), turn_sin(t));
}

/// The rotation about the z axis by `t` turns the x axis towards the y axis: it maps the
/// vector `(1, 0, 0)` to `(cos t, sin t, 0)`, with `cos t` written `1 - 2 sin²(t/2)` and
/// `sin t` written `2 sin(t/2) cos(t/2)`, as the library computes them.
pub proof fn lemma_z_rotation_turns_x_axis<T: Add<Output = T> + Sub<Output = T> + Mul<Output = T> + Div<Output = T> + Zero + One + Trig>(t: T)
    requires
        commutative_ring::<T>(),
    ensures
        ({
            let m = mat_rotation(T::spec_zero(), T::spec_zero(), T::spec_one(), t);
            let o = T::spec_zero();
            let l = T::spec_one();
            &&& plus(plus(times(l, m.m11), times(o, m.m21)), times(o, m.m31)) == turn_cos(t)
            &&& plus(plus(times(l, m.m12), times(o, m.m22)), times(o, m.m32)) == turn_sin(t)
            &&& plus(plus(times(l, m.m13), times(o, m.m23)), times(o, m.m33)) == o
        }),
{
    let o = T::spec_zero();
    let l = T::spec_one();
    let c = turn_cos(t);
    let d = turn_sin(t);
    lemma_z_rotation_is_turn(t);
    lemma_ring_zero(o);
    lemma_ring_zero(l);
    lemma_ring_zero(c);
    lemma_ring_zero(d);
    lemma_ring_zero(minus(o, d));
    lemma_mul_shuffle(c, l, l);
    lemma_mul_shuffle(d, l, l);
    lemma_mul_shuffle(l, c, l);
    lemma_mul_shuffle(l, d, l);
    lemma_mul_shuffle(l, o, l);
}

} // verus!
