//! Laws of the transforms, stated on their matrix model.
//!
//! The scalar operators need not satisfy any algebraic law (floating-point ones do not),
//! so each law names the laws of `T` it rests on: `unital` (`0` and `1` behave as
//! identities and `0` absorbs), `mul_commutative`, `semiring` (the laws of a ring
//! without subtraction), or `commutative_ring` (see `signed_sum`).  The inverse is
//! treated in `laws_inverse`, the determinant in `laws_determinant`, rotations in
//! `laws_rotation`, the bounds of a transformed rectangle in `laws_bounds`, and what needs
//! division and an order in `laws_projective`.
use crate::matrix::{
    adjugate, determinant, dot4, mat_identity, mat_mul, mat_pre_scaled, mat_rotation, mat_scale,
    mat_translation, matrix, matrix_of_seq, row_major_seq, transpose, Matrix4,
};
use crate::num::{plus, quot, times, ApproxEq, One, Trig, Zero};
use crate::signed_sum::{commutative_ring, lemma_ring_zero};
use crate::transform3d::{affine3, entries_eq, is_2d_matrix, mat_projected_2d, Transform3D};
use core::ops::{Add, Div, Mul, Sub};
use vstd::prelude::*;
use vstd::std_specs::cmp::{PartialEqSpec, PartialOrdIs};

verus! {

/// `0` is a two-sided identity of `+`, `1` a two-sided identity of `*`, and `0` absorbs in `*`.
pub open spec fn unital<T: Add<Output = T> + Mul<Output = T> + Zero + One>() -> bool {
    let o = T::spec_zero();
    let l = T::spec_one();
    &&& forall|x: T| #[trigger] plus(x, o) == x
    &&& forall|x: T| #[trigger] plus(o, x) == x
    &&& forall|x: T| #[trigger] times(x, l) == x
    &&& forall|x: T| #[trigger] times(l, x) == x
    &&& forall|x: T| #[trigger] times(x, o) == o
    &&& forall|x: T| #[trigger] times(o, x) == o
}

/// `*` is commutative.
pub open spec fn mul_commutative<T: Mul<Output = T>>() -> bool {
    forall|x: T, y: T| #[trigger] times(x, y) == times(y, x)
}

/// `+` is associative and commutative, `*` is associative, and `*` distributes over `+`
/// on both sides.
#[verifier::opaque]
pub open spec fn semiring<T: Add<Output = T> + Mul<Output = T>>() -> bool {
    &&& forall|x: T, y: T, z: T| #[trigger] plus(plus(x, y), z) == plus(x, plus(y, z))
    &&& forall|x: T, y: T| #[trigger] plus(x, y) == plus(y, x)
    &&& forall|x: T, y: T, z: T| #[trigger] times(times(x, y), z) == times(x, times(y, z))
    &&& forall|x: T, y: T, z: T| #[trigger] times(x, plus(y, z)) == plus(times(x, y), times(x, z))
    &&& forall|x: T, y: T, z: T| #[trigger] times(plus(x, y), z) == plus(times(x, z), times(y, z))
}

/// The identity is neutral for the product, on both sides: composing a transform with
/// the identity, before or after it, gives the transform back.
pub proof fn lemma_identity_neutral<T: Add<Output = T> + Mul<Output = T> + Zero + One>(m: Matrix4<T>)
    requires
        unital::<T>(),
    ensures
        mat_mul(m, mat_identity::<T>()) == m,
        mat_mul(mat_identity::<T>(), m) == m,
{
}

/// Composing two translations translates by the sum of their offsets.
pub proof fn lemma_translations_compose<T: Add<Output = T> + Mul<Output = T> + Zero + One>(
    x1: T,
    y1: T,
    z1: T,
    x2: T,
    y2: T,
    z2: T,
)
    requires
        unital::<T>(),
    ensures
        mat_mul(mat_translation(x1, y1, z1), mat_translation(x2, y2, z2)) == mat_translation(
            plus(x1, x2),
            plus(y1, y2),
            plus(z1, z2),
        ),
{
}

/// Composing two scales scales by the product of their factors.
pub proof fn lemma_scales_compose<T: Add<Output = T> + Mul<Output = T> + Zero + One>(
    x1: T,
    y1: T,
    z1: T,
    x2: T,
    y2: T,
    z2: T,
)
    requires
        unital::<T>(),
    ensures
        mat_mul(mat_scale(x1, y1, z1), mat_scale(x2, y2, z2)) == mat_scale(
            times(x1, x2),
            times(y1, y2),
            times(z1, z2),
        ),
{
}

/// Scaling the rows (`pre_scale`) is the product with the scale matrix on the left
/// (`pre_transform` by `create_scale`).
pub proof fn lemma_pre_scale_is_pre_transform<T: Add<Output = T> + Mul<Output = T> + Zero + One>(
    m: Matrix4<T>,
    x: T,
    y: T,
    z: T,
)
    requires
        unital::<T>(),
        mul_commutative::<T>(),
    ensures
        mat_mul(mat_scale(x, y, z), m) == mat_pre_scaled(m, x, y, z),
{
}

/// Reading a matrix out as its 16 entries in row-major order (`to_row_major_array`) and
/// building a matrix from them (`from_array`) give back the same matrix, and the same
/// entries.
pub proof fn lemma_row_major_round_trip<T>(m: Matrix4<T>, s: Seq<T>)
    requires
        s.len() == 16,
    ensures
        matrix_of_seq(row_major_seq(m)) == m,
        row_major_seq(matrix_of_seq(s)) == s,
{
    assert(row_major_seq(matrix_of_seq(s)) =~= s);
}

/// Transposing twice gives the matrix back; the column-major entries of a matrix
/// (`to_column_major_array`) are the row-major entries of its transpose.
pub proof fn lemma_transpose_involutive<T>(m: Matrix4<T>)
    ensures
        transpose(transpose(m)) == m,
        matrix_of_seq(row_major_seq(transpose(m))) == transpose(m),
{
}

/// A matrix given by its columns (`column_major`) is the transpose of the matrix given
/// by the same numbers as rows (`row_major`).
pub proof fn lemma_column_major_is_transpose<T>(
    a11: T, a12: T, a13: T, a14: T,
    a21: T, a22: T, a23: T, a24: T,
    a31: T, a32: T, a33: T, a34: T,
    a41: T, a42: T, a43: T, a44: T,
)
    ensures
        matrix(
            a11, a21, a31, a41,
            a12, a22, a32, a42,
            a13, a23, a33, a43,
            a14, a24, a34, a44,
        ) == transpose(
            matrix(
                a11, a12, a13, a14,
                a21, a22, a23, a24,
                a31, a32, a33, a34,
                a41, a42, a43, a44,
            ),
        ),
{
}

/// `((a + b) + c) + d`
pub open spec fn sum4<T: Add<Output = T>>(a: T, b: T, c: T, d: T) -> T {
    plus(plus(plus(a, b), c), d)
}

/// `(a + b) + (c + d) == (a + c) + (b + d)`
proof fn lemma_swap_middle<T: Add<Output = T> + Mul<Output = T>>(a: T, b: T, c: T, d: T)
    requires
        semiring::<T>(),
    ensures
        plus(plus(a, b), plus(c, d)) == plus(plus(a, c), plus(b, d)),
{
    reveal(semiring);
    assert(plus(plus(a, b), plus(c, d)) == plus(a, plus(b, plus(c, d))));
    assert(plus(b, plus(c, d)) == plus(plus(b, c), d));
    assert(plus(b, c) == plus(c, b));
    assert(plus(plus(c, b), d) == plus(c, plus(b, d)));
    assert(plus(a, plus(c, plus(b, d))) == plus(plus(a, c), plus(b, d)));
}

/// Two sums of four terms add term by term.
proof fn lemma_sum4_add<T: Add<Output = T> + Mul<Output = T>>(
    a1: T, a2: T, a3: T, a4: T,
    b1: T, b2: T, b3: T, b4: T,
)
    requires
        semiring::<T>(),
    ensures
        plus(sum4(a1, a2, a3, a4), sum4(b1, b2, b3, b4)) == sum4(
            plus(a1, b1),
            plus(a2, b2),
            plus(a3, b3),
            plus(a4, b4),
        ),
{
    lemma_swap_middle(a1, a2, b1, b2);
    lemma_swap_middle(plus(a1, a2), a3, plus(b1, b2), b3);
    lemma_swap_middle(plus(plus(a1, a2), a3), a4, plus(plus(b1, b2), b3), b4);
}

/// A 4 by 4 array of terms summed row by row equals it summed column by column.
proof fn lemma_sum_interchange<T: Add<Output = T> + Mul<Output = T>>(
    t11: T, t12: T, t13: T, t14: T,
    t21: T, t22: T, t23: T, t24: T,
    t31: T, t32: T, t33: T, t34: T,
    t41: T, t42: T, t43: T, t44: T,
)
    requires
        semiring::<T>(),
    ensures
        sum4(
            sum4(t11, t12, t13, t14),
            sum4(t21, t22, t23, t24),
            sum4(t31, t32, t33, t34),
            sum4(t41, t42, t43, t44),
        ) == sum4(
            sum4(t11, t21, t31, t41),
            sum4(t12, t22, t32, t42),
            sum4(t13, t23, t33, t43),
            sum4(t14, t24, t34, t44),
        ),
{
    lemma_sum4_add(t11, t12, t13, t14, t21, t22, t23, t24);
    lemma_sum4_add(
        plus(t11, t21), plus(t12, t22), plus(t13, t23), plus(t14, t24),
        t31, t32, t33, t34,
    );
    lemma_sum4_add(
        plus(plus(t11, t21), t31), plus(plus(t12, t22), t32), plus(plus(t13, t23), t33), plus(plus(t14, t24), t34),
        t41, t42, t43, t44,
    );
}

/// `(x * y) * z == x * (y * z)`
proof fn lemma_times_assoc<T: Add<Output = T> + Mul<Output = T>>(x: T, y: T, z: T)
    requires
        semiring::<T>(),
    ensures
        times(times(x, y), z) == times(x, times(y, z)),
{
    reveal(semiring);
}

/// `(a1 + a2 + a3 + a4) * c` distributes.
proof fn lemma_sum4_times<T: Add<Output = T> + Mul<Output = T>>(a1: T, a2: T, a3: T, a4: T, c: T)
    requires
        semiring::<T>(),
    ensures
        times(sum4(a1, a2, a3, a4), c) == sum4(times(a1, c), times(a2, c), times(a3, c), times(a4, c)),
{
    reveal(semiring);
    assert(times(sum4(a1, a2, a3, a4), c) == plus(times(plus(plus(a1, a2), a3), c), times(a4, c)));
    assert(times(plus(plus(a1, a2), a3), c) == plus(times(plus(a1, a2), c), times(a3, c)));
    assert(times(plus(a1, a2), c) == plus(times(a1, c), times(a2, c)));
}

/// `c * (a1 + a2 + a3 + a4)` distributes.
proof fn lemma_times_sum4<T: Add<Output = T> + Mul<Output = T>>(c: T, a1: T, a2: T, a3: T, a4: T)
    requires
        semiring::<T>(),
    ensures
        times(c, sum4(a1, a2, a3, a4)) == sum4(times(c, a1), times(c, a2), times(c, a3), times(c, a4)),
{
    reveal(semiring);
    assert(times(c, sum4(a1, a2, a3, a4)) == plus(times(c, plus(plus(a1, a2), a3)), times(c, a4)));
    assert(times(c, plus(plus(a1, a2), a3)) == plus(times(c, plus(a1, a2)), times(c, a3)));
    assert(times(c, plus(a1, a2)) == plus(times(c, a1), times(c, a2)));
}

/// One entry of `(A B) C` equals the same entry of `A (B C)`: row `a` of `A`, the whole of
/// `B`, and column `c` of `C`.
proof fn lemma_entry_associative<T: Add<Output = T> + Mul<Output = T>>(
    a1: T, a2: T, a3: T, a4: T,
    b: Matrix4<T>,
    c1: T, c2: T, c3: T, c4: T,
)
    requires
        semiring::<T>(),
    ensures
        dot4(
            dot4(a1, a2, a3, a4, b.m11, b.m21, b.m31, b.m41),
            dot4(a1, a2, a3, a4, b.m12, b.m22, b.m32, b.m42),
            dot4(a1, a2, a3, a4, b.m13, b.m23, b.m33, b.m43),
            dot4(a1, a2, a3, a4, b.m14, b.m24, b.m34, b.m44),
            c1, c2, c3, c4,
        ) == dot4(
            a1, a2, a3, a4,
            dot4(b.m11, b.m12, b.m13, b.m14, c1, c2, c3, c4),
            dot4(b.m21, b.m22, b.m23, b.m24, c1, c2, c3, c4),
            dot4(b.m31, b.m32, b.m33, b.m34, c1, c2, c3, c4),
            dot4(b.m41, b.m42, b.m43, b.m44, c1, c2, c3, c4),
        ),
{
    // left side: each (row a . column k of B) * c_k, distributed: term (l, k) is (a_l b_lk) c_k
    lemma_sum4_times(times(a1, b.m11), times(a2, b.m21), times(a3, b.m31), times(a4, b.m41), c1);
    lemma_sum4_times(times(a1, b.m12), times(a2, b.m22), times(a3, b.m32), times(a4, b.m42), c2);
    lemma_sum4_times(times(a1, b.m13), times(a2, b.m23), times(a3, b.m33), times(a4, b.m43), c3);
    lemma_sum4_times(times(a1, b.m14), times(a2, b.m24), times(a3, b.m34), times(a4, b.m44), c4);
    // (a_l b_lk) c_k == a_l (b_lk c_k)
    lemma_times_assoc(a1, b.m11, c1);
    lemma_times_assoc(a1, b.m12, c2);
    lemma_times_assoc(a1, b.m13, c3);
    lemma_times_assoc(a1, b.m14, c4);
    lemma_times_assoc(a2, b.m21, c1);
    lemma_times_assoc(a2, b.m22, c2);
    lemma_times_assoc(a2, b.m23, c3);
    lemma_times_assoc(a2, b.m24, c4);
    lemma_times_assoc(a3, b.m31, c1);
    lemma_times_assoc(a3, b.m32, c2);
    lemma_times_assoc(a3, b.m33, c3);
    lemma_times_assoc(a3, b.m34, c4);
    lemma_times_assoc(a4, b.m41, c1);
    lemma_times_assoc(a4, b.m42, c2);
    lemma_times_assoc(a4, b.m43, c3);
    lemma_times_assoc(a4, b.m44, c4);
    // right side: a_l * (row l of B . c), distributed: term (l, k) is a_l (b_lk c_k)
    lemma_times_sum4(a1, times(b.m11, c1), times(b.m12, c2), times(b.m13, c3), times(b.m14, c4));
    lemma_times_sum4(a2, times(b.m21, c1), times(b.m22, c2), times(b.m23, c3), times(b.m24, c4));
    lemma_times_sum4(a3, times(b.m31, c1), times(b.m32, c2), times(b.m33, c3), times(b.m34, c4));
    lemma_times_sum4(a4, times(b.m41, c1), times(b.m42, c2), times(b.m43, c3), times(b.m44, c4));
    lemma_sum_interchange(
        times(a1, times(b.m11, c1)), times(a1, times(b.m12, c2)), times(a1, times(b.m13, c3)), times(a1, times(b.m14, c4)),
        times(a2, times(b.m21, c1)), times(a2, times(b.m22, c2)), times(a2, times(b.m23, c3)), times(a2, times(b.m24, c4)),
        times(a3, times(b.m31, c1)), times(a3, times(b.m32, c2)), times(a3, times(b.m33, c3)), times(a3, times(b.m34, c4)),
        times(a4, times(b.m41, c1)), times(a4, times(b.m42, c2)), times(a4, times(b.m43, c3)), times(a4, times(b.m44, c4)),
    );
}

/// The product of matrices is associative: applying `a`, then `b`, then `c` gives the same
/// transform however the three are grouped.
pub proof fn lemma_mat_mul_associative<T: Add<Output = T> + Mul<Output = T>>(
    a: Matrix4<T>,
    b: Matrix4<T>,
    c: Matrix4<T>,
)
    requires
        semiring::<T>(),
    ensures
        mat_mul(mat_mul(a, b), c) == mat_mul(a, mat_mul(b, c)),
{
    lemma_entry_associative(a.m11, a.m12, a.m13, a.m14, b, c.m11, c.m21, c.m31, c.m41);
    lemma_entry_associative(a.m11, a.m12, a.m13, a.m14, b, c.m12, c.m22, c.m32, c.m42);
    lemma_entry_associative(a.m11, a.m12, a.m13, a.m14, b, c.m13, c.m23, c.m33, c.m43);
    lemma_entry_associative(a.m11, a.m12, a.m13, a.m14, b, c.m14, c.m24, c.m34, c.m44);
    lemma_entry_associative(a.m21, a.m22, a.m23, a.m24, b, c.m11, c.m21, c.m31, c.m41);
    lemma_entry_associative(a.m21, a.m22, a.m23, a.m24, b, c.m12, c.m22, c.m32, c.m42);
    lemma_entry_associative(a.m21, a.m22, a.m23, a.m24, b, c.m13, c.m23, c.m33, c.m43);
    lemma_entry_associative(a.m21, a.m22, a.m23, a.m24, b, c.m14, c.m24, c.m34, c.m44);
    lemma_entry_associative(a.m31, a.m32, a.m33, a.m34, b, c.m11, c.m21, c.m31, c.m41);
    lemma_entry_associative(a.m31, a.m32, a.m33, a.m34, b, c.m12, c.m22, c.m32, c.m42);
    lemma_entry_associative(a.m31, a.m32, a.m33, a.m34, b, c.m13, c.m23, c.m33, c.m43);
    lemma_entry_associative(a.m31, a.m32, a.m33, a.m34, b, c.m14, c.m24, c.m34, c.m44);
    lemma_entry_associative(a.m41, a.m42, a.m43, a.m44, b, c.m11, c.m21, c.m31, c.m41);
    lemma_entry_associative(a.m41, a.m42, a.m43, a.m44, b, c.m12, c.m22, c.m32, c.m42);
    lemma_entry_associative(a.m41, a.m42, a.m43, a.m44, b, c.m13, c.m23, c.m33, c.m43);
    lemma_entry_associative(a.m41, a.m42, a.m43, a.m44, b, c.m14, c.m24, c.m34, c.m44);
}

/// Transforming a point by the product `a * b` (`a` then `b`) gives, in homogeneous
/// coordinates, the image under `b` of the point's image under `a`.
pub proof fn lemma_point_image_composes<T: Add<Output = T> + Mul<Output = T> + Zero + One>(
    a: Matrix4<T>,
    b: Matrix4<T>,
    px: T,
    py: T,
    pz: T,
)
    requires
        semiring::<T>(),
        unital::<T>(),
    ensures
        ({
            let ab = mat_mul(a, b);
            let h1 = affine3(px, py, pz, a.m11, a.m21, a.m31, a.m41);
            let h2 = affine3(px, py, pz, a.m12, a.m22, a.m32, a.m42);
            let h3 = affine3(px, py, pz, a.m13, a.m23, a.m33, a.m43);
            let h4 = affine3(px, py, pz, a.m14, a.m24, a.m34, a.m44);
            &&& affine3(px, py, pz, ab.m11, ab.m21, ab.m31, ab.m41) == dot4(h1, h2, h3, h4, b.m11, b.m21, b.m31, b.m41)
            &&& affine3(px, py, pz, ab.m12, ab.m22, ab.m32, ab.m42) == dot4(h1, h2, h3, h4, b.m12, b.m22, b.m32, b.m42)
            &&& affine3(px, py, pz, ab.m13, ab.m23, ab.m33, ab.m43) == dot4(h1, h2, h3, h4, b.m13, b.m23, b.m33, b.m43)
            &&& affine3(px, py, pz, ab.m14, ab.m24, ab.m34, ab.m44) == dot4(h1, h2, h3, h4, b.m14, b.m24, b.m34, b.m44)
        }),
{
    let l = T::spec_one();
    let ab = mat_mul(a, b);
    // a point is the row vector (px py pz 1): its image is a product with that row
    lemma_entry_associative(px, py, pz, l, a, b.m11, b.m21, b.m31, b.m41);
    lemma_entry_associative(px, py, pz, l, a, b.m12, b.m22, b.m32, b.m42);
    lemma_entry_associative(px, py, pz, l, a, b.m13, b.m23, b.m33, b.m43);
    lemma_entry_associative(px, py, pz, l, a, b.m14, b.m24, b.m34, b.m44);
    assert(affine3(px, py, pz, ab.m11, ab.m21, ab.m31, ab.m41) == dot4(px, py, pz, l, ab.m11, ab.m21, ab.m31, ab.m41));
    assert(affine3(px, py, pz, ab.m12, ab.m22, ab.m32, ab.m42) == dot4(px, py, pz, l, ab.m12, ab.m22, ab.m32, ab.m42));
    assert(affine3(px, py, pz, ab.m13, ab.m23, ab.m33, ab.m43) == dot4(px, py, pz, l, ab.m13, ab.m23, ab.m33, ab.m43));
    assert(affine3(px, py, pz, ab.m14, ab.m24, ab.m34, ab.m44) == dot4(px, py, pz, l, ab.m14, ab.m24, ab.m34, ab.m44));
    assert(affine3(px, py, pz, a.m11, a.m21, a.m31, a.m41) == dot4(px, py, pz, l, a.m11, a.m21, a.m31, a.m41));
    assert(affine3(px, py, pz, a.m12, a.m22, a.m32, a.m42) == dot4(px, py, pz, l, a.m12, a.m22, a.m32, a.m42));
    assert(affine3(px, py, pz, a.m13, a.m23, a.m33, a.m43) == dot4(px, py, pz, l, a.m13, a.m23, a.m33, a.m43));
    assert(affine3(px, py, pz, a.m14, a.m24, a.m34, a.m44) == dot4(px, py, pz, l, a.m14, a.m24, a.m34, a.m44));
}

/// A translation moves points but leaves vectors unchanged: the linear part (upper-left
/// 3 by 3 block) of a translation is the identity.
pub proof fn lemma_translation_keeps_vectors<T: Add<Output = T> + Mul<Output = T> + Zero + One>(
    x: T,
    y: T,
    z: T,
    vx: T,
    vy: T,
    vz: T,
)
    requires
        unital::<T>(),
    ensures
        ({
            let m = mat_translation(x, y, z);
            &&& plus(plus(times(vx, m.m11), times(vy, m.m21)), times(vz, m.m31)) == vx
            &&& plus(plus(times(vx, m.m12), times(vy, m.m22)), times(vz, m.m32)) == vy
            &&& plus(plus(times(vx, m.m13), times(vy, m.m23)), times(vz, m.m33)) == vz
            &&& plus(times(vx, m.m11), times(vy, m.m21)) == vx
            &&& plus(times(vx, m.m12), times(vy, m.m22)) == vy
        }),
{
}

/// Where `==` on `T` is reflexive, the identity is a 2d transform and is the identity.
pub proof fn lemma_identity_is_2d<T: Zero + One + PartialEq>()
    requires
        forall|x: T| #[trigger] x.eq_spec(&x),
    ensures
        is_2d_matrix(mat_identity::<T>()),
        entries_eq(mat_identity::<T>(), mat_identity::<T>()),
{
    assert(T::spec_zero().eq_spec(&T::spec_zero()));
    assert(T::spec_one().eq_spec(&T::spec_one()));
}

/// A rotation around the Z axis is a 2d transform, whatever the angle: it leaves the
/// third row and column, and the fourth column, as in the identity.
pub proof fn lemma_z_rotation_is_2d<T: Add<Output = T> + Sub<Output = T> + Mul<Output = T> + Div<Output = T> + Zero + One + Trig + PartialEq>(
    theta: T,
)
    requires
        commutative_ring::<T>(),
        forall|x: T| #[trigger] x.eq_spec(&x),
    ensures
        is_2d_matrix(mat_rotation(T::spec_zero(), T::spec_zero(), T::spec_one(), theta)),
{
    let o = T::spec_zero();
    let l = T::spec_one();
    let two = plus(l, l);
    let half = quot(theta, two);
    let sc = times(half.spec_sin(), half.spec_cos());
    let sq = times(half.spec_sin(), half.spec_sin());
    lemma_ring_zero(o);
    lemma_ring_zero(sq);
    lemma_ring_zero(sc);
    lemma_ring_zero(two);
    lemma_ring_zero(l);
    lemma_ring_zero(times(o, l));
    let r = mat_rotation(o, o, l, theta);
    assert(r.m31 == o);
    assert(r.m32 == o);
    assert(r.m13 == o);
    assert(r.m23 == o);
    assert(r.m33 == l);
}

/// The back face is never visible through a singular transform: with a zero determinant
/// the product that `is_backface_visible` tests is zero, which is not below zero.
pub proof fn lemma_singular_backface_hidden<T: Add<Output = T> + Sub<Output = T> + Mul<Output = T> + Zero + One + PartialOrd>(
    m: Matrix4<T>,
)
    requires
        commutative_ring::<T>(),
        !T::spec_zero().is_lt(&T::spec_zero()),
        determinant(m) == T::spec_zero(),
    ensures
        !times(adjugate(m).m33, determinant(m)).is_lt(&T::spec_zero()),
{
    lemma_ring_zero(adjugate(m).m33);
}

/// Where `==` on `T` is equality and `0 != 1`, the 2d projection of a transform is a 2d
/// transform exactly when `m14` and `m24` are zero and `m44` is not; whatever `m`, the
/// projection has the third row and column of the identity.
pub proof fn lemma_projected_2d_is_2d<T: Mul<Output = T> + Div<Output = T> + Zero + One + PartialEq>(m: Matrix4<T>)
    requires
        forall|x: T, y: T| #[trigger] x.eq_spec(&y) <==> x == y,
        T::spec_zero() != T::spec_one(),
    ensures
        is_2d_matrix(mat_projected_2d(m)) <==> (m.m14 == T::spec_zero() && m.m24 == T::spec_zero() && m.m44
            != T::spec_zero()),
        ({
            let r = mat_projected_2d(m);
            let o = T::spec_zero();
            &&& r.m13 == o && r.m23 == o && r.m31 == o && r.m32 == o && r.m34 == o && r.m43 == o
            &&& r.m33 == T::spec_one()
        }),
{
    let o = T::spec_zero();
    let l = T::spec_one();
    let r = mat_projected_2d(m);
    assert(o.eq_spec(&o));
    assert(l.eq_spec(&l));
    assert(!o.eq_spec(&l));
    assert(!l.eq_spec(&o));
    assert(m.m14.eq_spec(&o) <==> m.m14 == o);
    assert(m.m24.eq_spec(&o) <==> m.m24 == o);
    assert(m.m44.eq_spec(&o) <==> m.m44 == o);
    assert(m.m44.eq_spec(&l) <==> m.m44 == l);
    assert(r.m44.eq_spec(&l) <==> r.m44 == l);
}

/// Where `==` on `T` is reflexive, projecting to 2d twice is projecting once: the first
/// projection leaves nothing for the second to change.
pub proof fn lemma_projected_2d_idempotent<T: Mul<Output = T> + Div<Output = T> + Zero + One + PartialEq>(m: Matrix4<T>)
    requires
        forall|x: T| #[trigger] x.eq_spec(&x),
    ensures
        mat_projected_2d(mat_projected_2d(m)) == mat_projected_2d(m),
{
    assert(T::spec_one().eq_spec(&T::spec_one()));
}

/// Where `==` on `T` is equality, two transforms are `==` exactly when all sixteen of their
/// entries are equal: a transform equals no transform that differs from it in any entry
/// (a translation along y is not the identity, for instance).
pub proof fn lemma_eq_is_entrywise<T: PartialEq, Src, Dst>(a: Transform3D<T, Src, Dst>, b: Transform3D<T, Src, Dst>)
    requires
        forall|x: T, y: T| #[trigger] x.eq_spec(&y) <==> x == y,
    ensures
        a.eq_spec(&b) <==> (a.m11 == b.m11 && a.m12 == b.m12 && a.m13 == b.m13 && a.m14 == b.m14 && a.m21 == b.m21 && a.m22 == b.m22 && a.m23 == b.m23 && a.m24 == b.m24 && a.m31 == b.m31 && a.m32 == b.m32 && a.m33 == b.m33 && a.m34 == b.m34 && a.m41 == b.m41 && a.m42 == b.m42 && a.m43 == b.m43 && a.m44 == b.m44),
        a.eq_spec(&b) <==> a@ == b@,
{
}

/// Two transforms are approximately equal within `eps` exactly when each of their sixteen
/// entries is approximately equal to the other's within `eps`.
pub proof fn lemma_approx_eq_is_entrywise<T: ApproxEq<T>, Src, Dst>(
    a: Transform3D<T, Src, Dst>,
    b: Transform3D<T, Src, Dst>,
    eps: T,
)
    ensures
        a.spec_approx_eq_eps(&b, &eps) <==> ({
            &&& a.m11.spec_approx_eq_eps(&b.m11, &eps)
            &&& a.m12.spec_approx_eq_eps(&b.m12, &eps)
            &&& a.m13.spec_approx_eq_eps(&b.m13, &eps)
            &&& a.m14.spec_approx_eq_eps(&b.m14, &eps)
            &&& a.m21.spec_approx_eq_eps(&b.m21, &eps)
            &&& a.m22.spec_approx_eq_eps(&b.m22, &eps)
            &&& a.m23.spec_approx_eq_eps(&b.m23, &eps)
            &&& a.m24.spec_approx_eq_eps(&b.m24, &eps)
            &&& a.m31.spec_approx_eq_eps(&b.m31, &eps)
            &&& a.m32.spec_approx_eq_eps(&b.m32, &eps)
            &&& a.m33.spec_approx_eq_eps(&b.m33, &eps)
            &&& a.m34.spec_approx_eq_eps(&b.m34, &eps)
            &&& a.m41.spec_approx_eq_eps(&b.m41, &eps)
            &&& a.m42.spec_approx_eq_eps(&b.m42, &eps)
            &&& a.m43.spec_approx_eq_eps(&b.m43, &eps)
            &&& a.m44.spec_approx_eq_eps(&b.m44, &eps)
        }),
{
}

/// Where `==` on `T` is equality, a transform is 2d exactly when its third row and column
/// and its fourth column are those of the identity: `m13`, `m14`, `m23`, `m24`, `m31`,
/// `m32`, `m34` and `m43` are zero and `m33` and `m44` are one.
pub proof fn lemma_2d_entries<T: Zero + One + PartialEq>(m: Matrix4<T>)
    requires
        forall|x: T, y: T| #[trigger] x.eq_spec(&y) <==> x == y,
    ensures
        is_2d_matrix(m) <==> ({
            let o = T::spec_zero();
            let l = T::spec_one();
            &&& m.m13 == o && m.m14 == o && m.m23 == o && m.m24 == o
            &&& m.m31 == o && m.m32 == o && m.m34 == o && m.m43 == o
            &&& m.m33 == l && m.m44 == l
        }),
{
    let o = T::spec_zero();
    let l = T::spec_one();
    assert(m.m13.eq_spec(&o) <==> m.m13 == o);
    assert(m.m14.eq_spec(&o) <==> m.m14 == o);
    assert(m.m23.eq_spec(&o) <==> m.m23 == o);
    assert(m.m24.eq_spec(&o) <==> m.m24 == o);
    assert(m.m31.eq_spec(&o) <==> m.m31 == o);
    assert(m.m32.eq_spec(&o) <==> m.m32 == o);
    assert(m.m34.eq_spec(&o) <==> m.m34 == o);
    assert(m.m43.eq_spec(&o) <==> m.m43 == o);
    assert(m.m33.eq_spec(&l) <==> m.m33 == l);
    assert(m.m44.eq_spec(&l) <==> m.m44 == l);
}

/// Where `==` on `T` is equality, projecting to 2d resets the third row and column to
/// those of the identity.  Unless `m14` and `m24` are zero and `m44` is neither zero nor
/// one, it changes nothing else: `m11`, `m12`, `m14`, `m21`, `m22`, `m24`, `m41`, `m42` and
/// `m44` are kept.  Otherwise `m14` and `m24` stay zero, `m44` becomes one and the other
/// six are multiplied by `1 / m44`.
pub proof fn lemma_projected_2d_entries<T: Mul<Output = T> + Div<Output = T> + Zero + One + PartialEq>(m: Matrix4<T>)
    requires
        forall|x: T, y: T| #[trigger] x.eq_spec(&y) <==> x == y,
    ensures
        ({
            let o = T::spec_zero();
            let l = T::spec_one();
            let r = mat_projected_2d(m);
            let normalizes = m.m14 == o && m.m24 == o && m.m44 != o && m.m44 != l;
            &&& r.m13 == o && r.m23 == o && r.m31 == o && r.m32 == o && r.m34 == o && r.m43 == o && r.m33 == l
            &&& !normalizes ==> {
                &&& r.m11 == m.m11 && r.m12 == m.m12 && r.m14 == m.m14
                &&& r.m21 == m.m21 && r.m22 == m.m22 && r.m24 == m.m24
                &&& r.m41 == m.m41 && r.m42 == m.m42 && r.m44 == m.m44
            }
            &&& normalizes ==> {
                let s = quot(l, m.m44);
                &&& r.m11 == times(m.m11, s) && r.m12 == times(m.m12, s) && r.m14 == o
                &&& r.m21 == times(m.m21, s) && r.m22 == times(m.m22, s) && r.m24 == o
                &&& r.m41 == times(m.m41, s) && r.m42 == times(m.m42, s) && r.m44 == l
            }
        }),
{
    let o = T::spec_zero();
    let l = T::spec_one();
    assert(m.m14.eq_spec(&o) <==> m.m14 == o);
    assert(m.m24.eq_spec(&o) <==> m.m24 == o);
    assert(m.m44.eq_spec(&o) <==> m.m44 == o);
    assert(m.m44.eq_spec(&l) <==> m.m44 == l);
}

} // verus!
