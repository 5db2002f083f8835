//! The mathematical model of a transform: a 4 by 4 matrix of scalars, and the
//! operations of the library stated on it.
//!
//! Every formula here is evaluated in the same order as the library's code
//! evaluates it: the scalar type's `+` and `*` need not be associative or
//! commutative (floating-point ones are not).
use crate::num::{
    minus, negated, plus, quot, times, times3, times3_defined, times4, times4_defined, One, Trig,
    Zero,
};
use core::cmp::PartialEq;
use core::ops::{Add, Div, Mul, Neg, Sub};
use vstd::prelude::*;
use vstd::std_specs::cmp::PartialEqSpec;
use vstd::std_specs::ops::{AddSpec, DivSpec, MulSpec, NegSpec, SubSpec};

verus! {

/// A 4 by 4 matrix in row-major order: `mij` is the entry of row `i` and column `j`.
/// Row vectors are transformed by multiplying them on the left: `v * M`.
pub struct Matrix4<T> {
    pub m11: T,
    pub m12: T,
    pub m13: T,
    pub m14: T,
    pub m21: T,
    pub m22: T,
    pub m23: T,
    pub m24: T,
    pub m31: T,
    pub m32: T,
    pub m33: T,
    pub m34: T,
    pub m41: T,
    pub m42: T,
    pub m43: T,
    pub m44: T,
}

/// The matrix with rows `(m11 m12 m13 m14)`, ..., `(m41 m42 m43 m44)`.
pub open spec fn matrix<T>(
    m11: T, m12: T, m13: T, m14: T,
    m21: T, m22: T, m23: T, m24: T,
    m31: T, m32: T, m33: T, m34: T,
    m41: T, m42: T, m43: T, m44: T,
) -> Matrix4<T> {
    Matrix4 { m11, m12, m13, m14, m21, m22, m23, m24, m31, m32, m33, m34, m41, m42, m43, m44 }
}

/// The transpose: rows become columns.
pub open spec fn transpose<T>(m: Matrix4<T>) -> Matrix4<T> {
    matrix(
        m.m11, m.m21, m.m31, m.m41,
        m.m12, m.m22, m.m32, m.m42,
        m.m13, m.m23, m.m33, m.m43,
        m.m14, m.m24, m.m34, m.m44,
    )
}

/// The 16 entries in row-major order (the order of the transform's memory layout).
pub open spec fn row_major_seq<T>(m: Matrix4<T>) -> Seq<T> {
    seq![
        m.m11, m.m12, m.m13, m.m14,
        m.m21, m.m22, m.m23, m.m24,
        m.m31, m.m32, m.m33, m.m34,
        m.m41, m.m42, m.m43, m.m44,
    ]
}

/// The matrix whose entries, in row-major order, are the first 16 of `s`.
pub open spec fn matrix_of_seq<T>(s: Seq<T>) -> Matrix4<T> {
    matrix(
        s[0], s[1], s[2], s[3],
        s[4], s[5], s[6], s[7],
        s[8], s[9], s[10], s[11],
        s[12], s[13], s[14], s[15],
    )
}

/// `a1 * b1 + a2 * b2 + a3 * b3 + a4 * b4`, evaluated left to right.
pub open spec fn dot4<T: Add<Output = T> + Mul<Output = T>>(
    a1: T, a2: T, a3: T, a4: T,
    b1: T, b2: T, b3: T, b4: T,
) -> T {
    plus(plus(plus(times(a1, b1), times(a2, b2)), times(a3, b3)), times(a4, b4))
}

/// The matrix product `a * b`: entry `ij` is row `i` of `a` times column `j` of `b`.
pub open spec fn mat_mul<T: Add<Output = T> + Mul<Output = T>>(a: Matrix4<T>, b: Matrix4<T>) -> Matrix4<T> {
    matrix(
        dot4(a.m11, a.m12, a.m13, a.m14, b.m11, b.m21, b.m31, b.m41),
        dot4(a.m11, a.m12, a.m13, a.m14, b.m12, b.m22, b.m32, b.m42),
        dot4(a.m11, a.m12, a.m13, a.m14, b.m13, b.m23, b.m33, b.m43),
        dot4(a.m11, a.m12, a.m13, a.m14, b.m14, b.m24, b.m34, b.m44),
        dot4(a.m21, a.m22, a.m23, a.m24, b.m11, b.m21, b.m31, b.m41),
        dot4(a.m21, a.m22, a.m23, a.m24, b.m12, b.m22, b.m32, b.m42),
        dot4(a.m21, a.m22, a.m23, a.m24, b.m13, b.m23, b.m33, b.m43),
        dot4(a.m21, a.m22, a.m23, a.m24, b.m14, b.m24, b.m34, b.m44),
        dot4(a.m31, a.m32, a.m33, a.m34, b.m11, b.m21, b.m31, b.m41),
        dot4(a.m31, a.m32, a.m33, a.m34, b.m12, b.m22, b.m32, b.m42),
        dot4(a.m31, a.m32, a.m33, a.m34, b.m13, b.m23, b.m33, b.m43),
        dot4(a.m31, a.m32, a.m33, a.m34, b.m14, b.m24, b.m34, b.m44),
        dot4(a.m41, a.m42, a.m43, a.m44, b.m11, b.m21, b.m31, b.m41),
        dot4(a.m41, a.m42, a.m43, a.m44, b.m12, b.m22, b.m32, b.m42),
        dot4(a.m41, a.m42, a.m43, a.m44, b.m13, b.m23, b.m33, b.m43),
        dot4(a.m41, a.m42, a.m43, a.m44, b.m14, b.m24, b.m34, b.m44),
    )
}

/// Every entry multiplied by the scalar `x` (on the right).
pub open spec fn mat_scaled<T: Mul<Output = T>>(m: Matrix4<T>, x: T) -> Matrix4<T> {
    matrix(
        times(m.m11, x), times(m.m12, x), times(m.m13, x), times(m.m14, x),
        times(m.m21, x), times(m.m22, x), times(m.m23, x), times(m.m24, x),
        times(m.m31, x), times(m.m32, x), times(m.m33, x), times(m.m34, x),
        times(m.m41, x), times(m.m42, x), times(m.m43, x), times(m.m44, x),
    )
}

/// The identity matrix.
pub open spec fn mat_identity<T: Zero + One>() -> Matrix4<T> {
    let o = T::spec_zero();
    let l = T::spec_one();
    matrix(
        l, o, o, o,
        o, l, o, o,
        o, o, l, o,
        o, o, o, l,
    )
}

/// The translation by `(x, y, z)`: the identity with `x y z` in the last row.
pub open spec fn mat_translation<T: Zero + One>(x: T, y: T, z: T) -> Matrix4<T> {
    let o = T::spec_zero();
    let l = T::spec_one();
    matrix(
        l, o, o, o,
        o, l, o, o,
        o, o, l, o,
        x, y, z, l,
    )
}

/// The scale by `(x, y, z)`: `x y z 1` on the diagonal.
pub open spec fn mat_scale<T: Zero + One>(x: T, y: T, z: T) -> Matrix4<T> {
    let o = T::spec_zero();
    let l = T::spec_one();
    matrix(
        x, o, o, o,
        o, y, o, o,
        o, o, z, o,
        o, o, o, l,
    )
}

/// A 2d transform embedded in 3d: the 2d terms at `11 12 21 22 41 42`, the identity elsewhere.
pub open spec fn mat_2d<T: Zero + One>(m11: T, m12: T, m21: T, m22: T, m41: T, m42: T) -> Matrix4<T> {
    let o = T::spec_zero();
    let l = T::spec_one();
    matrix(
        m11, m12, o, o,
        m21, m22, o, o,
        o, o, l, o,
        m41, m42, o, l,
    )
}

/// The rows of `m` scaled by `x`, `y` and `z` (the last row unchanged): the scale applied
/// before `m`.
pub open spec fn mat_pre_scaled<T: Mul<Output = T>>(m: Matrix4<T>, x: T, y: T, z: T) -> Matrix4<T> {
    matrix(
        times(m.m11, x), times(m.m12, x), times(m.m13, x), times(m.m14, x),
        times(m.m21, y), times(m.m22, y), times(m.m23, y), times(m.m24, y),
        times(m.m31, z), times(m.m32, z), times(m.m33, z), times(m.m34, z),
        m.m41, m.m42, m.m43, m.m44,
    )
}

/// The 2d skew by the tangents of `alpha` (vertical) and `beta` (horizontal).
pub open spec fn mat_skew<T: Zero + One + Trig>(alpha: T, beta: T) -> Matrix4<T> {
    let o = T::spec_zero();
    let l = T::spec_one();
    let sx = beta.spec_tan();
    let sy = alpha.spec_tan();
    matrix(
        l, sx, o, o,
        sy, l, o, o,
        o, o, l, o,
        o, o, o, l,
    )
}

/// The perspective projection at distance `d`: the identity with `-1 / d` at `34`.
pub open spec fn mat_perspective<T: Zero + One + Neg<Output = T> + Div<Output = T>>(d: T) -> Matrix4<T> {
    let o = T::spec_zero();
    let l = T::spec_one();
    matrix(
        l, o, o, o,
        o, l, o, o,
        o, o, l, quot(negated(l), d),
        o, o, o, l,
    )
}

/// The rotation by the angle `theta` (radians) around the axis `(x, y, z)`.
pub open spec fn mat_rotation<T: Add<Output = T> + Sub<Output = T> + Mul<Output = T> + Div<Output = T> + Zero + One + Trig>(
    x: T, y: T, z: T, theta: T,
) -> Matrix4<T> {
    let o = T::spec_zero();
    let l = T::spec_one();
    let two = plus(l, l);
    let xx = times(x, x);
    let yy = times(y, y);
    let zz = times(z, z);
    let half = quot(theta, two);
    let sc = times(half.spec_sin(), half.spec_cos());
    let sq = times(half.spec_sin(), half.spec_sin());
    matrix(
        minus(l, times(times(two, plus(yy, zz)), sq)),
        times(two, plus(times3(x, y, sq), times(z, sc))),
        times(two, minus(times3(x, z, sq), times(y, sc))),
        o,
        times(two, minus(times3(x, y, sq), times(z, sc))),
        minus(l, times(times(two, plus(xx, zz)), sq)),
        times(two, plus(times3(y, z, sq), times(x, sc))),
        o,
        times(two, plus(times3(x, z, sq), times(y, sc))),
        times(two, minus(times3(y, z, sq), times(x, sc))),
        minus(l, times(times(two, plus(xx, yy)), sq)),
        o,
        o, o, o, l,
    )
}

/// The orthographic projection of the box `[left, right] x [bottom, top] x [near, far]`.
pub open spec fn mat_ortho<T: Add<Output = T> + Sub<Output = T> + Mul<Output = T> + Div<Output = T> + Neg<Output = T> + Zero + One>(
    left: T, right: T, bottom: T, top: T, near: T, far: T,
) -> Matrix4<T> {
    let o = T::spec_zero();
    let l = T::spec_one();
    let two = plus(l, l);
    let tx = negated(quot(plus(right, left), minus(right, left)));
    let ty = negated(quot(plus(top, bottom), minus(top, bottom)));
    let tz = negated(quot(plus(far, near), minus(far, near)));
    matrix(
        quot(two, minus(right, left)), o, o, o,
        o, quot(two, minus(top, bottom)), o, o,
        o, o, quot(negated(two), minus(far, near)), o,
        tx, ty, tz, l,
    )
}

/// The determinant, by the Leibniz expansion (24 signed products), in the library's order.
pub open spec fn determinant<T: Add<Output = T> + Sub<Output = T> + Mul<Output = T>>(m: Matrix4<T>) -> T {
    let s = times4(m.m14, m.m23, m.m32, m.m41);
    let s = minus(s, times4(m.m13, m.m24, m.m32, m.m41));
    let s = minus(s, times4(m.m14, m.m22, m.m33, m.m41));
    let s = plus(s, times4(m.m12, m.m24, m.m33, m.m41));
    let s = plus(s, times4(m.m13, m.m22, m.m34, m.m41));
    let s = minus(s, times4(m.m12, m.m23, m.m34, m.m41));
    let s = minus(s, times4(m.m14, m.m23, m.m31, m.m42));
    let s = plus(s, times4(m.m13, m.m24, m.m31, m.m42));
    let s = plus(s, times4(m.m14, m.m21, m.m33, m.m42));
    let s = minus(s, times4(m.m11, m.m24, m.m33, m.m42));
    let s = minus(s, times4(m.m13, m.m21, m.m34, m.m42));
    let s = plus(s, times4(m.m11, m.m23, m.m34, m.m42));
    let s = plus(s, times4(m.m14, m.m22, m.m31, m.m43));
    let s = minus(s, times4(m.m12, m.m24, m.m31, m.m43));
    let s = minus(s, times4(m.m14, m.m21, m.m32, m.m43));
    let s = plus(s, times4(m.m11, m.m24, m.m32, m.m43));
    let s = plus(s, times4(m.m12, m.m21, m.m34, m.m43));
    let s = minus(s, times4(m.m11, m.m22, m.m34, m.m43));
    let s = minus(s, times4(m.m13, m.m22, m.m31, m.m44));
    let s = plus(s, times4(m.m12, m.m23, m.m31, m.m44));
    let s = plus(s, times4(m.m13, m.m21, m.m32, m.m44));
    let s = minus(s, times4(m.m11, m.m23, m.m32, m.m44));
    let s = minus(s, times4(m.m12, m.m21, m.m33, m.m44));
    let s = plus(s, times4(m.m11, m.m22, m.m33, m.m44));
    s
}

/// The adjugate (transposed cofactor matrix): `inverse = adjugate * (1 / determinant)`.
pub open spec fn adjugate<T: Add<Output = T> + Sub<Output = T> + Mul<Output = T>>(m: Matrix4<T>) -> Matrix4<T> {
    let m11 = {
        let s = times3(m.m23, m.m34, m.m42);
        let s = minus(s, times3(m.m24, m.m33, m.m42));
        let s = plus(s, times3(m.m24, m.m32, m.m43));
        let s = minus(s, times3(m.m22, m.m34, m.m43));
        let s = minus(s, times3(m.m23, m.m32, m.m44));
        let s = plus(s, times3(m.m22, m.m33, m.m44));
        s
    };
    let m12 = {
        let s = times3(m.m14, m.m33, m.m42);
        let s = minus(s, times3(m.m13, m.m34, m.m42));
        let s = minus(s, times3(m.m14, m.m32, m.m43));
        let s = plus(s, times3(m.m12, m.m34, m.m43));
        let s = plus(s, times3(m.m13, m.m32, m.m44));
        let s = minus(s, times3(m.m12, m.m33, m.m44));
        s
    };
    let m13 = {
        let s = times3(m.m13, m.m24, m.m42);
        let s = minus(s, times3(m.m14, m.m23, m.m42));
        let s = plus(s, times3(m.m14, m.m22, m.m43));
        let s = minus(s, times3(m.m12, m.m24, m.m43));
        let s = minus(s, times3(m.m13, m.m22, m.m44));
        let s = plus(s, times3(m.m12, m.m23, m.m44));
        s
    };
    let m14 = {
        let s = times3(m.m14, m.m23, m.m32);
        let s = minus(s, times3(m.m13, m.m24, m.m32));
        let s = minus(s, times3(m.m14, m.m22, m.m33));
        let s = plus(s, times3(m.m12, m.m24, m.m33));
        let s = plus(s, times3(m.m13, m.m22, m.m34));
        let s = minus(s, times3(m.m12, m.m23, m.m34));
        s
    };
    let m21 = {
        let s = times3(m.m24, m.m33, m.m41);
        let s = minus(s, times3(m.m23, m.m34, m.m41));
        let s = minus(s, times3(m.m24, m.m31, m.m43));
        let s = plus(s, times3(m.m21, m.m34, m.m43));
        let s = plus(s, times3(m.m23, m.m31, m.m44));
        let s = minus(s, times3(m.m21, m.m33, m.m44));
        s
    };
    let m22 = {
        let s = times3(m.m13, m.m34, m.m41);
        let s = minus(s, times3(m.m14, m.m33, m.m41));
        let s = plus(s, times3(m.m14, m.m31, m.m43));
        let s = minus(s, times3(m.m11, m.m34, m.m43));
        let s = minus(s, times3(m.m13, m.m31, m.m44));
        let s = plus(s, times3(m.m11, m.m33, m.m44));
        s
    };
    let m23 = {
        let s = times3(m.m14, m.m23, m.m41);
        let s = minus(s, times3(m.m13, m.m24, m.m41));
        let s = minus(s, times3(m.m14, m.m21, m.m43));
        let s = plus(s, times3(m.m11, m.m24, m.m43));
        let s = plus(s, times3(m.m13, m.m21, m.m44));
        let s = minus(s, times3(m.m11, m.m23, m.m44));
        s
    };
    let m24 = {
        let s = times3(m.m13, m.m24, m.m31);
        let s = minus(s, times3(m.m14, m.m23, m.m31));
        let s = plus(s, times3(m.m14, m.m21, m.m33));
        let s = minus(s, times3(m.m11, m.m24, m.m33));
        let s = minus(s, times3(m.m13, m.m21, m.m34));
        let s = plus(s, times3(m.m11, m.m23, m.m34));
        s
    };
    let m31 = {
        let s = times3(m.m22, m.m34, m.m41);
        let s = minus(s, times3(m.m24, m.m32, m.m41));
        let s = plus(s, times3(m.m24, m.m31, m.m42));
        let s = minus(s, times3(m.m21, m.m34, m.m42));
        let s = minus(s, times3(m.m22, m.m31, m.m44));
        let s = plus(s, times3(m.m21, m.m32, m.m44));
        s
    };
    let m32 = {
        let s = times3(m.m14, m.m32, m.m41);
        let s = minus(s, times3(m.m12, m.m34, m.m41));
        let s = minus(s, times3(m.m14, m.m31, m.m42));
        let s = plus(s, times3(m.m11, m.m34, m.m42));
        let s = plus(s, times3(m.m12, m.m31, m.m44));
        let s = minus(s, times3(m.m11, m.m32, m.m44));
        s
    };
    let m33 = {
        let s = times3(m.m12, m.m24, m.m41);
        let s = minus(s, times3(m.m14, m.m22, m.m41));
        let s = plus(s, times3(m.m14, m.m21, m.m42));
        let s = minus(s, times3(m.m11, m.m24, m.m42));
        let s = minus(s, times3(m.m12, m.m21, m.m44));
        let s = plus(s, times3(m.m11, m.m22, m.m44));
        s
    };
    let m34 = {
        let s = times3(m.m14, m.m22, m.m31);
        let s = minus(s, times3(m.m12, m.m24, m.m31));
        let s = minus(s, times3(m.m14, m.m21, m.m32));
        let s = plus(s, times3(m.m11, m.m24, m.m32));
        let s = plus(s, times3(m.m12, m.m21, m.m34));
        let s = minus(s, times3(m.m11, m.m22, m.m34));
        s
    };
    let m41 = {
        let s = times3(m.m23, m.m32, m.m41);
        let s = minus(s, times3(m.m22, m.m33, m.m41));
        let s = minus(s, times3(m.m23, m.m31, m.m42));
        let s = plus(s, times3(m.m21, m.m33, m.m42));
        let s = plus(s, times3(m.m22, m.m31, m.m43));
        let s = minus(s, times3(m.m21, m.m32, m.m43));
        s
    };
    let m42 = {
        let s = times3(m.m12, m.m33, m.m41);
        let s = minus(s, times3(m.m13, m.m32, m.m41));
        let s = plus(s, times3(m.m13, m.m31, m.m42));
        let s = minus(s, times3(m.m11, m.m33, m.m42));
        let s = minus(s, times3(m.m12, m.m31, m.m43));
        let s = plus(s, times3(m.m11, m.m32, m.m43));
        s
    };
    let m43 = {
        let s = times3(m.m13, m.m22, m.m41);
        let s = minus(s, times3(m.m12, m.m23, m.m41));
        let s = minus(s, times3(m.m13, m.m21, m.m42));
        let s = plus(s, times3(m.m11, m.m23, m.m42));
        let s = plus(s, times3(m.m12, m.m21, m.m43));
        let s = minus(s, times3(m.m11, m.m22, m.m43));
        s
    };
    let m44 = {
        let s = times3(m.m12, m.m23, m.m31);
        let s = minus(s, times3(m.m13, m.m22, m.m31));
        let s = plus(s, times3(m.m13, m.m21, m.m32));
        let s = minus(s, times3(m.m11, m.m23, m.m32));
        let s = minus(s, times3(m.m12, m.m21, m.m33));
        let s = plus(s, times3(m.m11, m.m22, m.m33));
        s
    };
    matrix(m11, m12, m13, m14, m21, m22, m23, m24, m31, m32, m33, m34, m41, m42, m43, m44)
}

// ---------------------------------------------------------------------------
// Where the formulas can be evaluated: every `*_defined` predicate says that each
// operation of the corresponding formula, in the library's order, is applied to
// operands on which `T` defines it (no overflow, no division that `T` refuses).
// ---------------------------------------------------------------------------

/// `dot4(a1, .., b4)` can be evaluated.
pub open spec fn dot4_defined<T: Add<Output = T> + Mul<Output = T>>(
    a1: T, a2: T, a3: T, a4: T,
    b1: T, b2: T, b3: T, b4: T,
) -> bool {
    &&& a1.mul_req(b1)
    &&& a2.mul_req(b2)
    &&& a3.mul_req(b3)
    &&& a4.mul_req(b4)
    &&& times(a1, b1).add_req(times(a2, b2))
    &&& plus(times(a1, b1), times(a2, b2)).add_req(times(a3, b3))
    &&& plus(plus(times(a1, b1), times(a2, b2)), times(a3, b3)).add_req(times(a4, b4))
}

/// `mat_mul(a, b)` can be evaluated.
pub open spec fn mat_mul_defined<T: Add<Output = T> + Mul<Output = T>>(a: Matrix4<T>, b: Matrix4<T>) -> bool {
    &&& dot4_defined(a.m11, a.m12, a.m13, a.m14, b.m11, b.m21, b.m31, b.m41)
    &&& dot4_defined(a.m11, a.m12, a.m13, a.m14, b.m12, b.m22, b.m32, b.m42)
    &&& dot4_defined(a.m11, a.m12, a.m13, a.m14, b.m13, b.m23, b.m33, b.m43)
    &&& dot4_defined(a.m11, a.m12, a.m13, a.m14, b.m14, b.m24, b.m34, b.m44)
    &&& dot4_defined(a.m21, a.m22, a.m23, a.m24, b.m11, b.m21, b.m31, b.m41)
    &&& dot4_defined(a.m21, a.m22, a.m23, a.m24, b.m12, b.m22, b.m32, b.m42)
    &&& dot4_defined(a.m21, a.m22, a.m23, a.m24, b.m13, b.m23, b.m33, b.m43)
    &&& dot4_defined(a.m21, a.m22, a.m23, a.m24, b.m14, b.m24, b.m34, b.m44)
    &&& dot4_defined(a.m31, a.m32, a.m33, a.m34, b.m11, b.m21, b.m31, b.m41)
    &&& dot4_defined(a.m31, a.m32, a.m33, a.m34, b.m12, b.m22, b.m32, b.m42)
    &&& dot4_defined(a.m31, a.m32, a.m33, a.m34, b.m13, b.m23, b.m33, b.m43)
    &&& dot4_defined(a.m31, a.m32, a.m33, a.m34, b.m14, b.m24, b.m34, b.m44)
    &&& dot4_defined(a.m41, a.m42, a.m43, a.m44, b.m11, b.m21, b.m31, b.m41)
    &&& dot4_defined(a.m41, a.m42, a.m43, a.m44, b.m12, b.m22, b.m32, b.m42)
    &&& dot4_defined(a.m41, a.m42, a.m43, a.m44, b.m13, b.m23, b.m33, b.m43)
    &&& dot4_defined(a.m41, a.m42, a.m43, a.m44, b.m14, b.m24, b.m34, b.m44)
}

/// `mat_scaled(m, x)` can be evaluated.
pub open spec fn mat_scaled_defined<T: Mul<Output = T>>(m: Matrix4<T>, x: T) -> bool {
    &&& m.m11.mul_req(x)
    &&& m.m12.mul_req(x)
    &&& m.m13.mul_req(x)
    &&& m.m14.mul_req(x)
    &&& m.m21.mul_req(x)
    &&& m.m22.mul_req(x)
    &&& m.m23.mul_req(x)
    &&& m.m24.mul_req(x)
    &&& m.m31.mul_req(x)
    &&& m.m32.mul_req(x)
    &&& m.m33.mul_req(x)
    &&& m.m34.mul_req(x)
    &&& m.m41.mul_req(x)
    &&& m.m42.mul_req(x)
    &&& m.m43.mul_req(x)
    &&& m.m44.mul_req(x)
}

/// `mat_pre_scaled(m, x, y, z)` can be evaluated.
pub open spec fn mat_pre_scaled_defined<T: Mul<Output = T>>(m: Matrix4<T>, x: T, y: T, z: T) -> bool {
    &&& m.m11.mul_req(x)
    &&& m.m12.mul_req(x)
    &&& m.m13.mul_req(x)
    &&& m.m14.mul_req(x)
    &&& m.m21.mul_req(y)
    &&& m.m22.mul_req(y)
    &&& m.m23.mul_req(y)
    &&& m.m24.mul_req(y)
    &&& m.m31.mul_req(z)
    &&& m.m32.mul_req(z)
    &&& m.m33.mul_req(z)
    &&& m.m34.mul_req(z)
}

/// `mat_perspective(d)` can be evaluated.
pub open spec fn mat_perspective_defined<T: Zero + One + Neg<Output = T> + Div<Output = T>>(d: T) -> bool {
    let l = T::spec_one();
    l.neg_req() && negated(l).div_req(d)
}

/// `l - two * (u + v) * sq`, a diagonal entry of a rotation, can be evaluated.
pub open spec fn rotation_diagonal_defined<T: Add<Output = T> + Sub<Output = T> + Mul<Output = T>>(
    l: T, two: T, u: T, v: T, sq: T,
) -> bool {
    &&& u.add_req(v)
    &&& two.mul_req(plus(u, v))
    &&& times(two, plus(u, v)).mul_req(sq)
    &&& l.sub_req(times(times(two, plus(u, v)), sq))
}

/// `two * (a * b * sq + c * sc)` (`sum`) or `two * (a * b * sq - c * sc)`, an off-diagonal
/// entry of a rotation, can be evaluated.
pub open spec fn rotation_side_defined<T: Add<Output = T> + Sub<Output = T> + Mul<Output = T>>(
    sum: bool, two: T, a: T, b: T, sq: T, c: T, sc: T,
) -> bool {
    &&& times3_defined(a, b, sq)
    &&& c.mul_req(sc)
    &&& if sum {
        times3(a, b, sq).add_req(times(c, sc)) && two.mul_req(plus(times3(a, b, sq), times(c, sc)))
    } else {
        times3(a, b, sq).sub_req(times(c, sc)) && two.mul_req(minus(times3(a, b, sq), times(c, sc)))
    }
}

/// `mat_rotation(x, y, z, theta)` can be evaluated.
pub open spec fn mat_rotation_defined<T: Add<Output = T> + Sub<Output = T> + Mul<Output = T> + Div<Output = T> + Zero + One + Trig>(
    x: T, y: T, z: T, theta: T,
) -> bool {
    let l = T::spec_one();
    let two = plus(l, l);
    let xx = times(x, x);
    let yy = times(y, y);
    let zz = times(z, z);
    let half = quot(theta, two);
    let sc = times(half.spec_sin(), half.spec_cos());
    let sq = times(half.spec_sin(), half.spec_sin());
    &&& l.add_req(l)
    &&& x.mul_req(x)
    &&& y.mul_req(y)
    &&& z.mul_req(z)
    &&& theta.div_req(two)
    &&& half.spec_sin().mul_req(half.spec_cos())
    &&& half.spec_sin().mul_req(half.spec_sin())
    &&& rotation_diagonal_defined(l, two, yy, zz, sq)
    &&& rotation_side_defined(true, two, x, y, sq, z, sc)
    &&& rotation_side_defined(false, two, x, z, sq, y, sc)
    &&& rotation_side_defined(false, two, x, y, sq, z, sc)
    &&& rotation_diagonal_defined(l, two, xx, zz, sq)
    &&& rotation_side_defined(true, two, y, z, sq, x, sc)
    &&& rotation_side_defined(true, two, x, z, sq, y, sc)
    &&& rotation_side_defined(false, two, y, z, sq, x, sc)
    &&& rotation_diagonal_defined(l, two, xx, yy, sq)
}

/// `-((a + b) / (a - b))` can be evaluated.
pub open spec fn neg_ratio_defined<T: Add<Output = T> + Sub<Output = T> + Div<Output = T> + Neg<Output = T>>(a: T, b: T) -> bool {
    &&& a.add_req(b)
    &&& a.sub_req(b)
    &&& plus(a, b).div_req(minus(a, b))
    &&& quot(plus(a, b), minus(a, b)).neg_req()
}

/// `mat_ortho(left, right, bottom, top, near, far)` can be evaluated.
pub open spec fn mat_ortho_defined<T: Add<Output = T> + Sub<Output = T> + Mul<Output = T> + Div<Output = T> + Neg<Output = T> + Zero + One>(
    left: T, right: T, bottom: T, top: T, near: T, far: T,
) -> bool {
    let l = T::spec_one();
    let two = plus(l, l);
    &&& neg_ratio_defined(right, left)
    &&& neg_ratio_defined(top, bottom)
    &&& neg_ratio_defined(far, near)
    &&& l.add_req(l)
    &&& two.div_req(minus(right, left))
    &&& two.div_req(minus(top, bottom))
    &&& two.neg_req()
    &&& negated(two).div_req(minus(far, near))
}

/// `determinant(m)` can be evaluated.
pub open spec fn determinant_defined<T: Add<Output = T> + Sub<Output = T> + Mul<Output = T>>(m: Matrix4<T>) -> bool {
    let s = times4(m.m14, m.m23, m.m32, m.m41);
    let ok = times4_defined(m.m14, m.m23, m.m32, m.m41);
    let t = times4(m.m13, m.m24, m.m32, m.m41);
    let ok = ok && times4_defined(m.m13, m.m24, m.m32, m.m41) && s.sub_req(t);
    let s = minus(s, t);
    let t = times4(m.m14, m.m22, m.m33, m.m41);
    let ok = ok && times4_defined(m.m14, m.m22, m.m33, m.m41) && s.sub_req(t);
    let s = minus(s, t);
    let t = times4(m.m12, m.m24, m.m33, m.m41);
    let ok = ok && times4_defined(m.m12, m.m24, m.m33, m.m41) && s.add_req(t);
    let s = plus(s, t);
    let t = times4(m.m13, m.m22, m.m34, m.m41);
    let ok = ok && times4_defined(m.m13, m.m22, m.m34, m.m41) && s.add_req(t);
    let s = plus(s, t);
    let t = times4(m.m12, m.m23, m.m34, m.m41);
    let ok = ok && times4_defined(m.m12, m.m23, m.m34, m.m41) && s.sub_req(t);
    let s = minus(s, t);
    let t = times4(m.m14, m.m23, m.m31, m.m42);
    let ok = ok && times4_defined(m.m14, m.m23, m.m31, m.m42) && s.sub_req(t);
    let s = minus(s, t);
    let t = times4(m.m13, m.m24, m.m31, m.m42);
    let ok = ok && times4_defined(m.m13, m.m24, m.m31, m.m42) && s.add_req(t);
    let s = plus(s, t);
    let t = times4(m.m14, m.m21, m.m33, m.m42);
    let ok = ok && times4_defined(m.m14, m.m21, m.m33, m.m42) && s.add_req(t);
    let s = plus(s, t);
    let t = times4(m.m11, m.m24, m.m33, m.m42);
    let ok = ok && times4_defined(m.m11, m.m24, m.m33, m.m42) && s.sub_req(t);
    let s = minus(s, t);
    let t = times4(m.m13, m.m21, m.m34, m.m42);
    let ok = ok && times4_defined(m.m13, m.m21, m.m34, m.m42) && s.sub_req(t);
    let s = minus(s, t);
    let t = times4(m.m11, m.m23, m.m34, m.m42);
    let ok = ok && times4_defined(m.m11, m.m23, m.m34, m.m42) && s.add_req(t);
    let s = plus(s, t);
    let t = times4(m.m14, m.m22, m.m31, m.m43);
    let ok = ok && times4_defined(m.m14, m.m22, m.m31, m.m43) && s.add_req(t);
    let s = plus(s, t);
    let t = times4(m.m12, m.m24, m.m31, m.m43);
    let ok = ok && times4_defined(m.m12, m.m24, m.m31, m.m43) && s.sub_req(t);
    let s = minus(s, t);
    let t = times4(m.m14, m.m21, m.m32, m.m43);
    let ok = ok && times4_defined(m.m14, m.m21, m.m32, m.m43) && s.sub_req(t);
    let s = minus(s, t);
    let t = times4(m.m11, m.m24, m.m32, m.m43);
    let ok = ok && times4_defined(m.m11, m.m24, m.m32, m.m43) && s.add_req(t);
    let s = plus(s, t);
    let t = times4(m.m12, m.m21, m.m34, m.m43);
    let ok = ok && times4_defined(m.m12, m.m21, m.m34, m.m43) && s.add_req(t);
    let s = plus(s, t);
    let t = times4(m.m11, m.m22, m.m34, m.m43);
    let ok = ok && times4_defined(m.m11, m.m22, m.m34, m.m43) && s.sub_req(t);
    let s = minus(s, t);
    let t = times4(m.m13, m.m22, m.m31, m.m44);
    let ok = ok && times4_defined(m.m13, m.m22, m.m31, m.m44) && s.sub_req(t);
    let s = minus(s, t);
    let t = times4(m.m12, m.m23, m.m31, m.m44);
    let ok = ok && times4_defined(m.m12, m.m23, m.m31, m.m44) && s.add_req(t);
    let s = plus(s, t);
    let t = times4(m.m13, m.m21, m.m32, m.m44);
    let ok = ok && times4_defined(m.m13, m.m21, m.m32, m.m44) && s.add_req(t);
    let s = plus(s, t);
    let t = times4(m.m11, m.m23, m.m32, m.m44);
    let ok = ok && times4_defined(m.m11, m.m23, m.m32, m.m44) && s.sub_req(t);
    let s = minus(s, t);
    let t = times4(m.m12, m.m21, m.m33, m.m44);
    let ok = ok && times4_defined(m.m12, m.m21, m.m33, m.m44) && s.sub_req(t);
    let s = minus(s, t);
    let t = times4(m.m11, m.m22, m.m33, m.m44);
    let ok = ok && times4_defined(m.m11, m.m22, m.m33, m.m44) && s.add_req(t);
    let s = plus(s, t);
    ok
}

/// `adjugate(m)` can be evaluated.
pub open spec fn adjugate_defined<T: Add<Output = T> + Sub<Output = T> + Mul<Output = T>>(m: Matrix4<T>) -> bool {
    let m11 = {
        let s = times3(m.m23, m.m34, m.m42);
        let ok = times3_defined(m.m23, m.m34, m.m42);
        let t = times3(m.m24, m.m33, m.m42);
        let ok = ok && times3_defined(m.m24, m.m33, m.m42) && s.sub_req(t);
        let s = minus(s, t);
        let t = times3(m.m24, m.m32, m.m43);
        let ok = ok && times3_defined(m.m24, m.m32, m.m43) && s.add_req(t);
        let s = plus(s, t);
        let t = times3(m.m22, m.m34, m.m43);
        let ok = ok && times3_defined(m.m22, m.m34, m.m43) && s.sub_req(t);
        let s = minus(s, t);
        let t = times3(m.m23, m.m32, m.m44);
        let ok = ok && times3_defined(m.m23, m.m32, m.m44) && s.sub_req(t);
        let s = minus(s, t);
        let t = times3(m.m22, m.m33, m.m44);
        let ok = ok && times3_defined(m.m22, m.m33, m.m44) && s.add_req(t);
        let s = plus(s, t);
        ok
    };
    let m12 = {
        let s = times3(m.m14, m.m33, m.m42);
        let ok = times3_defined(m.m14, m.m33, m.m42);
        let t = times3(m.m13, m.m34, m.m42);
        let ok = ok && times3_defined(m.m13, m.m34, m.m42) && s.sub_req(t);
        let s = minus(s, t);
        let t = times3(m.m14, m.m32, m.m43);
        let ok = ok && times3_defined(m.m14, m.m32, m.m43) && s.sub_req(t);
        let s = minus(s, t);
        let t = times3(m.m12, m.m34, m.m43);
        let ok = ok && times3_defined(m.m12, m.m34, m.m43) && s.add_req(t);
        let s = plus(s, t);
        let t = times3(m.m13, m.m32, m.m44);
        let ok = ok && times3_defined(m.m13, m.m32, m.m44) && s.add_req(t);
        let s = plus(s, t);
        let t = times3(m.m12, m.m33, m.m44);
        let ok = ok && times3_defined(m.m12, m.m33, m.m44) && s.sub_req(t);
        let s = minus(s, t);
        ok
    };
    let m13 = {
        let s = times3(m.m13, m.m24, m.m42);
        let ok = times3_defined(m.m13, m.m24, m.m42);
        let t = times3(m.m14, m.m23, m.m42);
        let ok = ok && times3_defined(m.m14, m.m23, m.m42) && s.sub_req(t);
        let s = minus(s, t);
        let t = times3(m.m14, m.m22, m.m43);
        let ok = ok && times3_defined(m.m14, m.m22, m.m43) && s.add_req(t);
        let s = plus(s, t);
        let t = times3(m.m12, m.m24, m.m43);
        let ok = ok && times3_defined(m.m12, m.m24, m.m43) && s.sub_req(t);
        let s = minus(s, t);
        let t = times3(m.m13, m.m22, m.m44);
        let ok = ok && times3_defined(m.m13, m.m22, m.m44) && s.sub_req(t);
        let s = minus(s, t);
        let t = times3(m.m12, m.m23, m.m44);
        let ok = ok && times3_defined(m.m12, m.m23, m.m44) && s.add_req(t);
        let s = plus(s, t);
        ok
    };
    let m14 = {
        let s = times3(m.m14, m.m23, m.m32);
        let ok = times3_defined(m.m14, m.m23, m.m32);
        let t = times3(m.m13, m.m24, m.m32);
        let ok = ok && times3_defined(m.m13, m.m24, m.m32) && s.sub_req(t);
        let s = minus(s, t);
        let t = times3(m.m14, m.m22, m.m33);
        let ok = ok && times3_defined(m.m14, m.m22, m.m33) && s.sub_req(t);
        let s = minus(s, t);
        let t = times3(m.m12, m.m24, m.m33);
        let ok = ok && times3_defined(m.m12, m.m24, m.m33) && s.add_req(t);
        let s = plus(s, t);
        let t = times3(m.m13, m.m22, m.m34);
        let ok = ok && times3_defined(m.m13, m.m22, m.m34) && s.add_req(t);
        let s = plus(s, t);
        let t = times3(m.m12, m.m23, m.m34);
        let ok = ok && times3_defined(m.m12, m.m23, m.m34) && s.sub_req(t);
        let s = minus(s, t);
        ok
    };
    let m21 = {
        let s = times3(m.m24, m.m33, m.m41);
        let ok = times3_defined(m.m24, m.m33, m.m41);
        let t = times3(m.m23, m.m34, m.m41);
        let ok = ok && times3_defined(m.m23, m.m34, m.m41) && s.sub_req(t);
        let s = minus(s, t);
        let t = times3(m.m24, m.m31, m.m43);
        let ok = ok && times3_defined(m.m24, m.m31, m.m43) && s.sub_req(t);
        let s = minus(s, t);
        let t = times3(m.m21, m.m34, m.m43);
        let ok = ok && times3_defined(m.m21, m.m34, m.m43) && s.add_req(t);
        let s = plus(s, t);
        let t = times3(m.m23, m.m31, m.m44);
        let ok = ok && times3_defined(m.m23, m.m31, m.m44) && s.add_req(t);
        let s = plus(s, t);
        let t = times3(m.m21, m.m33, m.m44);
        let ok = ok && times3_defined(m.m21, m.m33, m.m44) && s.sub_req(t);
        let s = minus(s, t);
        ok
    };
    let m22 = {
        let s = times3(m.m13, m.m34, m.m41);
        let ok = times3_defined(m.m13, m.m34, m.m41);
        let t = times3(m.m14, m.m33, m.m41);
        let ok = ok && times3_defined(m.m14, m.m33, m.m41) && s.sub_req(t);
        let s = minus(s, t);
        let t = times3(m.m14, m.m31, m.m43);
        let ok = ok && times3_defined(m.m14, m.m31, m.m43) && s.add_req(t);
        let s = plus(s, t);
        let t = times3(m.m11, m.m34, m.m43);
        let ok = ok && times3_defined(m.m11, m.m34, m.m43) && s.sub_req(t);
        let s = minus(s, t);
        let t = times3(m.m13, m.m31, m.m44);
        let ok = ok && times3_defined(m.m13, m.m31, m.m44) && s.sub_req(t);
        let s = minus(s, t);
        let t = times3(m.m11, m.m33, m.m44);
        let ok = ok && times3_defined(m.m11, m.m33, m.m44) && s.add_req(t);
        let s = plus(s, t);
        ok
    };
    let m23 = {
        let s = times3(m.m14, m.m23, m.m41);
        let ok = times3_defined(m.m14, m.m23, m.m41);
        let t = times3(m.m13, m.m24, m.m41);
        let ok = ok && times3_defined(m.m13, m.m24, m.m41) && s.sub_req(t);
        let s = minus(s, t);
        let t = times3(m.m14, m.m21, m.m43);
        let ok = ok && times3_defined(m.m14, m.m21, m.m43) && s.sub_req(t);
        let s = minus(s, t);
        let t = times3(m.m11, m.m24, m.m43);
        let ok = ok && times3_defined(m.m11, m.m24, m.m43) && s.add_req(t);
        let s = plus(s, t);
        let t = times3(m.m13, m.m21, m.m44);
        let ok = ok && times3_defined(m.m13, m.m21, m.m44) && s.add_req(t);
        let s = plus(s, t);
        let t = times3(m.m11, m.m23, m.m44);
        let ok = ok && times3_defined(m.m11, m.m23, m.m44) && s.sub_req(t);
        let s = minus(s, t);
        ok
    };
    let m24 = {
        let s = times3(m.m13, m.m24, m.m31);
        let ok = times3_defined(m.m13, m.m24, m.m31);
        let t = times3(m.m14, m.m23, m.m31);
        let ok = ok && times3_defined(m.m14, m.m23, m.m31) && s.sub_req(t);
        let s = minus(s, t);
        let t = times3(m.m14, m.m21, m.m33);
        let ok = ok && times3_defined(m.m14, m.m21, m.m33) && s.add_req(t);
        let s = plus(s, t);
        let t = times3(m.m11, m.m24, m.m33);
        let ok = ok && times3_defined(m.m11, m.m24, m.m33) && s.sub_req(t);
        let s = minus(s, t);
        let t = times3(m.m13, m.m21, m.m34);
        let ok = ok && times3_defined(m.m13, m.m21, m.m34) && s.sub_req(t);
        let s = minus(s, t);
        let t = times3(m.m11, m.m23, m.m34);
        let ok = ok && times3_defined(m.m11, m.m23, m.m34) && s.add_req(t);
        let s = plus(s, t);
        ok
    };
    let m31 = {
        let s = times3(m.m22, m.m34, m.m41);
        let ok = times3_defined(m.m22, m.m34, m.m41);
        let t = times3(m.m24, m.m32, m.m41);
        let ok = ok && times3_defined(m.m24, m.m32, m.m41) && s.sub_req(t);
        let s = minus(s, t);
        let t = times3(m.m24, m.m31, m.m42);
        let ok = ok && times3_defined(m.m24, m.m31, m.m42) && s.add_req(t);
        let s = plus(s, t);
        let t = times3(m.m21, m.m34, m.m42);
        let ok = ok && times3_defined(m.m21, m.m34, m.m42) && s.sub_req(t);
        let s = minus(s, t);
        let t = times3(m.m22, m.m31, m.m44);
        let ok = ok && times3_defined(m.m22, m.m31, m.m44) && s.sub_req(t);
        let s = minus(s, t);
        let t = times3(m.m21, m.m32, m.m44);
        let ok = ok && times3_defined(m.m21, m.m32, m.m44) && s.add_req(t);
        let s = plus(s, t);
        ok
    };
    let m32 = {
        let s = times3(m.m14, m.m32, m.m41);
        let ok = times3_defined(m.m14, m.m32, m.m41);
        let t = times3(m.m12, m.m34, m.m41);
        let ok = ok && times3_defined(m.m12, m.m34, m.m41) && s.sub_req(t);
        let s = minus(s, t);
        let t = times3(m.m14, m.m31, m.m42);
        let ok = ok && times3_defined(m.m14, m.m31, m.m42) && s.sub_req(t);
        let s = minus(s, t);
        let t = times3(m.m11, m.m34, m.m42);
        let ok = ok && times3_defined(m.m11, m.m34, m.m42) && s.add_req(t);
        let s = plus(s, t);
        let t = times3(m.m12, m.m31, m.m44);
        let ok = ok && times3_defined(m.m12, m.m31, m.m44) && s.add_req(t);
        let s = plus(s, t);
        let t = times3(m.m11, m.m32, m.m44);
        let ok = ok && times3_defined(m.m11, m.m32, m.m44) && s.sub_req(t);
        let s = minus(s, t);
        ok
    };
    let m33 = {
        let s = times3(m.m12, m.m24, m.m41);
        let ok = times3_defined(m.m12, m.m24, m.m41);
        let t = times3(m.m14, m.m22, m.m41);
        let ok = ok && times3_defined(m.m14, m.m22, m.m41) && s.sub_req(t);
        let s = minus(s, t);
        let t = times3(m.m14, m.m21, m.m42);
        let ok = ok && times3_defined(m.m14, m.m21, m.m42) && s.add_req(t);
        let s = plus(s, t);
        let t = times3(m.m11, m.m24, m.m42);
        let ok = ok && times3_defined(m.m11, m.m24, m.m42) && s.sub_req(t);
        let s = minus(s, t);
        let t = times3(m.m12, m.m21, m.m44);
        let ok = ok && times3_defined(m.m12, m.m21, m.m44) && s.sub_req(t);
        let s = minus(s, t);
        let t = times3(m.m11, m.m22, m.m44);
        let ok = ok && times3_defined(m.m11, m.m22, m.m44) && s.add_req(t);
        let s = plus(s, t);
        ok
    };
    let m34 = {
        let s = times3(m.m14, m.m22, m.m31);
        let ok = times3_defined(m.m14, m.m22, m.m31);
        let t = times3(m.m12, m.m24, m.m31);
        let ok = ok && times3_defined(m.m12, m.m24, m.m31) && s.sub_req(t);
        let s = minus(s, t);
        let t = times3(m.m14, m.m21, m.m32);
        let ok = ok && times3_defined(m.m14, m.m21, m.m32) && s.sub_req(t);
        let s = minus(s, t);
        let t = times3(m.m11, m.m24, m.m32);
        let ok = ok && times3_defined(m.m11, m.m24, m.m32) && s.add_req(t);
        let s = plus(s, t);
        let t = times3(m.m12, m.m21, m.m34);
        let ok = ok && times3_defined(m.m12, m.m21, m.m34) && s.add_req(t);
        let s = plus(s, t);
        let t = times3(m.m11, m.m22, m.m34);
        let ok = ok && times3_defined(m.m11, m.m22, m.m34) && s.sub_req(t);
        let s = minus(s, t);
        ok
    };
    let m41 = {
        let s = times3(m.m23, m.m32, m.m41);
        let ok = times3_defined(m.m23, m.m32, m.m41);
        let t = times3(m.m22, m.m33, m.m41);
        let ok = ok && times3_defined(m.m22, m.m33, m.m41) && s.sub_req(t);
        let s = minus(s, t);
        let t = times3(m.m23, m.m31, m.m42);
        let ok = ok && times3_defined(m.m23, m.m31, m.m42) && s.sub_req(t);
        let s = minus(s, t);
        let t = times3(m.m21, m.m33, m.m42);
        let ok = ok && times3_defined(m.m21, m.m33, m.m42) && s.add_req(t);
        let s = plus(s, t);
        let t = times3(m.m22, m.m31, m.m43);
        let ok = ok && times3_defined(m.m22, m.m31, m.m43) && s.add_req(t);
        let s = plus(s, t);
        let t = times3(m.m21, m.m32, m.m43);
        let ok = ok && times3_defined(m.m21, m.m32, m.m43) && s.sub_req(t);
        let s = minus(s, t);
        ok
    };
    let m42 = {
        let s = times3(m.m12, m.m33, m.m41);
        let ok = times3_defined(m.m12, m.m33, m.m41);
        let t = times3(m.m13, m.m32, m.m41);
        let ok = ok && times3_defined(m.m13, m.m32, m.m41) && s.sub_req(t);
        let s = minus(s, t);
        let t = times3(m.m13, m.m31, m.m42);
        let ok = ok && times3_defined(m.m13, m.m31, m.m42) && s.add_req(t);
        let s = plus(s, t);
        let t = times3(m.m11, m.m33, m.m42);
        let ok = ok && times3_defined(m.m11, m.m33, m.m42) && s.sub_req(t);
        let s = minus(s, t);
        let t = times3(m.m12, m.m31, m.m43);
        let ok = ok && times3_defined(m.m12, m.m31, m.m43) && s.sub_req(t);
        let s = minus(s, t);
        let t = times3(m.m11, m.m32, m.m43);
        let ok = ok && times3_defined(m.m11, m.m32, m.m43) && s.add_req(t);
        let s = plus(s, t);
        ok
    };
    let m43 = {
        let s = times3(m.m13, m.m22, m.m41);
        let ok = times3_defined(m.m13, m.m22, m.m41);
        let t = times3(m.m12, m.m23, m.m41);
        let ok = ok && times3_defined(m.m12, m.m23, m.m41) && s.sub_req(t);
        let s = minus(s, t);
        let t = times3(m.m13, m.m21, m.m42);
        let ok = ok && times3_defined(m.m13, m.m21, m.m42) && s.sub_req(t);
        let s = minus(s, t);
        let t = times3(m.m11, m.m23, m.m42);
        let ok = ok && times3_defined(m.m11, m.m23, m.m42) && s.add_req(t);
        let s = plus(s, t);
        let t = times3(m.m12, m.m21, m.m43);
        let ok = ok && times3_defined(m.m12, m.m21, m.m43) && s.add_req(t);
        let s = plus(s, t);
        let t = times3(m.m11, m.m22, m.m43);
        let ok = ok && times3_defined(m.m11, m.m22, m.m43) && s.sub_req(t);
        let s = minus(s, t);
        ok
    };
    let m44 = {
        let s = times3(m.m12, m.m23, m.m31);
        let ok = times3_defined(m.m12, m.m23, m.m31);
        let t = times3(m.m13, m.m22, m.m31);
        let ok = ok && times3_defined(m.m13, m.m22, m.m31) && s.sub_req(t);
        let s = minus(s, t);
        let t = times3(m.m13, m.m21, m.m32);
        let ok = ok && times3_defined(m.m13, m.m21, m.m32) && s.add_req(t);
        let s = plus(s, t);
        let t = times3(m.m11, m.m23, m.m32);
        let ok = ok && times3_defined(m.m11, m.m23, m.m32) && s.sub_req(t);
        let s = minus(s, t);
        let t = times3(m.m12, m.m21, m.m33);
        let ok = ok && times3_defined(m.m12, m.m21, m.m33) && s.sub_req(t);
        let s = minus(s, t);
        let t = times3(m.m11, m.m22, m.m33);
        let ok = ok && times3_defined(m.m11, m.m22, m.m33) && s.add_req(t);
        let s = plus(s, t);
        ok
    };
    m11 && m12 && m13 && m14 && m21 && m22 && m23 && m24 && m31 && m32 && m33 && m34 && m41 && m42 && m43 && m44
}

/// Entry `33` of `adjugate(m)` can be evaluated.
pub open spec fn adjugate_m33_defined<T: Add<Output = T> + Sub<Output = T> + Mul<Output = T>>(m: Matrix4<T>) -> bool {
    let s = times3(m.m12, m.m24, m.m41);
    let ok = times3_defined(m.m12, m.m24, m.m41);
    let t = times3(m.m14, m.m22, m.m41);
    let ok = ok && times3_defined(m.m14, m.m22, m.m41) && s.sub_req(t);
    let s = minus(s, t);
    let t = times3(m.m14, m.m21, m.m42);
    let ok = ok && times3_defined(m.m14, m.m21, m.m42) && s.add_req(t);
    let s = plus(s, t);
    let t = times3(m.m11, m.m24, m.m42);
    let ok = ok && times3_defined(m.m11, m.m24, m.m42) && s.sub_req(t);
    let s = minus(s, t);
    let t = times3(m.m12, m.m21, m.m44);
    let ok = ok && times3_defined(m.m12, m.m21, m.m44) && s.sub_req(t);
    let s = minus(s, t);
    let t = times3(m.m11, m.m22, m.m44);
    let ok = ok && times3_defined(m.m11, m.m22, m.m44) && s.add_req(t);
    let s = plus(s, t);
    ok
}

/// The inverse can be computed: the determinant, and where it is not zero (by `T`'s
/// `==`) the adjugate, `1 / determinant`, and the adjugate scaled by it.
pub open spec fn inverse_defined<T: Add<Output = T> + Sub<Output = T> + Mul<Output = T> + Div<Output = T> + Zero + One + PartialEq>(
    m: Matrix4<T>,
) -> bool {
    let det = determinant(m);
    let l = T::spec_one();
    &&& determinant_defined(m)
    &&& !det.eq_spec(&T::spec_zero()) ==> {
        &&& adjugate_defined(m)
        &&& l.div_req(det)
        &&& mat_scaled_defined(adjugate(m), quot(l, det))
    }
}

} // verus!
