//! 3d transforms: 4 by 4 matrices in row-major order, acting on row vectors.
use crate::geom::{
    bounding_rect, bounding_rect_defined, point2, point3, vec2, vec3, HomogeneousVector, Point2D,
    Point3D, Rect, Vector2D, Vector3D,
};
use crate::matrix::{
    adjugate, adjugate_m33_defined, determinant, determinant_defined, dot4, inverse_defined, mat_2d,
    mat_identity, mat_mul, mat_mul_defined, mat_ortho, mat_ortho_defined, mat_perspective,
    mat_perspective_defined, mat_pre_scaled, mat_pre_scaled_defined, mat_rotation,
    mat_rotation_defined, mat_scale, mat_scaled, mat_scaled_defined, mat_skew, mat_translation,
    matrix, matrix_of_seq, row_major_seq, transpose, Matrix4,
};
use crate::num::{
    add_defined, add_mul_total, div_defined, field_total, minus, mul_defined, neg_defined, negated,
    obeys_add_mul, obeys_field, obeys_order, obeys_ring, plus, quot, ring_total, sub_defined, times,
    ApproxEq, One, Trig, Zero,
};
use crate::transform2d::Transform2D;
use crate::units::{Angle, Scale, UnknownUnit};
use core::marker::PhantomData;
use core::ops::{Add, Div, Mul, Neg, Sub};
use num_traits::NumCast;
use vstd::prelude::*;
use vstd::std_specs::cmp::{PartialEqIs, PartialEqSpec, PartialEqSpecImpl, PartialOrdIs};
use vstd::std_specs::ops::{AddSpec, DivSpec, MulSpec, NegSpec, SubSpec};

verus! {

/// A 3d transform stored as a 4 by 4 matrix in row-major order in memory.
///
/// Transforms can be parametrized over the source and destination units, to describe a
/// transformation from a space to another.
/// For example, `Transform3D<T, WorldSpace, ScreenSpace>::transform_point3d`
/// takes a `Point3D<T, WorldSpace>` and returns a `Point3D<T, ScreenSpace>`.
///
/// Transforms expose a set of convenience methods for pre- and post-transformations.
/// A pre-transformation corresponds to adding an operation that is applied before
/// the rest of the transformation, while a post-transformation adds an operation
/// that is applied after.
///
/// These transforms are for working with _row vectors_, so the matrix math for transforming
/// a vector is `v * T`.
#[derive(Debug, Hash)]
pub struct Transform3D<T, Src, Dst> {
    pub m11: T,
    pub m12: T,
    pub m13: T,
    pub m14: T,
    pub m21: T,
    pub m22: T,
    pub m23: T,
    pub m24: T,
    pub m31: T,
    pub m32: T,
    pub m33: T,
    pub m34: T,
    pub m41: T,
    pub m42: T,
    pub m43: T,
    pub m44: T,
    pub _unit: PhantomData<(Src, Dst)>,
}

impl<T: Copy, Src, Dst> Copy for Transform3D<T, Src, Dst> {

}

impl<T: Clone, Src, Dst> Clone for Transform3D<T, Src, Dst> {
    /// Clones each entry; the units are only a tag.
    fn clone(&self) -> (r: Self)
        ensures
            cloned(self.m11, r.m11),
            cloned(self.m12, r.m12),
            cloned(self.m13, r.m13),
            cloned(self.m14, r.m14),
            cloned(self.m21, r.m21),
            cloned(self.m22, r.m22),
            cloned(self.m23, r.m23),
            cloned(self.m24, r.m24),
            cloned(self.m31, r.m31),
            cloned(self.m32, r.m32),
            cloned(self.m33, r.m33),
            cloned(self.m34, r.m34),
            cloned(self.m41, r.m41),
            cloned(self.m42, r.m42),
            cloned(self.m43, r.m43),
            cloned(self.m44, r.m44),
    {
        Transform3D {
            m11: self.m11.clone(),
            m12: self.m12.clone(),
            m13: self.m13.clone(),
            m14: self.m14.clone(),
            m21: self.m21.clone(),
            m22: self.m22.clone(),
            m23: self.m23.clone(),
            m24: self.m24.clone(),
            m31: self.m31.clone(),
            m32: self.m32.clone(),
            m33: self.m33.clone(),
            m34: self.m34.clone(),
            m41: self.m41.clone(),
            m42: self.m42.clone(),
            m43: self.m43.clone(),
            m44: self.m44.clone(),
            _unit: PhantomData,
        }
    }
}

impl<T, Src, Dst> View for Transform3D<T, Src, Dst> {
    type V = Matrix4<T>;

    /// The matrix; the units are only a tag.
    open spec fn view(&self) -> Matrix4<T> {
        matrix(
            self.m11, self.m12, self.m13, self.m14,
            self.m21, self.m22, self.m23, self.m24,
            self.m31, self.m32, self.m33, self.m34,
            self.m41, self.m42, self.m43, self.m44,
        )
    }
}

/// `a` and `b` are equal entry by entry, as `T`'s `==` specifies equality.
pub open spec fn entries_eq<T: PartialEq>(a: Matrix4<T>, b: Matrix4<T>) -> bool {
    &&& a.m11.eq_spec(&b.m11)
    &&& a.m12.eq_spec(&b.m12)
    &&& a.m13.eq_spec(&b.m13)
    &&& a.m14.eq_spec(&b.m14)
    &&& a.m21.eq_spec(&b.m21)
    &&& a.m22.eq_spec(&b.m22)
    &&& a.m23.eq_spec(&b.m23)
    &&& a.m24.eq_spec(&b.m24)
    &&& a.m31.eq_spec(&b.m31)
    &&& a.m32.eq_spec(&b.m32)
    &&& a.m33.eq_spec(&b.m33)
    &&& a.m34.eq_spec(&b.m34)
    &&& a.m41.eq_spec(&b.m41)
    &&& a.m42.eq_spec(&b.m42)
    &&& a.m43.eq_spec(&b.m43)
    &&& a.m44.eq_spec(&b.m44)
}

impl<T: PartialEq, Src, Dst> PartialEq for Transform3D<T, Src, Dst> {
    fn eq(&self, other: &Self) -> (r: bool) {
        self.m11 == other.m11 &&
        self.m12 == other.m12 &&
        self.m13 == other.m13 &&
        self.m14 == other.m14 &&
        self.m21 == other.m21 &&
        self.m22 == other.m22 &&
        self.m23 == other.m23 &&
        self.m24 == other.m24 &&
        self.m31 == other.m31 &&
        self.m32 == other.m32 &&
        self.m33 == other.m33 &&
        self.m34 == other.m34 &&
        self.m41 == other.m41 &&
        self.m42 == other.m42 &&
        self.m43 == other.m43 &&
        self.m44 == other.m44
    }
}

impl<T: PartialEq, Src, Dst> PartialEqSpecImpl for Transform3D<T, Src, Dst> {
    open spec fn obeys_eq_spec() -> bool {
        T::obeys_eq_spec()
    }

    open spec fn eq_spec(&self, other: &Self) -> bool {
        entries_eq(self@, other@)
    }
}

impl<T: Eq, Src, Dst> Eq for Transform3D<T, Src, Dst> {

}

impl<T, Src, Dst> Transform3D<T, Src, Dst> {
    /// Create a transform specifying its components in row-major order.
    ///
    /// For example, the translation terms m41, m42, m43 on the last row with the
    /// row-major convention) are the 13rd, 14th and 15th parameters.
    ///
    /// Beware: This library is written with the assumption that row vectors
    /// are being used. If your matrices use column vectors (i.e. transforming a vector
    /// is `T * v`), then please use `column_major`
    pub fn row_major(
        m11: T, m12: T, m13: T, m14: T,
        m21: T, m22: T, m23: T, m24: T,
        m31: T, m32: T, m33: T, m34: T,
        m41: T, m42: T, m43: T, m44: T,
    ) -> (r: Self)
        ensures
            r@ == matrix(
                m11, m12, m13, m14,
                m21, m22, m23, m24,
                m31, m32, m33, m34,
                m41, m42, m43, m44,
            ),
    {
        Transform3D {
            m11, m12, m13, m14,
            m21, m22, m23, m24,
            m31, m32, m33, m34,
            m41, m42, m43, m44,
            _unit: PhantomData,
        }
    }

    /// Create a 4 by 4 transform representing a 2d transformation, specifying its components
    /// in row-major order:
    ///
    /// ```text
    /// m11  m12   0   0
    /// m21  m22   0   0
    ///   0    0   1   0
    /// m41  m42   0   1
    /// ```
    pub fn row_major_2d(m11: T, m12: T, m21: T, m22: T, m41: T, m42: T) -> (r: Self)
        where
            T: Zero + One,
        ensures
            r@ == mat_2d(m11, m12, m21, m22, m41, m42),
    {
        Self::row_major(
            m11, m12, T::zero(), T::zero(),
            m21, m22, T::zero(), T::zero(),
            T::zero(), T::zero(), T::one(), T::zero(),
            m41, m42, T::zero(), T::one(),
        )
    }

    /// Create a transform specifying its components in column-major order.
    ///
    /// For example, the translation terms m41, m42, m43 on the last column with the
    /// column-major convention) are the 4th, 8th and 12nd parameters.
    ///
    /// Beware: This library is written with the assumption that row vectors
    /// are being used. If your matrices use column vectors (i.e. transforming a vector
    /// is `T * v`), then please use `row_major`
    pub fn column_major(
        m11: T, m21: T, m31: T, m41: T,
        m12: T, m22: T, m32: T, m42: T,
        m13: T, m23: T, m33: T, m43: T,
        m14: T, m24: T, m34: T, m44: T,
    ) -> (r: Self)
        ensures
            r@ == matrix(
                m11, m12, m13, m14,
                m21, m22, m23, m24,
                m31, m32, m33, m34,
                m41, m42, m43, m44,
            ),
    {
        Transform3D {
            m11, m12, m13, m14,
            m21, m22, m23, m24,
            m31, m32, m33, m34,
            m41, m42, m43, m44,
            _unit: PhantomData,
        }
    }

    /// Returns `true` if this transform can be represented with a `Transform2D`.
    ///
    /// See <https://drafts.csswg.org/css-transforms/#2d-transform>
    pub fn is_2d(&self) -> (r: bool)
        where
            T: Zero + One + PartialEq,
        ensures
            T::obeys_eq_spec() ==> r == is_2d_matrix(self@),
    {
        let _0: T = T::zero();
        let _1: T = T::one();
        self.m31 == _0 && self.m32 == _0 && self.m13 == _0 && self.m23 == _0 && self.m43 == _0
            && self.m14 == _0 && self.m24 == _0 && self.m34 == _0 && self.m33 == _1 && self.m44 == _1
    }
}

/// The third row and column of `m` are those of the identity and its fourth column is
/// `(0 0 0 1)`: `m` acts on the XY plane as a 2d transform.
pub open spec fn is_2d_matrix<T: Zero + One + PartialEq>(m: Matrix4<T>) -> bool {
    let o = T::spec_zero();
    let l = T::spec_one();
    &&& m.m31.eq_spec(&o)
    &&& m.m32.eq_spec(&o)
    &&& m.m13.eq_spec(&o)
    &&& m.m23.eq_spec(&o)
    &&& m.m43.eq_spec(&o)
    &&& m.m14.eq_spec(&o)
    &&& m.m24.eq_spec(&o)
    &&& m.m34.eq_spec(&o)
    &&& m.m33.eq_spec(&l)
    &&& m.m44.eq_spec(&l)
}

impl<T: Copy, Src, Dst> Transform3D<T, Src, Dst> {
    /// Returns an array containing this transform's terms in row-major order (the order
    /// in which the transform is actually laid out in memory).
    pub fn to_row_major_array(&self) -> (r: [T; 16])
        ensures
            r@ == row_major_seq(self@),
    {
        [
            self.m11, self.m12, self.m13, self.m14,
            self.m21, self.m22, self.m23, self.m24,
            self.m31, self.m32, self.m33, self.m34,
            self.m41, self.m42, self.m43, self.m44,
        ]
    }

    /// Returns an array containing this transform's terms in column-major order.
    pub fn to_column_major_array(&self) -> (r: [T; 16])
        ensures
            r@ == row_major_seq(transpose(self@)),
    {
        [
            self.m11, self.m21, self.m31, self.m41,
            self.m12, self.m22, self.m32, self.m42,
            self.m13, self.m23, self.m33, self.m43,
            self.m14, self.m24, self.m34, self.m44,
        ]
    }

    /// Returns an array containing this transform's 4 rows in (in row-major order)
    /// as arrays.
    pub fn to_row_arrays(&self) -> (r: [[T; 4]; 4])
        ensures
            r[0]@ == seq![self.m11, self.m12, self.m13, self.m14],
            r[1]@ == seq![self.m21, self.m22, self.m23, self.m24],
            r[2]@ == seq![self.m31, self.m32, self.m33, self.m34],
            r[3]@ == seq![self.m41, self.m42, self.m43, self.m44],
    {
        [
            [self.m11, self.m12, self.m13, self.m14],
            [self.m21, self.m22, self.m23, self.m24],
            [self.m31, self.m32, self.m33, self.m34],
            [self.m41, self.m42, self.m43, self.m44],
        ]
    }

    /// Returns an array containing this transform's 4 columns in (in row-major order,
    /// or 4 rows in column-major order) as arrays.
    pub fn to_column_arrays(&self) -> (r: [[T; 4]; 4])
        ensures
            r[0]@ == seq![self.m11, self.m21, self.m31, self.m41],
            r[1]@ == seq![self.m12, self.m22, self.m32, self.m42],
            r[2]@ == seq![self.m13, self.m23, self.m33, self.m43],
            r[3]@ == seq![self.m14, self.m24, self.m34, self.m44],
    {
        [
            [self.m11, self.m21, self.m31, self.m41],
            [self.m12, self.m22, self.m32, self.m42],
            [self.m13, self.m23, self.m33, self.m43],
            [self.m14, self.m24, self.m34, self.m44],
        ]
    }

    /// Creates a transform from an array of 16 elements in row-major order.
    pub fn from_array(array: [T; 16]) -> (r: Self)
        ensures
            r@ == matrix_of_seq(array@),
    {
        Self::row_major(
            array[0], array[1], array[2], array[3],
            array[4], array[5], array[6], array[7],
            array[8], array[9], array[10], array[11],
            array[12], array[13], array[14], array[15],
        )
    }

    /// Creates a transform from 4 rows of 4 elements (row-major order).
    pub fn from_row_arrays(array: [[T; 4]; 4]) -> (r: Self)
        ensures
            r@ == matrix(
                array[0][0], array[0][1], array[0][2], array[0][3],
                array[1][0], array[1][1], array[1][2], array[1][3],
                array[2][0], array[2][1], array[2][2], array[2][3],
                array[3][0], array[3][1], array[3][2], array[3][3],
            ),
    {
        Self::row_major(
            array[0][0], array[0][1], array[0][2], array[0][3],
            array[1][0], array[1][1], array[1][2], array[1][3],
            array[2][0], array[2][1], array[2][2], array[2][3],
            array[3][0], array[3][1], array[3][2], array[3][3],
        )
    }

    /// Tag a unitless value with units.
    pub fn from_untyped(m: &Transform3D<T, UnknownUnit, UnknownUnit>) -> (r: Self)
        ensures
            r@ == m@,
    {
        Transform3D::row_major(
            m.m11, m.m12, m.m13, m.m14,
            m.m21, m.m22, m.m23, m.m24,
            m.m31, m.m32, m.m33, m.m34,
            m.m41, m.m42, m.m43, m.m44,
        )
    }

    /// Drop the units, preserving only the numeric value.
    pub fn to_untyped(&self) -> (r: Transform3D<T, UnknownUnit, UnknownUnit>)
        ensures
            r@ == self@,
    {
        Transform3D::row_major(
            self.m11, self.m12, self.m13, self.m14,
            self.m21, self.m22, self.m23, self.m24,
            self.m31, self.m32, self.m33, self.m34,
            self.m41, self.m42, self.m43, self.m44,
        )
    }

    /// Returns the same transform with a different source unit.
    pub fn with_source<NewSrc>(&self) -> (r: Transform3D<T, NewSrc, Dst>)
        ensures
            r@ == self@,
    {
        Transform3D::row_major(
            self.m11, self.m12, self.m13, self.m14,
            self.m21, self.m22, self.m23, self.m24,
            self.m31, self.m32, self.m33, self.m34,
            self.m41, self.m42, self.m43, self.m44,
        )
    }

    /// Returns the same transform with a different destination unit.
    pub fn with_destination<NewDst>(&self) -> (r: Transform3D<T, Src, NewDst>)
        ensures
            r@ == self@,
    {
        Transform3D::row_major(
            self.m11, self.m12, self.m13, self.m14,
            self.m21, self.m22, self.m23, self.m24,
            self.m31, self.m32, self.m33, self.m34,
            self.m41, self.m42, self.m43, self.m44,
        )
    }

    /// Create a 2D transform picking the relevant terms from this transform.
    ///
    /// This method assumes that self represents a 2d transformation, callers
    /// should check that [`self.is_2d()`] returns `true` beforehand.
    pub fn to_2d(&self) -> (r: Transform2D<T, Src, Dst>)
        ensures
            r.m11 == self.m11,
            r.m12 == self.m12,
            r.m21 == self.m21,
            r.m22 == self.m22,
            r.m31 == self.m41,
            r.m32 == self.m42,
    {
        Transform2D::row_major(self.m11, self.m12, self.m21, self.m22, self.m41, self.m42)
    }
}


impl<T: Zero + One, Src, Dst> Transform3D<T, Src, Dst> {
    /// Creates an identity matrix:
    ///
    /// ```text
    /// 1 0 0 0
    /// 0 1 0 0
    /// 0 0 1 0
    /// 0 0 0 1
    /// ```
    pub fn identity() -> (r: Self)
        ensures
            r@ == mat_identity::<T>(),
    {
        Self::create_translation(T::zero(), T::zero(), T::zero())
    }

    /// Whether this transform is exactly the identity (entry by entry, with `T`'s `==`).
    ///
    /// Most consumers will probably want some sort of approximate equivalence to deal
    /// with floating-point errors: see `approx_eq`.
    pub fn is_identity(&self) -> (r: bool)
        where
            T: PartialEq,
        ensures
            T::obeys_eq_spec() ==> r == entries_eq(self@, mat_identity::<T>()),
    {
        let id = Self::identity();
        *self == id
    }

    /// Create a 2d skew transform.
    ///
    /// See <https://drafts.csswg.org/css-transforms/#funcdef-skew>
    pub fn create_skew(alpha: Angle<T>, beta: Angle<T>) -> (r: Self)
        where
            T: Trig,
        ensures
            r@ == mat_skew(alpha.radians, beta.radians),
    {
        let sx = beta.radians.tan();
        let sy = alpha.radians.tan();
        Self::row_major(
            T::one(), sx, T::zero(), T::zero(),
            sy, T::one(), T::zero(), T::zero(),
            T::zero(), T::zero(), T::one(), T::zero(),
            T::zero(), T::zero(), T::zero(), T::one(),
        )
    }

    /// Create a simple perspective projection transform:
    ///
    /// ```text
    /// 1   0   0   0
    /// 0   1   0   0
    /// 0   0   1 -1/d
    /// 0   0   0   1
    /// ```
    pub fn create_perspective(d: T) -> (r: Self)
        where
            T: Neg<Output = T> + Div<Output = T>,
        requires
            T::obeys_neg_spec() && mat_perspective_defined(d) || neg_defined::<T>() && div_defined::<T>(),
        ensures
            T::obeys_neg_spec() && T::obeys_div_spec() ==> r@ == mat_perspective(d),
    {
        let m34 = Neg::neg(T::one()) / d;
        Self::row_major(
            T::one(), T::zero(), T::zero(), T::zero(),
            T::zero(), T::one(), T::zero(), T::zero(),
            T::zero(), T::zero(), T::one(), m34,
            T::zero(), T::zero(), T::zero(), T::one(),
        )
    }
}

/// Methods for combining generic transformations
impl<T: Copy + Add<Output = T> + Mul<Output = T>, Src, Dst> Transform3D<T, Src, Dst> {
    /// Returns the multiplication of the two matrices such that mat's transformation
    /// applies after self's transformation.
    ///
    /// Assuming row vectors, this is equivalent to self * mat
    pub fn post_transform<NewDst>(&self, mat: &Transform3D<T, Dst, NewDst>) -> (r: Transform3D<T, Src, NewDst>)
        requires
            obeys_add_mul::<T>() && mat_mul_defined(self@, mat@) || add_mul_total::<T>(),
        ensures
            obeys_add_mul::<T>() ==> r@ == mat_mul(self@, mat@),
    {
        Transform3D::row_major(
            self.m11 * mat.m11 + self.m12 * mat.m21 + self.m13 * mat.m31 + self.m14 * mat.m41,
            self.m11 * mat.m12 + self.m12 * mat.m22 + self.m13 * mat.m32 + self.m14 * mat.m42,
            self.m11 * mat.m13 + self.m12 * mat.m23 + self.m13 * mat.m33 + self.m14 * mat.m43,
            self.m11 * mat.m14 + self.m12 * mat.m24 + self.m13 * mat.m34 + self.m14 * mat.m44,
            self.m21 * mat.m11 + self.m22 * mat.m21 + self.m23 * mat.m31 + self.m24 * mat.m41,
            self.m21 * mat.m12 + self.m22 * mat.m22 + self.m23 * mat.m32 + self.m24 * mat.m42,
            self.m21 * mat.m13 + self.m22 * mat.m23 + self.m23 * mat.m33 + self.m24 * mat.m43,
            self.m21 * mat.m14 + self.m22 * mat.m24 + self.m23 * mat.m34 + self.m24 * mat.m44,
            self.m31 * mat.m11 + self.m32 * mat.m21 + self.m33 * mat.m31 + self.m34 * mat.m41,
            self.m31 * mat.m12 + self.m32 * mat.m22 + self.m33 * mat.m32 + self.m34 * mat.m42,
            self.m31 * mat.m13 + self.m32 * mat.m23 + self.m33 * mat.m33 + self.m34 * mat.m43,
            self.m31 * mat.m14 + self.m32 * mat.m24 + self.m33 * mat.m34 + self.m34 * mat.m44,
            self.m41 * mat.m11 + self.m42 * mat.m21 + self.m43 * mat.m31 + self.m44 * mat.m41,
            self.m41 * mat.m12 + self.m42 * mat.m22 + self.m43 * mat.m32 + self.m44 * mat.m42,
            self.m41 * mat.m13 + self.m42 * mat.m23 + self.m43 * mat.m33 + self.m44 * mat.m43,
            self.m41 * mat.m14 + self.m42 * mat.m24 + self.m43 * mat.m34 + self.m44 * mat.m44,
        )
    }

    /// Returns the multiplication of the two matrices such that mat's transformation
    /// applies before self's transformation.
    ///
    /// Assuming row vectors, this is equivalent to mat * self
    pub fn pre_transform<NewSrc>(&self, mat: &Transform3D<T, NewSrc, Src>) -> (r: Transform3D<T, NewSrc, Dst>)
        requires
            obeys_add_mul::<T>() && mat_mul_defined(mat@, self@) || add_mul_total::<T>(),
        ensures
            obeys_add_mul::<T>() ==> r@ == mat_mul(mat@, self@),
    {
        mat.post_transform(self)
    }
}

/// Methods for creating and combining translation transformations
impl<T: Zero + One, Src, Dst> Transform3D<T, Src, Dst> {
    /// Create a 3d translation transform:
    ///
    /// ```text
    /// 1 0 0 0
    /// 0 1 0 0
    /// 0 0 1 0
    /// x y z 1
    /// ```
    pub fn create_translation(x: T, y: T, z: T) -> (r: Self)
        ensures
            r@ == mat_translation(x, y, z),
    {
        Self::row_major(
            T::one(), T::zero(), T::zero(), T::zero(),
            T::zero(), T::one(), T::zero(), T::zero(),
            T::zero(), T::zero(), T::one(), T::zero(),
            x, y, z, T::one(),
        )
    }

    /// Returns a transform with a translation applied before self's transformation.
    pub fn pre_translate(&self, v: Vector3D<T, Src>) -> (r: Self)
        where
            T: Copy + Add<Output = T> + Mul<Output = T>,
        requires
            obeys_add_mul::<T>() && mat_mul_defined(mat_translation(v.x, v.y, v.z), self@) || add_mul_total::<T>(),
        ensures
            obeys_add_mul::<T>() ==> r@ == mat_mul(mat_translation(v.x, v.y, v.z), self@),
    {
        self.pre_transform(&Transform3D::create_translation(v.x, v.y, v.z))
    }

    /// Returns a transform with a translation applied after self's transformation.
    pub fn post_translate(&self, v: Vector3D<T, Dst>) -> (r: Self)
        where
            T: Copy + Add<Output = T> + Mul<Output = T>,
        requires
            obeys_add_mul::<T>() && mat_mul_defined(self@, mat_translation(v.x, v.y, v.z)) || add_mul_total::<T>(),
        ensures
            obeys_add_mul::<T>() ==> r@ == mat_mul(self@, mat_translation(v.x, v.y, v.z)),
    {
        self.post_transform(&Transform3D::create_translation(v.x, v.y, v.z))
    }
}

/// Methods for creating and combining rotation transformations
impl<
    T: Copy + Add<Output = T> + Sub<Output = T> + Mul<Output = T> + Div<Output = T> + Zero + One + Trig,
    Src,
    Dst,
> Transform3D<T, Src, Dst> {
    /// Create a 3d rotation transform from an angle / axis.
    /// The supplied axis must be normalized.
    pub fn create_rotation(x: T, y: T, z: T, theta: Angle<T>) -> (r: Self)
        requires
            obeys_field::<T>() && mat_rotation_defined(x, y, z, theta.radians) || field_total::<T>(),
        ensures
            obeys_field::<T>() ==> r@ == mat_rotation(x, y, z, theta.radians),
    {
        let _0: T = T::zero();
        let _1: T = T::one();
        let _2 = _1 + _1;

        let xx = x * x;
        let yy = y * y;
        let zz = z * z;

        let half_theta = theta.get() / _2;
        let sc = half_theta.sin() * half_theta.cos();
        let sq = half_theta.sin() * half_theta.sin();

        Transform3D::row_major(
            _1 - _2 * (yy + zz) * sq,
            _2 * (x * y * sq + z * sc),
            _2 * (x * z * sq - y * sc),
            _0,
            _2 * (x * y * sq - z * sc),
            _1 - _2 * (xx + zz) * sq,
            _2 * (y * z * sq + x * sc),
            _0,
            _2 * (x * z * sq + y * sc),
            _2 * (y * z * sq - x * sc),
            _1 - _2 * (xx + yy) * sq,
            _0,
            _0,
            _0,
            _0,
            _1,
        )
    }

    /// Returns a transform with a rotation applied after self's transformation.
    pub fn post_rotate(&self, x: T, y: T, z: T, theta: Angle<T>) -> (r: Self)
        requires
            obeys_field::<T>() && mat_rotation_defined(x, y, z, theta.radians) && mat_mul_defined(
                self@,
                mat_rotation(x, y, z, theta.radians),
            ) || field_total::<T>(),
        ensures
            obeys_field::<T>() ==> r@ == mat_mul(self@, mat_rotation(x, y, z, theta.radians)),
    {
        self.post_transform(&Transform3D::create_rotation(x, y, z, theta))
    }

    /// Returns a transform with a rotation applied before self's transformation.
    pub fn pre_rotate(&self, x: T, y: T, z: T, theta: Angle<T>) -> (r: Self)
        requires
            obeys_field::<T>() && mat_rotation_defined(x, y, z, theta.radians) && mat_mul_defined(
                mat_rotation(x, y, z, theta.radians),
                self@,
            ) || field_total::<T>(),
        ensures
            obeys_field::<T>() ==> r@ == mat_mul(mat_rotation(x, y, z, theta.radians), self@),
    {
        self.pre_transform(&Transform3D::create_rotation(x, y, z, theta))
    }
}

/// Methods for creating and combining scale transformations
impl<T: Zero + One, Src, Dst> Transform3D<T, Src, Dst> {
    /// Create a 3d scale transform:
    ///
    /// ```text
    /// x 0 0 0
    /// 0 y 0 0
    /// 0 0 z 0
    /// 0 0 0 1
    /// ```
    pub fn create_scale(x: T, y: T, z: T) -> (r: Self)
        ensures
            r@ == mat_scale(x, y, z),
    {
        Self::row_major(
            x, T::zero(), T::zero(), T::zero(),
            T::zero(), y, T::zero(), T::zero(),
            T::zero(), T::zero(), z, T::zero(),
            T::zero(), T::zero(), T::zero(), T::one(),
        )
    }

    /// Returns a transform with a scale applied before self's transformation.
    pub fn pre_scale(&self, x: T, y: T, z: T) -> (r: Self)
        where
            T: Copy + Add<Output = T> + Mul<Output = T>,
        requires
            mat_pre_scaled_defined(self@, x, y, z),
        ensures
            T::obeys_mul_spec() ==> r@ == mat_pre_scaled(self@, x, y, z),
    {
        Transform3D::row_major(
            self.m11 * x, self.m12 * x, self.m13 * x, self.m14 * x,
            self.m21 * y, self.m22 * y, self.m23 * y, self.m24 * y,
            self.m31 * z, self.m32 * z, self.m33 * z, self.m34 * z,
            self.m41, self.m42, self.m43, self.m44,
        )
    }

    /// Returns a transform with a scale applied after self's transformation.
    pub fn post_scale(&self, x: T, y: T, z: T) -> (r: Self)
        where
            T: Copy + Add<Output = T> + Mul<Output = T>,
        requires
            obeys_add_mul::<T>() && mat_mul_defined(self@, mat_scale(x, y, z)) || add_mul_total::<T>(),
        ensures
            obeys_add_mul::<T>() ==> r@ == mat_mul(self@, mat_scale(x, y, z)),
    {
        self.post_transform(&Transform3D::create_scale(x, y, z))
    }
}


/// `px * a + py * b + c`: one coordinate of the image of the 2d point `(px py 0 1)`.
pub open spec fn affine2<T: Add<Output = T> + Mul<Output = T>>(px: T, py: T, a: T, b: T, c: T) -> T {
    plus(plus(times(px, a), times(py, b)), c)
}

/// `px * a + py * b + pz * c + d`: one coordinate of the image of the 3d point `(px py pz 1)`.
pub open spec fn affine3<T: Add<Output = T> + Mul<Output = T>>(px: T, py: T, pz: T, a: T, b: T, c: T, d: T) -> T {
    plus(plus(plus(times(px, a), times(py, b)), times(pz, c)), d)
}

/// The image of the 2d point `p` under `m`, divided by its `w`, if `w` is greater than zero.
pub open spec fn project_point2d<T: Add<Output = T> + Mul<Output = T> + Div<Output = T> + Zero + PartialOrd, U, V>(
    m: Matrix4<T>,
    p: Point2D<T, U>,
) -> Option<Point2D<T, V>> {
    let w = affine2(p.x, p.y, m.m14, m.m24, m.m44);
    if w.is_gt(&T::spec_zero()) {
        let x = affine2(p.x, p.y, m.m11, m.m21, m.m41);
        let y = affine2(p.x, p.y, m.m12, m.m22, m.m42);
        Some(Point2D { x: quot(x, w), y: quot(y, w), _unit: PhantomData })
    } else {
        None
    }
}

/// The image of the 3d point `p` under `m`, divided by its `w`, if `w` is greater than zero.
pub open spec fn project_point3d<T: Add<Output = T> + Mul<Output = T> + Div<Output = T> + Zero + PartialOrd, U, V>(
    m: Matrix4<T>,
    p: Point3D<T, U>,
) -> Option<Point3D<T, V>> {
    let w = affine3(p.x, p.y, p.z, m.m14, m.m24, m.m34, m.m44);
    if w.is_gt(&T::spec_zero()) {
        let x = affine3(p.x, p.y, p.z, m.m11, m.m21, m.m31, m.m41);
        let y = affine3(p.x, p.y, p.z, m.m12, m.m22, m.m32, m.m42);
        let z = affine3(p.x, p.y, p.z, m.m13, m.m23, m.m33, m.m43);
        Some(Point3D { x: quot(x, w), y: quot(y, w), z: quot(z, w), _unit: PhantomData })
    } else {
        None
    }
}

/// The bounds of the images of the four corners of the rectangle, taken in the order
/// `min`, `max`, `(max.x, min.y)`, `(min.x, max.y)`; `None` if a corner has no image.
pub open spec fn project_rect<T: Copy + Add<Output = T> + Sub<Output = T> + Mul<Output = T> + Div<Output = T> + Zero + PartialOrd, U, V>(
    m: Matrix4<T>,
    rect: Rect<T, U>,
) -> Option<Rect<T, V>> {
    let x0 = rect.origin.x;
    let y0 = rect.origin.y;
    let x1 = plus(rect.origin.x, rect.size.width);
    let y1 = plus(rect.origin.y, rect.size.height);
    let corner = |x: T, y: T| Point2D::<T, U> { x, y, _unit: PhantomData };
    match (
        project_point2d::<T, U, V>(m, corner(x0, y0)),
        project_point2d::<T, U, V>(m, corner(x1, y1)),
        project_point2d::<T, U, V>(m, corner(x1, y0)),
        project_point2d::<T, U, V>(m, corner(x0, y1)),
    ) {
        (Some(a), Some(b), Some(c), Some(d)) => Some(bounding_rect(seq![a, b, c, d])),
        _ => None,
    }
}

/// `affine2(px, py, a, b, c)` can be evaluated.
pub open spec fn affine2_defined<T: Add<Output = T> + Mul<Output = T>>(px: T, py: T, a: T, b: T, c: T) -> bool {
    &&& px.mul_req(a)
    &&& py.mul_req(b)
    &&& times(px, a).add_req(times(py, b))
    &&& plus(times(px, a), times(py, b)).add_req(c)
}

/// `affine3(px, py, pz, a, b, c, d)` can be evaluated.
pub open spec fn affine3_defined<T: Add<Output = T> + Mul<Output = T>>(px: T, py: T, pz: T, a: T, b: T, c: T, d: T) -> bool {
    &&& px.mul_req(a)
    &&& py.mul_req(b)
    &&& pz.mul_req(c)
    &&& times(px, a).add_req(times(py, b))
    &&& plus(times(px, a), times(py, b)).add_req(times(pz, c))
    &&& plus(plus(times(px, a), times(py, b)), times(pz, c)).add_req(d)
}

/// `vx * a + vy * b` can be evaluated.
pub open spec fn linear2_defined<T: Add<Output = T> + Mul<Output = T>>(vx: T, vy: T, a: T, b: T) -> bool {
    vx.mul_req(a) && vy.mul_req(b) && times(vx, a).add_req(times(vy, b))
}

/// `vx * a + vy * b + vz * c` can be evaluated.
pub open spec fn linear3_defined<T: Add<Output = T> + Mul<Output = T>>(vx: T, vy: T, vz: T, a: T, b: T, c: T) -> bool {
    &&& linear2_defined(vx, vy, a, b)
    &&& vz.mul_req(c)
    &&& plus(times(vx, a), times(vy, b)).add_req(times(vz, c))
}

/// The four coordinates of the homogeneous image of the 2d point `(px, py)` can be evaluated.
pub open spec fn image2d_defined<T: Add<Output = T> + Mul<Output = T>>(m: Matrix4<T>, px: T, py: T) -> bool {
    &&& affine2_defined(px, py, m.m11, m.m21, m.m41)
    &&& affine2_defined(px, py, m.m12, m.m22, m.m42)
    &&& affine2_defined(px, py, m.m13, m.m23, m.m43)
    &&& affine2_defined(px, py, m.m14, m.m24, m.m44)
}

/// The four coordinates of the homogeneous image of the 3d point `(px, py, pz)` can be evaluated.
pub open spec fn image3d_defined<T: Add<Output = T> + Mul<Output = T>>(m: Matrix4<T>, px: T, py: T, pz: T) -> bool {
    &&& affine3_defined(px, py, pz, m.m11, m.m21, m.m31, m.m41)
    &&& affine3_defined(px, py, pz, m.m12, m.m22, m.m32, m.m42)
    &&& affine3_defined(px, py, pz, m.m13, m.m23, m.m33, m.m43)
    &&& affine3_defined(px, py, pz, m.m14, m.m24, m.m34, m.m44)
}

/// `project_point2d(m, p)` can be evaluated: `w`, and where `w > 0`, `x`, `y` and their
/// division by `w`.
pub open spec fn project_point2d_defined<T: Add<Output = T> + Mul<Output = T> + Div<Output = T> + Zero + PartialOrd, U>(
    m: Matrix4<T>,
    p: Point2D<T, U>,
) -> bool {
    let w = affine2(p.x, p.y, m.m14, m.m24, m.m44);
    &&& affine2_defined(p.x, p.y, m.m14, m.m24, m.m44)
    &&& w.is_gt(&T::spec_zero()) ==> {
        &&& affine2_defined(p.x, p.y, m.m11, m.m21, m.m41)
        &&& affine2_defined(p.x, p.y, m.m12, m.m22, m.m42)
        &&& affine2(p.x, p.y, m.m11, m.m21, m.m41).div_req(w)
        &&& affine2(p.x, p.y, m.m12, m.m22, m.m42).div_req(w)
    }
}

/// `project_point3d(m, p)` can be evaluated: the homogeneous image, and where `w > 0`,
/// its division by `w`.
pub open spec fn project_point3d_defined<T: Add<Output = T> + Mul<Output = T> + Div<Output = T> + Zero + PartialOrd, U>(
    m: Matrix4<T>,
    p: Point3D<T, U>,
) -> bool {
    let w = affine3(p.x, p.y, p.z, m.m14, m.m24, m.m34, m.m44);
    &&& image3d_defined(m, p.x, p.y, p.z)
    &&& w.is_gt(&T::spec_zero()) ==> {
        &&& affine3(p.x, p.y, p.z, m.m11, m.m21, m.m31, m.m41).div_req(w)
        &&& affine3(p.x, p.y, p.z, m.m12, m.m22, m.m32, m.m42).div_req(w)
        &&& affine3(p.x, p.y, p.z, m.m13, m.m23, m.m33, m.m43).div_req(w)
    }
}

/// `project_rect(m, rect)` can be evaluated: the far corner, the images of the four
/// corners, and where all four exist, the size of their bounds.
pub open spec fn project_rect_defined<T: Copy + Add<Output = T> + Sub<Output = T> + Mul<Output = T> + Div<Output = T> + Zero + PartialOrd, U, V>(
    m: Matrix4<T>,
    rect: Rect<T, U>,
) -> bool {
    let x0 = rect.origin.x;
    let y0 = rect.origin.y;
    let x1 = plus(rect.origin.x, rect.size.width);
    let y1 = plus(rect.origin.y, rect.size.height);
    let corner = |x: T, y: T| Point2D::<T, U> { x, y, _unit: PhantomData };
    &&& rect.origin.x.add_req(rect.size.width)
    &&& rect.origin.y.add_req(rect.size.height)
    &&& project_point2d_defined(m, corner(x0, y0))
    &&& project_point2d_defined(m, corner(x1, y1))
    &&& project_point2d_defined(m, corner(x1, y0))
    &&& project_point2d_defined(m, corner(x0, y1))
    &&& match (
        project_point2d::<T, U, V>(m, corner(x0, y0)),
        project_point2d::<T, U, V>(m, corner(x1, y1)),
        project_point2d::<T, U, V>(m, corner(x1, y0)),
        project_point2d::<T, U, V>(m, corner(x0, y1)),
    ) {
        (Some(a), Some(b), Some(c), Some(d)) => bounding_rect_defined(seq![a, b, c, d]),
        _ => true,
    }
}

/// Methods for apply transformations to objects
impl<T: Copy + Add<Output = T> + Mul<Output = T>, Src, Dst> Transform3D<T, Src, Dst> {
    /// Returns the homogeneous vector corresponding to the transformed 2d point.
    ///
    /// The input point must be use the unit Src, and the returned point has the unit Dst.
    ///
    /// Assuming row vectors, this is equivalent to `p * self`
    pub fn transform_point2d_homogeneous(&self, p: Point2D<T, Src>) -> (r: HomogeneousVector<T, Dst>)
        requires
            obeys_add_mul::<T>() && image2d_defined(self@, p.x, p.y) || add_mul_total::<T>(),
        ensures
            obeys_add_mul::<T>() ==> {
                &&& r.x == affine2(p.x, p.y, self.m11, self.m21, self.m41)
                &&& r.y == affine2(p.x, p.y, self.m12, self.m22, self.m42)
                &&& r.z == affine2(p.x, p.y, self.m13, self.m23, self.m43)
                &&& r.w == affine2(p.x, p.y, self.m14, self.m24, self.m44)
            },
    {
        let x = p.x * self.m11 + p.y * self.m21 + self.m41;
        let y = p.x * self.m12 + p.y * self.m22 + self.m42;
        let z = p.x * self.m13 + p.y * self.m23 + self.m43;
        let w = p.x * self.m14 + p.y * self.m24 + self.m44;

        HomogeneousVector::new(x, y, z, w)
    }

    /// Returns the given 2d point transformed by this transform, if the transform makes sense,
    /// or `None` otherwise.
    ///
    /// The input point must be use the unit Src, and the returned point has the unit Dst.
    ///
    /// Assuming row vectors, this is equivalent to `p * self`
    pub fn transform_point2d(&self, p: Point2D<T, Src>) -> (r: Option<Point2D<T, Dst>>)
        where
            T: Div<Output = T> + Zero + PartialOrd,
        requires
            obeys_add_mul::<T>() && obeys_order::<T>() && project_point2d_defined(self@, p) || add_mul_total::<T>()
                && div_defined::<T>(),
        ensures
            obeys_add_mul::<T>() && T::obeys_div_spec() && obeys_order::<T>() ==> r
                == project_point2d::<T, Src, Dst>(self@, p),
    {
        let w = p.x * self.m14 + p.y * self.m24 + self.m44;
        if w > T::zero() {
            let x = p.x * self.m11 + p.y * self.m21 + self.m41;
            let y = p.x * self.m12 + p.y * self.m22 + self.m42;

            Some(Point2D::new(x / w, y / w))
        } else {
            None
        }
    }

    /// Returns the given 2d vector transformed by this matrix.
    ///
    /// The input point must be use the unit Src, and the returned point has the unit Dst.
    ///
    /// Assuming row vectors, this is equivalent to `v * self`
    pub fn transform_vector2d(&self, v: Vector2D<T, Src>) -> (r: Vector2D<T, Dst>)
        requires
            obeys_add_mul::<T>() && linear2_defined(v.x, v.y, self.m11, self.m21) && linear2_defined(
                v.x,
                v.y,
                self.m12,
                self.m22,
            ) || add_mul_total::<T>(),
        ensures
            obeys_add_mul::<T>() ==> {
                &&& r.x == plus(times(v.x, self.m11), times(v.y, self.m21))
                &&& r.y == plus(times(v.x, self.m12), times(v.y, self.m22))
            },
    {
        vec2(v.x * self.m11 + v.y * self.m21, v.x * self.m12 + v.y * self.m22)
    }

    /// Returns the homogeneous vector corresponding to the transformed 3d point.
    ///
    /// The input point must be use the unit Src, and the returned point has the unit Dst.
    ///
    /// Assuming row vectors, this is equivalent to `p * self`
    pub fn transform_point3d_homogeneous(&self, p: Point3D<T, Src>) -> (r: HomogeneousVector<T, Dst>)
        requires
            obeys_add_mul::<T>() && image3d_defined(self@, p.x, p.y, p.z) || add_mul_total::<T>(),
        ensures
            obeys_add_mul::<T>() ==> {
                &&& r.x == affine3(p.x, p.y, p.z, self.m11, self.m21, self.m31, self.m41)
                &&& r.y == affine3(p.x, p.y, p.z, self.m12, self.m22, self.m32, self.m42)
                &&& r.z == affine3(p.x, p.y, p.z, self.m13, self.m23, self.m33, self.m43)
                &&& r.w == affine3(p.x, p.y, p.z, self.m14, self.m24, self.m34, self.m44)
            },
    {
        let x = p.x * self.m11 + p.y * self.m21 + p.z * self.m31 + self.m41;
        let y = p.x * self.m12 + p.y * self.m22 + p.z * self.m32 + self.m42;
        let z = p.x * self.m13 + p.y * self.m23 + p.z * self.m33 + self.m43;
        let w = p.x * self.m14 + p.y * self.m24 + p.z * self.m34 + self.m44;

        HomogeneousVector::new(x, y, z, w)
    }

    /// Returns the given 3d point transformed by this transform, if the transform makes sense,
    /// or `None` otherwise.
    ///
    /// The input point must be use the unit Src, and the returned point has the unit Dst.
    ///
    /// Assuming row vectors, this is equivalent to `p * self`
    pub fn transform_point3d(&self, p: Point3D<T, Src>) -> (r: Option<Point3D<T, Dst>>)
        where
            T: Div<Output = T> + Zero + PartialOrd,
        requires
            obeys_add_mul::<T>() && obeys_order::<T>() && project_point3d_defined(self@, p) || add_mul_total::<T>()
                && div_defined::<T>(),
        ensures
            obeys_add_mul::<T>() && T::obeys_div_spec() && obeys_order::<T>() ==> r
                == project_point3d::<T, Src, Dst>(self@, p),
    {
        self.transform_point3d_homogeneous(p).to_point3d()
    }

    /// Returns the given 3d vector transformed by this matrix.
    ///
    /// The input point must be use the unit Src, and the returned point has the unit Dst.
    ///
    /// Assuming row vectors, this is equivalent to `v * self`
    pub fn transform_vector3d(&self, v: Vector3D<T, Src>) -> (r: Vector3D<T, Dst>)
        requires
            obeys_add_mul::<T>() && linear3_defined(v.x, v.y, v.z, self.m11, self.m21, self.m31)
                && linear3_defined(v.x, v.y, v.z, self.m12, self.m22, self.m32) && linear3_defined(
                v.x,
                v.y,
                v.z,
                self.m13,
                self.m23,
                self.m33,
            ) || add_mul_total::<T>(),
        ensures
            obeys_add_mul::<T>() ==> {
                &&& r.x == plus(plus(times(v.x, self.m11), times(v.y, self.m21)), times(v.z, self.m31))
                &&& r.y == plus(plus(times(v.x, self.m12), times(v.y, self.m22)), times(v.z, self.m32))
                &&& r.z == plus(plus(times(v.x, self.m13), times(v.y, self.m23)), times(v.z, self.m33))
            },
    {
        vec3(
            v.x * self.m11 + v.y * self.m21 + v.z * self.m31,
            v.x * self.m12 + v.y * self.m22 + v.z * self.m32,
            v.x * self.m13 + v.y * self.m23 + v.z * self.m33,
        )
    }

    /// Returns a rectangle that encompasses the result of transforming the given rectangle by this
    /// transform, if the transform makes sense for it, or `None` otherwise.
    pub fn transform_rect(&self, rect: &Rect<T, Src>) -> (r: Option<Rect<T, Dst>>)
        where
            T: Sub<Output = T> + Div<Output = T> + Zero + PartialOrd,
        requires
            obeys_field::<T>() && obeys_order::<T>() && project_rect_defined::<T, Src, Dst>(self@, *rect) || field_total::<T>(),
        ensures
            obeys_field::<T>() && obeys_order::<T>() ==> r == project_rect::<T, Src, Dst>(self@, *rect),
    {
        let min = rect.min();
        let max = rect.max();
        let a = match self.transform_point2d(point2(min.x, min.y)) {
            Some(p) => p,
            None => return None,
        };
        let b = match self.transform_point2d(point2(max.x, max.y)) {
            Some(p) => p,
            None => return None,
        };
        let c = match self.transform_point2d(point2(max.x, min.y)) {
            Some(p) => p,
            None => return None,
        };
        let d = match self.transform_point2d(point2(min.x, max.y)) {
            Some(p) => p,
            None => return None,
        };
        let corners = [a, b, c, d];
        proof {
            assert(corners@ =~= seq![a, b, c, d]);
        }
        Some(Rect::from_points(&corners))
    }
}

impl<
    T: Copy + Add<Output = T> + Sub<Output = T> + Mul<Output = T> + Div<Output = T> + Neg<Output = T> + PartialOrd + One + Zero,
    Src,
    Dst,
> Transform3D<T, Src, Dst> {
    /// Create an orthogonal projection transform.
    pub fn ortho(left: T, right: T, bottom: T, top: T, near: T, far: T) -> (r: Self)
        requires
            T::obeys_add_spec() && T::obeys_sub_spec() && T::obeys_div_spec() && T::obeys_neg_spec()
                && mat_ortho_defined(left, right, bottom, top, near, far) || add_defined::<T>()
                && sub_defined::<T>() && div_defined::<T>() && neg_defined::<T>(),
        ensures
            T::obeys_add_spec() && T::obeys_sub_spec() && T::obeys_div_spec() && T::obeys_neg_spec()
                ==> r@ == mat_ortho(left, right, bottom, top, near, far),
    {
        let tx = Neg::neg((right + left) / (right - left));
        let ty = Neg::neg((top + bottom) / (top - bottom));
        let tz = Neg::neg((far + near) / (far - near));

        let _0: T = T::zero();
        let _1: T = T::one();
        let _2 = _1 + _1;
        Transform3D::row_major(
            _2 / (right - left), _0, _0, _0,
            _0, _2 / (top - bottom), _0, _0,
            _0, _0, Neg::neg(_2) / (far - near), _0,
            tx, ty, tz, _1,
        )
    }

    /// Check whether shapes on the XY plane with Z pointing towards the
    /// screen transformed by this matrix would be facing back.
    pub fn is_backface_visible(&self) -> (r: bool)
        requires
            obeys_ring::<T>() && determinant_defined(self@) && adjugate_m33_defined(self@) && adjugate(
                self@,
            ).m33.mul_req(determinant(self@)) || ring_total::<T>(),
        ensures
            obeys_ring::<T>() && obeys_order::<T>() ==> (r <==> times(adjugate(self@).m33, determinant(self@)).is_lt(
                &T::spec_zero(),
            )),
    {
        // inverse().m33 < 0;
        let det = self.determinant();
        let m33 = self.m12 * self.m24 * self.m41 - self.m14 * self.m22 * self.m41 + self.m14 * self.m21 * self.m42 - self.m11 * self.m24 * self.m42 - self.m12 * self.m21 * self.m44 + self.m11 * self.m22 * self.m44;
        let _0: T = T::zero();
        (m33 * det) < _0
    }

    /// Returns whether it is possible to compute the inverse transform.
    pub fn is_invertible(&self) -> (r: bool)
        requires
            obeys_ring::<T>() && determinant_defined(self@) || ring_total::<T>(),
        ensures
            obeys_ring::<T>() && T::obeys_eq_spec() ==> (r <==> !determinant(self@).eq_spec(&T::spec_zero())),
    {
        self.determinant() != T::zero()
    }

    /// Returns the inverse transform if possible.
    pub fn inverse(&self) -> (r: Option<Transform3D<T, Dst, Src>>)
        requires
            obeys_field::<T>() && T::obeys_eq_spec() && inverse_defined(self@) || field_total::<T>(),
        ensures
            obeys_ring::<T>() && T::obeys_eq_spec() ==> (r is None <==> determinant(self@).eq_spec(
                &T::spec_zero(),
            )),
            r matches Some(inv) ==> obeys_field::<T>() ==> inv@ == mat_scaled(
                adjugate(self@),
                quot(T::spec_one(), determinant(self@)),
            ),
    {
        let det = self.determinant();

        if det == T::zero() {
            return None;
        }

        let m: Transform3D<T, Dst, Src> = Transform3D::row_major(
            self.m23*self.m34*self.m42 - self.m24*self.m33*self.m42 + self.m24*self.m32*self.m43 - self.m22*self.m34*self.m43 - self.m23*self.m32*self.m44 + self.m22*self.m33*self.m44,
            self.m14*self.m33*self.m42 - self.m13*self.m34*self.m42 - self.m14*self.m32*self.m43 + self.m12*self.m34*self.m43 + self.m13*self.m32*self.m44 - self.m12*self.m33*self.m44,
            self.m13*self.m24*self.m42 - self.m14*self.m23*self.m42 + self.m14*self.m22*self.m43 - self.m12*self.m24*self.m43 - self.m13*self.m22*self.m44 + self.m12*self.m23*self.m44,
            self.m14*self.m23*self.m32 - self.m13*self.m24*self.m32 - self.m14*self.m22*self.m33 + self.m12*self.m24*self.m33 + self.m13*self.m22*self.m34 - self.m12*self.m23*self.m34,
            self.m24*self.m33*self.m41 - self.m23*self.m34*self.m41 - self.m24*self.m31*self.m43 + self.m21*self.m34*self.m43 + self.m23*self.m31*self.m44 - self.m21*self.m33*self.m44,
            self.m13*self.m34*self.m41 - self.m14*self.m33*self.m41 + self.m14*self.m31*self.m43 - self.m11*self.m34*self.m43 - self.m13*self.m31*self.m44 + self.m11*self.m33*self.m44,
            self.m14*self.m23*self.m41 - self.m13*self.m24*self.m41 - self.m14*self.m21*self.m43 + self.m11*self.m24*self.m43 + self.m13*self.m21*self.m44 - self.m11*self.m23*self.m44,
            self.m13*self.m24*self.m31 - self.m14*self.m23*self.m31 + self.m14*self.m21*self.m33 - self.m11*self.m24*self.m33 - self.m13*self.m21*self.m34 + self.m11*self.m23*self.m34,
            self.m22*self.m34*self.m41 - self.m24*self.m32*self.m41 + self.m24*self.m31*self.m42 - self.m21*self.m34*self.m42 - self.m22*self.m31*self.m44 + self.m21*self.m32*self.m44,
            self.m14*self.m32*self.m41 - self.m12*self.m34*self.m41 - self.m14*self.m31*self.m42 + self.m11*self.m34*self.m42 + self.m12*self.m31*self.m44 - self.m11*self.m32*self.m44,
            self.m12*self.m24*self.m41 - self.m14*self.m22*self.m41 + self.m14*self.m21*self.m42 - self.m11*self.m24*self.m42 - self.m12*self.m21*self.m44 + self.m11*self.m22*self.m44,
            self.m14*self.m22*self.m31 - self.m12*self.m24*self.m31 - self.m14*self.m21*self.m32 + self.m11*self.m24*self.m32 + self.m12*self.m21*self.m34 - self.m11*self.m22*self.m34,
            self.m23*self.m32*self.m41 - self.m22*self.m33*self.m41 - self.m23*self.m31*self.m42 + self.m21*self.m33*self.m42 + self.m22*self.m31*self.m43 - self.m21*self.m32*self.m43,
            self.m12*self.m33*self.m41 - self.m13*self.m32*self.m41 + self.m13*self.m31*self.m42 - self.m11*self.m33*self.m42 - self.m12*self.m31*self.m43 + self.m11*self.m32*self.m43,
            self.m13*self.m22*self.m41 - self.m12*self.m23*self.m41 - self.m13*self.m21*self.m42 + self.m11*self.m23*self.m42 + self.m12*self.m21*self.m43 - self.m11*self.m22*self.m43,
            self.m12*self.m23*self.m31 - self.m13*self.m22*self.m31 + self.m13*self.m21*self.m32 - self.m11*self.m23*self.m32 - self.m12*self.m21*self.m33 + self.m11*self.m22*self.m33,
        );

        let _1: T = T::one();
        Some(m.mul_s(_1 / det))
    }

    /// Compute the determinant of the transform.
    pub fn determinant(&self) -> (r: T)
        requires
            obeys_ring::<T>() && determinant_defined(self@) || ring_total::<T>(),
        ensures
            obeys_ring::<T>() ==> r == determinant(self@),
    {
        self.m14 * self.m23 * self.m32 * self.m41 - self.m13 * self.m24 * self.m32 * self.m41 - self.m14 * self.m22 * self.m33 * self.m41 + self.m12 * self.m24 * self.m33 * self.m41 + self.m13 * self.m22 * self.m34 * self.m41 - self.m12 * self.m23 * self.m34 * self.m41 - self.m14 * self.m23 * self.m31 * self.m42 + self.m13 * self.m24 * self.m31 * self.m42 + self.m14 * self.m21 * self.m33 * self.m42 - self.m11 * self.m24 * self.m33 * self.m42 - self.m13 * self.m21 * self.m34 * self.m42 + self.m11 * self.m23 * self.m34 * self.m42 + self.m14 * self.m22 * self.m31 * self.m43 - self.m12 * self.m24 * self.m31 * self.m43 - self.m14 * self.m21 * self.m32 * self.m43 + self.m11 * self.m24 * self.m32 * self.m43 + self.m12 * self.m21 * self.m34 * self.m43 - self.m11 * self.m22 * self.m34 * self.m43 - self.m13 * self.m22 * self.m31 * self.m44 + self.m12 * self.m23 * self.m31 * self.m44 + self.m13 * self.m21 * self.m32 * self.m44 - self.m11 * self.m23 * self.m32 * self.m44 - self.m12 * self.m21 * self.m33 * self.m44 + self.m11 * self.m22 * self.m33 * self.m44
    }

    /// Multiplies all of the transform's component by a scalar and returns the result.
    pub fn mul_s(&self, x: T) -> (r: Self)
        requires
            mat_scaled_defined(self@, x),
        ensures
            T::obeys_mul_spec() ==> r@ == mat_scaled(self@, x),
    {
        Transform3D::row_major(
            self.m11 * x, self.m12 * x, self.m13 * x, self.m14 * x,
            self.m21 * x, self.m22 * x, self.m23 * x, self.m24 * x,
            self.m31 * x, self.m32 * x, self.m33 * x, self.m34 * x,
            self.m41 * x, self.m42 * x, self.m43 * x, self.m44 * x,
        )
    }

    /// Convenience function to create a scale transform from a `Scale`.
    pub fn from_scale(scale: Scale<T, Src, Dst>) -> (r: Self)
        ensures
            r@ == mat_scale(scale.0, scale.0, scale.0),
    {
        Transform3D::create_scale(scale.0, scale.0, scale.0)
    }
}

/// The projection of `m` in 2d space: the third row and column replaced by those of the
/// identity; where `m14` and `m24` are zero and `m44` is neither zero nor one, the 2d terms
/// are divided by `m44` and `m44` becomes one.
pub open spec fn mat_projected_2d<T: Mul<Output = T> + Div<Output = T> + Zero + One + PartialEq>(m: Matrix4<T>) -> Matrix4<T> {
    let o = T::spec_zero();
    let l = T::spec_one();
    if m.m14.eq_spec(&o) && m.m24.eq_spec(&o) && !m.m44.eq_spec(&o) && !m.m44.eq_spec(&l) {
        let s = quot(l, m.m44);
        matrix(
            times(m.m11, s), times(m.m12, s), o, m.m14,
            times(m.m21, s), times(m.m22, s), o, m.m24,
            o, o, l, o,
            times(m.m41, s), times(m.m42, s), o, l,
        )
    } else {
        matrix(
            m.m11, m.m12, o, m.m14,
            m.m21, m.m22, o, m.m24,
            o, o, l, o,
            m.m41, m.m42, o, m.m44,
        )
    }
}

/// `mat_projected_2d(m)` can be evaluated: where it normalizes, `1 / m44` and the six
/// products by it.
pub open spec fn projected_2d_defined<T: Mul<Output = T> + Div<Output = T> + Zero + One + PartialEq>(m: Matrix4<T>) -> bool {
    let o = T::spec_zero();
    let l = T::spec_one();
    let s = quot(l, m.m44);
    m.m14.eq_spec(&o) && m.m24.eq_spec(&o) && !m.m44.eq_spec(&o) && !m.m44.eq_spec(&l) ==> {
        &&& l.div_req(m.m44)
        &&& m.m11.mul_req(s)
        &&& m.m12.mul_req(s)
        &&& m.m21.mul_req(s)
        &&& m.m22.mul_req(s)
        &&& m.m41.mul_req(s)
        &&& m.m42.mul_req(s)
    }
}

impl<T: Copy + Mul<Output = T> + Div<Output = T> + Zero + One + PartialEq, Src, Dst> Transform3D<T, Src, Dst> {
    /// Returns a projection of this transform in 2d space.
    pub fn project_to_2d(&self) -> (r: Self)
        requires
            T::obeys_eq_spec() && T::obeys_div_spec() && projected_2d_defined(self@) || mul_defined::<T>()
                && div_defined::<T>(),
        ensures
            T::obeys_eq_spec() && T::obeys_mul_spec() && T::obeys_div_spec() ==> r@ == mat_projected_2d(self@),
    {
        let _0: T = T::zero();
        let _1: T = T::one();

        let mut result = *self;

        result.m31 = _0;
        result.m32 = _0;
        result.m13 = _0;
        result.m23 = _0;
        result.m33 = _1;
        result.m43 = _0;
        result.m34 = _0;

        // Try to normalize perspective when possible to convert to a 2d matrix.
        // Some matrices, such as those derived from perspective transforms, can
        // modify m44 from 1, while leaving the rest of the fourth column
        // (m14, m24) at 0. In this case, after resetting the third row and
        // third column above, the value of m44 functions only to scale the
        // coordinate transform divide by W. The matrix can be converted to
        // a true 2D matrix by normalizing out the scaling effect of m44 on
        // the remaining components ahead of time.
        if self.m14 == _0 && self.m24 == _0 && self.m44 != _0 && self.m44 != _1 {
            let scale = _1 / self.m44;
            result.m11 = result.m11 * scale;
            result.m12 = result.m12 * scale;
            result.m21 = result.m21 * scale;
            result.m22 = result.m22 * scale;
            result.m41 = result.m41 * scale;
            result.m42 = result.m42 * scale;
            result.m44 = _1;
        }

        result
    }
}

impl<T: ApproxEq<T>, Src, Dst> Transform3D<T, Src, Dst> {
    /// Returns true is this transform is approximately equal to the other one, using
    /// T's default epsilon value.
    ///
    /// The same as [`ApproxEq::approx_eq()`] but available without importing trait.
    pub fn approx_eq(&self, other: &Self) -> (r: bool)
        ensures
            r == self.spec_approx_eq_eps(other, &T::spec_approx_epsilon()),
    {
        ApproxEq::approx_eq(self, other)
    }

    /// Returns true is this transform is approximately equal to the other one, using
    /// a provided epsilon value.
    ///
    /// The same as [`ApproxEq::approx_eq_eps()`] but available without importing trait.
    pub fn approx_eq_eps(&self, other: &Self, eps: &T) -> (r: bool)
        ensures
            r == self.spec_approx_eq_eps(other, eps),
    {
        ApproxEq::approx_eq_eps(self, other, eps)
    }
}

impl<T: ApproxEq<T>, Src, Dst> ApproxEq<T> for Transform3D<T, Src, Dst> {
    open spec fn spec_approx_epsilon() -> T {
        T::spec_approx_epsilon()
    }

    open spec fn spec_approx_eq_eps(&self, other: &Self, eps: &T) -> bool {
        &&& self.m11.spec_approx_eq_eps(&other.m11, eps)
        &&& self.m12.spec_approx_eq_eps(&other.m12, eps)
        &&& self.m13.spec_approx_eq_eps(&other.m13, eps)
        &&& self.m14.spec_approx_eq_eps(&other.m14, eps)
        &&& self.m21.spec_approx_eq_eps(&other.m21, eps)
        &&& self.m22.spec_approx_eq_eps(&other.m22, eps)
        &&& self.m23.spec_approx_eq_eps(&other.m23, eps)
        &&& self.m24.spec_approx_eq_eps(&other.m24, eps)
        &&& self.m31.spec_approx_eq_eps(&other.m31, eps)
        &&& self.m32.spec_approx_eq_eps(&other.m32, eps)
        &&& self.m33.spec_approx_eq_eps(&other.m33, eps)
        &&& self.m34.spec_approx_eq_eps(&other.m34, eps)
        &&& self.m41.spec_approx_eq_eps(&other.m41, eps)
        &&& self.m42.spec_approx_eq_eps(&other.m42, eps)
        &&& self.m43.spec_approx_eq_eps(&other.m43, eps)
        &&& self.m44.spec_approx_eq_eps(&other.m44, eps)
    }

    fn approx_epsilon() -> (r: T) {
        T::approx_epsilon()
    }

    fn approx_eq_eps(&self, other: &Self, eps: &T) -> (r: bool) {
        self.m11.approx_eq_eps(&other.m11, eps) &&
        self.m12.approx_eq_eps(&other.m12, eps) &&
        self.m13.approx_eq_eps(&other.m13, eps) &&
        self.m14.approx_eq_eps(&other.m14, eps) &&
        self.m21.approx_eq_eps(&other.m21, eps) &&
        self.m22.approx_eq_eps(&other.m22, eps) &&
        self.m23.approx_eq_eps(&other.m23, eps) &&
        self.m24.approx_eq_eps(&other.m24, eps) &&
        self.m31.approx_eq_eps(&other.m31, eps) &&
        self.m32.approx_eq_eps(&other.m32, eps) &&
        self.m33.approx_eq_eps(&other.m33, eps) &&
        self.m34.approx_eq_eps(&other.m34, eps) &&
        self.m41.approx_eq_eps(&other.m41, eps) &&
        self.m42.approx_eq_eps(&other.m42, eps) &&
        self.m43.approx_eq_eps(&other.m43, eps) &&
        self.m44.approx_eq_eps(&other.m44, eps)
    }
}

/// `num_traits::NumCast::from`: `n` converted to the type `U`, or `None` where `U` cannot
/// represent it.  The wrapper states no clause of its own: which values convert, and to
/// what, is decided by the `ToPrimitive` and `NumCast` impls of the two types, which any
/// crate may write.  A caller ties what came back to the argument that went in through
/// `call_ensures` on this function.
#[verifier::external_body]
pub fn num_cast<T: NumCast, U: NumCast>(n: T) -> (r: Option<U>) {
    NumCast::from(n)
}

/// The entries, in row-major order, that a conversion produced for each entry.
pub type CastParts<T> = (Option<T>, Option<T>, Option<T>, Option<T>, Option<T>, Option<T>, Option<T>, Option<T>, Option<T>, Option<T>, Option<T>, Option<T>, Option<T>, Option<T>, Option<T>, Option<T>);

impl<T, Src, Dst> Transform3D<T, Src, Dst> {
    /// The transform whose entries, in row-major order, are the converted entries in
    /// `parts`, if every entry was converted, or `None` otherwise.
    pub fn from_cast_parts(parts: CastParts<T>) -> (r: Option<Self>)
        ensures
            r is Some <==> {
                &&& parts.0 is Some
                &&& parts.1 is Some
                &&& parts.2 is Some
                &&& parts.3 is Some
                &&& parts.4 is Some
                &&& parts.5 is Some
                &&& parts.6 is Some
                &&& parts.7 is Some
                &&& parts.8 is Some
                &&& parts.9 is Some
                &&& parts.10 is Some
                &&& parts.11 is Some
                &&& parts.12 is Some
                &&& parts.13 is Some
                &&& parts.14 is Some
                &&& parts.15 is Some
            },
            r matches Some(t) ==> t@ == matrix(
                parts.0->0, parts.1->0, parts.2->0, parts.3->0,
                parts.4->0, parts.5->0, parts.6->0, parts.7->0,
                parts.8->0, parts.9->0, parts.10->0, parts.11->0,
                parts.12->0, parts.13->0, parts.14->0, parts.15->0,
            ),
    {
        match parts {
            (
                Some(m11), Some(m12), Some(m13), Some(m14),
                Some(m21), Some(m22), Some(m23), Some(m24),
                Some(m31), Some(m32), Some(m33), Some(m34),
                Some(m41), Some(m42), Some(m43), Some(m44),
            ) => Some(Transform3D::row_major(
                m11, m12, m13, m14,
                m21, m22, m23, m24,
                m31, m32, m33, m34,
                m41, m42, m43, m44,
            )),
            _ => None,
        }
    }
}

impl<T: NumCast + Copy, Src, Dst> Transform3D<T, Src, Dst> {
    /// Fallible cast from one numeric representation to another, preserving the units:
    /// each entry is converted with `NumCast::from`; the result holds, entry by entry, what
    /// the conversion of the same entry returned, or is `None` if one of them returned `None`.
    pub fn try_cast<NewT: NumCast>(&self) -> (r: Option<Transform3D<NewT, Src, Dst>>)
        ensures
            r matches Some(t) ==> call_ensures(num_cast::<T, NewT>, (self.m11,), Some(t.m11)),
            r matches Some(t) ==> call_ensures(num_cast::<T, NewT>, (self.m12,), Some(t.m12)),
            r matches Some(t) ==> call_ensures(num_cast::<T, NewT>, (self.m13,), Some(t.m13)),
            r matches Some(t) ==> call_ensures(num_cast::<T, NewT>, (self.m14,), Some(t.m14)),
            r matches Some(t) ==> call_ensures(num_cast::<T, NewT>, (self.m21,), Some(t.m21)),
            r matches Some(t) ==> call_ensures(num_cast::<T, NewT>, (self.m22,), Some(t.m22)),
            r matches Some(t) ==> call_ensures(num_cast::<T, NewT>, (self.m23,), Some(t.m23)),
            r matches Some(t) ==> call_ensures(num_cast::<T, NewT>, (self.m24,), Some(t.m24)),
            r matches Some(t) ==> call_ensures(num_cast::<T, NewT>, (self.m31,), Some(t.m31)),
            r matches Some(t) ==> call_ensures(num_cast::<T, NewT>, (self.m32,), Some(t.m32)),
            r matches Some(t) ==> call_ensures(num_cast::<T, NewT>, (self.m33,), Some(t.m33)),
            r matches Some(t) ==> call_ensures(num_cast::<T, NewT>, (self.m34,), Some(t.m34)),
            r matches Some(t) ==> call_ensures(num_cast::<T, NewT>, (self.m41,), Some(t.m41)),
            r matches Some(t) ==> call_ensures(num_cast::<T, NewT>, (self.m42,), Some(t.m42)),
            r matches Some(t) ==> call_ensures(num_cast::<T, NewT>, (self.m43,), Some(t.m43)),
            r matches Some(t) ==> call_ensures(num_cast::<T, NewT>, (self.m44,), Some(t.m44)),
            r is None ==> {
                ||| call_ensures(num_cast::<T, NewT>, (self.m11,), None::<NewT>)
                ||| call_ensures(num_cast::<T, NewT>, (self.m12,), None::<NewT>)
                ||| call_ensures(num_cast::<T, NewT>, (self.m13,), None::<NewT>)
                ||| call_ensures(num_cast::<T, NewT>, (self.m14,), None::<NewT>)
                ||| call_ensures(num_cast::<T, NewT>, (self.m21,), None::<NewT>)
                ||| call_ensures(num_cast::<T, NewT>, (self.m22,), None::<NewT>)
                ||| call_ensures(num_cast::<T, NewT>, (self.m23,), None::<NewT>)
                ||| call_ensures(num_cast::<T, NewT>, (self.m24,), None::<NewT>)
                ||| call_ensures(num_cast::<T, NewT>, (self.m31,), None::<NewT>)
                ||| call_ensures(num_cast::<T, NewT>, (self.m32,), None::<NewT>)
                ||| call_ensures(num_cast::<T, NewT>, (self.m33,), None::<NewT>)
                ||| call_ensures(num_cast::<T, NewT>, (self.m34,), None::<NewT>)
                ||| call_ensures(num_cast::<T, NewT>, (self.m41,), None::<NewT>)
                ||| call_ensures(num_cast::<T, NewT>, (self.m42,), None::<NewT>)
                ||| call_ensures(num_cast::<T, NewT>, (self.m43,), None::<NewT>)
                ||| call_ensures(num_cast::<T, NewT>, (self.m44,), None::<NewT>)
            },
    {
        let cast = num_cast::<T, NewT>;
        let parts = (
            cast(self.m11),
            cast(self.m12),
            cast(self.m13),
            cast(self.m14),
            cast(self.m21),
            cast(self.m22),
            cast(self.m23),
            cast(self.m24),
            cast(self.m31),
            cast(self.m32),
            cast(self.m33),
            cast(self.m34),
            cast(self.m41),
            cast(self.m42),
            cast(self.m43),
            cast(self.m44),
        );
        Transform3D::from_cast_parts(parts)
    }
}

impl<T: Zero + One, Src, Dst> Default for Transform3D<T, Src, Dst> {
    /// Returns the [identity transform](#method.identity).
    fn default() -> (r: Self)
        ensures
            r@ == mat_identity::<T>(),
    {
        Self::identity()
    }
}



} // verus!
