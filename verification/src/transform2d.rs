//! 2d transforms: 3 by 2 matrices acting on row vectors `(x y 1)`.
use crate::num::{minus, ApproxEq, One, Trig, Zero};
use core::marker::PhantomData;
use core::ops::Sub;
use vstd::prelude::*;
use vstd::std_specs::ops::SubSpec;

verus! {

/// A 2d transform from the unit `Src` to the unit `Dst`, in row-major order:
///
/// ```text
/// m11 m12
/// m21 m22
/// m31 m32
/// ```
#[derive(Clone, Copy, Debug, PartialEq)]
pub struct Transform2D<T, Src, Dst> {
    pub m11: T,
    pub m12: T,
    pub m21: T,
    pub m22: T,
    pub m31: T,
    pub m32: T,
    pub _unit: PhantomData<(Src, Dst)>,
}

impl<T, Src, Dst> Transform2D<T, Src, Dst> {
    /// Create a transform specifying its components in row-major order.
    pub fn row_major(m11: T, m12: T, m21: T, m22: T, m31: T, m32: T) -> (r: Self)
        ensures
            r.m11 == m11,
            r.m12 == m12,
            r.m21 == m21,
            r.m22 == m22,
            r.m31 == m31,
            r.m32 == m32,
    {
        Transform2D { m11, m12, m21, m22, m31, m32, _unit: PhantomData }
    }
}

impl<T: Zero + One, Src, Dst> Transform2D<T, Src, Dst> {
    /// The translation by `(x, y)`.
    pub fn create_translation(x: T, y: T) -> (r: Self)
        ensures
            r.m11 == T::spec_one(),
            r.m12 == T::spec_zero(),
            r.m21 == T::spec_zero(),
            r.m22 == T::spec_one(),
            r.m31 == x,
            r.m32 == y,
    {
        Self::row_major(T::one(), T::zero(), T::zero(), T::one(), x, y)
    }

    /// The scale by `(x, y)`.
    pub fn create_scale(x: T, y: T) -> (r: Self)
        ensures
            r.m11 == x,
            r.m12 == T::spec_zero(),
            r.m21 == T::spec_zero(),
            r.m22 == y,
            r.m31 == T::spec_zero(),
            r.m32 == T::spec_zero(),
    {
        Self::row_major(x, T::zero(), T::zero(), y, T::zero(), T::zero())
    }
}

impl<T: Copy + Zero + One + Trig + Sub<Output = T>, Src, Dst> Transform2D<T, Src, Dst> {
    /// The rotation by `theta` (radians): `(cos sin, -sin cos, 0 0)`.
    pub fn create_rotation(theta: crate::units::Angle<T>) -> (r: Self)
        requires
            T::spec_zero().sub_req(theta.radians.spec_sin()),
        ensures
            r.m11 == theta.radians.spec_cos(),
            r.m12 == theta.radians.spec_sin(),
            T::obeys_sub_spec() ==> r.m21 == minus(T::spec_zero(), theta.radians.spec_sin()),
            r.m22 == theta.radians.spec_cos(),
            r.m31 == T::spec_zero(),
            r.m32 == T::spec_zero(),
    {
        let cos = theta.get().cos();
        let sin = theta.get().sin();
        Self::row_major(cos, sin, T::zero() - sin, cos, T::zero(), T::zero())
    }
}

impl<T: ApproxEq<T>, Src, Dst> ApproxEq<T> for Transform2D<T, Src, Dst> {
    open spec fn spec_approx_epsilon() -> T {
        T::spec_approx_epsilon()
    }

    open spec fn spec_approx_eq_eps(&self, other: &Self, eps: &T) -> bool {
        &&& self.m11.spec_approx_eq_eps(&other.m11, eps)
        &&& self.m12.spec_approx_eq_eps(&other.m12, eps)
        &&& self.m21.spec_approx_eq_eps(&other.m21, eps)
        &&& self.m22.spec_approx_eq_eps(&other.m22, eps)
        &&& self.m31.spec_approx_eq_eps(&other.m31, eps)
        &&& self.m32.spec_approx_eq_eps(&other.m32, eps)
    }

    fn approx_epsilon() -> (r: T) {
        T::approx_epsilon()
    }

    fn approx_eq_eps(&self, other: &Self, eps: &T) -> (r: bool) {
        self.m11.approx_eq_eps(&other.m11, eps) && self.m12.approx_eq_eps(&other.m12, eps)
            && self.m21.approx_eq_eps(&other.m21, eps) && self.m22.approx_eq_eps(&other.m22, eps)
            && self.m31.approx_eq_eps(&other.m31, eps) && self.m32.approx_eq_eps(&other.m32, eps)
    }
}

} // verus!
