//! Points, vectors, sizes, rectangles and homogeneous vectors, each tagged with a unit.
use crate::num::{obeys_order, minus, plus, quot, sub_defined, div_defined, add_defined, ApproxEq, Zero};
use core::marker::PhantomData;
use core::ops::{Add, Div, Sub};
use vstd::prelude::*;
use vstd::std_specs::cmp::PartialOrdIs;
use vstd::std_specs::ops::{AddSpec, DivSpec, SubSpec};

verus! {

/// A 2d point.
#[derive(Clone, Copy, Debug, PartialEq)]
pub struct Point2D<T, U> {
    pub x: T,
    pub y: T,
    pub _unit: PhantomData<U>,
}

/// A 3d point.
#[derive(Clone, Copy, Debug, PartialEq)]
pub struct Point3D<T, U> {
    pub x: T,
    pub y: T,
    pub z: T,
    pub _unit: PhantomData<U>,
}

/// A 2d vector.
#[derive(Clone, Copy, Debug, PartialEq)]
pub struct Vector2D<T, U> {
    pub x: T,
    pub y: T,
    pub _unit: PhantomData<U>,
}

/// A 3d vector.
#[derive(Clone, Copy, Debug, PartialEq)]
pub struct Vector3D<T, U> {
    pub x: T,
    pub y: T,
    pub z: T,
    pub _unit: PhantomData<U>,
}

/// A 2d size.
#[derive(Clone, Copy, Debug, PartialEq)]
pub struct Size2D<T, U> {
    pub width: T,
    pub height: T,
    pub _unit: PhantomData<U>,
}

/// An axis-aligned rectangle given by its origin (smallest corner) and size.
#[derive(Clone, Copy, Debug, PartialEq)]
pub struct Rect<T, U> {
    pub origin: Point2D<T, U>,
    pub size: Size2D<T, U>,
}

/// A point in homogeneous coordinates.
#[derive(Clone, Copy, Debug, PartialEq)]
pub struct HomogeneousVector<T, U> {
    pub x: T,
    pub y: T,
    pub z: T,
    pub w: T,
    pub _unit: PhantomData<U>,
}

/// Shorthand for `Point2D::new(x, y)`.
pub fn point2<T, U>(x: T, y: T) -> (r: Point2D<T, U>)
    ensures
        r.x == x,
        r.y == y,
{
    Point2D { x, y, _unit: PhantomData }
}

/// Shorthand for `Point3D::new(x, y, z)`.
pub fn point3<T, U>(x: T, y: T, z: T) -> (r: Point3D<T, U>)
    ensures
        r.x == x,
        r.y == y,
        r.z == z,
{
    Point3D { x, y, z, _unit: PhantomData }
}

/// Shorthand for `Vector2D::new(x, y)`.
pub fn vec2<T, U>(x: T, y: T) -> (r: Vector2D<T, U>)
    ensures
        r.x == x,
        r.y == y,
{
    Vector2D { x, y, _unit: PhantomData }
}

/// Shorthand for `Vector3D::new(x, y, z)`.
pub fn vec3<T, U>(x: T, y: T, z: T) -> (r: Vector3D<T, U>)
    ensures
        r.x == x,
        r.y == y,
        r.z == z,
{
    Vector3D { x, y, z, _unit: PhantomData }
}

impl<T, U> Point2D<T, U> {
    pub fn new(x: T, y: T) -> (r: Self)
        ensures
            r.x == x,
            r.y == y,
    {
        Point2D { x, y, _unit: PhantomData }
    }
}

impl<T, U> Point3D<T, U> {
    pub fn new(x: T, y: T, z: T) -> (r: Self)
        ensures
            r.x == x,
            r.y == y,
            r.z == z,
    {
        Point3D { x, y, z, _unit: PhantomData }
    }
}

impl<T: Copy, U> Vector2D<T, U> {
    /// The point at this offset from the origin.
    pub fn to_point(&self) -> (r: Point2D<T, U>)
        ensures
            r.x == self.x,
            r.y == self.y,
    {
        point2(self.x, self.y)
    }
}

impl<T: Copy, U> Vector3D<T, U> {
    /// The point at this offset from the origin.
    pub fn to_point(&self) -> (r: Point3D<T, U>)
        ensures
            r.x == self.x,
            r.y == self.y,
            r.z == self.z,
    {
        point3(self.x, self.y, self.z)
    }
}

impl<T, U> Size2D<T, U> {
    pub fn new(width: T, height: T) -> (r: Self)
        ensures
            r.width == width,
            r.height == height,
    {
        Size2D { width, height, _unit: PhantomData }
    }
}

impl<T, U> HomogeneousVector<T, U> {
    pub fn new(x: T, y: T, z: T, w: T) -> (r: Self)
        ensures
            r.x == x,
            r.y == y,
            r.z == z,
            r.w == w,
    {
        HomogeneousVector { x, y, z, w, _unit: PhantomData }
    }
}

impl<T: Copy + Div<Output = T> + Zero + PartialOrd, U> HomogeneousVector<T, U> {
    /// The 3d point this vector stands for, if `w` is greater than zero, or `None`.
    pub fn to_point3d(&self) -> (r: Option<Point3D<T, U>>)
        requires
            obeys_order::<T>() && (self.w.is_gt(&T::spec_zero()) ==> self.x.div_req(self.w) && self.y.div_req(self.w) && self.z.div_req(self.w)) || div_defined::<T>(),
        ensures
            obeys_order::<T>() ==> (r is Some <==> self.w.is_gt(&T::spec_zero())),
            r matches Some(p) ==> T::obeys_div_spec() ==> {
                &&& p.x == quot(self.x, self.w)
                &&& p.y == quot(self.y, self.w)
                &&& p.z == quot(self.z, self.w)
            },
    {
        if self.w > T::zero() {
            Some(point3(self.x / self.w, self.y / self.w, self.z / self.w))
        } else {
            None
        }
    }

    /// The 2d point this vector stands for, if `w` is greater than zero, or `None`.
    pub fn to_point2d(&self) -> (r: Option<Point2D<T, U>>)
        requires
            obeys_order::<T>() && (self.w.is_gt(&T::spec_zero()) ==> self.x.div_req(self.w) && self.y.div_req(self.w)) || div_defined::<T>(),
        ensures
            obeys_order::<T>() ==> (r is Some <==> self.w.is_gt(&T::spec_zero())),
            r matches Some(p) ==> T::obeys_div_spec() ==> {
                &&& p.x == quot(self.x, self.w)
                &&& p.y == quot(self.y, self.w)
            },
    {
        if self.w > T::zero() {
            Some(point2(self.x / self.w, self.y / self.w))
        } else {
            None
        }
    }
}

/// The smallest of the first `n` values of `xs`, as a left-to-right scan with `<` picks it:
/// a later value replaces the running minimum only if it is less than it.
pub open spec fn scan_min<T: PartialOrd>(xs: Seq<T>, n: int) -> T
    decreases n,
{
    if n <= 1 {
        xs[0]
    } else {
        let m = scan_min(xs, n - 1);
        if xs[n - 1].is_lt(&m) {
            xs[n - 1]
        } else {
            m
        }
    }
}

/// The greatest of the first `n` values of `xs`, as a left-to-right scan with `>` picks it.
pub open spec fn scan_max<T: PartialOrd>(xs: Seq<T>, n: int) -> T
    decreases n,
{
    if n <= 1 {
        xs[0]
    } else {
        let m = scan_max(xs, n - 1);
        if xs[n - 1].is_gt(&m) {
            xs[n - 1]
        } else {
            m
        }
    }
}

/// The x coordinates of a sequence of points.
pub open spec fn xs_of<T, U>(pts: Seq<Point2D<T, U>>) -> Seq<T> {
    pts.map_values(|p: Point2D<T, U>| p.x)
}

/// The y coordinates of a sequence of points.
pub open spec fn ys_of<T, U>(pts: Seq<Point2D<T, U>>) -> Seq<T> {
    pts.map_values(|p: Point2D<T, U>| p.y)
}

/// The smallest rectangle holding `pts`, with its corners found by a left-to-right scan;
/// the empty rectangle at the origin when there are no points.
pub open spec fn bounding_rect<T: Sub<Output = T> + Zero + PartialOrd, U>(pts: Seq<Point2D<T, U>>) -> Rect<T, U> {
    let o = T::spec_zero();
    if pts.len() == 0 {
        Rect {
            origin: Point2D { x: o, y: o, _unit: PhantomData },
            size: Size2D { width: o, height: o, _unit: PhantomData },
        }
    } else {
        let n = pts.len() as int;
        let min_x = scan_min(xs_of(pts), n);
        let min_y = scan_min(ys_of(pts), n);
        let max_x = scan_max(xs_of(pts), n);
        let max_y = scan_max(ys_of(pts), n);
        Rect {
            origin: Point2D { x: min_x, y: min_y, _unit: PhantomData },
            size: Size2D { width: minus(max_x, min_x), height: minus(max_y, min_y), _unit: PhantomData },
        }
    }
}

/// The size of `bounding_rect(pts)` can be evaluated: the subtractions `max - min` are defined.
pub open spec fn bounding_rect_defined<T: Sub<Output = T> + PartialOrd, U>(pts: Seq<Point2D<T, U>>) -> bool {
    let n = pts.len() as int;
    pts.len() > 0 ==> {
        &&& scan_max(xs_of(pts), n).sub_req(scan_min(xs_of(pts), n))
        &&& scan_max(ys_of(pts), n).sub_req(scan_min(ys_of(pts), n))
    }
}

impl<T: Copy, U> Rect<T, U> {
    pub fn new(origin: Point2D<T, U>, size: Size2D<T, U>) -> (r: Self)
        ensures
            r.origin == origin,
            r.size == size,
    {
        Rect { origin, size }
    }

    /// The smallest corner.
    pub fn min(&self) -> (r: Point2D<T, U>)
        ensures
            r.x == self.origin.x,
            r.y == self.origin.y,
    {
        point2(self.origin.x, self.origin.y)
    }
}

impl<T: Copy + Add<Output = T>, U> Rect<T, U> {
    /// The greatest corner: `origin + size`.
    pub fn max(&self) -> (r: Point2D<T, U>)
        requires
            self.origin.x.add_req(self.size.width),
            self.origin.y.add_req(self.size.height),
        ensures
            T::obeys_add_spec() ==> r.x == plus(self.origin.x, self.size.width),
            T::obeys_add_spec() ==> r.y == plus(self.origin.y, self.size.height),
    {
        point2(self.origin.x + self.size.width, self.origin.y + self.size.height)
    }
}

impl<T: Copy + Sub<Output = T> + Zero + PartialOrd, U> Rect<T, U> {
    /// The smallest rectangle that holds all of `points`; the empty rectangle at the
    /// origin when there are none.
    pub fn from_points(points: &[Point2D<T, U>]) -> (r: Self)
        requires
            obeys_order::<T>() && bounding_rect_defined(points@) || sub_defined::<T>(),
        ensures
            points.len() == 0 || (obeys_order::<T>() && T::obeys_sub_spec()) ==> r == bounding_rect(
                points@,
            ),
    {
        if points.len() == 0 {
            return Rect::new(point2(T::zero(), T::zero()), Size2D::new(T::zero(), T::zero()));
        }
        let mut min_x = points[0].x;
        let mut min_y = points[0].y;
        let mut max_x = min_x;
        let mut max_y = min_y;
        let mut i: usize = 1;
        while i < points.len()
            invariant
                1 <= i <= points.len(),
                obeys_order::<T>() ==> {
                    &&& min_x == scan_min(xs_of(points@), i as int)
                    &&& min_y == scan_min(ys_of(points@), i as int)
                    &&& max_x == scan_max(xs_of(points@), i as int)
                    &&& max_y == scan_max(ys_of(points@), i as int)
                },
            decreases points.len() - i,
        {
            let p = &points[i];
            assert(xs_of(points@)[i as int] == p.x);
            assert(ys_of(points@)[i as int] == p.y);
            if p.x < min_x {
                min_x = p.x;
            }
            if p.x > max_x {
                max_x = p.x;
            }
            if p.y < min_y {
                min_y = p.y;
            }
            if p.y > max_y {
                max_y = p.y;
            }
            i = i + 1;
        }
        Rect::new(point2(min_x, min_y), Size2D::new(max_x - min_x, max_y - min_y))
    }
}

impl<T: ApproxEq<T>, U> ApproxEq<Point2D<T, U>> for Point2D<T, U> {
    open spec fn spec_approx_epsilon() -> Point2D<T, U> {
        Point2D { x: T::spec_approx_epsilon(), y: T::spec_approx_epsilon(), _unit: PhantomData }
    }

    open spec fn spec_approx_eq_eps(&self, other: &Self, eps: &Point2D<T, U>) -> bool {
        self.x.spec_approx_eq_eps(&other.x, &eps.x) && self.y.spec_approx_eq_eps(&other.y, &eps.y)
    }

    fn approx_epsilon() -> (r: Point2D<T, U>) {
        point2(T::approx_epsilon(), T::approx_epsilon())
    }

    fn approx_eq_eps(&self, other: &Self, eps: &Point2D<T, U>) -> (r: bool) {
        self.x.approx_eq_eps(&other.x, &eps.x) && self.y.approx_eq_eps(&other.y, &eps.y)
    }
}

impl<T: ApproxEq<T>, U> ApproxEq<Point3D<T, U>> for Point3D<T, U> {
    open spec fn spec_approx_epsilon() -> Point3D<T, U> {
        Point3D {
            x: T::spec_approx_epsilon(),
            y: T::spec_approx_epsilon(),
            z: T::spec_approx_epsilon(),
            _unit: PhantomData,
        }
    }

    open spec fn spec_approx_eq_eps(&self, other: &Self, eps: &Point3D<T, U>) -> bool {
        &&& self.x.spec_approx_eq_eps(&other.x, &eps.x)
        &&& self.y.spec_approx_eq_eps(&other.y, &eps.y)
        &&& self.z.spec_approx_eq_eps(&other.z, &eps.z)
    }

    fn approx_epsilon() -> (r: Point3D<T, U>) {
        point3(T::approx_epsilon(), T::approx_epsilon(), T::approx_epsilon())
    }

    fn approx_eq_eps(&self, other: &Self, eps: &Point3D<T, U>) -> (r: bool) {
        self.x.approx_eq_eps(&other.x, &eps.x) && self.y.approx_eq_eps(&other.y, &eps.y)
            && self.z.approx_eq_eps(&other.z, &eps.z)
    }
}

} // verus!
