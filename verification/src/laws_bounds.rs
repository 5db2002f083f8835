//! Laws of the bounds that `transform_rect` computes: the scans find a least and a
//! greatest value, so the bounding rectangle is the smallest one that holds the points.
use crate::geom::{bounding_rect, scan_max, scan_min, xs_of, ys_of, Point2D, Rect};
use crate::matrix::Matrix4;
use crate::transform3d::{project_point2d, project_rect};
use core::marker::PhantomData;
use crate::num::{minus, plus, One, Zero};
use crate::signed_sum::commutative_ring;
use core::ops::{Add, Div, Mul, Sub};
use vstd::prelude::*;
use vstd::std_specs::cmp::PartialOrdIs;

verus! {

/// `<` and `>` on `T` are irreflexive and transitive.
pub open spec fn strict_orders<T: PartialOrd>() -> bool {
    &&& forall|x: T| #![auto] !x.is_lt(&x)
    &&& forall|x: T| #![auto] !x.is_gt(&x)
    &&& forall|x: T, y: T, z: T| #![auto] x.is_lt(&y) && y.is_lt(&z) ==> x.is_lt(&z)
    &&& forall|x: T, y: T, z: T| #![auto] x.is_gt(&y) && y.is_gt(&z) ==> x.is_gt(&z)
}

/// Where `<` is a strict order, the scan's minimum of the first `n` values is one of them,
/// and none of them is below it.
pub proof fn lemma_scan_min_is_least<T: PartialOrd>(xs: Seq<T>, n: int)
    requires
        1 <= n <= xs.len(),
        strict_orders::<T>(),
    ensures
        exists|i: int| 0 <= i < n && xs[i] == scan_min(xs, n),
        forall|i: int| 0 <= i < n ==> !(#[trigger] xs[i]).is_lt(&scan_min(xs, n)),
    decreases n,
{
    if n == 1 {
        assert(xs[0] == scan_min(xs, n));
    } else {
        lemma_scan_min_is_least(xs, n - 1);
        let m = scan_min(xs, n - 1);
        let w = choose|i: int| 0 <= i < n - 1 && xs[i] == m;
        if xs[n - 1].is_lt(&m) {
            assert(xs[n - 1] == scan_min(xs, n));
            assert forall|i: int| 0 <= i < n implies !(#[trigger] xs[i]).is_lt(&xs[n - 1]) by {
                if i < n - 1 && xs[i].is_lt(&xs[n - 1]) {
                    assert(xs[i].is_lt(&m));
                }
            }
        } else {
            assert(xs[w] == scan_min(xs, n));
        }
    }
}

/// Where `>` is a strict order, the scan's maximum of the first `n` values is one of them,
/// and none of them is above it.
pub proof fn lemma_scan_max_is_greatest<T: PartialOrd>(xs: Seq<T>, n: int)
    requires
        1 <= n <= xs.len(),
        strict_orders::<T>(),
    ensures
        exists|i: int| 0 <= i < n && xs[i] == scan_max(xs, n),
        forall|i: int| 0 <= i < n ==> !(#[trigger] xs[i]).is_gt(&scan_max(xs, n)),
    decreases n,
{
    if n == 1 {
        assert(xs[0] == scan_max(xs, n));
    } else {
        lemma_scan_max_is_greatest(xs, n - 1);
        let m = scan_max(xs, n - 1);
        let w = choose|i: int| 0 <= i < n - 1 && xs[i] == m;
        if xs[n - 1].is_gt(&m) {
            assert(xs[n - 1] == scan_max(xs, n));
            assert forall|i: int| 0 <= i < n implies !(#[trigger] xs[i]).is_gt(&xs[n - 1]) by {
                if i < n - 1 && xs[i].is_gt(&xs[n - 1]) {
                    assert(xs[i].is_gt(&m));
                }
            }
        } else {
            assert(xs[w] == scan_max(xs, n));
        }
    }
}

/// `a + (b - a) == b`.
proof fn lemma_plus_minus_cancel<T: Add<Output = T> + Sub<Output = T> + Mul<Output = T> + Zero + One>(a: T, b: T)
    requires
        commutative_ring::<T>(),
    ensures
        plus(a, minus(b, a)) == b,
{
    reveal(commutative_ring);
    let o = T::spec_zero();
    let na = minus(o, a);
    assert(minus(b, a) == plus(b, na));
    assert(plus(a, plus(b, na)) == plus(plus(a, b), na));
    assert(plus(a, b) == plus(b, a));
    assert(plus(plus(b, a), na) == plus(b, plus(a, na)));
    assert(plus(a, na) == o);
    assert(plus(b, o) == b);
}

/// `r` is the smallest rectangle that holds `pts`: no point lies left of or below its
/// smallest corner, or right of or above its greatest corner (`origin + size`), and each
/// of the four bounds is a coordinate of one of the points.
pub open spec fn bounds_hold<T: Add<Output = T> + PartialOrd, U>(r: Rect<T, U>, pts: Seq<Point2D<T, U>>) -> bool {
    let max_x = plus(r.origin.x, r.size.width);
    let max_y = plus(r.origin.y, r.size.height);
    &&& forall|i: int| 0 <= i < pts.len() ==> !(#[trigger] pts[i]).x.is_lt(&r.origin.x)
        && !pts[i].y.is_lt(&r.origin.y) && !pts[i].x.is_gt(&max_x) && !pts[i].y.is_gt(&max_y)
    &&& exists|i: int| 0 <= i < pts.len() && #[trigger] pts[i].x == r.origin.x
    &&& exists|i: int| 0 <= i < pts.len() && #[trigger] pts[i].y == r.origin.y
    &&& exists|i: int| 0 <= i < pts.len() && #[trigger] pts[i].x == max_x
    &&& exists|i: int| 0 <= i < pts.len() && #[trigger] pts[i].y == max_y
}

/// Where `<` and `>` are strict orders and `+` and `-` those of a commutative ring, the
/// bounding rectangle of a nonempty set of points is the smallest one that holds them.
pub proof fn lemma_bounding_rect_is_smallest<T: Add<Output = T> + Sub<Output = T> + Mul<Output = T> + Zero + One + PartialOrd, U>(
    pts: Seq<Point2D<T, U>>,
)
    requires
        pts.len() > 0,
        strict_orders::<T>(),
        commutative_ring::<T>(),
    ensures
        bounds_hold(bounding_rect(pts), pts),
{
    let n = pts.len() as int;
    let xs = xs_of(pts);
    let ys = ys_of(pts);
    lemma_scan_min_is_least(xs, n);
    lemma_scan_min_is_least(ys, n);
    lemma_scan_max_is_greatest(xs, n);
    lemma_scan_max_is_greatest(ys, n);
    lemma_plus_minus_cancel(scan_min(xs, n), scan_max(xs, n));
    lemma_plus_minus_cancel(scan_min(ys, n), scan_max(ys, n));
    assert forall|i: int| 0 <= i < n implies xs[i] == (#[trigger] pts[i]).x && ys[i] == pts[i].y by {}
    let a = choose|i: int| 0 <= i < n && xs[i] == scan_min(xs, n);
    let b = choose|i: int| 0 <= i < n && ys[i] == scan_min(ys, n);
    let c = choose|i: int| 0 <= i < n && xs[i] == scan_max(xs, n);
    let d = choose|i: int| 0 <= i < n && ys[i] == scan_max(ys, n);
    assert(pts[a].x == xs[a]);
    assert(pts[b].y == ys[b]);
    assert(pts[c].x == xs[c]);
    assert(pts[d].y == ys[d]);
}

/// A transformed rectangle is `None` exactly when one of its four corners has no image;
/// otherwise, where `<` and `>` are strict orders and `+` and `-` those of a commutative
/// ring, it is the smallest rectangle that holds the images of the four corners.
pub proof fn lemma_rect_image_bounds_corners<T: Copy + Add<Output = T> + Sub<Output = T> + Mul<Output = T> + Div<Output = T> + Zero + One + PartialOrd, U, V>(
    m: Matrix4<T>,
    rect: Rect<T, U>,
)
    requires
        strict_orders::<T>(),
        commutative_ring::<T>(),
    ensures
        ({
            let x0 = rect.origin.x;
            let y0 = rect.origin.y;
            let x1 = plus(rect.origin.x, rect.size.width);
            let y1 = plus(rect.origin.y, rect.size.height);
            let a = project_point2d::<T, U, V>(m, Point2D { x: x0, y: y0, _unit: PhantomData });
            let b = project_point2d::<T, U, V>(m, Point2D { x: x1, y: y1, _unit: PhantomData });
            let c = project_point2d::<T, U, V>(m, Point2D { x: x1, y: y0, _unit: PhantomData });
            let d = project_point2d::<T, U, V>(m, Point2D { x: x0, y: y1, _unit: PhantomData });
            &&& project_rect::<T, U, V>(m, rect) is None <==> (a is None || b is None || c is None || d is None)
            &&& project_rect::<T, U, V>(m, rect) matches Some(r) ==> bounds_hold(r, seq![a->0, b->0, c->0, d->0])
        }),
{
    let x0 = rect.origin.x;
    let y0 = rect.origin.y;
    let x1 = plus(rect.origin.x, rect.size.width);
    let y1 = plus(rect.origin.y, rect.size.height);
    let a = project_point2d::<T, U, V>(m, Point2D { x: x0, y: y0, _unit: PhantomData });
    let b = project_point2d::<T, U, V>(m, Point2D { x: x1, y: y1, _unit: PhantomData });
    let c = project_point2d::<T, U, V>(m, Point2D { x: x1, y: y0, _unit: PhantomData });
    let d = project_point2d::<T, U, V>(m, Point2D { x: x0, y: y1, _unit: PhantomData });
    if a is Some && b is Some && c is Some && d is Some {
        lemma_bounding_rect_is_smallest(seq![a->0, b->0, c->0, d->0]);
    }
}

} // verus!
