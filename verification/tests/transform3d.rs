use euclid::geom::{HomogeneousVector, Point2D, Point3D, Rect, Size2D, Vector2D, Vector3D};
use euclid::num::{ApproxEq, One, Trig, Zero};
use euclid::transform2d::Transform2D;
use euclid::transform3d::Transform3D;
use euclid::units::{Angle, Scale, UnknownUnit};

use core::f32::consts::{FRAC_PI_2, PI};
use core::mem::size_of;
use core::ops::{Add, Div, Mul, Neg, Sub};

/// An `f32` scalar: the library's numeric traits implemented with `f32`'s own
/// arithmetic and trigonometry, and a tolerance of `1e-6` for approximate equality.
#[derive(Clone, Copy, Debug, PartialEq, PartialOrd)]
struct F(f32);

impl Add for F {
    type Output = F;
    fn add(self, o: F) -> F {
        F(self.0 + o.0)
    }
}

impl Sub for F {
    type Output = F;
    fn sub(self, o: F) -> F {
        F(self.0 - o.0)
    }
}

impl Mul for F {
    type Output = F;
    fn mul(self, o: F) -> F {
        F(self.0 * o.0)
    }
}

impl Div for F {
    type Output = F;
    fn div(self, o: F) -> F {
        F(self.0 / o.0)
    }
}

impl Neg for F {
    type Output = F;
    fn neg(self) -> F {
        F(-self.0)
    }
}

impl Zero for F {
    fn spec_zero() -> F {
        F(0.0)
    }
    fn zero() -> F {
        F(0.0)
    }
}

impl One for F {
    fn spec_one() -> F {
        F(1.0)
    }
    fn one() -> F {
        F(1.0)
    }
}

impl Trig for F {
    fn spec_sin(self) -> F {
        self.sin()
    }
    fn spec_cos(self) -> F {
        self.cos()
    }
    fn spec_tan(self) -> F {
        self.tan()
    }
    fn sin(self) -> F {
        F(self.0.sin())
    }
    fn cos(self) -> F {
        F(self.0.cos())
    }
    fn tan(self) -> F {
        F(self.0.tan())
    }
}

impl ApproxEq<F> for F {
    fn spec_approx_epsilon() -> F {
        F(1.0e-6)
    }
    fn spec_approx_eq_eps(&self, other: &F, eps: &F) -> bool {
        self.approx_eq_eps(other, eps)
    }
    fn approx_epsilon() -> F {
        F(1.0e-6)
    }
    fn approx_eq_eps(&self, other: &F, eps: &F) -> bool {
        (self.0 - other.0).abs() < eps.0
    }
}

type Mf32 = Transform3D<F, UnknownUnit, UnknownUnit>;
type Mi32 = Transform3D<i32, UnknownUnit, UnknownUnit>;

// For convenience.
fn rad(v: f32) -> Angle<F> {
    Angle::radians(F(v))
}

fn point2(x: f32, y: f32) -> Point2D<F, UnknownUnit> {
    euclid::geom::point2(F(x), F(y))
}

fn point3(x: f32, y: f32, z: f32) -> Point3D<F, UnknownUnit> {
    euclid::geom::point3(F(x), F(y), F(z))
}

fn vec2(x: f32, y: f32) -> Vector2D<F, UnknownUnit> {
    euclid::geom::vec2(F(x), F(y))
}

fn vec3(x: f32, y: f32, z: f32) -> Vector3D<F, UnknownUnit> {
    euclid::geom::vec3(F(x), F(y), F(z))
}

fn row_major(
    m11: f32, m12: f32, m13: f32, m14: f32,
    m21: f32, m22: f32, m23: f32, m24: f32,
    m31: f32, m32: f32, m33: f32, m34: f32,
    m41: f32, m42: f32, m43: f32, m44: f32,
) -> Mf32 {
    Mf32::row_major(
        F(m11), F(m12), F(m13), F(m14),
        F(m21), F(m22), F(m23), F(m24),
        F(m31), F(m32), F(m33), F(m34),
        F(m41), F(m42), F(m43), F(m44),
    )
}

fn rows_i32(a: [i32; 16]) -> Mi32 {
    Mi32::from_array(a)
}

#[test]
pub fn test_translation() {
    let t1 = Mf32::create_translation(F(1.0), F(2.0), F(3.0));
    let t2 = Mf32::identity().pre_translate(vec3(1.0, 2.0, 3.0));
    let t3 = Mf32::identity().post_translate(vec3(1.0, 2.0, 3.0));
    assert_eq!(t1, t2);
    assert_eq!(t1, t3);

    assert_eq!(t1.transform_point3d(point3(1.0, 1.0, 1.0)), Some(point3(2.0, 3.0, 4.0)));
    assert_eq!(t1.transform_point2d(point2(1.0, 1.0)), Some(point2(2.0, 3.0)));

    assert_eq!(t1.post_transform(&t1), Mf32::create_translation(F(2.0), F(4.0), F(6.0)));

    assert!(!t1.is_2d());
    assert_eq!(
        Mf32::create_translation(F(1.0), F(2.0), F(3.0)).to_2d(),
        Transform2D::create_translation(F(1.0), F(2.0))
    );
}

#[test]
pub fn test_rotation() {
    let r1 = Mf32::create_rotation(F(0.0), F(0.0), F(1.0), rad(FRAC_PI_2));
    let r2 = Mf32::identity().pre_rotate(F(0.0), F(0.0), F(1.0), rad(FRAC_PI_2));
    let r3 = Mf32::identity().post_rotate(F(0.0), F(0.0), F(1.0), rad(FRAC_PI_2));
    assert_eq!(r1, r2);
    assert_eq!(r1, r3);

    assert!(r1.transform_point3d(point3(1.0, 2.0, 3.0)).unwrap().approx_eq(&point3(-2.0, 1.0, 3.0)));
    assert!(r1.transform_point2d(point2(1.0, 2.0)).unwrap().approx_eq(&point2(-2.0, 1.0)));

    assert!(r1
        .post_transform(&r1)
        .approx_eq(&Mf32::create_rotation(F(0.0), F(0.0), F(1.0), rad(FRAC_PI_2 * 2.0))));

    assert!(r1.is_2d());
    assert!(r1.to_2d().approx_eq(&Transform2D::create_rotation(rad(FRAC_PI_2))));
}

#[test]
pub fn test_scale() {
    let s1 = Mf32::create_scale(F(2.0), F(3.0), F(4.0));
    let s2 = Mf32::identity().pre_scale(F(2.0), F(3.0), F(4.0));
    let s3 = Mf32::identity().post_scale(F(2.0), F(3.0), F(4.0));
    assert_eq!(s1, s2);
    assert_eq!(s1, s3);

    assert!(s1.transform_point3d(point3(2.0, 2.0, 2.0)).unwrap().approx_eq(&point3(4.0, 6.0, 8.0)));
    assert!(s1.transform_point2d(point2(2.0, 2.0)).unwrap().approx_eq(&point2(4.0, 6.0)));

    assert_eq!(s1.post_transform(&s1), Mf32::create_scale(F(4.0), F(9.0), F(16.0)));

    assert!(!s1.is_2d());
    assert_eq!(
        Mf32::create_scale(F(2.0), F(3.0), F(0.0)).to_2d(),
        Transform2D::create_scale(F(2.0), F(3.0))
    );
}

#[test]
pub fn test_pre_post_scale() {
    let m = Mf32::create_rotation(F(0.0), F(0.0), F(1.0), rad(FRAC_PI_2))
        .post_translate(vec3(6.0, 7.0, 8.0));
    let s = Mf32::create_scale(F(2.0), F(3.0), F(4.0));
    assert_eq!(m.post_transform(&s), m.post_scale(F(2.0), F(3.0), F(4.0)));
    assert_eq!(m.pre_transform(&s), m.pre_scale(F(2.0), F(3.0), F(4.0)));
}

#[test]
pub fn test_ortho() {
    let (left, right, bottom, top) = (0.0f32, 1.0f32, 0.1f32, 1.0f32);
    let (near, far) = (-1.0f32, 1.0f32);
    let result = Mf32::ortho(F(left), F(right), F(bottom), F(top), F(near), F(far));
    let expected = row_major(
         2.0,  0.0,         0.0, 0.0,
         0.0,  2.22222222,  0.0, 0.0,
         0.0,  0.0,        -1.0, 0.0,
        -1.0, -1.22222222, -0.0, 1.0,
    );
    assert!(result.approx_eq(&expected));
}

#[test]
pub fn test_is_2d() {
    assert!(Mf32::identity().is_2d());
    assert!(Mf32::create_rotation(F(0.0), F(0.0), F(1.0), rad(0.7854)).is_2d());
    assert!(!Mf32::create_rotation(F(0.0), F(1.0), F(0.0), rad(0.7854)).is_2d());
}

#[test]
pub fn test_row_major_2d() {
    let m1 = Mf32::row_major_2d(F(1.0), F(2.0), F(3.0), F(4.0), F(5.0), F(6.0));
    let m2 = row_major(
        1.0, 2.0, 0.0, 0.0,
        3.0, 4.0, 0.0, 0.0,
        0.0, 0.0, 1.0, 0.0,
        5.0, 6.0, 0.0, 1.0,
    );
    assert_eq!(m1, m2);
}

#[test]
fn test_column_major() {
    let expected = row_major(
        1.0,  2.0,  3.0,  4.0,
        5.0,  6.0,  7.0,  8.0,
        9.0,  10.0, 11.0, 12.0,
        13.0, 14.0, 15.0, 16.0,
    );
    let actual = Mf32::column_major(
        F(1.0),  F(5.0),  F(9.0),  F(13.0),
        F(2.0),  F(6.0),  F(10.0), F(14.0),
        F(3.0),  F(7.0),  F(11.0), F(15.0),
        F(4.0),  F(8.0),  F(12.0), F(16.0),
    );
    assert_eq!(expected, actual);
}

#[test]
pub fn test_inverse_simple() {
    let m1 = Mf32::identity();
    let m2 = m1.inverse().unwrap();
    assert!(m1.approx_eq(&m2));
}

#[test]
pub fn test_inverse_scale() {
    let m1 = Mf32::create_scale(F(1.5), F(0.3), F(2.1));
    let m2 = m1.inverse().unwrap();
    assert!(m1.pre_transform(&m2).approx_eq(&Mf32::identity()));
}

#[test]
pub fn test_inverse_translate() {
    let m1 = Mf32::create_translation(F(-132.0), F(0.3), F(493.0));
    let m2 = m1.inverse().unwrap();
    assert!(m1.pre_transform(&m2).approx_eq(&Mf32::identity()));
}

#[test]
pub fn test_inverse_rotate() {
    let m1 = Mf32::create_rotation(F(0.0), F(1.0), F(0.0), rad(1.57));
    let m2 = m1.inverse().unwrap();
    assert!(m1.pre_transform(&m2).approx_eq(&Mf32::identity()));
}

#[test]
pub fn test_inverse_transform_point_2d() {
    let m1 = Mf32::create_translation(F(100.0), F(200.0), F(0.0));
    let m2 = m1.inverse().unwrap();
    assert!(m1.pre_transform(&m2).approx_eq(&Mf32::identity()));

    let p1 = point2(1000.0, 2000.0);
    let p2 = m1.transform_point2d(p1);
    assert_eq!(p2, Some(point2(1100.0, 2200.0)));

    let p3 = m2.transform_point2d(p2.unwrap());
    assert_eq!(p3, Some(p1));
}

#[test]
fn test_inverse_none() {
    assert!(Mf32::create_scale(F(2.0), F(0.0), F(2.0)).inverse().is_none());
    assert!(Mf32::create_scale(F(2.0), F(2.0), F(2.0)).inverse().is_some());
}

#[test]
pub fn test_pre_post() {
    let m1 = Mf32::identity()
        .post_scale(F(1.0), F(2.0), F(3.0))
        .post_translate(vec3(1.0, 2.0, 3.0));
    let m2 = Mf32::identity()
        .pre_translate(vec3(1.0, 2.0, 3.0))
        .pre_scale(F(1.0), F(2.0), F(3.0));
    assert!(m1.approx_eq(&m2));

    let r = Mf32::create_rotation(F(0.0), F(0.0), F(1.0), rad(FRAC_PI_2));
    let t = Mf32::create_translation(F(2.0), F(3.0), F(0.0));

    let a = point3(1.0, 1.0, 1.0);

    assert!(r.post_transform(&t).transform_point3d(a).unwrap().approx_eq(&point3(1.0, 4.0, 1.0)));
    assert!(t.post_transform(&r).transform_point3d(a).unwrap().approx_eq(&point3(-4.0, 3.0, 1.0)));
    assert!(t
        .post_transform(&r)
        .transform_point3d(a)
        .unwrap()
        .approx_eq(&r.transform_point3d(t.transform_point3d(a).unwrap()).unwrap()));

    assert!(r.pre_transform(&t).transform_point3d(a).unwrap().approx_eq(&point3(-4.0, 3.0, 1.0)));
    assert!(t.pre_transform(&r).transform_point3d(a).unwrap().approx_eq(&point3(1.0, 4.0, 1.0)));
    assert!(t
        .pre_transform(&r)
        .transform_point3d(a)
        .unwrap()
        .approx_eq(&t.transform_point3d(r.transform_point3d(a).unwrap()).unwrap()));
}

#[test]
fn test_size_of() {
    assert_eq!(size_of::<Transform3D<f32, UnknownUnit, UnknownUnit>>(), 16 * size_of::<f32>());
    assert_eq!(size_of::<Transform3D<f64, UnknownUnit, UnknownUnit>>(), 16 * size_of::<f64>());
}

#[test]
pub fn test_transform_associativity() {
    let m1 = row_major(3.0, 2.0, 1.5, 1.0,
                       0.0, 4.5, -1.0, -4.0,
                       0.0, 3.5, 2.5, 40.0,
                       0.0, 3.0, 0.0, 1.0);
    let m2 = row_major(1.0, -1.0, 3.0, 0.0,
                       -1.0, 0.5, 0.0, 2.0,
                       1.5, -2.0, 6.0, 0.0,
                       -2.5, 6.0, 1.0, 1.0);

    let p = point3(1.0, 3.0, 5.0);
    let p1 = m2.pre_transform(&m1).transform_point3d(p).unwrap();
    let p2 = m2.transform_point3d(m1.transform_point3d(p).unwrap()).unwrap();
    assert!(p1.approx_eq(&p2));
}

#[test]
pub fn test_is_identity() {
    let m1 = Mf32::identity();
    assert!(m1.is_identity());
    let m2 = m1.post_translate(vec3(0.1, 0.0, 0.0));
    assert!(!m2.is_identity());
}

#[test]
pub fn test_transform_vector() {
    // Translation does not apply to vectors.
    let m = Mf32::create_translation(F(1.0), F(2.0), F(3.0));
    let v1 = vec3(10.0, -10.0, 3.0);
    assert_eq!(v1, m.transform_vector3d(v1));
    // While it does apply to points.
    assert_ne!(Some(v1.to_point()), m.transform_point3d(v1.to_point()));

    // same thing with 2d vectors/points
    let v2 = vec2(10.0, -5.0);
    assert_eq!(v2, m.transform_vector2d(v2));
    assert_ne!(Some(v2.to_point()), m.transform_point2d(v2.to_point()));
}

#[test]
pub fn test_is_backface_visible() {
    // backface is not visible for rotate-x 0 degree.
    let r1 = Mf32::create_rotation(F(1.0), F(0.0), F(0.0), rad(0.0));
    assert!(!r1.is_backface_visible());
    // backface is not visible for rotate-x 45 degree.
    let r1 = Mf32::create_rotation(F(1.0), F(0.0), F(0.0), rad(PI * 0.25));
    assert!(!r1.is_backface_visible());
    // backface is visible for rotate-x 180 degree.
    let r1 = Mf32::create_rotation(F(1.0), F(0.0), F(0.0), rad(PI));
    assert!(r1.is_backface_visible());
    // backface is visible for rotate-x 225 degree.
    let r1 = Mf32::create_rotation(F(1.0), F(0.0), F(0.0), rad(PI * 1.25));
    assert!(r1.is_backface_visible());
    // backface is not visible for non-inverseable matrix
    let r1 = Mf32::create_scale(F(2.0), F(0.0), F(2.0));
    assert!(!r1.is_backface_visible());
}

#[test]
pub fn test_homogeneous() {
    let m = row_major(
        1.0, 2.0, 0.5, 5.0,
        3.0, 4.0, 0.25, 6.0,
        0.5, -1.0, 1.0, -1.0,
        -1.0, 1.0, -1.0, 2.0,
    );
    assert_eq!(
        m.transform_point2d_homogeneous(point2(1.0, 2.0)),
        HomogeneousVector::new(F(6.0), F(11.0), F(0.0), F(19.0)),
    );
    assert_eq!(
        m.transform_point3d_homogeneous(point3(1.0, 2.0, 4.0)),
        HomogeneousVector::new(F(8.0), F(7.0), F(4.0), F(15.0)),
    );
}

#[test]
pub fn test_perspective_division() {
    let p = point2(1.0, 2.0);
    let mut m = Mf32::identity();
    assert!(m.transform_point2d(p).is_some());
    m.m44 = F(0.0);
    assert_eq!(None, m.transform_point2d(p));
    m.m44 = F(1.0);
    m.m24 = F(-1.0);
    assert_eq!(None, m.transform_point2d(p));
}

// ---------------------------------------------------------------------------
// Laws of the library, on exact (integer) scalars, and its edge cases.
// ---------------------------------------------------------------------------

const A: [i32; 16] = [3, 2, 1, 1, 0, 4, -1, -4, 0, 3, 2, 40, 0, 3, 0, 1];
const B: [i32; 16] = [1, -1, 3, 0, -1, 5, 0, 2, 1, -2, 6, 0, -2, 6, 1, 1];
const C: [i32; 16] = [2, 0, 1, -1, 1, 1, 0, 3, 0, -1, 2, 0, 4, 0, 0, 1];

#[test]
fn test_identity_neutral_exact() {
    let m = rows_i32(A);
    assert_eq!(m.post_transform(&Mi32::identity()), m);
    assert_eq!(Mi32::identity().post_transform(&m), m);
    assert_eq!(m.pre_transform(&Mi32::identity()), m);
}

#[test]
fn test_translations_and_scales_compose_exact() {
    let t = Mi32::create_translation(1, 2, 3).post_transform(&Mi32::create_translation(4, -5, 6));
    assert_eq!(t, Mi32::create_translation(5, -3, 9));
    let s = Mi32::create_scale(2, 3, 4).post_transform(&Mi32::create_scale(5, -1, 2));
    assert_eq!(s, Mi32::create_scale(10, -3, 8));
}

#[test]
fn test_post_transform_exact_product() {
    let ab = rows_i32(A).post_transform(&rows_i32(B));
    // row 1 of A times column 1 of B: 3*1 + 2*(-1) + 1*1 + 1*(-2) = 0
    assert_eq!(ab.m11, 0);
    // row 3 of A times column 4 of B: 0*0 + 3*2 + 2*0 + 40*1 = 46
    assert_eq!(ab.m34, 46);
    assert_eq!(rows_i32(B).pre_transform(&rows_i32(A)), ab);
}

#[test]
fn test_associativity_exact() {
    let (a, b, c) = (rows_i32(A), rows_i32(B), rows_i32(C));
    assert_eq!(a.post_transform(&b).post_transform(&c), a.post_transform(&b.post_transform(&c)));
}

#[test]
fn test_point_image_composes_exact() {
    let (a, b) = (rows_i32(A), rows_i32(B));
    let p = euclid::geom::point3::<i32, UnknownUnit>(1, 3, 5);
    let h = a.transform_point3d_homogeneous(p);
    let direct = a.post_transform(&b).transform_point3d_homogeneous(p);
    let w = |j: usize| {
        let col = b.to_column_arrays()[j];
        h.x * col[0] + h.y * col[1] + h.z * col[2] + h.w * col[3]
    };
    assert_eq!((direct.x, direct.y, direct.z, direct.w), (w(0), w(1), w(2), w(3)));
}

#[test]
fn test_translation_keeps_vectors_exact() {
    let m = Mi32::create_translation(7, 8, 9);
    let v = euclid::geom::vec3::<i32, UnknownUnit>(1, -2, 3);
    assert_eq!(m.transform_vector3d(v), v);
    let v = euclid::geom::vec2::<i32, UnknownUnit>(4, 5);
    assert_eq!(m.transform_vector2d(v), v);
}

#[test]
fn test_pre_scale_is_pre_transform_exact() {
    let m = rows_i32(A);
    assert_eq!(m.pre_scale(2, -3, 4), m.pre_transform(&Mi32::create_scale(2, -3, 4)));
    assert_eq!(m.post_scale(2, -3, 4), m.post_transform(&Mi32::create_scale(2, -3, 4)));
}

#[test]
fn test_arrays_round_trip() {
    let m = rows_i32(A);
    assert_eq!(m.to_row_major_array(), A);
    assert_eq!(Mi32::from_array(m.to_row_major_array()), m);
    assert_eq!(Mi32::from_row_arrays(m.to_row_arrays()), m);
    assert_eq!(m.to_row_arrays()[2], [0, 3, 2, 40]);
    assert_eq!(m.to_column_arrays()[1], [2, 4, 3, 3]);
    assert_eq!(m.to_column_major_array()[4..8], [2, 4, 3, 3]);
    let t = Mi32::column_major(
        A[0], A[1], A[2], A[3], A[4], A[5], A[6], A[7],
        A[8], A[9], A[10], A[11], A[12], A[13], A[14], A[15],
    );
    assert_eq!(t.to_column_major_array(), A);
}

#[test]
fn test_units_are_only_tags() {
    struct Here;
    struct There;
    let m = rows_i32(A);
    let typed: Transform3D<i32, Here, There> = Transform3D::from_untyped(&m);
    assert_eq!(typed.to_untyped(), m);
    assert_eq!(typed.with_source::<UnknownUnit>().with_destination::<UnknownUnit>(), m);
}

#[test]
fn test_determinant_and_inverse_exact() {
    assert_eq!(Mi32::identity().determinant(), 1);
    assert_eq!(Mi32::create_scale(2, 3, 4).determinant(), 24);
    // det(A) by cofactor expansion along the first column: 3 * det of the lower-right 3x3
    // (4*(2*1 - 40*0) - (-1)*(3*1 - 40*3) + (-4)*(3*0 - 2*3)) = 3 * (8 - 117 + 24) = -255
    assert_eq!(rows_i32(A).determinant(), -255);
    assert!(rows_i32(A).is_invertible());
    assert!(!Mi32::create_scale(2, 0, 2).is_invertible());
    assert!(Mi32::create_scale(2, 0, 2).inverse().is_none());
    // over the integers, 1 / det truncates: the inverse of a scale by 1 is the identity
    assert_eq!(Mi32::identity().inverse(), Some(Mi32::identity()));
}

#[test]
fn test_inverse_adjugate_scaled() {
    let m = Mf32::create_scale(F(2.0), F(4.0), F(8.0));
    let inv = m.inverse().unwrap();
    assert_eq!(inv, Mf32::create_scale(F(0.5), F(0.25), F(0.125)));
    assert!(m.is_invertible());
}

#[test]
fn test_mul_s_and_from_scale() {
    let m = Mi32::create_translation(1, 2, 3).mul_s(2);
    assert_eq!(m, Mi32::from_array([2, 0, 0, 0, 0, 2, 0, 0, 0, 0, 2, 0, 2, 4, 6, 2]));
    let s: Mi32 = Transform3D::from_scale(Scale::new(3));
    assert_eq!(s, Mi32::create_scale(3, 3, 3));
}

#[test]
fn test_default_is_identity() {
    let d: Mi32 = Default::default();
    assert_eq!(d, Mi32::identity());
    assert!(d.is_identity());
    assert!(d.is_2d());
}

#[test]
fn test_perspective_and_skew() {
    let p = Mf32::create_perspective(F(4.0));
    assert_eq!(p, row_major(1.0, 0.0, 0.0, 0.0, 0.0, 1.0, 0.0, 0.0, 0.0, 0.0, 1.0, -0.25, 0.0, 0.0, 0.0, 1.0));
    let s = Mf32::create_skew(Angle::radians(F(0.0)), Angle::radians(F(PI / 4.0)));
    assert!(s.approx_eq(&row_major(
        1.0, 1.0, 0.0, 0.0, 0.0, 1.0, 0.0, 0.0, 0.0, 0.0, 1.0, 0.0, 0.0, 0.0, 0.0, 1.0
    )));
    assert!(s.is_2d());
}

#[test]
fn test_project_to_2d() {
    // perspective-like: m44 = 2 with m14 = m24 = 0 normalizes the 2d terms by 1/2
    let p = Mf32::from_array([4.0, 2.0, 7.0, 0.0, 6.0, 8.0, 7.0, 0.0, 7.0, 7.0, 7.0, 7.0, 10.0, 12.0, 7.0, 2.0].map(F));
    assert_eq!(
        p.project_to_2d(),
        row_major(2.0, 1.0, 0.0, 0.0, 3.0, 4.0, 0.0, 0.0, 0.0, 0.0, 1.0, 0.0, 5.0, 6.0, 0.0, 1.0)
    );
    // m44 = 1: only the third row and column are reset
    let q = Mi32::from_array([4, 2, 7, 1, 6, 8, 7, 0, 7, 7, 7, 7, 10, 12, 7, 1]);
    assert_eq!(q.project_to_2d(), Mi32::from_array([4, 2, 0, 1, 6, 8, 0, 0, 0, 0, 1, 0, 10, 12, 0, 1]));
    // m14 != 0: no normalization, m44 is kept
    let n = Mi32::from_array([4, 2, 7, 3, 6, 8, 7, 0, 7, 7, 7, 7, 10, 12, 7, 2]);
    assert_eq!(n.project_to_2d(), Mi32::from_array([4, 2, 0, 3, 6, 8, 0, 0, 0, 0, 1, 0, 10, 12, 0, 2]));
}

#[test]
fn test_transform_rect() {
    let r = Rect::new(point2(1.0, 2.0), Size2D::new(F(3.0), F(4.0)));
    let t = Mf32::create_translation(F(10.0), F(20.0), F(0.0));
    let moved = t.transform_rect(&r).unwrap();
    assert_eq!(moved.origin, point2(11.0, 22.0));
    assert_eq!(moved.size, Size2D::new(F(3.0), F(4.0)));
    let flip = Mf32::create_scale(F(-1.0), F(1.0), F(1.0));
    let flipped = flip.transform_rect(&r).unwrap();
    assert_eq!(flipped.origin, point2(-4.0, 2.0));
    assert_eq!(flipped.size, Size2D::new(F(3.0), F(4.0)));
    let mut behind = Mf32::identity();
    behind.m44 = F(-1.0);
    assert!(behind.transform_rect(&r).is_none());
}

#[test]
fn test_rect_from_points() {
    let empty: Rect<F, UnknownUnit> = Rect::from_points(&[]);
    assert_eq!(empty.origin, point2(0.0, 0.0));
    assert_eq!(empty.size, Size2D::new(F(0.0), F(0.0)));
    let r = Rect::from_points(&[point2(3.0, -1.0), point2(-2.0, 5.0), point2(1.0, 0.0)]);
    assert_eq!(r.origin, point2(-2.0, -1.0));
    assert_eq!(r.size, Size2D::new(F(5.0), F(6.0)));
    assert_eq!(r.max(), point2(3.0, 5.0));
}

#[test]
fn test_try_cast() {
    let m = Transform3D::<f32, UnknownUnit, UnknownUnit>::from_array([
        1.7, 2.0, 3.0, 4.0, 5.0, 6.0, 7.0, 8.0, 9.0, 10.0, 11.0, 12.0, 13.0, 14.0, 15.0, -16.9,
    ]);
    let c = m.try_cast::<i32>().unwrap();
    assert_eq!(c.to_row_major_array(), [1, 2, 3, 4, 5, 6, 7, 8, 9, 10, 11, 12, 13, 14, 15, -16]);
    let big = Transform3D::<f32, UnknownUnit, UnknownUnit>::from_array([1.0e20; 16]);
    assert!(big.try_cast::<i32>().is_none());
    let neg = Transform3D::<i32, UnknownUnit, UnknownUnit>::from_array([-1; 16]);
    assert!(neg.try_cast::<u32>().is_none());
}

#[test]
fn test_from_cast_parts() {
    let mut parts = (
        Some(1), Some(2), Some(3), Some(4), Some(5), Some(6), Some(7), Some(8),
        Some(9), Some(10), Some(11), Some(12), Some(13), Some(14), Some(15), Some(16),
    );
    let m: Mi32 = Transform3D::from_cast_parts(parts).unwrap();
    assert_eq!(m.to_row_major_array(), [1, 2, 3, 4, 5, 6, 7, 8, 9, 10, 11, 12, 13, 14, 15, 16]);
    parts.9 = None;
    assert!(Mi32::from_cast_parts(parts).is_none());
}

#[test]
fn test_clone_keeps_entries() {
    let m = rows_i32(A);
    let c = m.clone();
    assert_eq!(c, m);
    assert!(c == m);
    assert!(c != rows_i32(B));
}

#[test]
fn test_homogeneous_to_points() {
    let h: HomogeneousVector<F, UnknownUnit> = HomogeneousVector::new(F(2.0), F(4.0), F(6.0), F(2.0));
    assert_eq!(h.to_point3d(), Some(point3(1.0, 2.0, 3.0)));
    assert_eq!(h.to_point2d(), Some(point2(1.0, 2.0)));
    let h: HomogeneousVector<F, UnknownUnit> = HomogeneousVector::new(F(2.0), F(4.0), F(6.0), F(0.0));
    assert_eq!(h.to_point3d(), None);
}

#[test]
fn test_inverse_is_exact_inverse_dyadic() {
    // determinant 4: the adjugate and 1/4 are exact in f32, so the products are exact
    let m = row_major(2.0, 1.0, 0.0, 0.0, 0.0, 1.0, 3.0, 0.0, 0.0, 0.0, 2.0, 5.0, 4.0, 0.0, 0.0, 1.0);
    assert_eq!(m.determinant(), F(-56.0));
    assert!(m.inverse().is_some());
    let m = row_major(2.0, 1.0, 0.0, 0.0, 0.0, 1.0, 3.0, 0.0, 0.0, 0.0, 2.0, 5.0, 0.0, 0.0, 0.0, 1.0);
    assert_eq!(m.determinant(), F(4.0));
    let inv = m.inverse().unwrap();
    assert_eq!(m.pre_transform(&inv), Mf32::identity());
    assert_eq!(m.post_transform(&inv), Mf32::identity());
}

#[test]
fn test_point_projection_composes_exact() {
    // every value is dyadic, so f32 arithmetic is exact here
    let a = row_major(2.0, 0.0, 0.0, 0.0, 0.0, 4.0, 0.0, 0.0, 0.0, 0.0, 2.0, 0.0, 2.0, 2.0, 0.0, 2.0);
    let b = row_major(1.0, 0.0, 0.0, 0.0, 0.0, 1.0, 0.0, 1.0, 0.0, 0.0, 1.0, 0.0, 4.0, 2.0, 0.0, 1.0);
    let p = point3(1.0, 1.0, 2.0);
    let q = a.transform_point3d(p).unwrap();
    assert_eq!(q, point3(2.0, 3.0, 2.0));
    let through_both = b.transform_point3d(q);
    assert_eq!(through_both, Some(point3(1.5, 1.25, 0.5)));
    assert_eq!(a.post_transform(&b).transform_point3d(p), through_both);
    assert_eq!(b.pre_transform(&a).transform_point3d(p), through_both);
}

#[test]
fn test_backface_visible_iff_inverse_m33_negative() {
    let cases = [
        (Mf32::create_scale(F(1.0), F(1.0), F(-1.0)), true),
        (Mf32::create_scale(F(1.0), F(-1.0), F(-1.0)), true),
        (Mf32::create_scale(F(2.0), F(-1.0), F(1.0)), false),
        (Mf32::create_scale(F(-1.0), F(-1.0), F(1.0)), false),
        (Mf32::create_scale(F(1.0), F(1.0), F(0.0)), false),
    ];
    for (m, visible) in cases {
        let by_inverse = match m.inverse() {
            Some(inv) => inv.m33.0 < 0.0,
            None => false,
        };
        assert_eq!(m.is_backface_visible(), visible);
        assert_eq!(by_inverse, visible);
    }
}

#[test]
fn test_projected_2d_is_2d_and_idempotent() {
    let cases = [
        [4.0, 2.0, 7.0, 0.0, 6.0, 8.0, 7.0, 0.0, 7.0, 7.0, 7.0, 7.0, 10.0, 12.0, 7.0, 2.0],
        [4.0, 2.0, 7.0, 3.0, 6.0, 8.0, 7.0, 0.0, 7.0, 7.0, 7.0, 7.0, 10.0, 12.0, 7.0, 2.0],
        [4.0, 2.0, 7.0, 0.0, 6.0, 8.0, 7.0, 1.0, 7.0, 7.0, 7.0, 7.0, 10.0, 12.0, 7.0, 2.0],
        [4.0, 2.0, 7.0, 0.0, 6.0, 8.0, 7.0, 0.0, 7.0, 7.0, 7.0, 7.0, 10.0, 12.0, 7.0, 0.0],
        [4.0, 2.0, 7.0, 0.0, 6.0, 8.0, 7.0, 0.0, 7.0, 7.0, 7.0, 7.0, 10.0, 12.0, 7.0, 1.0],
    ];
    let expected_2d = [true, false, false, false, true];
    for (a, is_2d) in cases.into_iter().zip(expected_2d) {
        let m = Mf32::from_array(a.map(F));
        let p = m.project_to_2d();
        assert_eq!(p.is_2d(), is_2d);
        assert_eq!(p.is_2d(), m.m14 == F(0.0) && m.m24 == F(0.0) && m.m44 != F(0.0));
        assert_eq!((p.m13, p.m23, p.m31, p.m32, p.m34, p.m43, p.m33), (F(0.0), F(0.0), F(0.0), F(0.0), F(0.0), F(0.0), F(1.0)));
        assert_eq!(p.project_to_2d(), p);
    }
}

#[test]
fn test_determinant_laws_exact() {
    assert_eq!(Mi32::identity().determinant(), 1);
    assert_eq!(Mi32::create_scale(2, -3, 5).determinant(), -30);
    for a in [A, B, C] {
        let m = rows_i32(a);
        let transposed = Mi32::from_array(m.to_column_major_array());
        assert_eq!(transposed.determinant(), m.determinant());
    }
    assert_eq!(rows_i32(B).determinant(), rows_i32(B).post_transform(&Mi32::identity()).determinant());
}

#[test]
fn test_transform_rect_is_corner_bounds() {
    let r = Rect::new(point2(1.0, 2.0), Size2D::new(F(3.0), F(4.0)));
    // a quarter turn: (x, y) -> (-y, x)
    let quarter = row_major(0.0, 1.0, 0.0, 0.0, -1.0, 0.0, 0.0, 0.0, 0.0, 0.0, 1.0, 0.0, 0.0, 0.0, 0.0, 1.0);
    let images = [point2(1.0, 2.0), point2(4.0, 6.0), point2(4.0, 2.0), point2(1.0, 6.0)]
        .map(|c| quarter.transform_point2d(c).unwrap());
    assert_eq!(images, [point2(-2.0, 1.0), point2(-6.0, 4.0), point2(-2.0, 4.0), point2(-6.0, 1.0)]);
    let bounds = quarter.transform_rect(&r).unwrap();
    assert_eq!(bounds.origin, point2(-6.0, 1.0));
    assert_eq!(bounds.max(), point2(-2.0, 4.0));
    for p in images {
        assert!(bounds.origin.x.0 <= p.x.0 && p.x.0 <= bounds.max().x.0);
        assert!(bounds.origin.y.0 <= p.y.0 && p.y.0 <= bounds.max().y.0);
    }
    // w = x - 2 is negative at the corners with x = 1: no image
    let mut tilted = Mf32::identity();
    tilted.m14 = F(1.0);
    tilted.m44 = F(-2.0);
    assert!(tilted.transform_point2d(point2(1.0, 2.0)).is_none());
    assert!(tilted.transform_rect(&r).is_none());
}

#[test]
fn test_ortho_maps_box_corners() {
    let o = Mf32::ortho(F(-1.0), F(3.0), F(-2.0), F(2.0), F(1.0), F(5.0));
    assert_eq!(o.transform_point3d(point3(-1.0, -2.0, -1.0)), Some(point3(-1.0, -1.0, -1.0)));
    assert_eq!(o.transform_point3d(point3(3.0, 2.0, -5.0)), Some(point3(1.0, 1.0, 1.0)));
    assert_eq!((o.m14, o.m24, o.m34, o.m44), (F(0.0), F(0.0), F(0.0), F(1.0)));
}

#[test]
fn test_point2d_divides_homogeneous() {
    let m = row_major(2.0, 0.0, 0.0, 0.0, 0.0, 2.0, 0.0, 0.0, 0.0, 0.0, 1.0, 0.0, 2.0, 4.0, 0.0, 2.0);
    let p = point2(1.0, 1.0);
    let h = m.transform_point2d_homogeneous(p);
    assert_eq!((h.x, h.y, h.w), (F(4.0), F(6.0), F(2.0)));
    assert_eq!(m.transform_point2d(p), Some(point2(h.x.0 / h.w.0, h.y.0 / h.w.0)));
    let mut behind = m;
    behind.m44 = F(-2.0);
    assert!(behind.transform_point2d_homogeneous(p).w.0 <= 0.0);
    assert!(behind.transform_point2d(p).is_none());
}

#[test]
fn test_rotation_fixes_axis() {
    for angle in [0.3, 1.3, FRAC_PI_2, PI, -2.0] {
        let r = Mf32::create_rotation(F(1.0), F(2.0), F(2.0), rad(angle));
        let image = r.transform_vector3d(vec3(1.0, 2.0, 2.0));
        let eps = F(1.0e-4);
        assert!(image.x.approx_eq_eps(&F(1.0), &eps), "{}", image.x.0);
        assert!(image.y.approx_eq_eps(&F(2.0), &eps), "{}", image.y.0);
        assert!(image.z.approx_eq_eps(&F(2.0), &eps), "{}", image.z.0);
    }
}

#[test]
fn test_rotation_by_zero_is_identity() {
    let r = Mf32::create_rotation(F(1.0), F(2.0), F(3.0), rad(0.0));
    assert_eq!(r, Mf32::identity());
    let r = Mf32::create_rotation(F(0.0), F(0.0), F(1.0), rad(0.0));
    assert_eq!(r, Mf32::identity());
}

#[test]
fn test_z_rotations_compose_by_adding_angles() {
    for (a, b) in [(0.3, 0.4), (FRAC_PI_2, FRAC_PI_2), (1.0, -2.5), (PI, 0.25)] {
        let composed = Mf32::create_rotation(F(0.0), F(0.0), F(1.0), rad(a))
            .post_transform(&Mf32::create_rotation(F(0.0), F(0.0), F(1.0), rad(b)));
        let direct = Mf32::create_rotation(F(0.0), F(0.0), F(1.0), rad(a + b));
        assert!(composed.approx_eq(&direct));
    }
}

#[test]
fn test_pre_translate_moves_the_source_point() {
    // dyadic values: f32 arithmetic is exact here
    let m = row_major(2.0, 0.0, 0.0, 0.0, 0.0, 4.0, 0.0, 0.0, 0.0, 0.0, 2.0, 0.0, 2.0, 2.0, 0.0, 2.0);
    let p = point3(1.0, 1.0, 2.0);
    let moved = m.pre_translate(vec3(1.0, -1.0, 2.0)).transform_point3d(p);
    assert_eq!(moved, m.transform_point3d(point3(2.0, 0.0, 4.0)));
    assert_eq!(moved, Some(point3(3.0, 1.0, 4.0)));
}

#[test]
fn test_post_translate_moves_the_image() {
    let m = row_major(2.0, 0.0, 0.0, 0.0, 0.0, 4.0, 0.0, 0.0, 0.0, 0.0, 2.0, 0.0, 2.0, 2.0, 0.0, 2.0);
    let p = point3(1.0, 1.0, 2.0);
    let image = m.transform_point3d(p).unwrap();
    let moved = m.post_translate(vec3(1.0, -1.0, 2.0)).transform_point3d(p);
    assert_eq!(moved, Some(point3(image.x.0 + 1.0, image.y.0 - 1.0, image.z.0 + 2.0)));
    // a point without an image keeps none
    let mut behind = m;
    behind.m44 = F(-8.0);
    assert!(behind.transform_point3d(p).is_none());
    assert!(behind.post_translate(vec3(1.0, -1.0, 2.0)).transform_point3d(p).is_none());
}

#[test]
fn test_axis_rotations_compose_by_adding_angles() {
    for (x, y, z) in [(1.0, 0.0, 0.0), (0.0, 1.0, 0.0), (0.0, 0.0, 1.0)] {
        for (a, b) in [(0.3, 0.4), (FRAC_PI_2, FRAC_PI_2), (1.0, -2.5)] {
            let r = |t: f32| Mf32::create_rotation(F(x), F(y), F(z), rad(t));
            assert!(r(a).post_transform(&r(b)).approx_eq(&r(a + b)));
        }
    }
}

#[test]
fn test_axis_rotations_are_proper() {
    for (x, y, z) in [(1.0, 0.0, 0.0), (0.0, 1.0, 0.0), (0.0, 0.0, 1.0)] {
        for t in [0.3, FRAC_PI_2, 2.0, -1.2] {
            let r = Mf32::create_rotation(F(x), F(y), F(z), rad(t));
            let transposed = Mf32::from_array(r.to_column_major_array());
            assert!(r.post_transform(&transposed).approx_eq(&Mf32::identity()));
            assert!(r.determinant().approx_eq(&F(1.0)));
        }
    }
}
