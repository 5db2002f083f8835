//! Laws of the determinant: its value on the identity and on a scale, and that a matrix
//! and its transpose have the same determinant, over any commutative ring.
use crate::laws_inverse::{determinant_terms, lemma_determinant_terms};
use crate::matrix::{determinant, mat_identity, mat_scale, transpose, Matrix4};
use crate::num::{times, times3, times4, One, Zero};
use crate::signed_sum::{commutative_ring, lemma_ring_zero, lemma_signed_sum_permutation};
use core::ops::{Add, Mul, Sub};
use vstd::multiset::group_multiset_axioms;
use vstd::prelude::*;
use vstd::seq_lib::group_to_multiset_ensures;

verus! {

/// Two neighbouring factors of a product of four can trade places.
proof fn lemma_times4_swaps<T: Add<Output = T> + Sub<Output = T> + Mul<Output = T> + Zero + One>(a: T, b: T, c: T, d: T)
    requires
        commutative_ring::<T>(),
    ensures
        times4(a, b, c, d) == times4(b, a, c, d),
        times4(a, b, c, d) == times4(a, c, b, d),
        times4(a, b, c, d) == times4(a, b, d, c),
{
    reveal(commutative_ring);
    assert(times(a, b) == times(b, a));
    let ab = times(a, b);
    assert(times(ab, c) == times(a, times(b, c)));
    assert(times(b, c) == times(c, b));
    assert(times(a, times(c, b)) == times(times(a, c), b));
    let abc = times(ab, c);
    assert(times(abc, d) == times(ab, times(c, d)));
    assert(times(c, d) == times(d, c));
    assert(times(ab, times(d, c)) == times(times(ab, d), c));
}

/// `x * 1 == x`.
proof fn lemma_times_one<T: Add<Output = T> + Sub<Output = T> + Mul<Output = T> + Zero + One>(x: T)
    requires
        commutative_ring::<T>(),
    ensures
        times(x, T::spec_one()) == x,
{
    reveal(commutative_ring);
}

/// The determinant of a scale is the product of its three factors.
pub proof fn lemma_determinant_of_scale<T: Add<Output = T> + Sub<Output = T> + Mul<Output = T> + Zero + One>(x: T, y: T, z: T)
    requires
        commutative_ring::<T>(),
    ensures
        determinant(mat_scale(x, y, z)) == times(times(x, y), z),
{
    let m = mat_scale(x, y, z);

    lemma_ring_zero(m.m14);
    lemma_ring_zero(m.m23);
    lemma_ring_zero(m.m32);
    lemma_ring_zero(m.m41);
    lemma_ring_zero(times(m.m14, m.m23));
    lemma_ring_zero(times3(m.m14, m.m23, m.m32));
    lemma_ring_zero(m.m13);
    lemma_ring_zero(m.m24);
    lemma_ring_zero(times(m.m13, m.m24));
    lemma_ring_zero(times3(m.m13, m.m24, m.m32));
    lemma_ring_zero(m.m22);
    lemma_ring_zero(m.m33);
    lemma_ring_zero(times(m.m14, m.m22));
    lemma_ring_zero(times3(m.m14, m.m22, m.m33));
    lemma_ring_zero(m.m12);
    lemma_ring_zero(times(m.m12, m.m24));
    lemma_ring_zero(times3(m.m12, m.m24, m.m33));
    lemma_ring_zero(m.m34);
    lemma_ring_zero(times(m.m13, m.m22));
    lemma_ring_zero(times3(m.m13, m.m22, m.m34));
    lemma_ring_zero(times(m.m12, m.m23));
    lemma_ring_zero(times3(m.m12, m.m23, m.m34));
    lemma_ring_zero(m.m31);
    lemma_ring_zero(m.m42);
    lemma_ring_zero(times3(m.m14, m.m23, m.m31));
    lemma_ring_zero(times3(m.m13, m.m24, m.m31));
    lemma_ring_zero(m.m21);
    lemma_ring_zero(times(m.m14, m.m21));
    lemma_ring_zero(times3(m.m14, m.m21, m.m33));
    lemma_ring_zero(m.m11);
    lemma_ring_zero(times(m.m11, m.m24));
    lemma_ring_zero(times3(m.m11, m.m24, m.m33));
    lemma_ring_zero(times(m.m13, m.m21));
    lemma_ring_zero(times3(m.m13, m.m21, m.m34));
    lemma_ring_zero(times(m.m11, m.m23));
    lemma_ring_zero(times3(m.m11, m.m23, m.m34));
    lemma_ring_zero(m.m43);
    lemma_ring_zero(times3(m.m14, m.m22, m.m31));
    lemma_ring_zero(times3(m.m12, m.m24, m.m31));
    lemma_ring_zero(times3(m.m14, m.m21, m.m32));
    lemma_ring_zero(times3(m.m11, m.m24, m.m32));
    lemma_ring_zero(times(m.m12, m.m21));
    lemma_ring_zero(times3(m.m12, m.m21, m.m34));
    lemma_ring_zero(times(m.m11, m.m22));
    lemma_ring_zero(times3(m.m11, m.m22, m.m34));
    lemma_ring_zero(m.m44);
    lemma_ring_zero(times3(m.m13, m.m22, m.m31));
    lemma_ring_zero(times3(m.m12, m.m23, m.m31));
    lemma_ring_zero(times3(m.m13, m.m21, m.m32));
    lemma_ring_zero(times3(m.m11, m.m23, m.m32));
    lemma_ring_zero(times3(m.m12, m.m21, m.m33));
    lemma_ring_zero(times3(m.m11, m.m22, m.m33));
    lemma_ring_zero(times4(x, y, z, T::spec_one()));
    lemma_times_one(times3(x, y, z));
}

/// The determinant of the identity is one.
pub proof fn lemma_determinant_of_identity<T: Add<Output = T> + Sub<Output = T> + Mul<Output = T> + Zero + One>()
    requires
        commutative_ring::<T>(),
    ensures
        determinant(mat_identity::<T>()) == T::spec_one(),
{
    let l = T::spec_one();
    assert(mat_identity::<T>() == mat_scale(l, l, l));
    lemma_determinant_of_scale(l, l, l);
    lemma_times_one(l);
}

/// A matrix and its transpose have the same determinant: the transpose's terms are those
/// of the matrix, each with its factors in another order.
#[verifier::spinoff_prover]
#[verifier::rlimit(40)]
pub proof fn lemma_determinant_of_transpose<T: Add<Output = T> + Sub<Output = T> + Mul<Output = T> + Zero + One>(m: Matrix4<T>)
    requires
        commutative_ring::<T>(),
    ensures
        determinant(transpose(m)) == determinant(m),
{
    broadcast use group_to_multiset_ensures, group_multiset_axioms;

    let t = transpose(m);
    lemma_determinant_terms(m);
    lemma_determinant_terms(t);
    lemma_times4_swaps(m.m41, m.m32, m.m23, m.m14);
    lemma_times4_swaps(m.m32, m.m41, m.m23, m.m14);
    lemma_times4_swaps(m.m32, m.m23, m.m41, m.m14);
    lemma_times4_swaps(m.m32, m.m23, m.m14, m.m41);
    lemma_times4_swaps(m.m23, m.m32, m.m14, m.m41);
    lemma_times4_swaps(m.m23, m.m14, m.m32, m.m41);
    lemma_times4_swaps(m.m31, m.m42, m.m23, m.m14);
    lemma_times4_swaps(m.m31, m.m23, m.m42, m.m14);
    lemma_times4_swaps(m.m31, m.m23, m.m14, m.m42);
    lemma_times4_swaps(m.m23, m.m31, m.m14, m.m42);
    lemma_times4_swaps(m.m23, m.m14, m.m31, m.m42);
    lemma_times4_swaps(m.m41, m.m22, m.m33, m.m14);
    lemma_times4_swaps(m.m22, m.m41, m.m33, m.m14);
    lemma_times4_swaps(m.m22, m.m33, m.m41, m.m14);
    lemma_times4_swaps(m.m22, m.m33, m.m14, m.m41);
    lemma_times4_swaps(m.m22, m.m14, m.m33, m.m41);
    lemma_times4_swaps(m.m21, m.m42, m.m33, m.m14);
    lemma_times4_swaps(m.m21, m.m33, m.m42, m.m14);
    lemma_times4_swaps(m.m21, m.m33, m.m14, m.m42);
    lemma_times4_swaps(m.m21, m.m14, m.m33, m.m42);
    lemma_times4_swaps(m.m31, m.m22, m.m43, m.m14);
    lemma_times4_swaps(m.m22, m.m31, m.m43, m.m14);
    lemma_times4_swaps(m.m22, m.m31, m.m14, m.m43);
    lemma_times4_swaps(m.m22, m.m14, m.m31, m.m43);
    lemma_times4_swaps(m.m21, m.m32, m.m43, m.m14);
    lemma_times4_swaps(m.m21, m.m32, m.m14, m.m43);
    lemma_times4_swaps(m.m21, m.m14, m.m32, m.m43);
    lemma_times4_swaps(m.m41, m.m32, m.m13, m.m24);
    lemma_times4_swaps(m.m32, m.m41, m.m13, m.m24);
    lemma_times4_swaps(m.m32, m.m13, m.m41, m.m24);
    lemma_times4_swaps(m.m32, m.m13, m.m24, m.m41);
    lemma_times4_swaps(m.m13, m.m32, m.m24, m.m41);
    lemma_times4_swaps(m.m31, m.m42, m.m13, m.m24);
    lemma_times4_swaps(m.m31, m.m13, m.m42, m.m24);
    lemma_times4_swaps(m.m31, m.m13, m.m24, m.m42);
    lemma_times4_swaps(m.m13, m.m31, m.m24, m.m42);
    lemma_times4_swaps(m.m41, m.m12, m.m33, m.m24);
    lemma_times4_swaps(m.m12, m.m41, m.m33, m.m24);
    lemma_times4_swaps(m.m12, m.m33, m.m41, m.m24);
    lemma_times4_swaps(m.m12, m.m33, m.m24, m.m41);
    lemma_times4_swaps(m.m11, m.m42, m.m33, m.m24);
    lemma_times4_swaps(m.m11, m.m33, m.m42, m.m24);
    lemma_times4_swaps(m.m11, m.m33, m.m24, m.m42);
    lemma_times4_swaps(m.m31, m.m12, m.m43, m.m24);
    lemma_times4_swaps(m.m12, m.m31, m.m43, m.m24);
    lemma_times4_swaps(m.m12, m.m31, m.m24, m.m43);
    lemma_times4_swaps(m.m11, m.m32, m.m43, m.m24);
    lemma_times4_swaps(m.m11, m.m32, m.m24, m.m43);
    lemma_times4_swaps(m.m41, m.m22, m.m13, m.m34);
    lemma_times4_swaps(m.m22, m.m41, m.m13, m.m34);
    lemma_times4_swaps(m.m22, m.m13, m.m41, m.m34);
    lemma_times4_swaps(m.m22, m.m13, m.m34, m.m41);
    lemma_times4_swaps(m.m21, m.m42, m.m13, m.m34);
    lemma_times4_swaps(m.m21, m.m13, m.m42, m.m34);
    lemma_times4_swaps(m.m21, m.m13, m.m34, m.m42);
    lemma_times4_swaps(m.m41, m.m12, m.m23, m.m34);
    lemma_times4_swaps(m.m12, m.m41, m.m23, m.m34);
    lemma_times4_swaps(m.m12, m.m23, m.m41, m.m34);
    lemma_times4_swaps(m.m11, m.m42, m.m23, m.m34);
    lemma_times4_swaps(m.m11, m.m23, m.m42, m.m34);
    lemma_times4_swaps(m.m21, m.m12, m.m43, m.m34);
    lemma_times4_swaps(m.m12, m.m21, m.m43, m.m34);
    lemma_times4_swaps(m.m11, m.m22, m.m43, m.m34);
    lemma_times4_swaps(m.m31, m.m22, m.m13, m.m44);
    lemma_times4_swaps(m.m22, m.m31, m.m13, m.m44);
    lemma_times4_swaps(m.m22, m.m13, m.m31, m.m44);
    lemma_times4_swaps(m.m21, m.m32, m.m13, m.m44);
    lemma_times4_swaps(m.m21, m.m13, m.m32, m.m44);
    lemma_times4_swaps(m.m31, m.m12, m.m23, m.m44);
    lemma_times4_swaps(m.m12, m.m31, m.m23, m.m44);
    lemma_times4_swaps(m.m11, m.m32, m.m23, m.m44);
    lemma_times4_swaps(m.m21, m.m12, m.m33, m.m44);
    let canon = Seq::empty()
        .push((true, times4(m.m14, m.m23, m.m32, m.m41)))
        .push((false, times4(m.m14, m.m23, m.m31, m.m42)))
        .push((false, times4(m.m14, m.m22, m.m33, m.m41)))
        .push((true, times4(m.m14, m.m21, m.m33, m.m42)))
        .push((true, times4(m.m14, m.m22, m.m31, m.m43)))
        .push((false, times4(m.m14, m.m21, m.m32, m.m43)))
        .push((false, times4(m.m13, m.m24, m.m32, m.m41)))
        .push((true, times4(m.m13, m.m24, m.m31, m.m42)))
        .push((true, times4(m.m12, m.m24, m.m33, m.m41)))
        .push((false, times4(m.m11, m.m24, m.m33, m.m42)))
        .push((false, times4(m.m12, m.m24, m.m31, m.m43)))
        .push((true, times4(m.m11, m.m24, m.m32, m.m43)))
        .push((true, times4(m.m13, m.m22, m.m34, m.m41)))
        .push((false, times4(m.m13, m.m21, m.m34, m.m42)))
        .push((false, times4(m.m12, m.m23, m.m34, m.m41)))
        .push((true, times4(m.m11, m.m23, m.m34, m.m42)))
        .push((true, times4(m.m12, m.m21, m.m34, m.m43)))
        .push((false, times4(m.m11, m.m22, m.m34, m.m43)))
        .push((false, times4(m.m13, m.m22, m.m31, m.m44)))
        .push((true, times4(m.m13, m.m21, m.m32, m.m44)))
        .push((true, times4(m.m12, m.m23, m.m31, m.m44)))
        .push((false, times4(m.m11, m.m23, m.m32, m.m44)))
        .push((false, times4(m.m12, m.m21, m.m33, m.m44)))
        .push((true, times4(m.m11, m.m22, m.m33, m.m44)));
    assert(canon =~= determinant_terms(t));
    assert(canon.to_multiset() =~= determinant_terms(m).to_multiset());
    lemma_signed_sum_permutation(canon, determinant_terms(m));
}

} // verus!
