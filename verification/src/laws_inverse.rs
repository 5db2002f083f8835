//! The inverse is an inverse: `(adjugate(m) * (1 / det m)) * m` and `m * (adjugate(m) *
//! (1 / det m))` are the identity, over any field.  The proof expands each entry of
//! `adjugate(m) * m` (and of `m * adjugate(m)`) into 24 signed
//! products of four entries of `m`, and shows that they are, up to order, the terms of
//! the determinant (on the diagonal) or terms that cancel in pairs (elsewhere).
use crate::matrix::{adjugate, determinant, dot4, mat_identity, mat_mul, mat_scaled, Matrix4};
use crate::num::{plus, quot, times, times3, times4, One, Zero};
use crate::signed_sum::{
    cancelling_pairs, commutative_ring, field, lemma_cancelling_pairs, lemma_signed_sum_concat,
    lemma_signed_sum_permutation, lemma_signed_sum_times, scaled_terms, signed_sum, step,
};
use core::ops::{Add, Div, Mul, Sub};
use vstd::prelude::*;
use vstd::multiset::group_multiset_axioms;
use vstd::seq_lib::group_to_multiset_ensures;

verus! {

/// The six signed products that make up each entry of `adjugate(m)`, in the order the
/// library adds them.
pub open spec fn adjugate_terms<T: Mul<Output = T>>(m: Matrix4<T>) -> Matrix4<Seq<(bool, T)>> {
    Matrix4 {
        m11: seq![(true, times3(m.m23, m.m34, m.m42)), (false, times3(m.m24, m.m33, m.m42)), (true, times3(m.m24, m.m32, m.m43)), (false, times3(m.m22, m.m34, m.m43)), (false, times3(m.m23, m.m32, m.m44)), (true, times3(m.m22, m.m33, m.m44))],
        m12: seq![(true, times3(m.m14, m.m33, m.m42)), (false, times3(m.m13, m.m34, m.m42)), (false, times3(m.m14, m.m32, m.m43)), (true, times3(m.m12, m.m34, m.m43)), (true, times3(m.m13, m.m32, m.m44)), (false, times3(m.m12, m.m33, m.m44))],
        m13: seq![(true, times3(m.m13, m.m24, m.m42)), (false, times3(m.m14, m.m23, m.m42)), (true, times3(m.m14, m.m22, m.m43)), (false, times3(m.m12, m.m24, m.m43)), (false, times3(m.m13, m.m22, m.m44)), (true, times3(m.m12, m.m23, m.m44))],
        m14: seq![(true, times3(m.m14, m.m23, m.m32)), (false, times3(m.m13, m.m24, m.m32)), (false, times3(m.m14, m.m22, m.m33)), (true, times3(m.m12, m.m24, m.m33)), (true, times3(m.m13, m.m22, m.m34)), (false, times3(m.m12, m.m23, m.m34))],
        m21: seq![(true, times3(m.m24, m.m33, m.m41)), (false, times3(m.m23, m.m34, m.m41)), (false, times3(m.m24, m.m31, m.m43)), (true, times3(m.m21, m.m34, m.m43)), (true, times3(m.m23, m.m31, m.m44)), (false, times3(m.m21, m.m33, m.m44))],
        m22: seq![(true, times3(m.m13, m.m34, m.m41)), (false, times3(m.m14, m.m33, m.m41)), (true, times3(m.m14, m.m31, m.m43)), (false, times3(m.m11, m.m34, m.m43)), (false, times3(m.m13, m.m31, m.m44)), (true, times3(m.m11, m.m33, m.m44))],
        m23: seq![(true, times3(m.m14, m.m23, m.m41)), (false, times3(m.m13, m.m24, m.m41)), (false, times3(m.m14, m.m21, m.m43)), (true, times3(m.m11, m.m24, m.m43)), (true, times3(m.m13, m.m21, m.m44)), (false, times3(m.m11, m.m23, m.m44))],
        m24: seq![(true, times3(m.m13, m.m24, m.m31)), (false, times3(m.m14, m.m23, m.m31)), (true, times3(m.m14, m.m21, m.m33)), (false, times3(m.m11, m.m24, m.m33)), (false, times3(m.m13, m.m21, m.m34)), (true, times3(m.m11, m.m23, m.m34))],
        m31: seq![(true, times3(m.m22, m.m34, m.m41)), (false, times3(m.m24, m.m32, m.m41)), (true, times3(m.m24, m.m31, m.m42)), (false, times3(m.m21, m.m34, m.m42)), (false, times3(m.m22, m.m31, m.m44)), (true, times3(m.m21, m.m32, m.m44))],
        m32: seq![(true, times3(m.m14, m.m32, m.m41)), (false, times3(m.m12, m.m34, m.m41)), (false, times3(m.m14, m.m31, m.m42)), (true, times3(m.m11, m.m34, m.m42)), (true, times3(m.m12, m.m31, m.m44)), (false, times3(m.m11, m.m32, m.m44))],
        m33: seq![(true, times3(m.m12, m.m24, m.m41)), (false, times3(m.m14, m.m22, m.m41)), (true, times3(m.m14, m.m21, m.m42)), (false, times3(m.m11, m.m24, m.m42)), (false, times3(m.m12, m.m21, m.m44)), (true, times3(m.m11, m.m22, m.m44))],
        m34: seq![(true, times3(m.m14, m.m22, m.m31)), (false, times3(m.m12, m.m24, m.m31)), (false, times3(m.m14, m.m21, m.m32)), (true, times3(m.m11, m.m24, m.m32)), (true, times3(m.m12, m.m21, m.m34)), (false, times3(m.m11, m.m22, m.m34))],
        m41: seq![(true, times3(m.m23, m.m32, m.m41)), (false, times3(m.m22, m.m33, m.m41)), (false, times3(m.m23, m.m31, m.m42)), (true, times3(m.m21, m.m33, m.m42)), (true, times3(m.m22, m.m31, m.m43)), (false, times3(m.m21, m.m32, m.m43))],
        m42: seq![(true, times3(m.m12, m.m33, m.m41)), (false, times3(m.m13, m.m32, m.m41)), (true, times3(m.m13, m.m31, m.m42)), (false, times3(m.m11, m.m33, m.m42)), (false, times3(m.m12, m.m31, m.m43)), (true, times3(m.m11, m.m32, m.m43))],
        m43: seq![(true, times3(m.m13, m.m22, m.m41)), (false, times3(m.m12, m.m23, m.m41)), (false, times3(m.m13, m.m21, m.m42)), (true, times3(m.m11, m.m23, m.m42)), (true, times3(m.m12, m.m21, m.m43)), (false, times3(m.m11, m.m22, m.m43))],
        m44: seq![(true, times3(m.m12, m.m23, m.m31)), (false, times3(m.m13, m.m22, m.m31)), (true, times3(m.m13, m.m21, m.m32)), (false, times3(m.m11, m.m23, m.m32)), (false, times3(m.m12, m.m21, m.m33)), (true, times3(m.m11, m.m22, m.m33))],
    }
}

/// The 24 signed products of the determinant, in the order the library adds them.
pub open spec fn determinant_terms<T: Mul<Output = T>>(m: Matrix4<T>) -> Seq<(bool, T)> {
    Seq::empty()
        .push((true, times4(m.m14, m.m23, m.m32, m.m41)))
        .push((false, times4(m.m13, m.m24, m.m32, m.m41)))
        .push((false, times4(m.m14, m.m22, m.m33, m.m41)))
        .push((true, times4(m.m12, m.m24, m.m33, m.m41)))
        .push((true, times4(m.m13, m.m22, m.m34, m.m41)))
        .push((false, times4(m.m12, m.m23, m.m34, m.m41)))
        .push((false, times4(m.m14, m.m23, m.m31, m.m42)))
        .push((true, times4(m.m13, m.m24, m.m31, m.m42)))
        .push((true, times4(m.m14, m.m21, m.m33, m.m42)))
        .push((false, times4(m.m11, m.m24, m.m33, m.m42)))
        .push((false, times4(m.m13, m.m21, m.m34, m.m42)))
        .push((true, times4(m.m11, m.m23, m.m34, m.m42)))
        .push((true, times4(m.m14, m.m22, m.m31, m.m43)))
        .push((false, times4(m.m12, m.m24, m.m31, m.m43)))
        .push((false, times4(m.m14, m.m21, m.m32, m.m43)))
        .push((true, times4(m.m11, m.m24, m.m32, m.m43)))
        .push((true, times4(m.m12, m.m21, m.m34, m.m43)))
        .push((false, times4(m.m11, m.m22, m.m34, m.m43)))
        .push((false, times4(m.m13, m.m22, m.m31, m.m44)))
        .push((true, times4(m.m12, m.m23, m.m31, m.m44)))
        .push((true, times4(m.m13, m.m21, m.m32, m.m44)))
        .push((false, times4(m.m11, m.m23, m.m32, m.m44)))
        .push((false, times4(m.m12, m.m21, m.m33, m.m44)))
        .push((true, times4(m.m11, m.m22, m.m33, m.m44)))
}

/// `0 + x == x`
proof fn lemma_plus_zero_left<T: Add<Output = T> + Sub<Output = T> + Mul<Output = T> + Zero + One>(x: T)
    requires
        commutative_ring::<T>(),
    ensures
        plus(T::spec_zero(), x) == x,
{
    reveal(commutative_ring);
    assert(plus(T::spec_zero(), x) == plus(x, T::spec_zero()));
}

/// Entry `11` of the adjugate is the signed sum of its terms.
proof fn lemma_adjugate_m11_terms<T: Add<Output = T> + Sub<Output = T> + Mul<Output = T> + Zero + One>(m: Matrix4<T>)
    requires
        commutative_ring::<T>(),
    ensures
        adjugate(m).m11 == signed_sum(adjugate_terms(m).m11),
{
    let s = seq![(true, times3(m.m23, m.m34, m.m42))];
    assert(s.drop_last() =~= Seq::<(bool, T)>::empty());
    assert(signed_sum(Seq::<(bool, T)>::empty()) == T::spec_zero());
    assert(signed_sum(s) == step(T::spec_zero(), s.last()));
    lemma_plus_zero_left(times3(m.m23, m.m34, m.m42));
    assert(signed_sum(s) == times3(m.m23, m.m34, m.m42));
    let prev = s;
    let s = prev.push((false, times3(m.m24, m.m33, m.m42)));
    assert(s.drop_last() =~= prev);
    assert(signed_sum(s) == step(signed_sum(prev), (false, times3(m.m24, m.m33, m.m42))));
    let prev = s;
    let s = prev.push((true, times3(m.m24, m.m32, m.m43)));
    assert(s.drop_last() =~= prev);
    assert(signed_sum(s) == step(signed_sum(prev), (true, times3(m.m24, m.m32, m.m43))));
    let prev = s;
    let s = prev.push((false, times3(m.m22, m.m34, m.m43)));
    assert(s.drop_last() =~= prev);
    assert(signed_sum(s) == step(signed_sum(prev), (false, times3(m.m22, m.m34, m.m43))));
    let prev = s;
    let s = prev.push((false, times3(m.m23, m.m32, m.m44)));
    assert(s.drop_last() =~= prev);
    assert(signed_sum(s) == step(signed_sum(prev), (false, times3(m.m23, m.m32, m.m44))));
    let prev = s;
    let s = prev.push((true, times3(m.m22, m.m33, m.m44)));
    assert(s.drop_last() =~= prev);
    assert(signed_sum(s) == step(signed_sum(prev), (true, times3(m.m22, m.m33, m.m44))));
    assert(s =~= adjugate_terms(m).m11);
}

/// Entry `12` of the adjugate is the signed sum of its terms.
proof fn lemma_adjugate_m12_terms<T: Add<Output = T> + Sub<Output = T> + Mul<Output = T> + Zero + One>(m: Matrix4<T>)
    requires
        commutative_ring::<T>(),
    ensures
        adjugate(m).m12 == signed_sum(adjugate_terms(m).m12),
{
    let s = seq![(true, times3(m.m14, m.m33, m.m42))];
    assert(s.drop_last() =~= Seq::<(bool, T)>::empty());
    assert(signed_sum(Seq::<(bool, T)>::empty()) == T::spec_zero());
    assert(signed_sum(s) == step(T::spec_zero(), s.last()));
    lemma_plus_zero_left(times3(m.m14, m.m33, m.m42));
    assert(signed_sum(s) == times3(m.m14, m.m33, m.m42));
    let prev = s;
    let s = prev.push((false, times3(m.m13, m.m34, m.m42)));
    assert(s.drop_last() =~= prev);
    assert(signed_sum(s) == step(signed_sum(prev), (false, times3(m.m13, m.m34, m.m42))));
    let prev = s;
    let s = prev.push((false, times3(m.m14, m.m32, m.m43)));
    assert(s.drop_last() =~= prev);
    assert(signed_sum(s) == step(signed_sum(prev), (false, times3(m.m14, m.m32, m.m43))));
    let prev = s;
    let s = prev.push((true, times3(m.m12, m.m34, m.m43)));
    assert(s.drop_last() =~= prev);
    assert(signed_sum(s) == step(signed_sum(prev), (true, times3(m.m12, m.m34, m.m43))));
    let prev = s;
    let s = prev.push((true, times3(m.m13, m.m32, m.m44)));
    assert(s.drop_last() =~= prev);
    assert(signed_sum(s) == step(signed_sum(prev), (true, times3(m.m13, m.m32, m.m44))));
    let prev = s;
    let s = prev.push((false, times3(m.m12, m.m33, m.m44)));
    assert(s.drop_last() =~= prev);
    assert(signed_sum(s) == step(signed_sum(prev), (false, times3(m.m12, m.m33, m.m44))));
    assert(s =~= adjugate_terms(m).m12);
}

/// Entry `13` of the adjugate is the signed sum of its terms.
proof fn lemma_adjugate_m13_terms<T: Add<Output = T> + Sub<Output = T> + Mul<Output = T> + Zero + One>(m: Matrix4<T>)
    requires
        commutative_ring::<T>(),
    ensures
        adjugate(m).m13 == signed_sum(adjugate_terms(m).m13),
{
    let s = seq![(true, times3(m.m13, m.m24, m.m42))];
    assert(s.drop_last() =~= Seq::<(bool, T)>::empty());
    assert(signed_sum(Seq::<(bool, T)>::empty()) == T::spec_zero());
    assert(signed_sum(s) == step(T::spec_zero(), s.last()));
    lemma_plus_zero_left(times3(m.m13, m.m24, m.m42));
    assert(signed_sum(s) == times3(m.m13, m.m24, m.m42));
    let prev = s;
    let s = prev.push((false, times3(m.m14, m.m23, m.m42)));
    assert(s.drop_last() =~= prev);
    assert(signed_sum(s) == step(signed_sum(prev), (false, times3(m.m14, m.m23, m.m42))));
    let prev = s;
    let s = prev.push((true, times3(m.m14, m.m22, m.m43)));
    assert(s.drop_last() =~= prev);
    assert(signed_sum(s) == step(signed_sum(prev), (true, times3(m.m14, m.m22, m.m43))));
    let prev = s;
    let s = prev.push((false, times3(m.m12, m.m24, m.m43)));
    assert(s.drop_last() =~= prev);
    assert(signed_sum(s) == step(signed_sum(prev), (false, times3(m.m12, m.m24, m.m43))));
    let prev = s;
    let s = prev.push((false, times3(m.m13, m.m22, m.m44)));
    assert(s.drop_last() =~= prev);
    assert(signed_sum(s) == step(signed_sum(prev), (false, times3(m.m13, m.m22, m.m44))));
    let prev = s;
    let s = prev.push((true, times3(m.m12, m.m23, m.m44)));
    assert(s.drop_last() =~= prev);
    assert(signed_sum(s) == step(signed_sum(prev), (true, times3(m.m12, m.m23, m.m44))));
    assert(s =~= adjugate_terms(m).m13);
}

/// Entry `14` of the adjugate is the signed sum of its terms.
proof fn lemma_adjugate_m14_terms<T: Add<Output = T> + Sub<Output = T> + Mul<Output = T> + Zero + One>(m: Matrix4<T>)
    requires
        commutative_ring::<T>(),
    ensures
        adjugate(m).m14 == signed_sum(adjugate_terms(m).m14),
{
    let s = seq![(true, times3(m.m14, m.m23, m.m32))];
    assert(s.drop_last() =~= Seq::<(bool, T)>::empty());
    assert(signed_sum(Seq::<(bool, T)>::empty()) == T::spec_zero());
    assert(signed_sum(s) == step(T::spec_zero(), s.last()));
    lemma_plus_zero_left(times3(m.m14, m.m23, m.m32));
    assert(signed_sum(s) == times3(m.m14, m.m23, m.m32));
    let prev = s;
    let s = prev.push((false, times3(m.m13, m.m24, m.m32)));
    assert(s.drop_last() =~= prev);
    assert(signed_sum(s) == step(signed_sum(prev), (false, times3(m.m13, m.m24, m.m32))));
    let prev = s;
    let s = prev.push((false, times3(m.m14, m.m22, m.m33)));
    assert(s.drop_last() =~= prev);
    assert(signed_sum(s) == step(signed_sum(prev), (false, times3(m.m14, m.m22, m.m33))));
    let prev = s;
    let s = prev.push((true, times3(m.m12, m.m24, m.m33)));
    assert(s.drop_last() =~= prev);
    assert(signed_sum(s) == step(signed_sum(prev), (true, times3(m.m12, m.m24, m.m33))));
    let prev = s;
    let s = prev.push((true, times3(m.m13, m.m22, m.m34)));
    assert(s.drop_last() =~= prev);
    assert(signed_sum(s) == step(signed_sum(prev), (true, times3(m.m13, m.m22, m.m34))));
    let prev = s;
    let s = prev.push((false, times3(m.m12, m.m23, m.m34)));
    assert(s.drop_last() =~= prev);
    assert(signed_sum(s) == step(signed_sum(prev), (false, times3(m.m12, m.m23, m.m34))));
    assert(s =~= adjugate_terms(m).m14);
}

/// Entry `21` of the adjugate is the signed sum of its terms.
proof fn lemma_adjugate_m21_terms<T: Add<Output = T> + Sub<Output = T> + Mul<Output = T> + Zero + One>(m: Matrix4<T>)
    requires
        commutative_ring::<T>(),
    ensures
        adjugate(m).m21 == signed_sum(adjugate_terms(m).m21),
{
    let s = seq![(true, times3(m.m24, m.m33, m.m41))];
    assert(s.drop_last() =~= Seq::<(bool, T)>::empty());
    assert(signed_sum(Seq::<(bool, T)>::empty()) == T::spec_zero());
    assert(signed_sum(s) == step(T::spec_zero(), s.last()));
    lemma_plus_zero_left(times3(m.m24, m.m33, m.m41));
    assert(signed_sum(s) == times3(m.m24, m.m33, m.m41));
    let prev = s;
    let s = prev.push((false, times3(m.m23, m.m34, m.m41)));
    assert(s.drop_last() =~= prev);
    assert(signed_sum(s) == step(signed_sum(prev), (false, times3(m.m23, m.m34, m.m41))));
    let prev = s;
    let s = prev.push((false, times3(m.m24, m.m31, m.m43)));
    assert(s.drop_last() =~= prev);
    assert(signed_sum(s) == step(signed_sum(prev), (false, times3(m.m24, m.m31, m.m43))));
    let prev = s;
    let s = prev.push((true, times3(m.m21, m.m34, m.m43)));
    assert(s.drop_last() =~= prev);
    assert(signed_sum(s) == step(signed_sum(prev), (true, times3(m.m21, m.m34, m.m43))));
    let prev = s;
    let s = prev.push((true, times3(m.m23, m.m31, m.m44)));
    assert(s.drop_last() =~= prev);
    assert(signed_sum(s) == step(signed_sum(prev), (true, times3(m.m23, m.m31, m.m44))));
    let prev = s;
    let s = prev.push((false, times3(m.m21, m.m33, m.m44)));
    assert(s.drop_last() =~= prev);
    assert(signed_sum(s) == step(signed_sum(prev), (false, times3(m.m21, m.m33, m.m44))));
    assert(s =~= adjugate_terms(m).m21);
}

/// Entry `22` of the adjugate is the signed sum of its terms.
proof fn lemma_adjugate_m22_terms<T: Add<Output = T> + Sub<Output = T> + Mul<Output = T> + Zero + One>(m: Matrix4<T>)
    requires
        commutative_ring::<T>(),
    ensures
        adjugate(m).m22 == signed_sum(adjugate_terms(m).m22),
{
    let s = seq![(true, times3(m.m13, m.m34, m.m41))];
    assert(s.drop_last() =~= Seq::<(bool, T)>::empty());
    assert(signed_sum(Seq::<(bool, T)>::empty()) == T::spec_zero());
    assert(signed_sum(s) == step(T::spec_zero(), s.last()));
    lemma_plus_zero_left(times3(m.m13, m.m34, m.m41));
    assert(signed_sum(s) == times3(m.m13, m.m34, m.m41));
    let prev = s;
    let s = prev.push((false, times3(m.m14, m.m33, m.m41)));
    assert(s.drop_last() =~= prev);
    assert(signed_sum(s) == step(signed_sum(prev), (false, times3(m.m14, m.m33, m.m41))));
    let prev = s;
    let s = prev.push((true, times3(m.m14, m.m31, m.m43)));
    assert(s.drop_last() =~= prev);
    assert(signed_sum(s) == step(signed_sum(prev), (true, times3(m.m14, m.m31, m.m43))));
    let prev = s;
    let s = prev.push((false, times3(m.m11, m.m34, m.m43)));
    assert(s.drop_last() =~= prev);
    assert(signed_sum(s) == step(signed_sum(prev), (false, times3(m.m11, m.m34, m.m43))));
    let prev = s;
    let s = prev.push((false, times3(m.m13, m.m31, m.m44)));
    assert(s.drop_last() =~= prev);
    assert(signed_sum(s) == step(signed_sum(prev), (false, times3(m.m13, m.m31, m.m44))));
    let prev = s;
    let s = prev.push((true, times3(m.m11, m.m33, m.m44)));
    assert(s.drop_last() =~= prev);
    assert(signed_sum(s) == step(signed_sum(prev), (true, times3(m.m11, m.m33, m.m44))));
    assert(s =~= adjugate_terms(m).m22);
}

/// Entry `23` of the adjugate is the signed sum of its terms.
proof fn lemma_adjugate_m23_terms<T: Add<Output = T> + Sub<Output = T> + Mul<Output = T> + Zero + One>(m: Matrix4<T>)
    requires
        commutative_ring::<T>(),
    ensures
        adjugate(m).m23 == signed_sum(adjugate_terms(m).m23),
{
    let s = seq![(true, times3(m.m14, m.m23, m.m41))];
    assert(s.drop_last() =~= Seq::<(bool, T)>::empty());
    assert(signed_sum(Seq::<(bool, T)>::empty()) == T::spec_zero());
    assert(signed_sum(s) == step(T::spec_zero(), s.last()));
    lemma_plus_zero_left(times3(m.m14, m.m23, m.m41));
    assert(signed_sum(s) == times3(m.m14, m.m23, m.m41));
    let prev = s;
    let s = prev.push((false, times3(m.m13, m.m24, m.m41)));
    assert(s.drop_last() =~= prev);
    assert(signed_sum(s) == step(signed_sum(prev), (false, times3(m.m13, m.m24, m.m41))));
    let prev = s;
    let s = prev.push((false, times3(m.m14, m.m21, m.m43)));
    assert(s.drop_last() =~= prev);
    assert(signed_sum(s) == step(signed_sum(prev), (false, times3(m.m14, m.m21, m.m43))));
    let prev = s;
    let s = prev.push((true, times3(m.m11, m.m24, m.m43)));
    assert(s.drop_last() =~= prev);
    assert(signed_sum(s) == step(signed_sum(prev), (true, times3(m.m11, m.m24, m.m43))));
    let prev = s;
    let s = prev.push((true, times3(m.m13, m.m21, m.m44)));
    assert(s.drop_last() =~= prev);
    assert(signed_sum(s) == step(signed_sum(prev), (true, times3(m.m13, m.m21, m.m44))));
    let prev = s;
    let s = prev.push((false, times3(m.m11, m.m23, m.m44)));
    assert(s.drop_last() =~= prev);
    assert(signed_sum(s) == step(signed_sum(prev), (false, times3(m.m11, m.m23, m.m44))));
    assert(s =~= adjugate_terms(m).m23);
}

/// Entry `24` of the adjugate is the signed sum of its terms.
proof fn lemma_adjugate_m24_terms<T: Add<Output = T> + Sub<Output = T> + Mul<Output = T> + Zero + One>(m: Matrix4<T>)
    requires
        commutative_ring::<T>(),
    ensures
        adjugate(m).m24 == signed_sum(adjugate_terms(m).m24),
{
    let s = seq![(true, times3(m.m13, m.m24, m.m31))];
    assert(s.drop_last() =~= Seq::<(bool, T)>::empty());
    assert(signed_sum(Seq::<(bool, T)>::empty()) == T::spec_zero());
    assert(signed_sum(s) == step(T::spec_zero(), s.last()));
    lemma_plus_zero_left(times3(m.m13, m.m24, m.m31));
    assert(signed_sum(s) == times3(m.m13, m.m24, m.m31));
    let prev = s;
    let s = prev.push((false, times3(m.m14, m.m23, m.m31)));
    assert(s.drop_last() =~= prev);
    assert(signed_sum(s) == step(signed_sum(prev), (false, times3(m.m14, m.m23, m.m31))));
    let prev = s;
    let s = prev.push((true, times3(m.m14, m.m21, m.m33)));
    assert(s.drop_last() =~= prev);
    assert(signed_sum(s) == step(signed_sum(prev), (true, times3(m.m14, m.m21, m.m33))));
    let prev = s;
    let s = prev.push((false, times3(m.m11, m.m24, m.m33)));
    assert(s.drop_last() =~= prev);
    assert(signed_sum(s) == step(signed_sum(prev), (false, times3(m.m11, m.m24, m.m33))));
    let prev = s;
    let s = prev.push((false, times3(m.m13, m.m21, m.m34)));
    assert(s.drop_last() =~= prev);
    assert(signed_sum(s) == step(signed_sum(prev), (false, times3(m.m13, m.m21, m.m34))));
    let prev = s;
    let s = prev.push((true, times3(m.m11, m.m23, m.m34)));
    assert(s.drop_last() =~= prev);
    assert(signed_sum(s) == step(signed_sum(prev), (true, times3(m.m11, m.m23, m.m34))));
    assert(s =~= adjugate_terms(m).m24);
}

/// Entry `31` of the adjugate is the signed sum of its terms.
proof fn lemma_adjugate_m31_terms<T: Add<Output = T> + Sub<Output = T> + Mul<Output = T> + Zero + One>(m: Matrix4<T>)
    requires
        commutative_ring::<T>(),
    ensures
        adjugate(m).m31 == signed_sum(adjugate_terms(m).m31),
{
    let s = seq![(true, times3(m.m22, m.m34, m.m41))];
    assert(s.drop_last() =~= Seq::<(bool, T)>::empty());
    assert(signed_sum(Seq::<(bool, T)>::empty()) == T::spec_zero());
    assert(signed_sum(s) == step(T::spec_zero(), s.last()));
    lemma_plus_zero_left(times3(m.m22, m.m34, m.m41));
    assert(signed_sum(s) == times3(m.m22, m.m34, m.m41));
    let prev = s;
    let s = prev.push((false, times3(m.m24, m.m32, m.m41)));
    assert(s.drop_last() =~= prev);
    assert(signed_sum(s) == step(signed_sum(prev), (false, times3(m.m24, m.m32, m.m41))));
    let prev = s;
    let s = prev.push((true, times3(m.m24, m.m31, m.m42)));
    assert(s.drop_last() =~= prev);
    assert(signed_sum(s) == step(signed_sum(prev), (true, times3(m.m24, m.m31, m.m42))));
    let prev = s;
    let s = prev.push((false, times3(m.m21, m.m34, m.m42)));
    assert(s.drop_last() =~= prev);
    assert(signed_sum(s) == step(signed_sum(prev), (false, times3(m.m21, m.m34, m.m42))));
    let prev = s;
    let s = prev.push((false, times3(m.m22, m.m31, m.m44)));
    assert(s.drop_last() =~= prev);
    assert(signed_sum(s) == step(signed_sum(prev), (false, times3(m.m22, m.m31, m.m44))));
    let prev = s;
    let s = prev.push((true, times3(m.m21, m.m32, m.m44)));
    assert(s.drop_last() =~= prev);
    assert(signed_sum(s) == step(signed_sum(prev), (true, times3(m.m21, m.m32, m.m44))));
    assert(s =~= adjugate_terms(m).m31);
}

/// Entry `32` of the adjugate is the signed sum of its terms.
proof fn lemma_adjugate_m32_terms<T: Add<Output = T> + Sub<Output = T> + Mul<Output = T> + Zero + One>(m: Matrix4<T>)
    requires
        commutative_ring::<T>(),
    ensures
        adjugate(m).m32 == signed_sum(adjugate_terms(m).m32),
{
    let s = seq![(true, times3(m.m14, m.m32, m.m41))];
    assert(s.drop_last() =~= Seq::<(bool, T)>::empty());
    assert(signed_sum(Seq::<(bool, T)>::empty()) == T::spec_zero());
    assert(signed_sum(s) == step(T::spec_zero(), s.last()));
    lemma_plus_zero_left(times3(m.m14, m.m32, m.m41));
    assert(signed_sum(s) == times3(m.m14, m.m32, m.m41));
    let prev = s;
    let s = prev.push((false, times3(m.m12, m.m34, m.m41)));
    assert(s.drop_last() =~= prev);
    assert(signed_sum(s) == step(signed_sum(prev), (false, times3(m.m12, m.m34, m.m41))));
    let prev = s;
    let s = prev.push((false, times3(m.m14, m.m31, m.m42)));
    assert(s.drop_last() =~= prev);
    assert(signed_sum(s) == step(signed_sum(prev), (false, times3(m.m14, m.m31, m.m42))));
    let prev = s;
    let s = prev.push((true, times3(m.m11, m.m34, m.m42)));
    assert(s.drop_last() =~= prev);
    assert(signed_sum(s) == step(signed_sum(prev), (true, times3(m.m11, m.m34, m.m42))));
    let prev = s;
    let s = prev.push((true, times3(m.m12, m.m31, m.m44)));
    assert(s.drop_last() =~= prev);
    assert(signed_sum(s) == step(signed_sum(prev), (true, times3(m.m12, m.m31, m.m44))));
    let prev = s;
    let s = prev.push((false, times3(m.m11, m.m32, m.m44)));
    assert(s.drop_last() =~= prev);
    assert(signed_sum(s) == step(signed_sum(prev), (false, times3(m.m11, m.m32, m.m44))));
    assert(s =~= adjugate_terms(m).m32);
}

/// Entry `33` of the adjugate is the signed sum of its terms.
proof fn lemma_adjugate_m33_terms<T: Add<Output = T> + Sub<Output = T> + Mul<Output = T> + Zero + One>(m: Matrix4<T>)
    requires
        commutative_ring::<T>(),
    ensures
        adjugate(m).m33 == signed_sum(adjugate_terms(m).m33),
{
    let s = seq![(true, times3(m.m12, m.m24, m.m41))];
    assert(s.drop_last() =~= Seq::<(bool, T)>::empty());
    assert(signed_sum(Seq::<(bool, T)>::empty()) == T::spec_zero());
    assert(signed_sum(s) == step(T::spec_zero(), s.last()));
    lemma_plus_zero_left(times3(m.m12, m.m24, m.m41));
    assert(signed_sum(s) == times3(m.m12, m.m24, m.m41));
    let prev = s;
    let s = prev.push((false, times3(m.m14, m.m22, m.m41)));
    assert(s.drop_last() =~= prev);
    assert(signed_sum(s) == step(signed_sum(prev), (false, times3(m.m14, m.m22, m.m41))));
    let prev = s;
    let s = prev.push((true, times3(m.m14, m.m21, m.m42)));
    assert(s.drop_last() =~= prev);
    assert(signed_sum(s) == step(signed_sum(prev), (true, times3(m.m14, m.m21, m.m42))));
    let prev = s;
    let s = prev.push((false, times3(m.m11, m.m24, m.m42)));
    assert(s.drop_last() =~= prev);
    assert(signed_sum(s) == step(signed_sum(prev), (false, times3(m.m11, m.m24, m.m42))));
    let prev = s;
    let s = prev.push((false, times3(m.m12, m.m21, m.m44)));
    assert(s.drop_last() =~= prev);
    assert(signed_sum(s) == step(signed_sum(prev), (false, times3(m.m12, m.m21, m.m44))));
    let prev = s;
    let s = prev.push((true, times3(m.m11, m.m22, m.m44)));
    assert(s.drop_last() =~= prev);
    assert(signed_sum(s) == step(signed_sum(prev), (true, times3(m.m11, m.m22, m.m44))));
    assert(s =~= adjugate_terms(m).m33);
}

/// Entry `34` of the adjugate is the signed sum of its terms.
proof fn lemma_adjugate_m34_terms<T: Add<Output = T> + Sub<Output = T> + Mul<Output = T> + Zero + One>(m: Matrix4<T>)
    requires
        commutative_ring::<T>(),
    ensures
        adjugate(m).m34 == signed_sum(adjugate_terms(m).m34),
{
    let s = seq![(true, times3(m.m14, m.m22, m.m31))];
    assert(s.drop_last() =~= Seq::<(bool, T)>::empty());
    assert(signed_sum(Seq::<(bool, T)>::empty()) == T::spec_zero());
    assert(signed_sum(s) == step(T::spec_zero(), s.last()));
    lemma_plus_zero_left(times3(m.m14, m.m22, m.m31));
    assert(signed_sum(s) == times3(m.m14, m.m22, m.m31));
    let prev = s;
    let s = prev.push((false, times3(m.m12, m.m24, m.m31)));
    assert(s.drop_last() =~= prev);
    assert(signed_sum(s) == step(signed_sum(prev), (false, times3(m.m12, m.m24, m.m31))));
    let prev = s;
    let s = prev.push((false, times3(m.m14, m.m21, m.m32)));
    assert(s.drop_last() =~= prev);
    assert(signed_sum(s) == step(signed_sum(prev), (false, times3(m.m14, m.m21, m.m32))));
    let prev = s;
    let s = prev.push((true, times3(m.m11, m.m24, m.m32)));
    assert(s.drop_last() =~= prev);
    assert(signed_sum(s) == step(signed_sum(prev), (true, times3(m.m11, m.m24, m.m32))));
    let prev = s;
    let s = prev.push((true, times3(m.m12, m.m21, m.m34)));
    assert(s.drop_last() =~= prev);
    assert(signed_sum(s) == step(signed_sum(prev), (true, times3(m.m12, m.m21, m.m34))));
    let prev = s;
    let s = prev.push((false, times3(m.m11, m.m22, m.m34)));
    assert(s.drop_last() =~= prev);
    assert(signed_sum(s) == step(signed_sum(prev), (false, times3(m.m11, m.m22, m.m34))));
    assert(s =~= adjugate_terms(m).m34);
}

/// Entry `41` of the adjugate is the signed sum of its terms.
proof fn lemma_adjugate_m41_terms<T: Add<Output = T> + Sub<Output = T> + Mul<Output = T> + Zero + One>(m: Matrix4<T>)
    requires
        commutative_ring::<T>(),
    ensures
        adjugate(m).m41 == signed_sum(adjugate_terms(m).m41),
{
    let s = seq![(true, times3(m.m23, m.m32, m.m41))];
    assert(s.drop_last() =~= Seq::<(bool, T)>::empty());
    assert(signed_sum(Seq::<(bool, T)>::empty()) == T::spec_zero());
    assert(signed_sum(s) == step(T::spec_zero(), s.last()));
    lemma_plus_zero_left(times3(m.m23, m.m32, m.m41));
    assert(signed_sum(s) == times3(m.m23, m.m32, m.m41));
    let prev = s;
    let s = prev.push((false, times3(m.m22, m.m33, m.m41)));
    assert(s.drop_last() =~= prev);
    assert(signed_sum(s) == step(signed_sum(prev), (false, times3(m.m22, m.m33, m.m41))));
    let prev = s;
    let s = prev.push((false, times3(m.m23, m.m31, m.m42)));
    assert(s.drop_last() =~= prev);
    assert(signed_sum(s) == step(signed_sum(prev), (false, times3(m.m23, m.m31, m.m42))));
    let prev = s;
    let s = prev.push((true, times3(m.m21, m.m33, m.m42)));
    assert(s.drop_last() =~= prev);
    assert(signed_sum(s) == step(signed_sum(prev), (true, times3(m.m21, m.m33, m.m42))));
    let prev = s;
    let s = prev.push((true, times3(m.m22, m.m31, m.m43)));
    assert(s.drop_last() =~= prev);
    assert(signed_sum(s) == step(signed_sum(prev), (true, times3(m.m22, m.m31, m.m43))));
    let prev = s;
    let s = prev.push((false, times3(m.m21, m.m32, m.m43)));
    assert(s.drop_last() =~= prev);
    assert(signed_sum(s) == step(signed_sum(prev), (false, times3(m.m21, m.m32, m.m43))));
    assert(s =~= adjugate_terms(m).m41);
}

/// Entry `42` of the adjugate is the signed sum of its terms.
proof fn lemma_adjugate_m42_terms<T: Add<Output = T> + Sub<Output = T> + Mul<Output = T> + Zero + One>(m: Matrix4<T>)
    requires
        commutative_ring::<T>(),
    ensures
        adjugate(m).m42 == signed_sum(adjugate_terms(m).m42),
{
    let s = seq![(true, times3(m.m12, m.m33, m.m41))];
    assert(s.drop_last() =~= Seq::<(bool, T)>::empty());
    assert(signed_sum(Seq::<(bool, T)>::empty()) == T::spec_zero());
    assert(signed_sum(s) == step(T::spec_zero(), s.last()));
    lemma_plus_zero_left(times3(m.m12, m.m33, m.m41));
    assert(signed_sum(s) == times3(m.m12, m.m33, m.m41));
    let prev = s;
    let s = prev.push((false, times3(m.m13, m.m32, m.m41)));
    assert(s.drop_last() =~= prev);
    assert(signed_sum(s) == step(signed_sum(prev), (false, times3(m.m13, m.m32, m.m41))));
    let prev = s;
    let s = prev.push((true, times3(m.m13, m.m31, m.m42)));
    assert(s.drop_last() =~= prev);
    assert(signed_sum(s) == step(signed_sum(prev), (true, times3(m.m13, m.m31, m.m42))));
    let prev = s;
    let s = prev.push((false, times3(m.m11, m.m33, m.m42)));
    assert(s.drop_last() =~= prev);
    assert(signed_sum(s) == step(signed_sum(prev), (false, times3(m.m11, m.m33, m.m42))));
    let prev = s;
    let s = prev.push((false, times3(m.m12, m.m31, m.m43)));
    assert(s.drop_last() =~= prev);
    assert(signed_sum(s) == step(signed_sum(prev), (false, times3(m.m12, m.m31, m.m43))));
    let prev = s;
    let s = prev.push((true, times3(m.m11, m.m32, m.m43)));
    assert(s.drop_last() =~= prev);
    assert(signed_sum(s) == step(signed_sum(prev), (true, times3(m.m11, m.m32, m.m43))));
    assert(s =~= adjugate_terms(m).m42);
}

/// Entry `43` of the adjugate is the signed sum of its terms.
proof fn lemma_adjugate_m43_terms<T: Add<Output = T> + Sub<Output = T> + Mul<Output = T> + Zero + One>(m: Matrix4<T>)
    requires
        commutative_ring::<T>(),
    ensures
        adjugate(m).m43 == signed_sum(adjugate_terms(m).m43),
{
    let s = seq![(true, times3(m.m13, m.m22, m.m41))];
    assert(s.drop_last() =~= Seq::<(bool, T)>::empty());
    assert(signed_sum(Seq::<(bool, T)>::empty()) == T::spec_zero());
    assert(signed_sum(s) == step(T::spec_zero(), s.last()));
    lemma_plus_zero_left(times3(m.m13, m.m22, m.m41));
    assert(signed_sum(s) == times3(m.m13, m.m22, m.m41));
    let prev = s;
    let s = prev.push((false, times3(m.m12, m.m23, m.m41)));
    assert(s.drop_last() =~= prev);
    assert(signed_sum(s) == step(signed_sum(prev), (false, times3(m.m12, m.m23, m.m41))));
    let prev = s;
    let s = prev.push((false, times3(m.m13, m.m21, m.m42)));
    assert(s.drop_last() =~= prev);
    assert(signed_sum(s) == step(signed_sum(prev), (false, times3(m.m13, m.m21, m.m42))));
    let prev = s;
    let s = prev.push((true, times3(m.m11, m.m23, m.m42)));
    assert(s.drop_last() =~= prev);
    assert(signed_sum(s) == step(signed_sum(prev), (true, times3(m.m11, m.m23, m.m42))));
    let prev = s;
    let s = prev.push((true, times3(m.m12, m.m21, m.m43)));
    assert(s.drop_last() =~= prev);
    assert(signed_sum(s) == step(signed_sum(prev), (true, times3(m.m12, m.m21, m.m43))));
    let prev = s;
    let s = prev.push((false, times3(m.m11, m.m22, m.m43)));
    assert(s.drop_last() =~= prev);
    assert(signed_sum(s) == step(signed_sum(prev), (false, times3(m.m11, m.m22, m.m43))));
    assert(s =~= adjugate_terms(m).m43);
}

/// Entry `44` of the adjugate is the signed sum of its terms.
proof fn lemma_adjugate_m44_terms<T: Add<Output = T> + Sub<Output = T> + Mul<Output = T> + Zero + One>(m: Matrix4<T>)
    requires
        commutative_ring::<T>(),
    ensures
        adjugate(m).m44 == signed_sum(adjugate_terms(m).m44),
{
    let s = seq![(true, times3(m.m12, m.m23, m.m31))];
    assert(s.drop_last() =~= Seq::<(bool, T)>::empty());
    assert(signed_sum(Seq::<(bool, T)>::empty()) == T::spec_zero());
    assert(signed_sum(s) == step(T::spec_zero(), s.last()));
    lemma_plus_zero_left(times3(m.m12, m.m23, m.m31));
    assert(signed_sum(s) == times3(m.m12, m.m23, m.m31));
    let prev = s;
    let s = prev.push((false, times3(m.m13, m.m22, m.m31)));
    assert(s.drop_last() =~= prev);
    assert(signed_sum(s) == step(signed_sum(prev), (false, times3(m.m13, m.m22, m.m31))));
    let prev = s;
    let s = prev.push((true, times3(m.m13, m.m21, m.m32)));
    assert(s.drop_last() =~= prev);
    assert(signed_sum(s) == step(signed_sum(prev), (true, times3(m.m13, m.m21, m.m32))));
    let prev = s;
    let s = prev.push((false, times3(m.m11, m.m23, m.m32)));
    assert(s.drop_last() =~= prev);
    assert(signed_sum(s) == step(signed_sum(prev), (false, times3(m.m11, m.m23, m.m32))));
    let prev = s;
    let s = prev.push((false, times3(m.m12, m.m21, m.m33)));
    assert(s.drop_last() =~= prev);
    assert(signed_sum(s) == step(signed_sum(prev), (false, times3(m.m12, m.m21, m.m33))));
    let prev = s;
    let s = prev.push((true, times3(m.m11, m.m22, m.m33)));
    assert(s.drop_last() =~= prev);
    assert(signed_sum(s) == step(signed_sum(prev), (true, times3(m.m11, m.m22, m.m33))));
    assert(s =~= adjugate_terms(m).m44);
}

/// The determinant is the signed sum of its terms.
pub(crate) proof fn lemma_determinant_terms<T: Add<Output = T> + Sub<Output = T> + Mul<Output = T> + Zero + One>(m: Matrix4<T>)
    requires
        commutative_ring::<T>(),
    ensures
        determinant(m) == signed_sum(determinant_terms(m)),
{
    let s = seq![(true, times4(m.m14, m.m23, m.m32, m.m41))];
    assert(s.drop_last() =~= Seq::<(bool, T)>::empty());
    assert(signed_sum(Seq::<(bool, T)>::empty()) == T::spec_zero());
    assert(signed_sum(s) == step(T::spec_zero(), s.last()));
    lemma_plus_zero_left(times4(m.m14, m.m23, m.m32, m.m41));
    assert(signed_sum(s) == times4(m.m14, m.m23, m.m32, m.m41));
    let prev = s;
    let s = prev.push((false, times4(m.m13, m.m24, m.m32, m.m41)));
    assert(s.drop_last() =~= prev);
    assert(signed_sum(s) == step(signed_sum(prev), (false, times4(m.m13, m.m24, m.m32, m.m41))));
    let prev = s;
    let s = prev.push((false, times4(m.m14, m.m22, m.m33, m.m41)));
    assert(s.drop_last() =~= prev);
    assert(signed_sum(s) == step(signed_sum(prev), (false, times4(m.m14, m.m22, m.m33, m.m41))));
    let prev = s;
    let s = prev.push((true, times4(m.m12, m.m24, m.m33, m.m41)));
    assert(s.drop_last() =~= prev);
    assert(signed_sum(s) == step(signed_sum(prev), (true, times4(m.m12, m.m24, m.m33, m.m41))));
    let prev = s;
    let s = prev.push((true, times4(m.m13, m.m22, m.m34, m.m41)));
    assert(s.drop_last() =~= prev);
    assert(signed_sum(s) == step(signed_sum(prev), (true, times4(m.m13, m.m22, m.m34, m.m41))));
    let prev = s;
    let s = prev.push((false, times4(m.m12, m.m23, m.m34, m.m41)));
    assert(s.drop_last() =~= prev);
    assert(signed_sum(s) == step(signed_sum(prev), (false, times4(m.m12, m.m23, m.m34, m.m41))));
    let prev = s;
    let s = prev.push((false, times4(m.m14, m.m23, m.m31, m.m42)));
    assert(s.drop_last() =~= prev);
    assert(signed_sum(s) == step(signed_sum(prev), (false, times4(m.m14, m.m23, m.m31, m.m42))));
    let prev = s;
    let s = prev.push((true, times4(m.m13, m.m24, m.m31, m.m42)));
    assert(s.drop_last() =~= prev);
    assert(signed_sum(s) == step(signed_sum(prev), (true, times4(m.m13, m.m24, m.m31, m.m42))));
    let prev = s;
    let s = prev.push((true, times4(m.m14, m.m21, m.m33, m.m42)));
    assert(s.drop_last() =~= prev);
    assert(signed_sum(s) == step(signed_sum(prev), (true, times4(m.m14, m.m21, m.m33, m.m42))));
    let prev = s;
    let s = prev.push((false, times4(m.m11, m.m24, m.m33, m.m42)));
    assert(s.drop_last() =~= prev);
    assert(signed_sum(s) == step(signed_sum(prev), (false, times4(m.m11, m.m24, m.m33, m.m42))));
    let prev = s;
    let s = prev.push((false, times4(m.m13, m.m21, m.m34, m.m42)));
    assert(s.drop_last() =~= prev);
    assert(signed_sum(s) == step(signed_sum(prev), (false, times4(m.m13, m.m21, m.m34, m.m42))));
    let prev = s;
    let s = prev.push((true, times4(m.m11, m.m23, m.m34, m.m42)));
    assert(s.drop_last() =~= prev);
    assert(signed_sum(s) == step(signed_sum(prev), (true, times4(m.m11, m.m23, m.m34, m.m42))));
    let prev = s;
    let s = prev.push((true, times4(m.m14, m.m22, m.m31, m.m43)));
    assert(s.drop_last() =~= prev);
    assert(signed_sum(s) == step(signed_sum(prev), (true, times4(m.m14, m.m22, m.m31, m.m43))));
    let prev = s;
    let s = prev.push((false, times4(m.m12, m.m24, m.m31, m.m43)));
    assert(s.drop_last() =~= prev);
    assert(signed_sum(s) == step(signed_sum(prev), (false, times4(m.m12, m.m24, m.m31, m.m43))));
    let prev = s;
    let s = prev.push((false, times4(m.m14, m.m21, m.m32, m.m43)));
    assert(s.drop_last() =~= prev);
    assert(signed_sum(s) == step(signed_sum(prev), (false, times4(m.m14, m.m21, m.m32, m.m43))));
    let prev = s;
    let s = prev.push((true, times4(m.m11, m.m24, m.m32, m.m43)));
    assert(s.drop_last() =~= prev);
    assert(signed_sum(s) == step(signed_sum(prev), (true, times4(m.m11, m.m24, m.m32, m.m43))));
    let prev = s;
    let s = prev.push((true, times4(m.m12, m.m21, m.m34, m.m43)));
    assert(s.drop_last() =~= prev);
    assert(signed_sum(s) == step(signed_sum(prev), (true, times4(m.m12, m.m21, m.m34, m.m43))));
    let prev = s;
    let s = prev.push((false, times4(m.m11, m.m22, m.m34, m.m43)));
    assert(s.drop_last() =~= prev);
    assert(signed_sum(s) == step(signed_sum(prev), (false, times4(m.m11, m.m22, m.m34, m.m43))));
    let prev = s;
    let s = prev.push((false, times4(m.m13, m.m22, m.m31, m.m44)));
    assert(s.drop_last() =~= prev);
    assert(signed_sum(s) == step(signed_sum(prev), (false, times4(m.m13, m.m22, m.m31, m.m44))));
    let prev = s;
    let s = prev.push((true, times4(m.m12, m.m23, m.m31, m.m44)));
    assert(s.drop_last() =~= prev);
    assert(signed_sum(s) == step(signed_sum(prev), (true, times4(m.m12, m.m23, m.m31, m.m44))));
    let prev = s;
    let s = prev.push((true, times4(m.m13, m.m21, m.m32, m.m44)));
    assert(s.drop_last() =~= prev);
    assert(signed_sum(s) == step(signed_sum(prev), (true, times4(m.m13, m.m21, m.m32, m.m44))));
    let prev = s;
    let s = prev.push((false, times4(m.m11, m.m23, m.m32, m.m44)));
    assert(s.drop_last() =~= prev);
    assert(signed_sum(s) == step(signed_sum(prev), (false, times4(m.m11, m.m23, m.m32, m.m44))));
    let prev = s;
    let s = prev.push((false, times4(m.m12, m.m21, m.m33, m.m44)));
    assert(s.drop_last() =~= prev);
    assert(signed_sum(s) == step(signed_sum(prev), (false, times4(m.m12, m.m21, m.m33, m.m44))));
    let prev = s;
    let s = prev.push((true, times4(m.m11, m.m22, m.m33, m.m44)));
    assert(s.drop_last() =~= prev);
    assert(signed_sum(s) == step(signed_sum(prev), (true, times4(m.m11, m.m22, m.m33, m.m44))));
    assert(s =~= determinant_terms(m));
}

/// A product of four factors keeps its value when the last factor moves forward.
proof fn lemma_times4_insert<T: Add<Output = T> + Sub<Output = T> + Mul<Output = T> + Zero + One>(p: T, q: T, r: T, c: T)
    requires
        commutative_ring::<T>(),
    ensures
        times4(p, q, r, c) == times4(c, p, q, r),
        times4(p, q, r, c) == times4(p, c, q, r),
        times4(p, q, r, c) == times4(p, q, c, r),
{
    reveal(commutative_ring);
    let pq = times(p, q);
    assert(times(times(pq, r), c) == times(pq, times(r, c)));
    assert(times(r, c) == times(c, r));
    assert(times(pq, times(c, r)) == times(times(pq, c), r));
    assert(times(times(p, q), c) == times(p, times(q, c)));
    assert(times(q, c) == times(c, q));
    assert(times(p, times(c, q)) == times(times(p, c), q));
    assert(times(times(p, c), q) == times(times(c, p), q));
    assert(times(times(p, c), q) == times(p, times(c, q)));
}

/// Row 1 of the adjugate times column 1 of `m`: the determinant.
#[verifier::spinoff_prover]
#[verifier::rlimit(40)]
proof fn lemma_adjugate_row1_col1<T: Add<Output = T> + Sub<Output = T> + Mul<Output = T> + Zero + One>(m: Matrix4<T>)
    requires
        commutative_ring::<T>(),
    ensures
        dot4(
            adjugate(m).m11, adjugate(m).m12, adjugate(m).m13, adjugate(m).m14,
            m.m11, m.m21, m.m31, m.m41,
        ) == determinant(m),
{
    broadcast use group_to_multiset_ensures, group_multiset_axioms;

    let a = adjugate(m);
    let at = adjugate_terms(m);
    lemma_adjugate_m11_terms(m);
    lemma_signed_sum_times(at.m11, m.m11);
    let s1 = scaled_terms(at.m11, m.m11);
    lemma_adjugate_m12_terms(m);
    lemma_signed_sum_times(at.m12, m.m21);
    let s2 = scaled_terms(at.m12, m.m21);
    lemma_adjugate_m13_terms(m);
    lemma_signed_sum_times(at.m13, m.m31);
    let s3 = scaled_terms(at.m13, m.m31);
    lemma_adjugate_m14_terms(m);
    lemma_signed_sum_times(at.m14, m.m41);
    let s4 = scaled_terms(at.m14, m.m41);
    lemma_signed_sum_concat(s1, s2);
    lemma_signed_sum_concat(s1 + s2, s3);
    lemma_signed_sum_concat(s1 + s2 + s3, s4);
    lemma_times4_insert(m.m23, m.m34, m.m42, m.m11);
    lemma_times4_insert(m.m24, m.m33, m.m42, m.m11);
    lemma_times4_insert(m.m24, m.m32, m.m43, m.m11);
    lemma_times4_insert(m.m22, m.m34, m.m43, m.m11);
    lemma_times4_insert(m.m23, m.m32, m.m44, m.m11);
    lemma_times4_insert(m.m22, m.m33, m.m44, m.m11);
    lemma_times4_insert(m.m14, m.m33, m.m42, m.m21);
    lemma_times4_insert(m.m13, m.m34, m.m42, m.m21);
    lemma_times4_insert(m.m14, m.m32, m.m43, m.m21);
    lemma_times4_insert(m.m12, m.m34, m.m43, m.m21);
    lemma_times4_insert(m.m13, m.m32, m.m44, m.m21);
    lemma_times4_insert(m.m12, m.m33, m.m44, m.m21);
    lemma_times4_insert(m.m13, m.m24, m.m42, m.m31);
    lemma_times4_insert(m.m14, m.m23, m.m42, m.m31);
    lemma_times4_insert(m.m14, m.m22, m.m43, m.m31);
    lemma_times4_insert(m.m12, m.m24, m.m43, m.m31);
    lemma_times4_insert(m.m13, m.m22, m.m44, m.m31);
    lemma_times4_insert(m.m12, m.m23, m.m44, m.m31);
    let canon = Seq::empty()
        .push((true, times4(m.m11, m.m23, m.m34, m.m42)))
        .push((false, times4(m.m11, m.m24, m.m33, m.m42)))
        .push((true, times4(m.m11, m.m24, m.m32, m.m43)))
        .push((false, times4(m.m11, m.m22, m.m34, m.m43)))
        .push((false, times4(m.m11, m.m23, m.m32, m.m44)))
        .push((true, times4(m.m11, m.m22, m.m33, m.m44)))
        .push((true, times4(m.m14, m.m21, m.m33, m.m42)))
        .push((false, times4(m.m13, m.m21, m.m34, m.m42)))
        .push((false, times4(m.m14, m.m21, m.m32, m.m43)))
        .push((true, times4(m.m12, m.m21, m.m34, m.m43)))
        .push((true, times4(m.m13, m.m21, m.m32, m.m44)))
        .push((false, times4(m.m12, m.m21, m.m33, m.m44)))
        .push((true, times4(m.m13, m.m24, m.m31, m.m42)))
        .push((false, times4(m.m14, m.m23, m.m31, m.m42)))
        .push((true, times4(m.m14, m.m22, m.m31, m.m43)))
        .push((false, times4(m.m12, m.m24, m.m31, m.m43)))
        .push((false, times4(m.m13, m.m22, m.m31, m.m44)))
        .push((true, times4(m.m12, m.m23, m.m31, m.m44)))
        .push((true, times4(m.m14, m.m23, m.m32, m.m41)))
        .push((false, times4(m.m13, m.m24, m.m32, m.m41)))
        .push((false, times4(m.m14, m.m22, m.m33, m.m41)))
        .push((true, times4(m.m12, m.m24, m.m33, m.m41)))
        .push((true, times4(m.m13, m.m22, m.m34, m.m41)))
        .push((false, times4(m.m12, m.m23, m.m34, m.m41)));
    assert(s1 + s2 + s3 + s4 =~= canon);
    lemma_determinant_terms(m);
    assert(canon.to_multiset() =~= determinant_terms(m).to_multiset());
    lemma_signed_sum_permutation(canon, determinant_terms(m));
}

/// Row 1 of the adjugate times column 2 of `m`: zero.
#[verifier::spinoff_prover]
#[verifier::rlimit(40)]
proof fn lemma_adjugate_row1_col2<T: Add<Output = T> + Sub<Output = T> + Mul<Output = T> + Zero + One>(m: Matrix4<T>)
    requires
        commutative_ring::<T>(),
    ensures
        dot4(
            adjugate(m).m11, adjugate(m).m12, adjugate(m).m13, adjugate(m).m14,
            m.m12, m.m22, m.m32, m.m42,
        ) == T::spec_zero(),
{
    broadcast use group_to_multiset_ensures, group_multiset_axioms;

    let a = adjugate(m);
    let at = adjugate_terms(m);
    lemma_adjugate_m11_terms(m);
    lemma_signed_sum_times(at.m11, m.m12);
    let s1 = scaled_terms(at.m11, m.m12);
    lemma_adjugate_m12_terms(m);
    lemma_signed_sum_times(at.m12, m.m22);
    let s2 = scaled_terms(at.m12, m.m22);
    lemma_adjugate_m13_terms(m);
    lemma_signed_sum_times(at.m13, m.m32);
    let s3 = scaled_terms(at.m13, m.m32);
    lemma_adjugate_m14_terms(m);
    lemma_signed_sum_times(at.m14, m.m42);
    let s4 = scaled_terms(at.m14, m.m42);
    lemma_signed_sum_concat(s1, s2);
    lemma_signed_sum_concat(s1 + s2, s3);
    lemma_signed_sum_concat(s1 + s2 + s3, s4);
    lemma_times4_insert(m.m23, m.m34, m.m42, m.m12);
    lemma_times4_insert(m.m24, m.m33, m.m42, m.m12);
    lemma_times4_insert(m.m24, m.m32, m.m43, m.m12);
    lemma_times4_insert(m.m22, m.m34, m.m43, m.m12);
    lemma_times4_insert(m.m23, m.m32, m.m44, m.m12);
    lemma_times4_insert(m.m22, m.m33, m.m44, m.m12);
    lemma_times4_insert(m.m14, m.m33, m.m42, m.m22);
    lemma_times4_insert(m.m13, m.m34, m.m42, m.m22);
    lemma_times4_insert(m.m14, m.m32, m.m43, m.m22);
    lemma_times4_insert(m.m12, m.m34, m.m43, m.m22);
    lemma_times4_insert(m.m13, m.m32, m.m44, m.m22);
    lemma_times4_insert(m.m12, m.m33, m.m44, m.m22);
    lemma_times4_insert(m.m13, m.m24, m.m42, m.m32);
    lemma_times4_insert(m.m14, m.m23, m.m42, m.m32);
    lemma_times4_insert(m.m14, m.m22, m.m43, m.m32);
    lemma_times4_insert(m.m12, m.m24, m.m43, m.m32);
    lemma_times4_insert(m.m13, m.m22, m.m44, m.m32);
    lemma_times4_insert(m.m12, m.m23, m.m44, m.m32);
    let canon = Seq::empty()
        .push((true, times4(m.m12, m.m23, m.m34, m.m42)))
        .push((false, times4(m.m12, m.m24, m.m33, m.m42)))
        .push((true, times4(m.m12, m.m24, m.m32, m.m43)))
        .push((false, times4(m.m12, m.m22, m.m34, m.m43)))
        .push((false, times4(m.m12, m.m23, m.m32, m.m44)))
        .push((true, times4(m.m12, m.m22, m.m33, m.m44)))
        .push((true, times4(m.m14, m.m22, m.m33, m.m42)))
        .push((false, times4(m.m13, m.m22, m.m34, m.m42)))
        .push((false, times4(m.m14, m.m22, m.m32, m.m43)))
        .push((true, times4(m.m12, m.m22, m.m34, m.m43)))
        .push((true, times4(m.m13, m.m22, m.m32, m.m44)))
        .push((false, times4(m.m12, m.m22, m.m33, m.m44)))
        .push((true, times4(m.m13, m.m24, m.m32, m.m42)))
        .push((false, times4(m.m14, m.m23, m.m32, m.m42)))
        .push((true, times4(m.m14, m.m22, m.m32, m.m43)))
        .push((false, times4(m.m12, m.m24, m.m32, m.m43)))
        .push((false, times4(m.m13, m.m22, m.m32, m.m44)))
        .push((true, times4(m.m12, m.m23, m.m32, m.m44)))
        .push((true, times4(m.m14, m.m23, m.m32, m.m42)))
        .push((false, times4(m.m13, m.m24, m.m32, m.m42)))
        .push((false, times4(m.m14, m.m22, m.m33, m.m42)))
        .push((true, times4(m.m12, m.m24, m.m33, m.m42)))
        .push((true, times4(m.m13, m.m22, m.m34, m.m42)))
        .push((false, times4(m.m12, m.m23, m.m34, m.m42)));
    assert(s1 + s2 + s3 + s4 =~= canon);
    let ts = seq![times4(m.m12, m.m23, m.m34, m.m42), times4(m.m12, m.m24, m.m32, m.m43), times4(m.m12, m.m22, m.m33, m.m44), times4(m.m14, m.m22, m.m33, m.m42), times4(m.m12, m.m22, m.m34, m.m43), times4(m.m13, m.m22, m.m32, m.m44), times4(m.m13, m.m24, m.m32, m.m42), times4(m.m14, m.m22, m.m32, m.m43), times4(m.m12, m.m23, m.m32, m.m44), times4(m.m14, m.m23, m.m32, m.m42), times4(m.m12, m.m24, m.m33, m.m42), times4(m.m13, m.m22, m.m34, m.m42)];
    reveal_with_fuel(cancelling_pairs, 13);
    let pairs = Seq::empty()
        .push((true, times4(m.m12, m.m23, m.m34, m.m42))).push((false, times4(m.m12, m.m23, m.m34, m.m42)))
        .push((true, times4(m.m12, m.m24, m.m32, m.m43))).push((false, times4(m.m12, m.m24, m.m32, m.m43)))
        .push((true, times4(m.m12, m.m22, m.m33, m.m44))).push((false, times4(m.m12, m.m22, m.m33, m.m44)))
        .push((true, times4(m.m14, m.m22, m.m33, m.m42))).push((false, times4(m.m14, m.m22, m.m33, m.m42)))
        .push((true, times4(m.m12, m.m22, m.m34, m.m43))).push((false, times4(m.m12, m.m22, m.m34, m.m43)))
        .push((true, times4(m.m13, m.m22, m.m32, m.m44))).push((false, times4(m.m13, m.m22, m.m32, m.m44)))
        .push((true, times4(m.m13, m.m24, m.m32, m.m42))).push((false, times4(m.m13, m.m24, m.m32, m.m42)))
        .push((true, times4(m.m14, m.m22, m.m32, m.m43))).push((false, times4(m.m14, m.m22, m.m32, m.m43)))
        .push((true, times4(m.m12, m.m23, m.m32, m.m44))).push((false, times4(m.m12, m.m23, m.m32, m.m44)))
        .push((true, times4(m.m14, m.m23, m.m32, m.m42))).push((false, times4(m.m14, m.m23, m.m32, m.m42)))
        .push((true, times4(m.m12, m.m24, m.m33, m.m42))).push((false, times4(m.m12, m.m24, m.m33, m.m42)))
        .push((true, times4(m.m13, m.m22, m.m34, m.m42))).push((false, times4(m.m13, m.m22, m.m34, m.m42)));
    assert(cancelling_pairs(ts) =~= pairs);
    assert(canon.to_multiset() =~= cancelling_pairs(ts).to_multiset());
    lemma_signed_sum_permutation(canon, cancelling_pairs(ts));
    lemma_cancelling_pairs(ts);
}

/// Row 1 of the adjugate times column 3 of `m`: zero.
#[verifier::spinoff_prover]
#[verifier::rlimit(40)]
proof fn lemma_adjugate_row1_col3<T: Add<Output = T> + Sub<Output = T> + Mul<Output = T> + Zero + One>(m: Matrix4<T>)
    requires
        commutative_ring::<T>(),
    ensures
        dot4(
            adjugate(m).m11, adjugate(m).m12, adjugate(m).m13, adjugate(m).m14,
            m.m13, m.m23, m.m33, m.m43,
        ) == T::spec_zero(),
{
    broadcast use group_to_multiset_ensures, group_multiset_axioms;

    let a = adjugate(m);
    let at = adjugate_terms(m);
    lemma_adjugate_m11_terms(m);
    lemma_signed_sum_times(at.m11, m.m13);
    let s1 = scaled_terms(at.m11, m.m13);
    lemma_adjugate_m12_terms(m);
    lemma_signed_sum_times(at.m12, m.m23);
    let s2 = scaled_terms(at.m12, m.m23);
    lemma_adjugate_m13_terms(m);
    lemma_signed_sum_times(at.m13, m.m33);
    let s3 = scaled_terms(at.m13, m.m33);
    lemma_adjugate_m14_terms(m);
    lemma_signed_sum_times(at.m14, m.m43);
    let s4 = scaled_terms(at.m14, m.m43);
    lemma_signed_sum_concat(s1, s2);
    lemma_signed_sum_concat(s1 + s2, s3);
    lemma_signed_sum_concat(s1 + s2 + s3, s4);
    lemma_times4_insert(m.m23, m.m34, m.m42, m.m13);
    lemma_times4_insert(m.m24, m.m33, m.m42, m.m13);
    lemma_times4_insert(m.m24, m.m32, m.m43, m.m13);
    lemma_times4_insert(m.m22, m.m34, m.m43, m.m13);
    lemma_times4_insert(m.m23, m.m32, m.m44, m.m13);
    lemma_times4_insert(m.m22, m.m33, m.m44, m.m13);
    lemma_times4_insert(m.m14, m.m33, m.m42, m.m23);
    lemma_times4_insert(m.m13, m.m34, m.m42, m.m23);
    lemma_times4_insert(m.m14, m.m32, m.m43, m.m23);
    lemma_times4_insert(m.m12, m.m34, m.m43, m.m23);
    lemma_times4_insert(m.m13, m.m32, m.m44, m.m23);
    lemma_times4_insert(m.m12, m.m33, m.m44, m.m23);
    lemma_times4_insert(m.m13, m.m24, m.m42, m.m33);
    lemma_times4_insert(m.m14, m.m23, m.m42, m.m33);
    lemma_times4_insert(m.m14, m.m22, m.m43, m.m33);
    lemma_times4_insert(m.m12, m.m24, m.m43, m.m33);
    lemma_times4_insert(m.m13, m.m22, m.m44, m.m33);
    lemma_times4_insert(m.m12, m.m23, m.m44, m.m33);
    let canon = Seq::empty()
        .push((true, times4(m.m13, m.m23, m.m34, m.m42)))
        .push((false, times4(m.m13, m.m24, m.m33, m.m42)))
        .push((true, times4(m.m13, m.m24, m.m32, m.m43)))
        .push((false, times4(m.m13, m.m22, m.m34, m.m43)))
        .push((false, times4(m.m13, m.m23, m.m32, m.m44)))
        .push((true, times4(m.m13, m.m22, m.m33, m.m44)))
        .push((true, times4(m.m14, m.m23, m.m33, m.m42)))
        .push((false, times4(m.m13, m.m23, m.m34, m.m42)))
        .push((false, times4(m.m14, m.m23, m.m32, m.m43)))
        .push((true, times4(m.m12, m.m23, m.m34, m.m43)))
        .push((true, times4(m.m13, m.m23, m.m32, m.m44)))
        .push((false, times4(m.m12, m.m23, m.m33, m.m44)))
        .push((true, times4(m.m13, m.m24, m.m33, m.m42)))
        .push((false, times4(m.m14, m.m23, m.m33, m.m42)))
        .push((true, times4(m.m14, m.m22, m.m33, m.m43)))
        .push((false, times4(m.m12, m.m24, m.m33, m.m43)))
        .push((false, times4(m.m13, m.m22, m.m33, m.m44)))
        .push((true, times4(m.m12, m.m23, m.m33, m.m44)))
        .push((true, times4(m.m14, m.m23, m.m32, m.m43)))
        .push((false, times4(m.m13, m.m24, m.m32, m.m43)))
        .push((false, times4(m.m14, m.m22, m.m33, m.m43)))
        .push((true, times4(m.m12, m.m24, m.m33, m.m43)))
        .push((true, times4(m.m13, m.m22, m.m34, m.m43)))
        .push((false, times4(m.m12, m.m23, m.m34, m.m43)));
    assert(s1 + s2 + s3 + s4 =~= canon);
    let ts = seq![times4(m.m13, m.m23, m.m34, m.m42), times4(m.m13, m.m24, m.m32, m.m43), times4(m.m13, m.m22, m.m33, m.m44), times4(m.m14, m.m23, m.m33, m.m42), times4(m.m12, m.m23, m.m34, m.m43), times4(m.m13, m.m23, m.m32, m.m44), times4(m.m13, m.m24, m.m33, m.m42), times4(m.m14, m.m22, m.m33, m.m43), times4(m.m12, m.m23, m.m33, m.m44), times4(m.m14, m.m23, m.m32, m.m43), times4(m.m12, m.m24, m.m33, m.m43), times4(m.m13, m.m22, m.m34, m.m43)];
    reveal_with_fuel(cancelling_pairs, 13);
    let pairs = Seq::empty()
        .push((true, times4(m.m13, m.m23, m.m34, m.m42))).push((false, times4(m.m13, m.m23, m.m34, m.m42)))
        .push((true, times4(m.m13, m.m24, m.m32, m.m43))).push((false, times4(m.m13, m.m24, m.m32, m.m43)))
        .push((true, times4(m.m13, m.m22, m.m33, m.m44))).push((false, times4(m.m13, m.m22, m.m33, m.m44)))
        .push((true, times4(m.m14, m.m23, m.m33, m.m42))).push((false, times4(m.m14, m.m23, m.m33, m.m42)))
        .push((true, times4(m.m12, m.m23, m.m34, m.m43))).push((false, times4(m.m12, m.m23, m.m34, m.m43)))
        .push((true, times4(m.m13, m.m23, m.m32, m.m44))).push((false, times4(m.m13, m.m23, m.m32, m.m44)))
        .push((true, times4(m.m13, m.m24, m.m33, m.m42))).push((false, times4(m.m13, m.m24, m.m33, m.m42)))
        .push((true, times4(m.m14, m.m22, m.m33, m.m43))).push((false, times4(m.m14, m.m22, m.m33, m.m43)))
        .push((true, times4(m.m12, m.m23, m.m33, m.m44))).push((false, times4(m.m12, m.m23, m.m33, m.m44)))
        .push((true, times4(m.m14, m.m23, m.m32, m.m43))).push((false, times4(m.m14, m.m23, m.m32, m.m43)))
        .push((true, times4(m.m12, m.m24, m.m33, m.m43))).push((false, times4(m.m12, m.m24, m.m33, m.m43)))
        .push((true, times4(m.m13, m.m22, m.m34, m.m43))).push((false, times4(m.m13, m.m22, m.m34, m.m43)));
    assert(cancelling_pairs(ts) =~= pairs);
    assert(canon.to_multiset() =~= cancelling_pairs(ts).to_multiset());
    lemma_signed_sum_permutation(canon, cancelling_pairs(ts));
    lemma_cancelling_pairs(ts);
}

/// Row 1 of the adjugate times column 4 of `m`: zero.
#[verifier::spinoff_prover]
#[verifier::rlimit(40)]
proof fn lemma_adjugate_row1_col4<T: Add<Output = T> + Sub<Output = T> + Mul<Output = T> + Zero + One>(m: Matrix4<T>)
    requires
        commutative_ring::<T>(),
    ensures
        dot4(
            adjugate(m).m11, adjugate(m).m12, adjugate(m).m13, adjugate(m).m14,
            m.m14, m.m24, m.m34, m.m44,
        ) == T::spec_zero(),
{
    broadcast use group_to_multiset_ensures, group_multiset_axioms;

    let a = adjugate(m);
    let at = adjugate_terms(m);
    lemma_adjugate_m11_terms(m);
    lemma_signed_sum_times(at.m11, m.m14);
    let s1 = scaled_terms(at.m11, m.m14);
    lemma_adjugate_m12_terms(m);
    lemma_signed_sum_times(at.m12, m.m24);
    let s2 = scaled_terms(at.m12, m.m24);
    lemma_adjugate_m13_terms(m);
    lemma_signed_sum_times(at.m13, m.m34);
    let s3 = scaled_terms(at.m13, m.m34);
    lemma_adjugate_m14_terms(m);
    lemma_signed_sum_times(at.m14, m.m44);
    let s4 = scaled_terms(at.m14, m.m44);
    lemma_signed_sum_concat(s1, s2);
    lemma_signed_sum_concat(s1 + s2, s3);
    lemma_signed_sum_concat(s1 + s2 + s3, s4);
    lemma_times4_insert(m.m23, m.m34, m.m42, m.m14);
    lemma_times4_insert(m.m24, m.m33, m.m42, m.m14);
    lemma_times4_insert(m.m24, m.m32, m.m43, m.m14);
    lemma_times4_insert(m.m22, m.m34, m.m43, m.m14);
    lemma_times4_insert(m.m23, m.m32, m.m44, m.m14);
    lemma_times4_insert(m.m22, m.m33, m.m44, m.m14);
    lemma_times4_insert(m.m14, m.m33, m.m42, m.m24);
    lemma_times4_insert(m.m13, m.m34, m.m42, m.m24);
    lemma_times4_insert(m.m14, m.m32, m.m43, m.m24);
    lemma_times4_insert(m.m12, m.m34, m.m43, m.m24);
    lemma_times4_insert(m.m13, m.m32, m.m44, m.m24);
    lemma_times4_insert(m.m12, m.m33, m.m44, m.m24);
    lemma_times4_insert(m.m13, m.m24, m.m42, m.m34);
    lemma_times4_insert(m.m14, m.m23, m.m42, m.m34);
    lemma_times4_insert(m.m14, m.m22, m.m43, m.m34);
    lemma_times4_insert(m.m12, m.m24, m.m43, m.m34);
    lemma_times4_insert(m.m13, m.m22, m.m44, m.m34);
    lemma_times4_insert(m.m12, m.m23, m.m44, m.m34);
    let canon = Seq::empty()
        .push((true, times4(m.m14, m.m23, m.m34, m.m42)))
        .push((false, times4(m.m14, m.m24, m.m33, m.m42)))
        .push((true, times4(m.m14, m.m24, m.m32, m.m43)))
        .push((false, times4(m.m14, m.m22, m.m34, m.m43)))
        .push((false, times4(m.m14, m.m23, m.m32, m.m44)))
        .push((true, times4(m.m14, m.m22, m.m33, m.m44)))
        .push((true, times4(m.m14, m.m24, m.m33, m.m42)))
        .push((false, times4(m.m13, m.m24, m.m34, m.m42)))
        .push((false, times4(m.m14, m.m24, m.m32, m.m43)))
        .push((true, times4(m.m12, m.m24, m.m34, m.m43)))
        .push((true, times4(m.m13, m.m24, m.m32, m.m44)))
        .push((false, times4(m.m12, m.m24, m.m33, m.m44)))
        .push((true, times4(m.m13, m.m24, m.m34, m.m42)))
        .push((false, times4(m.m14, m.m23, m.m34, m.m42)))
        .push((true, times4(m.m14, m.m22, m.m34, m.m43)))
        .push((false, times4(m.m12, m.m24, m.m34, m.m43)))
        .push((false, times4(m.m13, m.m22, m.m34, m.m44)))
        .push((true, times4(m.m12, m.m23, m.m34, m.m44)))
        .push((true, times4(m.m14, m.m23, m.m32, m.m44)))
        .push((false, times4(m.m13, m.m24, m.m32, m.m44)))
        .push((false, times4(m.m14, m.m22, m.m33, m.m44)))
        .push((true, times4(m.m12, m.m24, m.m33, m.m44)))
        .push((true, times4(m.m13, m.m22, m.m34, m.m44)))
        .push((false, times4(m.m12, m.m23, m.m34, m.m44)));
    assert(s1 + s2 + s3 + s4 =~= canon);
    let ts = seq![times4(m.m14, m.m23, m.m34, m.m42), times4(m.m14, m.m24, m.m32, m.m43), times4(m.m14, m.m22, m.m33, m.m44), times4(m.m14, m.m24, m.m33, m.m42), times4(m.m12, m.m24, m.m34, m.m43), times4(m.m13, m.m24, m.m32, m.m44), times4(m.m13, m.m24, m.m34, m.m42), times4(m.m14, m.m22, m.m34, m.m43), times4(m.m12, m.m23, m.m34, m.m44), times4(m.m14, m.m23, m.m32, m.m44), times4(m.m12, m.m24, m.m33, m.m44), times4(m.m13, m.m22, m.m34, m.m44)];
    reveal_with_fuel(cancelling_pairs, 13);
    let pairs = Seq::empty()
        .push((true, times4(m.m14, m.m23, m.m34, m.m42))).push((false, times4(m.m14, m.m23, m.m34, m.m42)))
        .push((true, times4(m.m14, m.m24, m.m32, m.m43))).push((false, times4(m.m14, m.m24, m.m32, m.m43)))
        .push((true, times4(m.m14, m.m22, m.m33, m.m44))).push((false, times4(m.m14, m.m22, m.m33, m.m44)))
        .push((true, times4(m.m14, m.m24, m.m33, m.m42))).push((false, times4(m.m14, m.m24, m.m33, m.m42)))
        .push((true, times4(m.m12, m.m24, m.m34, m.m43))).push((false, times4(m.m12, m.m24, m.m34, m.m43)))
        .push((true, times4(m.m13, m.m24, m.m32, m.m44))).push((false, times4(m.m13, m.m24, m.m32, m.m44)))
        .push((true, times4(m.m13, m.m24, m.m34, m.m42))).push((false, times4(m.m13, m.m24, m.m34, m.m42)))
        .push((true, times4(m.m14, m.m22, m.m34, m.m43))).push((false, times4(m.m14, m.m22, m.m34, m.m43)))
        .push((true, times4(m.m12, m.m23, m.m34, m.m44))).push((false, times4(m.m12, m.m23, m.m34, m.m44)))
        .push((true, times4(m.m14, m.m23, m.m32, m.m44))).push((false, times4(m.m14, m.m23, m.m32, m.m44)))
        .push((true, times4(m.m12, m.m24, m.m33, m.m44))).push((false, times4(m.m12, m.m24, m.m33, m.m44)))
        .push((true, times4(m.m13, m.m22, m.m34, m.m44))).push((false, times4(m.m13, m.m22, m.m34, m.m44)));
    assert(cancelling_pairs(ts) =~= pairs);
    assert(canon.to_multiset() =~= cancelling_pairs(ts).to_multiset());
    lemma_signed_sum_permutation(canon, cancelling_pairs(ts));
    lemma_cancelling_pairs(ts);
}

/// Row 2 of the adjugate times column 1 of `m`: zero.
#[verifier::spinoff_prover]
#[verifier::rlimit(40)]
proof fn lemma_adjugate_row2_col1<T: Add<Output = T> + Sub<Output = T> + Mul<Output = T> + Zero + One>(m: Matrix4<T>)
    requires
        commutative_ring::<T>(),
    ensures
        dot4(
            adjugate(m).m21, adjugate(m).m22, adjugate(m).m23, adjugate(m).m24,
            m.m11, m.m21, m.m31, m.m41,
        ) == T::spec_zero(),
{
    broadcast use group_to_multiset_ensures, group_multiset_axioms;

    let a = adjugate(m);
    let at = adjugate_terms(m);
    lemma_adjugate_m21_terms(m);
    lemma_signed_sum_times(at.m21, m.m11);
    let s1 = scaled_terms(at.m21, m.m11);
    lemma_adjugate_m22_terms(m);
    lemma_signed_sum_times(at.m22, m.m21);
    let s2 = scaled_terms(at.m22, m.m21);
    lemma_adjugate_m23_terms(m);
    lemma_signed_sum_times(at.m23, m.m31);
    let s3 = scaled_terms(at.m23, m.m31);
    lemma_adjugate_m24_terms(m);
    lemma_signed_sum_times(at.m24, m.m41);
    let s4 = scaled_terms(at.m24, m.m41);
    lemma_signed_sum_concat(s1, s2);
    lemma_signed_sum_concat(s1 + s2, s3);
    lemma_signed_sum_concat(s1 + s2 + s3, s4);
    lemma_times4_insert(m.m24, m.m33, m.m41, m.m11);
    lemma_times4_insert(m.m23, m.m34, m.m41, m.m11);
    lemma_times4_insert(m.m24, m.m31, m.m43, m.m11);
    lemma_times4_insert(m.m21, m.m34, m.m43, m.m11);
    lemma_times4_insert(m.m23, m.m31, m.m44, m.m11);
    lemma_times4_insert(m.m21, m.m33, m.m44, m.m11);
    lemma_times4_insert(m.m13, m.m34, m.m41, m.m21);
    lemma_times4_insert(m.m14, m.m33, m.m41, m.m21);
    lemma_times4_insert(m.m14, m.m31, m.m43, m.m21);
    lemma_times4_insert(m.m11, m.m34, m.m43, m.m21);
    lemma_times4_insert(m.m13, m.m31, m.m44, m.m21);
    lemma_times4_insert(m.m11, m.m33, m.m44, m.m21);
    lemma_times4_insert(m.m14, m.m23, m.m41, m.m31);
    lemma_times4_insert(m.m13, m.m24, m.m41, m.m31);
    lemma_times4_insert(m.m14, m.m21, m.m43, m.m31);
    lemma_times4_insert(m.m11, m.m24, m.m43, m.m31);
    lemma_times4_insert(m.m13, m.m21, m.m44, m.m31);
    lemma_times4_insert(m.m11, m.m23, m.m44, m.m31);
    let canon = Seq::empty()
        .push((true, times4(m.m11, m.m24, m.m33, m.m41)))
        .push((false, times4(m.m11, m.m23, m.m34, m.m41)))
        .push((false, times4(m.m11, m.m24, m.m31, m.m43)))
        .push((true, times4(m.m11, m.m21, m.m34, m.m43)))
        .push((true, times4(m.m11, m.m23, m.m31, m.m44)))
        .push((false, times4(m.m11, m.m21, m.m33, m.m44)))
        .push((true, times4(m.m13, m.m21, m.m34, m.m41)))
        .push((false, times4(m.m14, m.m21, m.m33, m.m41)))
        .push((true, times4(m.m14, m.m21, m.m31, m.m43)))
        .push((false, times4(m.m11, m.m21, m.m34, m.m43)))
        .push((false, times4(m.m13, m.m21, m.m31, m.m44)))
        .push((true, times4(m.m11, m.m21, m.m33, m.m44)))
        .push((true, times4(m.m14, m.m23, m.m31, m.m41)))
        .push((false, times4(m.m13, m.m24, m.m31, m.m41)))
        .push((false, times4(m.m14, m.m21, m.m31, m.m43)))
        .push((true, times4(m.m11, m.m24, m.m31, m.m43)))
        .push((true, times4(m.m13, m.m21, m.m31, m.m44)))
        .push((false, times4(m.m11, m.m23, m.m31, m.m44)))
        .push((true, times4(m.m13, m.m24, m.m31, m.m41)))
        .push((false, times4(m.m14, m.m23, m.m31, m.m41)))
        .push((true, times4(m.m14, m.m21, m.m33, m.m41)))
        .push((false, times4(m.m11, m.m24, m.m33, m.m41)))
        .push((false, times4(m.m13, m.m21, m.m34, m.m41)))
        .push((true, times4(m.m11, m.m23, m.m34, m.m41)));
    assert(s1 + s2 + s3 + s4 =~= canon);
    let ts = seq![times4(m.m11, m.m24, m.m33, m.m41), times4(m.m11, m.m21, m.m34, m.m43), times4(m.m11, m.m23, m.m31, m.m44), times4(m.m13, m.m21, m.m34, m.m41), times4(m.m14, m.m21, m.m31, m.m43), times4(m.m11, m.m21, m.m33, m.m44), times4(m.m14, m.m23, m.m31, m.m41), times4(m.m11, m.m24, m.m31, m.m43), times4(m.m13, m.m21, m.m31, m.m44), times4(m.m13, m.m24, m.m31, m.m41), times4(m.m14, m.m21, m.m33, m.m41), times4(m.m11, m.m23, m.m34, m.m41)];
    reveal_with_fuel(cancelling_pairs, 13);
    let pairs = Seq::empty()
        .push((true, times4(m.m11, m.m24, m.m33, m.m41))).push((false, times4(m.m11, m.m24, m.m33, m.m41)))
        .push((true, times4(m.m11, m.m21, m.m34, m.m43))).push((false, times4(m.m11, m.m21, m.m34, m.m43)))
        .push((true, times4(m.m11, m.m23, m.m31, m.m44))).push((false, times4(m.m11, m.m23, m.m31, m.m44)))
        .push((true, times4(m.m13, m.m21, m.m34, m.m41))).push((false, times4(m.m13, m.m21, m.m34, m.m41)))
        .push((true, times4(m.m14, m.m21, m.m31, m.m43))).push((false, times4(m.m14, m.m21, m.m31, m.m43)))
        .push((true, times4(m.m11, m.m21, m.m33, m.m44))).push((false, times4(m.m11, m.m21, m.m33, m.m44)))
        .push((true, times4(m.m14, m.m23, m.m31, m.m41))).push((false, times4(m.m14, m.m23, m.m31, m.m41)))
        .push((true, times4(m.m11, m.m24, m.m31, m.m43))).push((false, times4(m.m11, m.m24, m.m31, m.m43)))
        .push((true, times4(m.m13, m.m21, m.m31, m.m44))).push((false, times4(m.m13, m.m21, m.m31, m.m44)))
        .push((true, times4(m.m13, m.m24, m.m31, m.m41))).push((false, times4(m.m13, m.m24, m.m31, m.m41)))
        .push((true, times4(m.m14, m.m21, m.m33, m.m41))).push((false, times4(m.m14, m.m21, m.m33, m.m41)))
        .push((true, times4(m.m11, m.m23, m.m34, m.m41))).push((false, times4(m.m11, m.m23, m.m34, m.m41)));
    assert(cancelling_pairs(ts) =~= pairs);
    assert(canon.to_multiset() =~= cancelling_pairs(ts).to_multiset());
    lemma_signed_sum_permutation(canon, cancelling_pairs(ts));
    lemma_cancelling_pairs(ts);
}

/// Row 2 of the adjugate times column 2 of `m`: the determinant.
#[verifier::spinoff_prover]
#[verifier::rlimit(40)]
proof fn lemma_adjugate_row2_col2<T: Add<Output = T> + Sub<Output = T> + Mul<Output = T> + Zero + One>(m: Matrix4<T>)
    requires
        commutative_ring::<T>(),
    ensures
        dot4(
            adjugate(m).m21, adjugate(m).m22, adjugate(m).m23, adjugate(m).m24,
            m.m12, m.m22, m.m32, m.m42,
        ) == determinant(m),
{
    broadcast use group_to_multiset_ensures, group_multiset_axioms;

    let a = adjugate(m);
    let at = adjugate_terms(m);
    lemma_adjugate_m21_terms(m);
    lemma_signed_sum_times(at.m21, m.m12);
    let s1 = scaled_terms(at.m21, m.m12);
    lemma_adjugate_m22_terms(m);
    lemma_signed_sum_times(at.m22, m.m22);
    let s2 = scaled_terms(at.m22, m.m22);
    lemma_adjugate_m23_terms(m);
    lemma_signed_sum_times(at.m23, m.m32);
    let s3 = scaled_terms(at.m23, m.m32);
    lemma_adjugate_m24_terms(m);
    lemma_signed_sum_times(at.m24, m.m42);
    let s4 = scaled_terms(at.m24, m.m42);
    lemma_signed_sum_concat(s1, s2);
    lemma_signed_sum_concat(s1 + s2, s3);
    lemma_signed_sum_concat(s1 + s2 + s3, s4);
    lemma_times4_insert(m.m24, m.m33, m.m41, m.m12);
    lemma_times4_insert(m.m23, m.m34, m.m41, m.m12);
    lemma_times4_insert(m.m24, m.m31, m.m43, m.m12);
    lemma_times4_insert(m.m21, m.m34, m.m43, m.m12);
    lemma_times4_insert(m.m23, m.m31, m.m44, m.m12);
    lemma_times4_insert(m.m21, m.m33, m.m44, m.m12);
    lemma_times4_insert(m.m13, m.m34, m.m41, m.m22);
    lemma_times4_insert(m.m14, m.m33, m.m41, m.m22);
    lemma_times4_insert(m.m14, m.m31, m.m43, m.m22);
    lemma_times4_insert(m.m11, m.m34, m.m43, m.m22);
    lemma_times4_insert(m.m13, m.m31, m.m44, m.m22);
    lemma_times4_insert(m.m11, m.m33, m.m44, m.m22);
    lemma_times4_insert(m.m14, m.m23, m.m41, m.m32);
    lemma_times4_insert(m.m13, m.m24, m.m41, m.m32);
    lemma_times4_insert(m.m14, m.m21, m.m43, m.m32);
    lemma_times4_insert(m.m11, m.m24, m.m43, m.m32);
    lemma_times4_insert(m.m13, m.m21, m.m44, m.m32);
    lemma_times4_insert(m.m11, m.m23, m.m44, m.m32);
    let canon = Seq::empty()
        .push((true, times4(m.m12, m.m24, m.m33, m.m41)))
        .push((false, times4(m.m12, m.m23, m.m34, m.m41)))
        .push((false, times4(m.m12, m.m24, m.m31, m.m43)))
        .push((true, times4(m.m12, m.m21, m.m34, m.m43)))
        .push((true, times4(m.m12, m.m23, m.m31, m.m44)))
        .push((false, times4(m.m12, m.m21, m.m33, m.m44)))
        .push((true, times4(m.m13, m.m22, m.m34, m.m41)))
        .push((false, times4(m.m14, m.m22, m.m33, m.m41)))
        .push((true, times4(m.m14, m.m22, m.m31, m.m43)))
        .push((false, times4(m.m11, m.m22, m.m34, m.m43)))
        .push((false, times4(m.m13, m.m22, m.m31, m.m44)))
        .push((true, times4(m.m11, m.m22, m.m33, m.m44)))
        .push((true, times4(m.m14, m.m23, m.m32, m.m41)))
        .push((false, times4(m.m13, m.m24, m.m32, m.m41)))
        .push((false, times4(m.m14, m.m21, m.m32, m.m43)))
        .push((true, times4(m.m11, m.m24, m.m32, m.m43)))
        .push((true, times4(m.m13, m.m21, m.m32, m.m44)))
        .push((false, times4(m.m11, m.m23, m.m32, m.m44)))
        .push((true, times4(m.m13, m.m24, m.m31, m.m42)))
        .push((false, times4(m.m14, m.m23, m.m31, m.m42)))
        .push((true, times4(m.m14, m.m21, m.m33, m.m42)))
        .push((false, times4(m.m11, m.m24, m.m33, m.m42)))
        .push((false, times4(m.m13, m.m21, m.m34, m.m42)))
        .push((true, times4(m.m11, m.m23, m.m34, m.m42)));
    assert(s1 + s2 + s3 + s4 =~= canon);
    lemma_determinant_terms(m);
    assert(canon.to_multiset() =~= determinant_terms(m).to_multiset());
    lemma_signed_sum_permutation(canon, determinant_terms(m));
}

/// Row 2 of the adjugate times column 3 of `m`: zero.
#[verifier::spinoff_prover]
#[verifier::rlimit(40)]
proof fn lemma_adjugate_row2_col3<T: Add<Output = T> + Sub<Output = T> + Mul<Output = T> + Zero + One>(m: Matrix4<T>)
    requires
        commutative_ring::<T>(),
    ensures
        dot4(
            adjugate(m).m21, adjugate(m).m22, adjugate(m).m23, adjugate(m).m24,
            m.m13, m.m23, m.m33, m.m43,
        ) == T::spec_zero(),
{
    broadcast use group_to_multiset_ensures, group_multiset_axioms;

    let a = adjugate(m);
    let at = adjugate_terms(m);
    lemma_adjugate_m21_terms(m);
    lemma_signed_sum_times(at.m21, m.m13);
    let s1 = scaled_terms(at.m21, m.m13);
    lemma_adjugate_m22_terms(m);
    lemma_signed_sum_times(at.m22, m.m23);
    let s2 = scaled_terms(at.m22, m.m23);
    lemma_adjugate_m23_terms(m);
    lemma_signed_sum_times(at.m23, m.m33);
    let s3 = scaled_terms(at.m23, m.m33);
    lemma_adjugate_m24_terms(m);
    lemma_signed_sum_times(at.m24, m.m43);
    let s4 = scaled_terms(at.m24, m.m43);
    lemma_signed_sum_concat(s1, s2);
    lemma_signed_sum_concat(s1 + s2, s3);
    lemma_signed_sum_concat(s1 + s2 + s3, s4);
    lemma_times4_insert(m.m24, m.m33, m.m41, m.m13);
    lemma_times4_insert(m.m23, m.m34, m.m41, m.m13);
    lemma_times4_insert(m.m24, m.m31, m.m43, m.m13);
    lemma_times4_insert(m.m21, m.m34, m.m43, m.m13);
    lemma_times4_insert(m.m23, m.m31, m.m44, m.m13);
    lemma_times4_insert(m.m21, m.m33, m.m44, m.m13);
    lemma_times4_insert(m.m13, m.m34, m.m41, m.m23);
    lemma_times4_insert(m.m14, m.m33, m.m41, m.m23);
    lemma_times4_insert(m.m14, m.m31, m.m43, m.m23);
    lemma_times4_insert(m.m11, m.m34, m.m43, m.m23);
    lemma_times4_insert(m.m13, m.m31, m.m44, m.m23);
    lemma_times4_insert(m.m11, m.m33, m.m44, m.m23);
    lemma_times4_insert(m.m14, m.m23, m.m41, m.m33);
    lemma_times4_insert(m.m13, m.m24, m.m41, m.m33);
    lemma_times4_insert(m.m14, m.m21, m.m43, m.m33);
    lemma_times4_insert(m.m11, m.m24, m.m43, m.m33);
    lemma_times4_insert(m.m13, m.m21, m.m44, m.m33);
    lemma_times4_insert(m.m11, m.m23, m.m44, m.m33);
    let canon = Seq::empty()
        .push((true, times4(m.m13, m.m24, m.m33, m.m41)))
        .push((false, times4(m.m13, m.m23, m.m34, m.m41)))
        .push((false, times4(m.m13, m.m24, m.m31, m.m43)))
        .push((true, times4(m.m13, m.m21, m.m34, m.m43)))
        .push((true, times4(m.m13, m.m23, m.m31, m.m44)))
        .push((false, times4(m.m13, m.m21, m.m33, m.m44)))
        .push((true, times4(m.m13, m.m23, m.m34, m.m41)))
        .push((false, times4(m.m14, m.m23, m.m33, m.m41)))
        .push((true, times4(m.m14, m.m23, m.m31, m.m43)))
        .push((false, times4(m.m11, m.m23, m.m34, m.m43)))
        .push((false, times4(m.m13, m.m23, m.m31, m.m44)))
        .push((true, times4(m.m11, m.m23, m.m33, m.m44)))
        .push((true, times4(m.m14, m.m23, m.m33, m.m41)))
        .push((false, times4(m.m13, m.m24, m.m33, m.m41)))
        .push((false, times4(m.m14, m.m21, m.m33, m.m43)))
        .push((true, times4(m.m11, m.m24, m.m33, m.m43)))
        .push((true, times4(m.m13, m.m21, m.m33, m.m44)))
        .push((false, times4(m.m11, m.m23, m.m33, m.m44)))
        .push((true, times4(m.m13, m.m24, m.m31, m.m43)))
        .push((false, times4(m.m14, m.m23, m.m31, m.m43)))
        .push((true, times4(m.m14, m.m21, m.m33, m.m43)))
        .push((false, times4(m.m11, m.m24, m.m33, m.m43)))
        .push((false, times4(m.m13, m.m21, m.m34, m.m43)))
        .push((true, times4(m.m11, m.m23, m.m34, m.m43)));
    assert(s1 + s2 + s3 + s4 =~= canon);
    let ts = seq![times4(m.m13, m.m24, m.m33, m.m41), times4(m.m13, m.m21, m.m34, m.m43), times4(m.m13, m.m23, m.m31, m.m44), times4(m.m13, m.m23, m.m34, m.m41), times4(m.m14, m.m23, m.m31, m.m43), times4(m.m11, m.m23, m.m33, m.m44), times4(m.m14, m.m23, m.m33, m.m41), times4(m.m11, m.m24, m.m33, m.m43), times4(m.m13, m.m21, m.m33, m.m44), times4(m.m13, m.m24, m.m31, m.m43), times4(m.m14, m.m21, m.m33, m.m43), times4(m.m11, m.m23, m.m34, m.m43)];
    reveal_with_fuel(cancelling_pairs, 13);
    let pairs = Seq::empty()
        .push((true, times4(m.m13, m.m24, m.m33, m.m41))).push((false, times4(m.m13, m.m24, m.m33, m.m41)))
        .push((true, times4(m.m13, m.m21, m.m34, m.m43))).push((false, times4(m.m13, m.m21, m.m34, m.m43)))
        .push((true, times4(m.m13, m.m23, m.m31, m.m44))).push((false, times4(m.m13, m.m23, m.m31, m.m44)))
        .push((true, times4(m.m13, m.m23, m.m34, m.m41))).push((false, times4(m.m13, m.m23, m.m34, m.m41)))
        .push((true, times4(m.m14, m.m23, m.m31, m.m43))).push((false, times4(m.m14, m.m23, m.m31, m.m43)))
        .push((true, times4(m.m11, m.m23, m.m33, m.m44))).push((false, times4(m.m11, m.m23, m.m33, m.m44)))
        .push((true, times4(m.m14, m.m23, m.m33, m.m41))).push((false, times4(m.m14, m.m23, m.m33, m.m41)))
        .push((true, times4(m.m11, m.m24, m.m33, m.m43))).push((false, times4(m.m11, m.m24, m.m33, m.m43)))
        .push((true, times4(m.m13, m.m21, m.m33, m.m44))).push((false, times4(m.m13, m.m21, m.m33, m.m44)))
        .push((true, times4(m.m13, m.m24, m.m31, m.m43))).push((false, times4(m.m13, m.m24, m.m31, m.m43)))
        .push((true, times4(m.m14, m.m21, m.m33, m.m43))).push((false, times4(m.m14, m.m21, m.m33, m.m43)))
        .push((true, times4(m.m11, m.m23, m.m34, m.m43))).push((false, times4(m.m11, m.m23, m.m34, m.m43)));
    assert(cancelling_pairs(ts) =~= pairs);
    assert(canon.to_multiset() =~= cancelling_pairs(ts).to_multiset());
    lemma_signed_sum_permutation(canon, cancelling_pairs(ts));
    lemma_cancelling_pairs(ts);
}

/// Row 2 of the adjugate times column 4 of `m`: zero.
#[verifier::spinoff_prover]
#[verifier::rlimit(40)]
proof fn lemma_adjugate_row2_col4<T: Add<Output = T> + Sub<Output = T> + Mul<Output = T> + Zero + One>(m: Matrix4<T>)
    requires
        commutative_ring::<T>(),
    ensures
        dot4(
            adjugate(m).m21, adjugate(m).m22, adjugate(m).m23, adjugate(m).m24,
            m.m14, m.m24, m.m34, m.m44,
        ) == T::spec_zero(),
{
    broadcast use group_to_multiset_ensures, group_multiset_axioms;

    let a = adjugate(m);
    let at = adjugate_terms(m);
    lemma_adjugate_m21_terms(m);
    lemma_signed_sum_times(at.m21, m.m14);
    let s1 = scaled_terms(at.m21, m.m14);
    lemma_adjugate_m22_terms(m);
    lemma_signed_sum_times(at.m22, m.m24);
    let s2 = scaled_terms(at.m22, m.m24);
    lemma_adjugate_m23_terms(m);
    lemma_signed_sum_times(at.m23, m.m34);
    let s3 = scaled_terms(at.m23, m.m34);
    lemma_adjugate_m24_terms(m);
    lemma_signed_sum_times(at.m24, m.m44);
    let s4 = scaled_terms(at.m24, m.m44);
    lemma_signed_sum_concat(s1, s2);
    lemma_signed_sum_concat(s1 + s2, s3);
    lemma_signed_sum_concat(s1 + s2 + s3, s4);
    lemma_times4_insert(m.m24, m.m33, m.m41, m.m14);
    lemma_times4_insert(m.m23, m.m34, m.m41, m.m14);
    lemma_times4_insert(m.m24, m.m31, m.m43, m.m14);
    lemma_times4_insert(m.m21, m.m34, m.m43, m.m14);
    lemma_times4_insert(m.m23, m.m31, m.m44, m.m14);
    lemma_times4_insert(m.m21, m.m33, m.m44, m.m14);
    lemma_times4_insert(m.m13, m.m34, m.m41, m.m24);
    lemma_times4_insert(m.m14, m.m33, m.m41, m.m24);
    lemma_times4_insert(m.m14, m.m31, m.m43, m.m24);
    lemma_times4_insert(m.m11, m.m34, m.m43, m.m24);
    lemma_times4_insert(m.m13, m.m31, m.m44, m.m24);
    lemma_times4_insert(m.m11, m.m33, m.m44, m.m24);
    lemma_times4_insert(m.m14, m.m23, m.m41, m.m34);
    lemma_times4_insert(m.m13, m.m24, m.m41, m.m34);
    lemma_times4_insert(m.m14, m.m21, m.m43, m.m34);
    lemma_times4_insert(m.m11, m.m24, m.m43, m.m34);
    lemma_times4_insert(m.m13, m.m21, m.m44, m.m34);
    lemma_times4_insert(m.m11, m.m23, m.m44, m.m34);
    let canon = Seq::empty()
        .push((true, times4(m.m14, m.m24, m.m33, m.m41)))
        .push((false, times4(m.m14, m.m23, m.m34, m.m41)))
        .push((false, times4(m.m14, m.m24, m.m31, m.m43)))
        .push((true, times4(m.m14, m.m21, m.m34, m.m43)))
        .push((true, times4(m.m14, m.m23, m.m31, m.m44)))
        .push((false, times4(m.m14, m.m21, m.m33, m.m44)))
        .push((true, times4(m.m13, m.m24, m.m34, m.m41)))
        .push((false, times4(m.m14, m.m24, m.m33, m.m41)))
        .push((true, times4(m.m14, m.m24, m.m31, m.m43)))
        .push((false, times4(m.m11, m.m24, m.m34, m.m43)))
        .push((false, times4(m.m13, m.m24, m.m31, m.m44)))
        .push((true, times4(m.m11, m.m24, m.m33, m.m44)))
        .push((true, times4(m.m14, m.m23, m.m34, m.m41)))
        .push((false, times4(m.m13, m.m24, m.m34, m.m41)))
        .push((false, times4(m.m14, m.m21, m.m34, m.m43)))
        .push((true, times4(m.m11, m.m24, m.m34, m.m43)))
        .push((true, times4(m.m13, m.m21, m.m34, m.m44)))
        .push((false, times4(m.m11, m.m23, m.m34, m.m44)))
        .push((true, times4(m.m13, m.m24, m.m31, m.m44)))
        .push((false, times4(m.m14, m.m23, m.m31, m.m44)))
        .push((true, times4(m.m14, m.m21, m.m33, m.m44)))
        .push((false, times4(m.m11, m.m24, m.m33, m.m44)))
        .push((false, times4(m.m13, m.m21, m.m34, m.m44)))
        .push((true, times4(m.m11, m.m23, m.m34, m.m44)));
    assert(s1 + s2 + s3 + s4 =~= canon);
    let ts = seq![times4(m.m14, m.m24, m.m33, m.m41), times4(m.m14, m.m21, m.m34, m.m43), times4(m.m14, m.m23, m.m31, m.m44), times4(m.m13, m.m24, m.m34, m.m41), times4(m.m14, m.m24, m.m31, m.m43), times4(m.m11, m.m24, m.m33, m.m44), times4(m.m14, m.m23, m.m34, m.m41), times4(m.m11, m.m24, m.m34, m.m43), times4(m.m13, m.m21, m.m34, m.m44), times4(m.m13, m.m24, m.m31, m.m44), times4(m.m14, m.m21, m.m33, m.m44), times4(m.m11, m.m23, m.m34, m.m44)];
    reveal_with_fuel(cancelling_pairs, 13);
    let pairs = Seq::empty()
        .push((true, times4(m.m14, m.m24, m.m33, m.m41))).push((false, times4(m.m14, m.m24, m.m33, m.m41)))
        .push((true, times4(m.m14, m.m21, m.m34, m.m43))).push((false, times4(m.m14, m.m21, m.m34, m.m43)))
        .push((true, times4(m.m14, m.m23, m.m31, m.m44))).push((false, times4(m.m14, m.m23, m.m31, m.m44)))
        .push((true, times4(m.m13, m.m24, m.m34, m.m41))).push((false, times4(m.m13, m.m24, m.m34, m.m41)))
        .push((true, times4(m.m14, m.m24, m.m31, m.m43))).push((false, times4(m.m14, m.m24, m.m31, m.m43)))
        .push((true, times4(m.m11, m.m24, m.m33, m.m44))).push((false, times4(m.m11, m.m24, m.m33, m.m44)))
        .push((true, times4(m.m14, m.m23, m.m34, m.m41))).push((false, times4(m.m14, m.m23, m.m34, m.m41)))
        .push((true, times4(m.m11, m.m24, m.m34, m.m43))).push((false, times4(m.m11, m.m24, m.m34, m.m43)))
        .push((true, times4(m.m13, m.m21, m.m34, m.m44))).push((false, times4(m.m13, m.m21, m.m34, m.m44)))
        .push((true, times4(m.m13, m.m24, m.m31, m.m44))).push((false, times4(m.m13, m.m24, m.m31, m.m44)))
        .push((true, times4(m.m14, m.m21, m.m33, m.m44))).push((false, times4(m.m14, m.m21, m.m33, m.m44)))
        .push((true, times4(m.m11, m.m23, m.m34, m.m44))).push((false, times4(m.m11, m.m23, m.m34, m.m44)));
    assert(cancelling_pairs(ts) =~= pairs);
    assert(canon.to_multiset() =~= cancelling_pairs(ts).to_multiset());
    lemma_signed_sum_permutation(canon, cancelling_pairs(ts));
    lemma_cancelling_pairs(ts);
}

/// Row 3 of the adjugate times column 1 of `m`: zero.
#[verifier::spinoff_prover]
#[verifier::rlimit(40)]
proof fn lemma_adjugate_row3_col1<T: Add<Output = T> + Sub<Output = T> + Mul<Output = T> + Zero + One>(m: Matrix4<T>)
    requires
        commutative_ring::<T>(),
    ensures
        dot4(
            adjugate(m).m31, adjugate(m).m32, adjugate(m).m33, adjugate(m).m34,
            m.m11, m.m21, m.m31, m.m41,
        ) == T::spec_zero(),
{
    broadcast use group_to_multiset_ensures, group_multiset_axioms;

    let a = adjugate(m);
    let at = adjugate_terms(m);
    lemma_adjugate_m31_terms(m);
    lemma_signed_sum_times(at.m31, m.m11);
    let s1 = scaled_terms(at.m31, m.m11);
    lemma_adjugate_m32_terms(m);
    lemma_signed_sum_times(at.m32, m.m21);
    let s2 = scaled_terms(at.m32, m.m21);
    lemma_adjugate_m33_terms(m);
    lemma_signed_sum_times(at.m33, m.m31);
    let s3 = scaled_terms(at.m33, m.m31);
    lemma_adjugate_m34_terms(m);
    lemma_signed_sum_times(at.m34, m.m41);
    let s4 = scaled_terms(at.m34, m.m41);
    lemma_signed_sum_concat(s1, s2);
    lemma_signed_sum_concat(s1 + s2, s3);
    lemma_signed_sum_concat(s1 + s2 + s3, s4);
    lemma_times4_insert(m.m22, m.m34, m.m41, m.m11);
    lemma_times4_insert(m.m24, m.m32, m.m41, m.m11);
    lemma_times4_insert(m.m24, m.m31, m.m42, m.m11);
    lemma_times4_insert(m.m21, m.m34, m.m42, m.m11);
    lemma_times4_insert(m.m22, m.m31, m.m44, m.m11);
    lemma_times4_insert(m.m21, m.m32, m.m44, m.m11);
    lemma_times4_insert(m.m14, m.m32, m.m41, m.m21);
    lemma_times4_insert(m.m12, m.m34, m.m41, m.m21);
    lemma_times4_insert(m.m14, m.m31, m.m42, m.m21);
    lemma_times4_insert(m.m11, m.m34, m.m42, m.m21);
    lemma_times4_insert(m.m12, m.m31, m.m44, m.m21);
    lemma_times4_insert(m.m11, m.m32, m.m44, m.m21);
    lemma_times4_insert(m.m12, m.m24, m.m41, m.m31);
    lemma_times4_insert(m.m14, m.m22, m.m41, m.m31);
    lemma_times4_insert(m.m14, m.m21, m.m42, m.m31);
    lemma_times4_insert(m.m11, m.m24, m.m42, m.m31);
    lemma_times4_insert(m.m12, m.m21, m.m44, m.m31);
    lemma_times4_insert(m.m11, m.m22, m.m44, m.m31);
    let canon = Seq::empty()
        .push((true, times4(m.m11, m.m22, m.m34, m.m41)))
        .push((false, times4(m.m11, m.m24, m.m32, m.m41)))
        .push((true, times4(m.m11, m.m24, m.m31, m.m42)))
        .push((false, times4(m.m11, m.m21, m.m34, m.m42)))
        .push((false, times4(m.m11, m.m22, m.m31, m.m44)))
        .push((true, times4(m.m11, m.m21, m.m32, m.m44)))
        .push((true, times4(m.m14, m.m21, m.m32, m.m41)))
        .push((false, times4(m.m12, m.m21, m.m34, m.m41)))
        .push((false, times4(m.m14, m.m21, m.m31, m.m42)))
        .push((true, times4(m.m11, m.m21, m.m34, m.m42)))
        .push((true, times4(m.m12, m.m21, m.m31, m.m44)))
        .push((false, times4(m.m11, m.m21, m.m32, m.m44)))
        .push((true, times4(m.m12, m.m24, m.m31, m.m41)))
        .push((false, times4(m.m14, m.m22, m.m31, m.m41)))
        .push((true, times4(m.m14, m.m21, m.m31, m.m42)))
        .push((false, times4(m.m11, m.m24, m.m31, m.m42)))
        .push((false, times4(m.m12, m.m21, m.m31, m.m44)))
        .push((true, times4(m.m11, m.m22, m.m31, m.m44)))
        .push((true, times4(m.m14, m.m22, m.m31, m.m41)))
        .push((false, times4(m.m12, m.m24, m.m31, m.m41)))
        .push((false, times4(m.m14, m.m21, m.m32, m.m41)))
        .push((true, times4(m.m11, m.m24, m.m32, m.m41)))
        .push((true, times4(m.m12, m.m21, m.m34, m.m41)))
        .push((false, times4(m.m11, m.m22, m.m34, m.m41)));
    assert(s1 + s2 + s3 + s4 =~= canon);
    let ts = seq![times4(m.m11, m.m22, m.m34, m.m41), times4(m.m11, m.m24, m.m31, m.m42), times4(m.m11, m.m21, m.m32, m.m44), times4(m.m14, m.m21, m.m32, m.m41), times4(m.m11, m.m21, m.m34, m.m42), times4(m.m12, m.m21, m.m31, m.m44), times4(m.m12, m.m24, m.m31, m.m41), times4(m.m14, m.m21, m.m31, m.m42), times4(m.m11, m.m22, m.m31, m.m44), times4(m.m14, m.m22, m.m31, m.m41), times4(m.m11, m.m24, m.m32, m.m41), times4(m.m12, m.m21, m.m34, m.m41)];
    reveal_with_fuel(cancelling_pairs, 13);
    let pairs = Seq::empty()
        .push((true, times4(m.m11, m.m22, m.m34, m.m41))).push((false, times4(m.m11, m.m22, m.m34, m.m41)))
        .push((true, times4(m.m11, m.m24, m.m31, m.m42))).push((false, times4(m.m11, m.m24, m.m31, m.m42)))
        .push((true, times4(m.m11, m.m21, m.m32, m.m44))).push((false, times4(m.m11, m.m21, m.m32, m.m44)))
        .push((true, times4(m.m14, m.m21, m.m32, m.m41))).push((false, times4(m.m14, m.m21, m.m32, m.m41)))
        .push((true, times4(m.m11, m.m21, m.m34, m.m42))).push((false, times4(m.m11, m.m21, m.m34, m.m42)))
        .push((true, times4(m.m12, m.m21, m.m31, m.m44))).push((false, times4(m.m12, m.m21, m.m31, m.m44)))
        .push((true, times4(m.m12, m.m24, m.m31, m.m41))).push((false, times4(m.m12, m.m24, m.m31, m.m41)))
        .push((true, times4(m.m14, m.m21, m.m31, m.m42))).push((false, times4(m.m14, m.m21, m.m31, m.m42)))
        .push((true, times4(m.m11, m.m22, m.m31, m.m44))).push((false, times4(m.m11, m.m22, m.m31, m.m44)))
        .push((true, times4(m.m14, m.m22, m.m31, m.m41))).push((false, times4(m.m14, m.m22, m.m31, m.m41)))
        .push((true, times4(m.m11, m.m24, m.m32, m.m41))).push((false, times4(m.m11, m.m24, m.m32, m.m41)))
        .push((true, times4(m.m12, m.m21, m.m34, m.m41))).push((false, times4(m.m12, m.m21, m.m34, m.m41)));
    assert(cancelling_pairs(ts) =~= pairs);
    assert(canon.to_multiset() =~= cancelling_pairs(ts).to_multiset());
    lemma_signed_sum_permutation(canon, cancelling_pairs(ts));
    lemma_cancelling_pairs(ts);
}

/// Row 3 of the adjugate times column 2 of `m`: zero.
#[verifier::spinoff_prover]
#[verifier::rlimit(40)]
proof fn lemma_adjugate_row3_col2<T: Add<Output = T> + Sub<Output = T> + Mul<Output = T> + Zero + One>(m: Matrix4<T>)
    requires
        commutative_ring::<T>(),
    ensures
        dot4(
            adjugate(m).m31, adjugate(m).m32, adjugate(m).m33, adjugate(m).m34,
            m.m12, m.m22, m.m32, m.m42,
        ) == T::spec_zero(),
{
    broadcast use group_to_multiset_ensures, group_multiset_axioms;

    let a = adjugate(m);
    let at = adjugate_terms(m);
    lemma_adjugate_m31_terms(m);
    lemma_signed_sum_times(at.m31, m.m12);
    let s1 = scaled_terms(at.m31, m.m12);
    lemma_adjugate_m32_terms(m);
    lemma_signed_sum_times(at.m32, m.m22);
    let s2 = scaled_terms(at.m32, m.m22);
    lemma_adjugate_m33_terms(m);
    lemma_signed_sum_times(at.m33, m.m32);
    let s3 = scaled_terms(at.m33, m.m32);
    lemma_adjugate_m34_terms(m);
    lemma_signed_sum_times(at.m34, m.m42);
    let s4 = scaled_terms(at.m34, m.m42);
    lemma_signed_sum_concat(s1, s2);
    lemma_signed_sum_concat(s1 + s2, s3);
    lemma_signed_sum_concat(s1 + s2 + s3, s4);
    lemma_times4_insert(m.m22, m.m34, m.m41, m.m12);
    lemma_times4_insert(m.m24, m.m32, m.m41, m.m12);
    lemma_times4_insert(m.m24, m.m31, m.m42, m.m12);
    lemma_times4_insert(m.m21, m.m34, m.m42, m.m12);
    lemma_times4_insert(m.m22, m.m31, m.m44, m.m12);
    lemma_times4_insert(m.m21, m.m32, m.m44, m.m12);
    lemma_times4_insert(m.m14, m.m32, m.m41, m.m22);
    lemma_times4_insert(m.m12, m.m34, m.m41, m.m22);
    lemma_times4_insert(m.m14, m.m31, m.m42, m.m22);
    lemma_times4_insert(m.m11, m.m34, m.m42, m.m22);
    lemma_times4_insert(m.m12, m.m31, m.m44, m.m22);
    lemma_times4_insert(m.m11, m.m32, m.m44, m.m22);
    lemma_times4_insert(m.m12, m.m24, m.m41, m.m32);
    lemma_times4_insert(m.m14, m.m22, m.m41, m.m32);
    lemma_times4_insert(m.m14, m.m21, m.m42, m.m32);
    lemma_times4_insert(m.m11, m.m24, m.m42, m.m32);
    lemma_times4_insert(m.m12, m.m21, m.m44, m.m32);
    lemma_times4_insert(m.m11, m.m22, m.m44, m.m32);
    let canon = Seq::empty()
        .push((true, times4(m.m12, m.m22, m.m34, m.m41)))
        .push((false, times4(m.m12, m.m24, m.m32, m.m41)))
        .push((true, times4(m.m12, m.m24, m.m31, m.m42)))
        .push((false, times4(m.m12, m.m21, m.m34, m.m42)))
        .push((false, times4(m.m12, m.m22, m.m31, m.m44)))
        .push((true, times4(m.m12, m.m21, m.m32, m.m44)))
        .push((true, times4(m.m14, m.m22, m.m32, m.m41)))
        .push((false, times4(m.m12, m.m22, m.m34, m.m41)))
        .push((false, times4(m.m14, m.m22, m.m31, m.m42)))
        .push((true, times4(m.m11, m.m22, m.m34, m.m42)))
        .push((true, times4(m.m12, m.m22, m.m31, m.m44)))
        .push((false, times4(m.m11, m.m22, m.m32, m.m44)))
        .push((true, times4(m.m12, m.m24, m.m32, m.m41)))
        .push((false, times4(m.m14, m.m22, m.m32, m.m41)))
        .push((true, times4(m.m14, m.m21, m.m32, m.m42)))
        .push((false, times4(m.m11, m.m24, m.m32, m.m42)))
        .push((false, times4(m.m12, m.m21, m.m32, m.m44)))
        .push((true, times4(m.m11, m.m22, m.m32, m.m44)))
        .push((true, times4(m.m14, m.m22, m.m31, m.m42)))
        .push((false, times4(m.m12, m.m24, m.m31, m.m42)))
        .push((false, times4(m.m14, m.m21, m.m32, m.m42)))
        .push((true, times4(m.m11, m.m24, m.m32, m.m42)))
        .push((true, times4(m.m12, m.m21, m.m34, m.m42)))
        .push((false, times4(m.m11, m.m22, m.m34, m.m42)));
    assert(s1 + s2 + s3 + s4 =~= canon);
    let ts = seq![times4(m.m12, m.m22, m.m34, m.m41), times4(m.m12, m.m24, m.m31, m.m42), times4(m.m12, m.m21, m.m32, m.m44), times4(m.m14, m.m22, m.m32, m.m41), times4(m.m11, m.m22, m.m34, m.m42), times4(m.m12, m.m22, m.m31, m.m44), times4(m.m12, m.m24, m.m32, m.m41), times4(m.m14, m.m21, m.m32, m.m42), times4(m.m11, m.m22, m.m32, m.m44), times4(m.m14, m.m22, m.m31, m.m42), times4(m.m11, m.m24, m.m32, m.m42), times4(m.m12, m.m21, m.m34, m.m42)];
    reveal_with_fuel(cancelling_pairs, 13);
    let pairs = Seq::empty()
        .push((true, times4(m.m12, m.m22, m.m34, m.m41))).push((false, times4(m.m12, m.m22, m.m34, m.m41)))
        .push((true, times4(m.m12, m.m24, m.m31, m.m42))).push((false, times4(m.m12, m.m24, m.m31, m.m42)))
        .push((true, times4(m.m12, m.m21, m.m32, m.m44))).push((false, times4(m.m12, m.m21, m.m32, m.m44)))
        .push((true, times4(m.m14, m.m22, m.m32, m.m41))).push((false, times4(m.m14, m.m22, m.m32, m.m41)))
        .push((true, times4(m.m11, m.m22, m.m34, m.m42))).push((false, times4(m.m11, m.m22, m.m34, m.m42)))
        .push((true, times4(m.m12, m.m22, m.m31, m.m44))).push((false, times4(m.m12, m.m22, m.m31, m.m44)))
        .push((true, times4(m.m12, m.m24, m.m32, m.m41))).push((false, times4(m.m12, m.m24, m.m32, m.m41)))
        .push((true, times4(m.m14, m.m21, m.m32, m.m42))).push((false, times4(m.m14, m.m21, m.m32, m.m42)))
        .push((true, times4(m.m11, m.m22, m.m32, m.m44))).push((false, times4(m.m11, m.m22, m.m32, m.m44)))
        .push((true, times4(m.m14, m.m22, m.m31, m.m42))).push((false, times4(m.m14, m.m22, m.m31, m.m42)))
        .push((true, times4(m.m11, m.m24, m.m32, m.m42))).push((false, times4(m.m11, m.m24, m.m32, m.m42)))
        .push((true, times4(m.m12, m.m21, m.m34, m.m42))).push((false, times4(m.m12, m.m21, m.m34, m.m42)));
    assert(cancelling_pairs(ts) =~= pairs);
    assert(canon.to_multiset() =~= cancelling_pairs(ts).to_multiset());
    lemma_signed_sum_permutation(canon, cancelling_pairs(ts));
    lemma_cancelling_pairs(ts);
}

/// Row 3 of the adjugate times column 3 of `m`: the determinant.
#[verifier::spinoff_prover]
#[verifier::rlimit(40)]
proof fn lemma_adjugate_row3_col3<T: Add<Output = T> + Sub<Output = T> + Mul<Output = T> + Zero + One>(m: Matrix4<T>)
    requires
        commutative_ring::<T>(),
    ensures
        dot4(
            adjugate(m).m31, adjugate(m).m32, adjugate(m).m33, adjugate(m).m34,
            m.m13, m.m23, m.m33, m.m43,
        ) == determinant(m),
{
    broadcast use group_to_multiset_ensures, group_multiset_axioms;

    let a = adjugate(m);
    let at = adjugate_terms(m);
    lemma_adjugate_m31_terms(m);
    lemma_signed_sum_times(at.m31, m.m13);
    let s1 = scaled_terms(at.m31, m.m13);
    lemma_adjugate_m32_terms(m);
    lemma_signed_sum_times(at.m32, m.m23);
    let s2 = scaled_terms(at.m32, m.m23);
    lemma_adjugate_m33_terms(m);
    lemma_signed_sum_times(at.m33, m.m33);
    let s3 = scaled_terms(at.m33, m.m33);
    lemma_adjugate_m34_terms(m);
    lemma_signed_sum_times(at.m34, m.m43);
    let s4 = scaled_terms(at.m34, m.m43);
    lemma_signed_sum_concat(s1, s2);
    lemma_signed_sum_concat(s1 + s2, s3);
    lemma_signed_sum_concat(s1 + s2 + s3, s4);
    lemma_times4_insert(m.m22, m.m34, m.m41, m.m13);
    lemma_times4_insert(m.m24, m.m32, m.m41, m.m13);
    lemma_times4_insert(m.m24, m.m31, m.m42, m.m13);
    lemma_times4_insert(m.m21, m.m34, m.m42, m.m13);
    lemma_times4_insert(m.m22, m.m31, m.m44, m.m13);
    lemma_times4_insert(m.m21, m.m32, m.m44, m.m13);
    lemma_times4_insert(m.m14, m.m32, m.m41, m.m23);
    lemma_times4_insert(m.m12, m.m34, m.m41, m.m23);
    lemma_times4_insert(m.m14, m.m31, m.m42, m.m23);
    lemma_times4_insert(m.m11, m.m34, m.m42, m.m23);
    lemma_times4_insert(m.m12, m.m31, m.m44, m.m23);
    lemma_times4_insert(m.m11, m.m32, m.m44, m.m23);
    lemma_times4_insert(m.m12, m.m24, m.m41, m.m33);
    lemma_times4_insert(m.m14, m.m22, m.m41, m.m33);
    lemma_times4_insert(m.m14, m.m21, m.m42, m.m33);
    lemma_times4_insert(m.m11, m.m24, m.m42, m.m33);
    lemma_times4_insert(m.m12, m.m21, m.m44, m.m33);
    lemma_times4_insert(m.m11, m.m22, m.m44, m.m33);
    let canon = Seq::empty()
        .push((true, times4(m.m13, m.m22, m.m34, m.m41)))
        .push((false, times4(m.m13, m.m24, m.m32, m.m41)))
        .push((true, times4(m.m13, m.m24, m.m31, m.m42)))
        .push((false, times4(m.m13, m.m21, m.m34, m.m42)))
        .push((false, times4(m.m13, m.m22, m.m31, m.m44)))
        .push((true, times4(m.m13, m.m21, m.m32, m.m44)))
        .push((true, times4(m.m14, m.m23, m.m32, m.m41)))
        .push((false, times4(m.m12, m.m23, m.m34, m.m41)))
        .push((false, times4(m.m14, m.m23, m.m31, m.m42)))
        .push((true, times4(m.m11, m.m23, m.m34, m.m42)))
        .push((true, times4(m.m12, m.m23, m.m31, m.m44)))
        .push((false, times4(m.m11, m.m23, m.m32, m.m44)))
        .push((true, times4(m.m12, m.m24, m.m33, m.m41)))
        .push((false, times4(m.m14, m.m22, m.m33, m.m41)))
        .push((true, times4(m.m14, m.m21, m.m33, m.m42)))
        .push((false, times4(m.m11, m.m24, m.m33, m.m42)))
        .push((false, times4(m.m12, m.m21, m.m33, m.m44)))
        .push((true, times4(m.m11, m.m22, m.m33, m.m44)))
        .push((true, times4(m.m14, m.m22, m.m31, m.m43)))
        .push((false, times4(m.m12, m.m24, m.m31, m.m43)))
        .push((false, times4(m.m14, m.m21, m.m32, m.m43)))
        .push((true, times4(m.m11, m.m24, m.m32, m.m43)))
        .push((true, times4(m.m12, m.m21, m.m34, m.m43)))
        .push((false, times4(m.m11, m.m22, m.m34, m.m43)));
    assert(s1 + s2 + s3 + s4 =~= canon);
    lemma_determinant_terms(m);
    assert(canon.to_multiset() =~= determinant_terms(m).to_multiset());
    lemma_signed_sum_permutation(canon, determinant_terms(m));
}

/// Row 3 of the adjugate times column 4 of `m`: zero.
#[verifier::spinoff_prover]
#[verifier::rlimit(40)]
proof fn lemma_adjugate_row3_col4<T: Add<Output = T> + Sub<Output = T> + Mul<Output = T> + Zero + One>(m: Matrix4<T>)
    requires
        commutative_ring::<T>(),
    ensures
        dot4(
            adjugate(m).m31, adjugate(m).m32, adjugate(m).m33, adjugate(m).m34,
            m.m14, m.m24, m.m34, m.m44,
        ) == T::spec_zero(),
{
    broadcast use group_to_multiset_ensures, group_multiset_axioms;

    let a = adjugate(m);
    let at = adjugate_terms(m);
    lemma_adjugate_m31_terms(m);
    lemma_signed_sum_times(at.m31, m.m14);
    let s1 = scaled_terms(at.m31, m.m14);
    lemma_adjugate_m32_terms(m);
    lemma_signed_sum_times(at.m32, m.m24);
    let s2 = scaled_terms(at.m32, m.m24);
    lemma_adjugate_m33_terms(m);
    lemma_signed_sum_times(at.m33, m.m34);
    let s3 = scaled_terms(at.m33, m.m34);
    lemma_adjugate_m34_terms(m);
    lemma_signed_sum_times(at.m34, m.m44);
    let s4 = scaled_terms(at.m34, m.m44);
    lemma_signed_sum_concat(s1, s2);
    lemma_signed_sum_concat(s1 + s2, s3);
    lemma_signed_sum_concat(s1 + s2 + s3, s4);
    lemma_times4_insert(m.m22, m.m34, m.m41, m.m14);
    lemma_times4_insert(m.m24, m.m32, m.m41, m.m14);
    lemma_times4_insert(m.m24, m.m31, m.m42, m.m14);
    lemma_times4_insert(m.m21, m.m34, m.m42, m.m14);
    lemma_times4_insert(m.m22, m.m31, m.m44, m.m14);
    lemma_times4_insert(m.m21, m.m32, m.m44, m.m14);
    lemma_times4_insert(m.m14, m.m32, m.m41, m.m24);
    lemma_times4_insert(m.m12, m.m34, m.m41, m.m24);
    lemma_times4_insert(m.m14, m.m31, m.m42, m.m24);
    lemma_times4_insert(m.m11, m.m34, m.m42, m.m24);
    lemma_times4_insert(m.m12, m.m31, m.m44, m.m24);
    lemma_times4_insert(m.m11, m.m32, m.m44, m.m24);
    lemma_times4_insert(m.m12, m.m24, m.m41, m.m34);
    lemma_times4_insert(m.m14, m.m22, m.m41, m.m34);
    lemma_times4_insert(m.m14, m.m21, m.m42, m.m34);
    lemma_times4_insert(m.m11, m.m24, m.m42, m.m34);
    lemma_times4_insert(m.m12, m.m21, m.m44, m.m34);
    lemma_times4_insert(m.m11, m.m22, m.m44, m.m34);
    let canon = Seq::empty()
        .push((true, times4(m.m14, m.m22, m.m34, m.m41)))
        .push((false, times4(m.m14, m.m24, m.m32, m.m41)))
        .push((true, times4(m.m14, m.m24, m.m31, m.m42)))
        .push((false, times4(m.m14, m.m21, m.m34, m.m42)))
        .push((false, times4(m.m14, m.m22, m.m31, m.m44)))
        .push((true, times4(m.m14, m.m21, m.m32, m.m44)))
        .push((true, times4(m.m14, m.m24, m.m32, m.m41)))
        .push((false, times4(m.m12, m.m24, m.m34, m.m41)))
        .push((false, times4(m.m14, m.m24, m.m31, m.m42)))
        .push((true, times4(m.m11, m.m24, m.m34, m.m42)))
        .push((true, times4(m.m12, m.m24, m.m31, m.m44)))
        .push((false, times4(m.m11, m.m24, m.m32, m.m44)))
        .push((true, times4(m.m12, m.m24, m.m34, m.m41)))
        .push((false, times4(m.m14, m.m22, m.m34, m.m41)))
        .push((true, times4(m.m14, m.m21, m.m34, m.m42)))
        .push((false, times4(m.m11, m.m24, m.m34, m.m42)))
        .push((false, times4(m.m12, m.m21, m.m34, m.m44)))
        .push((true, times4(m.m11, m.m22, m.m34, m.m44)))
        .push((true, times4(m.m14, m.m22, m.m31, m.m44)))
        .push((false, times4(m.m12, m.m24, m.m31, m.m44)))
        .push((false, times4(m.m14, m.m21, m.m32, m.m44)))
        .push((true, times4(m.m11, m.m24, m.m32, m.m44)))
        .push((true, times4(m.m12, m.m21, m.m34, m.m44)))
        .push((false, times4(m.m11, m.m22, m.m34, m.m44)));
    assert(s1 + s2 + s3 + s4 =~= canon);
    let ts = seq![times4(m.m14, m.m22, m.m34, m.m41), times4(m.m14, m.m24, m.m31, m.m42), times4(m.m14, m.m21, m.m32, m.m44), times4(m.m14, m.m24, m.m32, m.m41), times4(m.m11, m.m24, m.m34, m.m42), times4(m.m12, m.m24, m.m31, m.m44), times4(m.m12, m.m24, m.m34, m.m41), times4(m.m14, m.m21, m.m34, m.m42), times4(m.m11, m.m22, m.m34, m.m44), times4(m.m14, m.m22, m.m31, m.m44), times4(m.m11, m.m24, m.m32, m.m44), times4(m.m12, m.m21, m.m34, m.m44)];
    reveal_with_fuel(cancelling_pairs, 13);
    let pairs = Seq::empty()
        .push((true, times4(m.m14, m.m22, m.m34, m.m41))).push((false, times4(m.m14, m.m22, m.m34, m.m41)))
        .push((true, times4(m.m14, m.m24, m.m31, m.m42))).push((false, times4(m.m14, m.m24, m.m31, m.m42)))
        .push((true, times4(m.m14, m.m21, m.m32, m.m44))).push((false, times4(m.m14, m.m21, m.m32, m.m44)))
        .push((true, times4(m.m14, m.m24, m.m32, m.m41))).push((false, times4(m.m14, m.m24, m.m32, m.m41)))
        .push((true, times4(m.m11, m.m24, m.m34, m.m42))).push((false, times4(m.m11, m.m24, m.m34, m.m42)))
        .push((true, times4(m.m12, m.m24, m.m31, m.m44))).push((false, times4(m.m12, m.m24, m.m31, m.m44)))
        .push((true, times4(m.m12, m.m24, m.m34, m.m41))).push((false, times4(m.m12, m.m24, m.m34, m.m41)))
        .push((true, times4(m.m14, m.m21, m.m34, m.m42))).push((false, times4(m.m14, m.m21, m.m34, m.m42)))
        .push((true, times4(m.m11, m.m22, m.m34, m.m44))).push((false, times4(m.m11, m.m22, m.m34, m.m44)))
        .push((true, times4(m.m14, m.m22, m.m31, m.m44))).push((false, times4(m.m14, m.m22, m.m31, m.m44)))
        .push((true, times4(m.m11, m.m24, m.m32, m.m44))).push((false, times4(m.m11, m.m24, m.m32, m.m44)))
        .push((true, times4(m.m12, m.m21, m.m34, m.m44))).push((false, times4(m.m12, m.m21, m.m34, m.m44)));
    assert(cancelling_pairs(ts) =~= pairs);
    assert(canon.to_multiset() =~= cancelling_pairs(ts).to_multiset());
    lemma_signed_sum_permutation(canon, cancelling_pairs(ts));
    lemma_cancelling_pairs(ts);
}

/// Row 4 of the adjugate times column 1 of `m`: zero.
#[verifier::spinoff_prover]
#[verifier::rlimit(40)]
proof fn lemma_adjugate_row4_col1<T: Add<Output = T> + Sub<Output = T> + Mul<Output = T> + Zero + One>(m: Matrix4<T>)
    requires
        commutative_ring::<T>(),
    ensures
        dot4(
            adjugate(m).m41, adjugate(m).m42, adjugate(m).m43, adjugate(m).m44,
            m.m11, m.m21, m.m31, m.m41,
        ) == T::spec_zero(),
{
    broadcast use group_to_multiset_ensures, group_multiset_axioms;

    let a = adjugate(m);
    let at = adjugate_terms(m);
    lemma_adjugate_m41_terms(m);
    lemma_signed_sum_times(at.m41, m.m11);
    let s1 = scaled_terms(at.m41, m.m11);
    lemma_adjugate_m42_terms(m);
    lemma_signed_sum_times(at.m42, m.m21);
    let s2 = scaled_terms(at.m42, m.m21);
    lemma_adjugate_m43_terms(m);
    lemma_signed_sum_times(at.m43, m.m31);
    let s3 = scaled_terms(at.m43, m.m31);
    lemma_adjugate_m44_terms(m);
    lemma_signed_sum_times(at.m44, m.m41);
    let s4 = scaled_terms(at.m44, m.m41);
    lemma_signed_sum_concat(s1, s2);
    lemma_signed_sum_concat(s1 + s2, s3);
    lemma_signed_sum_concat(s1 + s2 + s3, s4);
    lemma_times4_insert(m.m23, m.m32, m.m41, m.m11);
    lemma_times4_insert(m.m22, m.m33, m.m41, m.m11);
    lemma_times4_insert(m.m23, m.m31, m.m42, m.m11);
    lemma_times4_insert(m.m21, m.m33, m.m42, m.m11);
    lemma_times4_insert(m.m22, m.m31, m.m43, m.m11);
    lemma_times4_insert(m.m21, m.m32, m.m43, m.m11);
    lemma_times4_insert(m.m12, m.m33, m.m41, m.m21);
    lemma_times4_insert(m.m13, m.m32, m.m41, m.m21);
    lemma_times4_insert(m.m13, m.m31, m.m42, m.m21);
    lemma_times4_insert(m.m11, m.m33, m.m42, m.m21);
    lemma_times4_insert(m.m12, m.m31, m.m43, m.m21);
    lemma_times4_insert(m.m11, m.m32, m.m43, m.m21);
    lemma_times4_insert(m.m13, m.m22, m.m41, m.m31);
    lemma_times4_insert(m.m12, m.m23, m.m41, m.m31);
    lemma_times4_insert(m.m13, m.m21, m.m42, m.m31);
    lemma_times4_insert(m.m11, m.m23, m.m42, m.m31);
    lemma_times4_insert(m.m12, m.m21, m.m43, m.m31);
    lemma_times4_insert(m.m11, m.m22, m.m43, m.m31);
    let canon = Seq::empty()
        .push((true, times4(m.m11, m.m23, m.m32, m.m41)))
        .push((false, times4(m.m11, m.m22, m.m33, m.m41)))
        .push((false, times4(m.m11, m.m23, m.m31, m.m42)))
        .push((true, times4(m.m11, m.m21, m.m33, m.m42)))
        .push((true, times4(m.m11, m.m22, m.m31, m.m43)))
        .push((false, times4(m.m11, m.m21, m.m32, m.m43)))
        .push((true, times4(m.m12, m.m21, m.m33, m.m41)))
        .push((false, times4(m.m13, m.m21, m.m32, m.m41)))
        .push((true, times4(m.m13, m.m21, m.m31, m.m42)))
        .push((false, times4(m.m11, m.m21, m.m33, m.m42)))
        .push((false, times4(m.m12, m.m21, m.m31, m.m43)))
        .push((true, times4(m.m11, m.m21, m.m32, m.m43)))
        .push((true, times4(m.m13, m.m22, m.m31, m.m41)))
        .push((false, times4(m.m12, m.m23, m.m31, m.m41)))
        .push((false, times4(m.m13, m.m21, m.m31, m.m42)))
        .push((true, times4(m.m11, m.m23, m.m31, m.m42)))
        .push((true, times4(m.m12, m.m21, m.m31, m.m43)))
        .push((false, times4(m.m11, m.m22, m.m31, m.m43)))
        .push((true, times4(m.m12, m.m23, m.m31, m.m41)))
        .push((false, times4(m.m13, m.m22, m.m31, m.m41)))
        .push((true, times4(m.m13, m.m21, m.m32, m.m41)))
        .push((false, times4(m.m11, m.m23, m.m32, m.m41)))
        .push((false, times4(m.m12, m.m21, m.m33, m.m41)))
        .push((true, times4(m.m11, m.m22, m.m33, m.m41)));
    assert(s1 + s2 + s3 + s4 =~= canon);
    let ts = seq![times4(m.m11, m.m23, m.m32, m.m41), times4(m.m11, m.m21, m.m33, m.m42), times4(m.m11, m.m22, m.m31, m.m43), times4(m.m12, m.m21, m.m33, m.m41), times4(m.m13, m.m21, m.m31, m.m42), times4(m.m11, m.m21, m.m32, m.m43), times4(m.m13, m.m22, m.m31, m.m41), times4(m.m11, m.m23, m.m31, m.m42), times4(m.m12, m.m21, m.m31, m.m43), times4(m.m12, m.m23, m.m31, m.m41), times4(m.m13, m.m21, m.m32, m.m41), times4(m.m11, m.m22, m.m33, m.m41)];
    reveal_with_fuel(cancelling_pairs, 13);
    let pairs = Seq::empty()
        .push((true, times4(m.m11, m.m23, m.m32, m.m41))).push((false, times4(m.m11, m.m23, m.m32, m.m41)))
        .push((true, times4(m.m11, m.m21, m.m33, m.m42))).push((false, times4(m.m11, m.m21, m.m33, m.m42)))
        .push((true, times4(m.m11, m.m22, m.m31, m.m43))).push((false, times4(m.m11, m.m22, m.m31, m.m43)))
        .push((true, times4(m.m12, m.m21, m.m33, m.m41))).push((false, times4(m.m12, m.m21, m.m33, m.m41)))
        .push((true, times4(m.m13, m.m21, m.m31, m.m42))).push((false, times4(m.m13, m.m21, m.m31, m.m42)))
        .push((true, times4(m.m11, m.m21, m.m32, m.m43))).push((false, times4(m.m11, m.m21, m.m32, m.m43)))
        .push((true, times4(m.m13, m.m22, m.m31, m.m41))).push((false, times4(m.m13, m.m22, m.m31, m.m41)))
        .push((true, times4(m.m11, m.m23, m.m31, m.m42))).push((false, times4(m.m11, m.m23, m.m31, m.m42)))
        .push((true, times4(m.m12, m.m21, m.m31, m.m43))).push((false, times4(m.m12, m.m21, m.m31, m.m43)))
        .push((true, times4(m.m12, m.m23, m.m31, m.m41))).push((false, times4(m.m12, m.m23, m.m31, m.m41)))
        .push((true, times4(m.m13, m.m21, m.m32, m.m41))).push((false, times4(m.m13, m.m21, m.m32, m.m41)))
        .push((true, times4(m.m11, m.m22, m.m33, m.m41))).push((false, times4(m.m11, m.m22, m.m33, m.m41)));
    assert(cancelling_pairs(ts) =~= pairs);
    assert(canon.to_multiset() =~= cancelling_pairs(ts).to_multiset());
    lemma_signed_sum_permutation(canon, cancelling_pairs(ts));
    lemma_cancelling_pairs(ts);
}

/// Row 4 of the adjugate times column 2 of `m`: zero.
#[verifier::spinoff_prover]
#[verifier::rlimit(40)]
proof fn lemma_adjugate_row4_col2<T: Add<Output = T> + Sub<Output = T> + Mul<Output = T> + Zero + One>(m: Matrix4<T>)
    requires
        commutative_ring::<T>(),
    ensures
        dot4(
            adjugate(m).m41, adjugate(m).m42, adjugate(m).m43, adjugate(m).m44,
            m.m12, m.m22, m.m32, m.m42,
        ) == T::spec_zero(),
{
    broadcast use group_to_multiset_ensures, group_multiset_axioms;

    let a = adjugate(m);
    let at = adjugate_terms(m);
    lemma_adjugate_m41_terms(m);
    lemma_signed_sum_times(at.m41, m.m12);
    let s1 = scaled_terms(at.m41, m.m12);
    lemma_adjugate_m42_terms(m);
    lemma_signed_sum_times(at.m42, m.m22);
    let s2 = scaled_terms(at.m42, m.m22);
    lemma_adjugate_m43_terms(m);
    lemma_signed_sum_times(at.m43, m.m32);
    let s3 = scaled_terms(at.m43, m.m32);
    lemma_adjugate_m44_terms(m);
    lemma_signed_sum_times(at.m44, m.m42);
    let s4 = scaled_terms(at.m44, m.m42);
    lemma_signed_sum_concat(s1, s2);
    lemma_signed_sum_concat(s1 + s2, s3);
    lemma_signed_sum_concat(s1 + s2 + s3, s4);
    lemma_times4_insert(m.m23, m.m32, m.m41, m.m12);
    lemma_times4_insert(m.m22, m.m33, m.m41, m.m12);
    lemma_times4_insert(m.m23, m.m31, m.m42, m.m12);
    lemma_times4_insert(m.m21, m.m33, m.m42, m.m12);
    lemma_times4_insert(m.m22, m.m31, m.m43, m.m12);
    lemma_times4_insert(m.m21, m.m32, m.m43, m.m12);
    lemma_times4_insert(m.m12, m.m33, m.m41, m.m22);
    lemma_times4_insert(m.m13, m.m32, m.m41, m.m22);
    lemma_times4_insert(m.m13, m.m31, m.m42, m.m22);
    lemma_times4_insert(m.m11, m.m33, m.m42, m.m22);
    lemma_times4_insert(m.m12, m.m31, m.m43, m.m22);
    lemma_times4_insert(m.m11, m.m32, m.m43, m.m22);
    lemma_times4_insert(m.m13, m.m22, m.m41, m.m32);
    lemma_times4_insert(m.m12, m.m23, m.m41, m.m32);
    lemma_times4_insert(m.m13, m.m21, m.m42, m.m32);
    lemma_times4_insert(m.m11, m.m23, m.m42, m.m32);
    lemma_times4_insert(m.m12, m.m21, m.m43, m.m32);
    lemma_times4_insert(m.m11, m.m22, m.m43, m.m32);
    let canon = Seq::empty()
        .push((true, times4(m.m12, m.m23, m.m32, m.m41)))
        .push((false, times4(m.m12, m.m22, m.m33, m.m41)))
        .push((false, times4(m.m12, m.m23, m.m31, m.m42)))
        .push((true, times4(m.m12, m.m21, m.m33, m.m42)))
        .push((true, times4(m.m12, m.m22, m.m31, m.m43)))
        .push((false, times4(m.m12, m.m21, m.m32, m.m43)))
        .push((true, times4(m.m12, m.m22, m.m33, m.m41)))
        .push((false, times4(m.m13, m.m22, m.m32, m.m41)))
        .push((true, times4(m.m13, m.m22, m.m31, m.m42)))
        .push((false, times4(m.m11, m.m22, m.m33, m.m42)))
        .push((false, times4(m.m12, m.m22, m.m31, m.m43)))
        .push((true, times4(m.m11, m.m22, m.m32, m.m43)))
        .push((true, times4(m.m13, m.m22, m.m32, m.m41)))
        .push((false, times4(m.m12, m.m23, m.m32, m.m41)))
        .push((false, times4(m.m13, m.m21, m.m32, m.m42)))
        .push((true, times4(m.m11, m.m23, m.m32, m.m42)))
        .push((true, times4(m.m12, m.m21, m.m32, m.m43)))
        .push((false, times4(m.m11, m.m22, m.m32, m.m43)))
        .push((true, times4(m.m12, m.m23, m.m31, m.m42)))
        .push((false, times4(m.m13, m.m22, m.m31, m.m42)))
        .push((true, times4(m.m13, m.m21, m.m32, m.m42)))
        .push((false, times4(m.m11, m.m23, m.m32, m.m42)))
        .push((false, times4(m.m12, m.m21, m.m33, m.m42)))
        .push((true, times4(m.m11, m.m22, m.m33, m.m42)));
    assert(s1 + s2 + s3 + s4 =~= canon);
    let ts = seq![times4(m.m12, m.m23, m.m32, m.m41), times4(m.m12, m.m21, m.m33, m.m42), times4(m.m12, m.m22, m.m31, m.m43), times4(m.m12, m.m22, m.m33, m.m41), times4(m.m13, m.m22, m.m31, m.m42), times4(m.m11, m.m22, m.m32, m.m43), times4(m.m13, m.m22, m.m32, m.m41), times4(m.m11, m.m23, m.m32, m.m42), times4(m.m12, m.m21, m.m32, m.m43), times4(m.m12, m.m23, m.m31, m.m42), times4(m.m13, m.m21, m.m32, m.m42), times4(m.m11, m.m22, m.m33, m.m42)];
    reveal_with_fuel(cancelling_pairs, 13);
    let pairs = Seq::empty()
        .push((true, times4(m.m12, m.m23, m.m32, m.m41))).push((false, times4(m.m12, m.m23, m.m32, m.m41)))
        .push((true, times4(m.m12, m.m21, m.m33, m.m42))).push((false, times4(m.m12, m.m21, m.m33, m.m42)))
        .push((true, times4(m.m12, m.m22, m.m31, m.m43))).push((false, times4(m.m12, m.m22, m.m31, m.m43)))
        .push((true, times4(m.m12, m.m22, m.m33, m.m41))).push((false, times4(m.m12, m.m22, m.m33, m.m41)))
        .push((true, times4(m.m13, m.m22, m.m31, m.m42))).push((false, times4(m.m13, m.m22, m.m31, m.m42)))
        .push((true, times4(m.m11, m.m22, m.m32, m.m43))).push((false, times4(m.m11, m.m22, m.m32, m.m43)))
        .push((true, times4(m.m13, m.m22, m.m32, m.m41))).push((false, times4(m.m13, m.m22, m.m32, m.m41)))
        .push((true, times4(m.m11, m.m23, m.m32, m.m42))).push((false, times4(m.m11, m.m23, m.m32, m.m42)))
        .push((true, times4(m.m12, m.m21, m.m32, m.m43))).push((false, times4(m.m12, m.m21, m.m32, m.m43)))
        .push((true, times4(m.m12, m.m23, m.m31, m.m42))).push((false, times4(m.m12, m.m23, m.m31, m.m42)))
        .push((true, times4(m.m13, m.m21, m.m32, m.m42))).push((false, times4(m.m13, m.m21, m.m32, m.m42)))
        .push((true, times4(m.m11, m.m22, m.m33, m.m42))).push((false, times4(m.m11, m.m22, m.m33, m.m42)));
    assert(cancelling_pairs(ts) =~= pairs);
    assert(canon.to_multiset() =~= cancelling_pairs(ts).to_multiset());
    lemma_signed_sum_permutation(canon, cancelling_pairs(ts));
    lemma_cancelling_pairs(ts);
}

/// Row 4 of the adjugate times column 3 of `m`: zero.
#[verifier::spinoff_prover]
#[verifier::rlimit(40)]
proof fn lemma_adjugate_row4_col3<T: Add<Output = T> + Sub<Output = T> + Mul<Output = T> + Zero + One>(m: Matrix4<T>)
    requires
        commutative_ring::<T>(),
    ensures
        dot4(
            adjugate(m).m41, adjugate(m).m42, adjugate(m).m43, adjugate(m).m44,
            m.m13, m.m23, m.m33, m.m43,
        ) == T::spec_zero(),
{
    broadcast use group_to_multiset_ensures, group_multiset_axioms;

    let a = adjugate(m);
    let at = adjugate_terms(m);
    lemma_adjugate_m41_terms(m);
    lemma_signed_sum_times(at.m41, m.m13);
    let s1 = scaled_terms(at.m41, m.m13);
    lemma_adjugate_m42_terms(m);
    lemma_signed_sum_times(at.m42, m.m23);
    let s2 = scaled_terms(at.m42, m.m23);
    lemma_adjugate_m43_terms(m);
    lemma_signed_sum_times(at.m43, m.m33);
    let s3 = scaled_terms(at.m43, m.m33);
    lemma_adjugate_m44_terms(m);
    lemma_signed_sum_times(at.m44, m.m43);
    let s4 = scaled_terms(at.m44, m.m43);
    lemma_signed_sum_concat(s1, s2);
    lemma_signed_sum_concat(s1 + s2, s3);
    lemma_signed_sum_concat(s1 + s2 + s3, s4);
    lemma_times4_insert(m.m23, m.m32, m.m41, m.m13);
    lemma_times4_insert(m.m22, m.m33, m.m41, m.m13);
    lemma_times4_insert(m.m23, m.m31, m.m42, m.m13);
    lemma_times4_insert(m.m21, m.m33, m.m42, m.m13);
    lemma_times4_insert(m.m22, m.m31, m.m43, m.m13);
    lemma_times4_insert(m.m21, m.m32, m.m43, m.m13);
    lemma_times4_insert(m.m12, m.m33, m.m41, m.m23);
    lemma_times4_insert(m.m13, m.m32, m.m41, m.m23);
    lemma_times4_insert(m.m13, m.m31, m.m42, m.m23);
    lemma_times4_insert(m.m11, m.m33, m.m42, m.m23);
    lemma_times4_insert(m.m12, m.m31, m.m43, m.m23);
    lemma_times4_insert(m.m11, m.m32, m.m43, m.m23);
    lemma_times4_insert(m.m13, m.m22, m.m41, m.m33);
    lemma_times4_insert(m.m12, m.m23, m.m41, m.m33);
    lemma_times4_insert(m.m13, m.m21, m.m42, m.m33);
    lemma_times4_insert(m.m11, m.m23, m.m42, m.m33);
    lemma_times4_insert(m.m12, m.m21, m.m43, m.m33);
    lemma_times4_insert(m.m11, m.m22, m.m43, m.m33);
    let canon = Seq::empty()
        .push((true, times4(m.m13, m.m23, m.m32, m.m41)))
        .push((false, times4(m.m13, m.m22, m.m33, m.m41)))
        .push((false, times4(m.m13, m.m23, m.m31, m.m42)))
        .push((true, times4(m.m13, m.m21, m.m33, m.m42)))
        .push((true, times4(m.m13, m.m22, m.m31, m.m43)))
        .push((false, times4(m.m13, m.m21, m.m32, m.m43)))
        .push((true, times4(m.m12, m.m23, m.m33, m.m41)))
        .push((false, times4(m.m13, m.m23, m.m32, m.m41)))
        .push((true, times4(m.m13, m.m23, m.m31, m.m42)))
        .push((false, times4(m.m11, m.m23, m.m33, m.m42)))
        .push((false, times4(m.m12, m.m23, m.m31, m.m43)))
        .push((true, times4(m.m11, m.m23, m.m32, m.m43)))
        .push((true, times4(m.m13, m.m22, m.m33, m.m41)))
        .push((false, times4(m.m12, m.m23, m.m33, m.m41)))
        .push((false, times4(m.m13, m.m21, m.m33, m.m42)))
        .push((true, times4(m.m11, m.m23, m.m33, m.m42)))
        .push((true, times4(m.m12, m.m21, m.m33, m.m43)))
        .push((false, times4(m.m11, m.m22, m.m33, m.m43)))
        .push((true, times4(m.m12, m.m23, m.m31, m.m43)))
        .push((false, times4(m.m13, m.m22, m.m31, m.m43)))
        .push((true, times4(m.m13, m.m21, m.m32, m.m43)))
        .push((false, times4(m.m11, m.m23, m.m32, m.m43)))
        .push((false, times4(m.m12, m.m21, m.m33, m.m43)))
        .push((true, times4(m.m11, m.m22, m.m33, m.m43)));
    assert(s1 + s2 + s3 + s4 =~= canon);
    let ts = seq![times4(m.m13, m.m23, m.m32, m.m41), times4(m.m13, m.m21, m.m33, m.m42), times4(m.m13, m.m22, m.m31, m.m43), times4(m.m12, m.m23, m.m33, m.m41), times4(m.m13, m.m23, m.m31, m.m42), times4(m.m11, m.m23, m.m32, m.m43), times4(m.m13, m.m22, m.m33, m.m41), times4(m.m11, m.m23, m.m33, m.m42), times4(m.m12, m.m21, m.m33, m.m43), times4(m.m12, m.m23, m.m31, m.m43), times4(m.m13, m.m21, m.m32, m.m43), times4(m.m11, m.m22, m.m33, m.m43)];
    reveal_with_fuel(cancelling_pairs, 13);
    let pairs = Seq::empty()
        .push((true, times4(m.m13, m.m23, m.m32, m.m41))).push((false, times4(m.m13, m.m23, m.m32, m.m41)))
        .push((true, times4(m.m13, m.m21, m.m33, m.m42))).push((false, times4(m.m13, m.m21, m.m33, m.m42)))
        .push((true, times4(m.m13, m.m22, m.m31, m.m43))).push((false, times4(m.m13, m.m22, m.m31, m.m43)))
        .push((true, times4(m.m12, m.m23, m.m33, m.m41))).push((false, times4(m.m12, m.m23, m.m33, m.m41)))
        .push((true, times4(m.m13, m.m23, m.m31, m.m42))).push((false, times4(m.m13, m.m23, m.m31, m.m42)))
        .push((true, times4(m.m11, m.m23, m.m32, m.m43))).push((false, times4(m.m11, m.m23, m.m32, m.m43)))
        .push((true, times4(m.m13, m.m22, m.m33, m.m41))).push((false, times4(m.m13, m.m22, m.m33, m.m41)))
        .push((true, times4(m.m11, m.m23, m.m33, m.m42))).push((false, times4(m.m11, m.m23, m.m33, m.m42)))
        .push((true, times4(m.m12, m.m21, m.m33, m.m43))).push((false, times4(m.m12, m.m21, m.m33, m.m43)))
        .push((true, times4(m.m12, m.m23, m.m31, m.m43))).push((false, times4(m.m12, m.m23, m.m31, m.m43)))
        .push((true, times4(m.m13, m.m21, m.m32, m.m43))).push((false, times4(m.m13, m.m21, m.m32, m.m43)))
        .push((true, times4(m.m11, m.m22, m.m33, m.m43))).push((false, times4(m.m11, m.m22, m.m33, m.m43)));
    assert(cancelling_pairs(ts) =~= pairs);
    assert(canon.to_multiset() =~= cancelling_pairs(ts).to_multiset());
    lemma_signed_sum_permutation(canon, cancelling_pairs(ts));
    lemma_cancelling_pairs(ts);
}

/// Row 4 of the adjugate times column 4 of `m`: the determinant.
#[verifier::spinoff_prover]
#[verifier::rlimit(40)]
proof fn lemma_adjugate_row4_col4<T: Add<Output = T> + Sub<Output = T> + Mul<Output = T> + Zero + One>(m: Matrix4<T>)
    requires
        commutative_ring::<T>(),
    ensures
        dot4(
            adjugate(m).m41, adjugate(m).m42, adjugate(m).m43, adjugate(m).m44,
            m.m14, m.m24, m.m34, m.m44,
        ) == determinant(m),
{
    broadcast use group_to_multiset_ensures, group_multiset_axioms;

    let a = adjugate(m);
    let at = adjugate_terms(m);
    lemma_adjugate_m41_terms(m);
    lemma_signed_sum_times(at.m41, m.m14);
    let s1 = scaled_terms(at.m41, m.m14);
    lemma_adjugate_m42_terms(m);
    lemma_signed_sum_times(at.m42, m.m24);
    let s2 = scaled_terms(at.m42, m.m24);
    lemma_adjugate_m43_terms(m);
    lemma_signed_sum_times(at.m43, m.m34);
    let s3 = scaled_terms(at.m43, m.m34);
    lemma_adjugate_m44_terms(m);
    lemma_signed_sum_times(at.m44, m.m44);
    let s4 = scaled_terms(at.m44, m.m44);
    lemma_signed_sum_concat(s1, s2);
    lemma_signed_sum_concat(s1 + s2, s3);
    lemma_signed_sum_concat(s1 + s2 + s3, s4);
    lemma_times4_insert(m.m23, m.m32, m.m41, m.m14);
    lemma_times4_insert(m.m22, m.m33, m.m41, m.m14);
    lemma_times4_insert(m.m23, m.m31, m.m42, m.m14);
    lemma_times4_insert(m.m21, m.m33, m.m42, m.m14);
    lemma_times4_insert(m.m22, m.m31, m.m43, m.m14);
    lemma_times4_insert(m.m21, m.m32, m.m43, m.m14);
    lemma_times4_insert(m.m12, m.m33, m.m41, m.m24);
    lemma_times4_insert(m.m13, m.m32, m.m41, m.m24);
    lemma_times4_insert(m.m13, m.m31, m.m42, m.m24);
    lemma_times4_insert(m.m11, m.m33, m.m42, m.m24);
    lemma_times4_insert(m.m12, m.m31, m.m43, m.m24);
    lemma_times4_insert(m.m11, m.m32, m.m43, m.m24);
    lemma_times4_insert(m.m13, m.m22, m.m41, m.m34);
    lemma_times4_insert(m.m12, m.m23, m.m41, m.m34);
    lemma_times4_insert(m.m13, m.m21, m.m42, m.m34);
    lemma_times4_insert(m.m11, m.m23, m.m42, m.m34);
    lemma_times4_insert(m.m12, m.m21, m.m43, m.m34);
    lemma_times4_insert(m.m11, m.m22, m.m43, m.m34);
    let canon = Seq::empty()
        .push((true, times4(m.m14, m.m23, m.m32, m.m41)))
        .push((false, times4(m.m14, m.m22, m.m33, m.m41)))
        .push((false, times4(m.m14, m.m23, m.m31, m.m42)))
        .push((true, times4(m.m14, m.m21, m.m33, m.m42)))
        .push((true, times4(m.m14, m.m22, m.m31, m.m43)))
        .push((false, times4(m.m14, m.m21, m.m32, m.m43)))
        .push((true, times4(m.m12, m.m24, m.m33, m.m41)))
        .push((false, times4(m.m13, m.m24, m.m32, m.m41)))
        .push((true, times4(m.m13, m.m24, m.m31, m.m42)))
        .push((false, times4(m.m11, m.m24, m.m33, m.m42)))
        .push((false, times4(m.m12, m.m24, m.m31, m.m43)))
        .push((true, times4(m.m11, m.m24, m.m32, m.m43)))
        .push((true, times4(m.m13, m.m22, m.m34, m.m41)))
        .push((false, times4(m.m12, m.m23, m.m34, m.m41)))
        .push((false, times4(m.m13, m.m21, m.m34, m.m42)))
        .push((true, times4(m.m11, m.m23, m.m34, m.m42)))
        .push((true, times4(m.m12, m.m21, m.m34, m.m43)))
        .push((false, times4(m.m11, m.m22, m.m34, m.m43)))
        .push((true, times4(m.m12, m.m23, m.m31, m.m44)))
        .push((false, times4(m.m13, m.m22, m.m31, m.m44)))
        .push((true, times4(m.m13, m.m21, m.m32, m.m44)))
        .push((false, times4(m.m11, m.m23, m.m32, m.m44)))
        .push((false, times4(m.m12, m.m21, m.m33, m.m44)))
        .push((true, times4(m.m11, m.m22, m.m33, m.m44)));
    assert(s1 + s2 + s3 + s4 =~= canon);
    lemma_determinant_terms(m);
    assert(canon.to_multiset() =~= determinant_terms(m).to_multiset());
    lemma_signed_sum_permutation(canon, determinant_terms(m));
}

/// Row 1 of `m` times column 1 of the adjugate: the determinant.
#[verifier::spinoff_prover]
#[verifier::rlimit(40)]
proof fn lemma_row1_adjugate_col1<T: Add<Output = T> + Sub<Output = T> + Mul<Output = T> + Zero + One>(m: Matrix4<T>)
    requires
        commutative_ring::<T>(),
    ensures
        dot4(
            m.m11, m.m12, m.m13, m.m14,
            adjugate(m).m11, adjugate(m).m21, adjugate(m).m31, adjugate(m).m41,
        ) == determinant(m),
{
    broadcast use group_to_multiset_ensures, group_multiset_axioms;

    let a = adjugate(m);
    let at = adjugate_terms(m);
    lemma_adjugate_m11_terms(m);
    lemma_times_commutes(m.m11, a.m11);
    lemma_signed_sum_times(at.m11, m.m11);
    let s1 = scaled_terms(at.m11, m.m11);
    lemma_adjugate_m21_terms(m);
    lemma_times_commutes(m.m12, a.m21);
    lemma_signed_sum_times(at.m21, m.m12);
    let s2 = scaled_terms(at.m21, m.m12);
    lemma_adjugate_m31_terms(m);
    lemma_times_commutes(m.m13, a.m31);
    lemma_signed_sum_times(at.m31, m.m13);
    let s3 = scaled_terms(at.m31, m.m13);
    lemma_adjugate_m41_terms(m);
    lemma_times_commutes(m.m14, a.m41);
    lemma_signed_sum_times(at.m41, m.m14);
    let s4 = scaled_terms(at.m41, m.m14);
    lemma_signed_sum_concat(s1, s2);
    lemma_signed_sum_concat(s1 + s2, s3);
    lemma_signed_sum_concat(s1 + s2 + s3, s4);
    lemma_times4_insert(m.m23, m.m34, m.m42, m.m11);
    lemma_times4_insert(m.m24, m.m33, m.m42, m.m11);
    lemma_times4_insert(m.m24, m.m32, m.m43, m.m11);
    lemma_times4_insert(m.m22, m.m34, m.m43, m.m11);
    lemma_times4_insert(m.m23, m.m32, m.m44, m.m11);
    lemma_times4_insert(m.m22, m.m33, m.m44, m.m11);
    lemma_times4_insert(m.m24, m.m33, m.m41, m.m12);
    lemma_times4_insert(m.m23, m.m34, m.m41, m.m12);
    lemma_times4_insert(m.m24, m.m31, m.m43, m.m12);
    lemma_times4_insert(m.m21, m.m34, m.m43, m.m12);
    lemma_times4_insert(m.m23, m.m31, m.m44, m.m12);
    lemma_times4_insert(m.m21, m.m33, m.m44, m.m12);
    lemma_times4_insert(m.m22, m.m34, m.m41, m.m13);
    lemma_times4_insert(m.m24, m.m32, m.m41, m.m13);
    lemma_times4_insert(m.m24, m.m31, m.m42, m.m13);
    lemma_times4_insert(m.m21, m.m34, m.m42, m.m13);
    lemma_times4_insert(m.m22, m.m31, m.m44, m.m13);
    lemma_times4_insert(m.m21, m.m32, m.m44, m.m13);
    lemma_times4_insert(m.m23, m.m32, m.m41, m.m14);
    lemma_times4_insert(m.m22, m.m33, m.m41, m.m14);
    lemma_times4_insert(m.m23, m.m31, m.m42, m.m14);
    lemma_times4_insert(m.m21, m.m33, m.m42, m.m14);
    lemma_times4_insert(m.m22, m.m31, m.m43, m.m14);
    lemma_times4_insert(m.m21, m.m32, m.m43, m.m14);
    let canon = Seq::empty()
        .push((true, times4(m.m11, m.m23, m.m34, m.m42)))
        .push((false, times4(m.m11, m.m24, m.m33, m.m42)))
        .push((true, times4(m.m11, m.m24, m.m32, m.m43)))
        .push((false, times4(m.m11, m.m22, m.m34, m.m43)))
        .push((false, times4(m.m11, m.m23, m.m32, m.m44)))
        .push((true, times4(m.m11, m.m22, m.m33, m.m44)))
        .push((true, times4(m.m12, m.m24, m.m33, m.m41)))
        .push((false, times4(m.m12, m.m23, m.m34, m.m41)))
        .push((false, times4(m.m12, m.m24, m.m31, m.m43)))
        .push((true, times4(m.m12, m.m21, m.m34, m.m43)))
        .push((true, times4(m.m12, m.m23, m.m31, m.m44)))
        .push((false, times4(m.m12, m.m21, m.m33, m.m44)))
        .push((true, times4(m.m13, m.m22, m.m34, m.m41)))
        .push((false, times4(m.m13, m.m24, m.m32, m.m41)))
        .push((true, times4(m.m13, m.m24, m.m31, m.m42)))
        .push((false, times4(m.m13, m.m21, m.m34, m.m42)))
        .push((false, times4(m.m13, m.m22, m.m31, m.m44)))
        .push((true, times4(m.m13, m.m21, m.m32, m.m44)))
        .push((true, times4(m.m14, m.m23, m.m32, m.m41)))
        .push((false, times4(m.m14, m.m22, m.m33, m.m41)))
        .push((false, times4(m.m14, m.m23, m.m31, m.m42)))
        .push((true, times4(m.m14, m.m21, m.m33, m.m42)))
        .push((true, times4(m.m14, m.m22, m.m31, m.m43)))
        .push((false, times4(m.m14, m.m21, m.m32, m.m43)));
    assert(s1 + s2 + s3 + s4 =~= canon);
    lemma_determinant_terms(m);
    assert(canon.to_multiset() =~= determinant_terms(m).to_multiset());
    lemma_signed_sum_permutation(canon, determinant_terms(m));
}

/// Row 1 of `m` times column 2 of the adjugate: zero.
#[verifier::spinoff_prover]
#[verifier::rlimit(40)]
proof fn lemma_row1_adjugate_col2<T: Add<Output = T> + Sub<Output = T> + Mul<Output = T> + Zero + One>(m: Matrix4<T>)
    requires
        commutative_ring::<T>(),
    ensures
        dot4(
            m.m11, m.m12, m.m13, m.m14,
            adjugate(m).m12, adjugate(m).m22, adjugate(m).m32, adjugate(m).m42,
        ) == T::spec_zero(),
{
    broadcast use group_to_multiset_ensures, group_multiset_axioms;

    let a = adjugate(m);
    let at = adjugate_terms(m);
    lemma_adjugate_m12_terms(m);
    lemma_times_commutes(m.m11, a.m12);
    lemma_signed_sum_times(at.m12, m.m11);
    let s1 = scaled_terms(at.m12, m.m11);
    lemma_adjugate_m22_terms(m);
    lemma_times_commutes(m.m12, a.m22);
    lemma_signed_sum_times(at.m22, m.m12);
    let s2 = scaled_terms(at.m22, m.m12);
    lemma_adjugate_m32_terms(m);
    lemma_times_commutes(m.m13, a.m32);
    lemma_signed_sum_times(at.m32, m.m13);
    let s3 = scaled_terms(at.m32, m.m13);
    lemma_adjugate_m42_terms(m);
    lemma_times_commutes(m.m14, a.m42);
    lemma_signed_sum_times(at.m42, m.m14);
    let s4 = scaled_terms(at.m42, m.m14);
    lemma_signed_sum_concat(s1, s2);
    lemma_signed_sum_concat(s1 + s2, s3);
    lemma_signed_sum_concat(s1 + s2 + s3, s4);
    lemma_times4_insert(m.m14, m.m33, m.m42, m.m11);
    lemma_times4_insert(m.m13, m.m34, m.m42, m.m11);
    lemma_times4_insert(m.m14, m.m32, m.m43, m.m11);
    lemma_times4_insert(m.m12, m.m34, m.m43, m.m11);
    lemma_times4_insert(m.m13, m.m32, m.m44, m.m11);
    lemma_times4_insert(m.m12, m.m33, m.m44, m.m11);
    lemma_times4_insert(m.m13, m.m34, m.m41, m.m12);
    lemma_times4_insert(m.m14, m.m33, m.m41, m.m12);
    lemma_times4_insert(m.m14, m.m31, m.m43, m.m12);
    lemma_times4_insert(m.m11, m.m34, m.m43, m.m12);
    lemma_times4_insert(m.m13, m.m31, m.m44, m.m12);
    lemma_times4_insert(m.m11, m.m33, m.m44, m.m12);
    lemma_times4_insert(m.m14, m.m32, m.m41, m.m13);
    lemma_times4_insert(m.m12, m.m34, m.m41, m.m13);
    lemma_times4_insert(m.m14, m.m31, m.m42, m.m13);
    lemma_times4_insert(m.m11, m.m34, m.m42, m.m13);
    lemma_times4_insert(m.m12, m.m31, m.m44, m.m13);
    lemma_times4_insert(m.m11, m.m32, m.m44, m.m13);
    lemma_times4_insert(m.m12, m.m33, m.m41, m.m14);
    lemma_times4_insert(m.m13, m.m32, m.m41, m.m14);
    lemma_times4_insert(m.m13, m.m31, m.m42, m.m14);
    lemma_times4_insert(m.m11, m.m33, m.m42, m.m14);
    lemma_times4_insert(m.m12, m.m31, m.m43, m.m14);
    lemma_times4_insert(m.m11, m.m32, m.m43, m.m14);
    let canon = Seq::empty()
        .push((true, times4(m.m11, m.m14, m.m33, m.m42)))
        .push((false, times4(m.m11, m.m13, m.m34, m.m42)))
        .push((false, times4(m.m11, m.m14, m.m32, m.m43)))
        .push((true, times4(m.m11, m.m12, m.m34, m.m43)))
        .push((true, times4(m.m11, m.m13, m.m32, m.m44)))
        .push((false, times4(m.m11, m.m12, m.m33, m.m44)))
        .push((true, times4(m.m12, m.m13, m.m34, m.m41)))
        .push((false, times4(m.m12, m.m14, m.m33, m.m41)))
        .push((true, times4(m.m12, m.m14, m.m31, m.m43)))
        .push((false, times4(m.m11, m.m12, m.m34, m.m43)))
        .push((false, times4(m.m12, m.m13, m.m31, m.m44)))
        .push((true, times4(m.m11, m.m12, m.m33, m.m44)))
        .push((true, times4(m.m13, m.m14, m.m32, m.m41)))
        .push((false, times4(m.m12, m.m13, m.m34, m.m41)))
        .push((false, times4(m.m13, m.m14, m.m31, m.m42)))
        .push((true, times4(m.m11, m.m13, m.m34, m.m42)))
        .push((true, times4(m.m12, m.m13, m.m31, m.m44)))
        .push((false, times4(m.m11, m.m13, m.m32, m.m44)))
        .push((true, times4(m.m12, m.m14, m.m33, m.m41)))
        .push((false, times4(m.m13, m.m14, m.m32, m.m41)))
        .push((true, times4(m.m13, m.m14, m.m31, m.m42)))
        .push((false, times4(m.m11, m.m14, m.m33, m.m42)))
        .push((false, times4(m.m12, m.m14, m.m31, m.m43)))
        .push((true, times4(m.m11, m.m14, m.m32, m.m43)));
    assert(s1 + s2 + s3 + s4 =~= canon);
    let ts = seq![times4(m.m11, m.m14, m.m33, m.m42), times4(m.m11, m.m12, m.m34, m.m43), times4(m.m11, m.m13, m.m32, m.m44), times4(m.m12, m.m13, m.m34, m.m41), times4(m.m12, m.m14, m.m31, m.m43), times4(m.m11, m.m12, m.m33, m.m44), times4(m.m13, m.m14, m.m32, m.m41), times4(m.m11, m.m13, m.m34, m.m42), times4(m.m12, m.m13, m.m31, m.m44), times4(m.m12, m.m14, m.m33, m.m41), times4(m.m13, m.m14, m.m31, m.m42), times4(m.m11, m.m14, m.m32, m.m43)];
    reveal_with_fuel(cancelling_pairs, 13);
    let pairs = Seq::empty()
        .push((true, times4(m.m11, m.m14, m.m33, m.m42))).push((false, times4(m.m11, m.m14, m.m33, m.m42)))
        .push((true, times4(m.m11, m.m12, m.m34, m.m43))).push((false, times4(m.m11, m.m12, m.m34, m.m43)))
        .push((true, times4(m.m11, m.m13, m.m32, m.m44))).push((false, times4(m.m11, m.m13, m.m32, m.m44)))
        .push((true, times4(m.m12, m.m13, m.m34, m.m41))).push((false, times4(m.m12, m.m13, m.m34, m.m41)))
        .push((true, times4(m.m12, m.m14, m.m31, m.m43))).push((false, times4(m.m12, m.m14, m.m31, m.m43)))
        .push((true, times4(m.m11, m.m12, m.m33, m.m44))).push((false, times4(m.m11, m.m12, m.m33, m.m44)))
        .push((true, times4(m.m13, m.m14, m.m32, m.m41))).push((false, times4(m.m13, m.m14, m.m32, m.m41)))
        .push((true, times4(m.m11, m.m13, m.m34, m.m42))).push((false, times4(m.m11, m.m13, m.m34, m.m42)))
        .push((true, times4(m.m12, m.m13, m.m31, m.m44))).push((false, times4(m.m12, m.m13, m.m31, m.m44)))
        .push((true, times4(m.m12, m.m14, m.m33, m.m41))).push((false, times4(m.m12, m.m14, m.m33, m.m41)))
        .push((true, times4(m.m13, m.m14, m.m31, m.m42))).push((false, times4(m.m13, m.m14, m.m31, m.m42)))
        .push((true, times4(m.m11, m.m14, m.m32, m.m43))).push((false, times4(m.m11, m.m14, m.m32, m.m43)));
    assert(cancelling_pairs(ts) =~= pairs);
    assert(canon.to_multiset() =~= cancelling_pairs(ts).to_multiset());
    lemma_signed_sum_permutation(canon, cancelling_pairs(ts));
    lemma_cancelling_pairs(ts);
}

/// Row 1 of `m` times column 3 of the adjugate: zero.
#[verifier::spinoff_prover]
#[verifier::rlimit(40)]
proof fn lemma_row1_adjugate_col3<T: Add<Output = T> + Sub<Output = T> + Mul<Output = T> + Zero + One>(m: Matrix4<T>)
    requires
        commutative_ring::<T>(),
    ensures
        dot4(
            m.m11, m.m12, m.m13, m.m14,
            adjugate(m).m13, adjugate(m).m23, adjugate(m).m33, adjugate(m).m43,
        ) == T::spec_zero(),
{
    broadcast use group_to_multiset_ensures, group_multiset_axioms;

    let a = adjugate(m);
    let at = adjugate_terms(m);
    lemma_adjugate_m13_terms(m);
    lemma_times_commutes(m.m11, a.m13);
    lemma_signed_sum_times(at.m13, m.m11);
    let s1 = scaled_terms(at.m13, m.m11);
    lemma_adjugate_m23_terms(m);
    lemma_times_commutes(m.m12, a.m23);
    lemma_signed_sum_times(at.m23, m.m12);
    let s2 = scaled_terms(at.m23, m.m12);
    lemma_adjugate_m33_terms(m);
    lemma_times_commutes(m.m13, a.m33);
    lemma_signed_sum_times(at.m33, m.m13);
    let s3 = scaled_terms(at.m33, m.m13);
    lemma_adjugate_m43_terms(m);
    lemma_times_commutes(m.m14, a.m43);
    lemma_signed_sum_times(at.m43, m.m14);
    let s4 = scaled_terms(at.m43, m.m14);
    lemma_signed_sum_concat(s1, s2);
    lemma_signed_sum_concat(s1 + s2, s3);
    lemma_signed_sum_concat(s1 + s2 + s3, s4);
    lemma_times4_insert(m.m13, m.m24, m.m42, m.m11);
    lemma_times4_insert(m.m14, m.m23, m.m42, m.m11);
    lemma_times4_insert(m.m14, m.m22, m.m43, m.m11);
    lemma_times4_insert(m.m12, m.m24, m.m43, m.m11);
    lemma_times4_insert(m.m13, m.m22, m.m44, m.m11);
    lemma_times4_insert(m.m12, m.m23, m.m44, m.m11);
    lemma_times4_insert(m.m14, m.m23, m.m41, m.m12);
    lemma_times4_insert(m.m13, m.m24, m.m41, m.m12);
    lemma_times4_insert(m.m14, m.m21, m.m43, m.m12);
    lemma_times4_insert(m.m11, m.m24, m.m43, m.m12);
    lemma_times4_insert(m.m13, m.m21, m.m44, m.m12);
    lemma_times4_insert(m.m11, m.m23, m.m44, m.m12);
    lemma_times4_insert(m.m12, m.m24, m.m41, m.m13);
    lemma_times4_insert(m.m14, m.m22, m.m41, m.m13);
    lemma_times4_insert(m.m14, m.m21, m.m42, m.m13);
    lemma_times4_insert(m.m11, m.m24, m.m42, m.m13);
    lemma_times4_insert(m.m12, m.m21, m.m44, m.m13);
    lemma_times4_insert(m.m11, m.m22, m.m44, m.m13);
    lemma_times4_insert(m.m13, m.m22, m.m41, m.m14);
    lemma_times4_insert(m.m12, m.m23, m.m41, m.m14);
    lemma_times4_insert(m.m13, m.m21, m.m42, m.m14);
    lemma_times4_insert(m.m11, m.m23, m.m42, m.m14);
    lemma_times4_insert(m.m12, m.m21, m.m43, m.m14);
    lemma_times4_insert(m.m11, m.m22, m.m43, m.m14);
    let canon = Seq::empty()
        .push((true, times4(m.m11, m.m13, m.m24, m.m42)))
        .push((false, times4(m.m11, m.m14, m.m23, m.m42)))
        .push((true, times4(m.m11, m.m14, m.m22, m.m43)))
        .push((false, times4(m.m11, m.m12, m.m24, m.m43)))
        .push((false, times4(m.m11, m.m13, m.m22, m.m44)))
        .push((true, times4(m.m11, m.m12, m.m23, m.m44)))
        .push((true, times4(m.m12, m.m14, m.m23, m.m41)))
        .push((false, times4(m.m12, m.m13, m.m24, m.m41)))
        .push((false, times4(m.m12, m.m14, m.m21, m.m43)))
        .push((true, times4(m.m11, m.m12, m.m24, m.m43)))
        .push((true, times4(m.m12, m.m13, m.m21, m.m44)))
        .push((false, times4(m.m11, m.m12, m.m23, m.m44)))
        .push((true, times4(m.m12, m.m13, m.m24, m.m41)))
        .push((false, times4(m.m13, m.m14, m.m22, m.m41)))
        .push((true, times4(m.m13, m.m14, m.m21, m.m42)))
        .push((false, times4(m.m11, m.m13, m.m24, m.m42)))
        .push((false, times4(m.m12, m.m13, m.m21, m.m44)))
        .push((true, times4(m.m11, m.m13, m.m22, m.m44)))
        .push((true, times4(m.m13, m.m14, m.m22, m.m41)))
        .push((false, times4(m.m12, m.m14, m.m23, m.m41)))
        .push((false, times4(m.m13, m.m14, m.m21, m.m42)))
        .push((true, times4(m.m11, m.m14, m.m23, m.m42)))
        .push((true, times4(m.m12, m.m14, m.m21, m.m43)))
        .push((false, times4(m.m11, m.m14, m.m22, m.m43)));
    assert(s1 + s2 + s3 + s4 =~= canon);
    let ts = seq![times4(m.m11, m.m13, m.m24, m.m42), times4(m.m11, m.m14, m.m22, m.m43), times4(m.m11, m.m12, m.m23, m.m44), times4(m.m12, m.m14, m.m23, m.m41), times4(m.m11, m.m12, m.m24, m.m43), times4(m.m12, m.m13, m.m21, m.m44), times4(m.m12, m.m13, m.m24, m.m41), times4(m.m13, m.m14, m.m21, m.m42), times4(m.m11, m.m13, m.m22, m.m44), times4(m.m13, m.m14, m.m22, m.m41), times4(m.m11, m.m14, m.m23, m.m42), times4(m.m12, m.m14, m.m21, m.m43)];
    reveal_with_fuel(cancelling_pairs, 13);
    let pairs = Seq::empty()
        .push((true, times4(m.m11, m.m13, m.m24, m.m42))).push((false, times4(m.m11, m.m13, m.m24, m.m42)))
        .push((true, times4(m.m11, m.m14, m.m22, m.m43))).push((false, times4(m.m11, m.m14, m.m22, m.m43)))
        .push((true, times4(m.m11, m.m12, m.m23, m.m44))).push((false, times4(m.m11, m.m12, m.m23, m.m44)))
        .push((true, times4(m.m12, m.m14, m.m23, m.m41))).push((false, times4(m.m12, m.m14, m.m23, m.m41)))
        .push((true, times4(m.m11, m.m12, m.m24, m.m43))).push((false, times4(m.m11, m.m12, m.m24, m.m43)))
        .push((true, times4(m.m12, m.m13, m.m21, m.m44))).push((false, times4(m.m12, m.m13, m.m21, m.m44)))
        .push((true, times4(m.m12, m.m13, m.m24, m.m41))).push((false, times4(m.m12, m.m13, m.m24, m.m41)))
        .push((true, times4(m.m13, m.m14, m.m21, m.m42))).push((false, times4(m.m13, m.m14, m.m21, m.m42)))
        .push((true, times4(m.m11, m.m13, m.m22, m.m44))).push((false, times4(m.m11, m.m13, m.m22, m.m44)))
        .push((true, times4(m.m13, m.m14, m.m22, m.m41))).push((false, times4(m.m13, m.m14, m.m22, m.m41)))
        .push((true, times4(m.m11, m.m14, m.m23, m.m42))).push((false, times4(m.m11, m.m14, m.m23, m.m42)))
        .push((true, times4(m.m12, m.m14, m.m21, m.m43))).push((false, times4(m.m12, m.m14, m.m21, m.m43)));
    assert(cancelling_pairs(ts) =~= pairs);
    assert(canon.to_multiset() =~= cancelling_pairs(ts).to_multiset());
    lemma_signed_sum_permutation(canon, cancelling_pairs(ts));
    lemma_cancelling_pairs(ts);
}

/// Row 1 of `m` times column 4 of the adjugate: zero.
#[verifier::spinoff_prover]
#[verifier::rlimit(40)]
proof fn lemma_row1_adjugate_col4<T: Add<Output = T> + Sub<Output = T> + Mul<Output = T> + Zero + One>(m: Matrix4<T>)
    requires
        commutative_ring::<T>(),
    ensures
        dot4(
            m.m11, m.m12, m.m13, m.m14,
            adjugate(m).m14, adjugate(m).m24, adjugate(m).m34, adjugate(m).m44,
        ) == T::spec_zero(),
{
    broadcast use group_to_multiset_ensures, group_multiset_axioms;

    let a = adjugate(m);
    let at = adjugate_terms(m);
    lemma_adjugate_m14_terms(m);
    lemma_times_commutes(m.m11, a.m14);
    lemma_signed_sum_times(at.m14, m.m11);
    let s1 = scaled_terms(at.m14, m.m11);
    lemma_adjugate_m24_terms(m);
    lemma_times_commutes(m.m12, a.m24);
    lemma_signed_sum_times(at.m24, m.m12);
    let s2 = scaled_terms(at.m24, m.m12);
    lemma_adjugate_m34_terms(m);
    lemma_times_commutes(m.m13, a.m34);
    lemma_signed_sum_times(at.m34, m.m13);
    let s3 = scaled_terms(at.m34, m.m13);
    lemma_adjugate_m44_terms(m);
    lemma_times_commutes(m.m14, a.m44);
    lemma_signed_sum_times(at.m44, m.m14);
    let s4 = scaled_terms(at.m44, m.m14);
    lemma_signed_sum_concat(s1, s2);
    lemma_signed_sum_concat(s1 + s2, s3);
    lemma_signed_sum_concat(s1 + s2 + s3, s4);
    lemma_times4_insert(m.m14, m.m23, m.m32, m.m11);
    lemma_times4_insert(m.m13, m.m24, m.m32, m.m11);
    lemma_times4_insert(m.m14, m.m22, m.m33, m.m11);
    lemma_times4_insert(m.m12, m.m24, m.m33, m.m11);
    lemma_times4_insert(m.m13, m.m22, m.m34, m.m11);
    lemma_times4_insert(m.m12, m.m23, m.m34, m.m11);
    lemma_times4_insert(m.m13, m.m24, m.m31, m.m12);
    lemma_times4_insert(m.m14, m.m23, m.m31, m.m12);
    lemma_times4_insert(m.m14, m.m21, m.m33, m.m12);
    lemma_times4_insert(m.m11, m.m24, m.m33, m.m12);
    lemma_times4_insert(m.m13, m.m21, m.m34, m.m12);
    lemma_times4_insert(m.m11, m.m23, m.m34, m.m12);
    lemma_times4_insert(m.m14, m.m22, m.m31, m.m13);
    lemma_times4_insert(m.m12, m.m24, m.m31, m.m13);
    lemma_times4_insert(m.m14, m.m21, m.m32, m.m13);
    lemma_times4_insert(m.m11, m.m24, m.m32, m.m13);
    lemma_times4_insert(m.m12, m.m21, m.m34, m.m13);
    lemma_times4_insert(m.m11, m.m22, m.m34, m.m13);
    lemma_times4_insert(m.m12, m.m23, m.m31, m.m14);
    lemma_times4_insert(m.m13, m.m22, m.m31, m.m14);
    lemma_times4_insert(m.m13, m.m21, m.m32, m.m14);
    lemma_times4_insert(m.m11, m.m23, m.m32, m.m14);
    lemma_times4_insert(m.m12, m.m21, m.m33, m.m14);
    lemma_times4_insert(m.m11, m.m22, m.m33, m.m14);
    let canon = Seq::empty()
        .push((true, times4(m.m11, m.m14, m.m23, m.m32)))
        .push((false, times4(m.m11, m.m13, m.m24, m.m32)))
        .push((false, times4(m.m11, m.m14, m.m22, m.m33)))
        .push((true, times4(m.m11, m.m12, m.m24, m.m33)))
        .push((true, times4(m.m11, m.m13, m.m22, m.m34)))
        .push((false, times4(m.m11, m.m12, m.m23, m.m34)))
        .push((true, times4(m.m12, m.m13, m.m24, m.m31)))
        .push((false, times4(m.m12, m.m14, m.m23, m.m31)))
        .push((true, times4(m.m12, m.m14, m.m21, m.m33)))
        .push((false, times4(m.m11, m.m12, m.m24, m.m33)))
        .push((false, times4(m.m12, m.m13, m.m21, m.m34)))
        .push((true, times4(m.m11, m.m12, m.m23, m.m34)))
        .push((true, times4(m.m13, m.m14, m.m22, m.m31)))
        .push((false, times4(m.m12, m.m13, m.m24, m.m31)))
        .push((false, times4(m.m13, m.m14, m.m21, m.m32)))
        .push((true, times4(m.m11, m.m13, m.m24, m.m32)))
        .push((true, times4(m.m12, m.m13, m.m21, m.m34)))
        .push((false, times4(m.m11, m.m13, m.m22, m.m34)))
        .push((true, times4(m.m12, m.m14, m.m23, m.m31)))
        .push((false, times4(m.m13, m.m14, m.m22, m.m31)))
        .push((true, times4(m.m13, m.m14, m.m21, m.m32)))
        .push((false, times4(m.m11, m.m14, m.m23, m.m32)))
        .push((false, times4(m.m12, m.m14, m.m21, m.m33)))
        .push((true, times4(m.m11, m.m14, m.m22, m.m33)));
    assert(s1 + s2 + s3 + s4 =~= canon);
    let ts = seq![times4(m.m11, m.m14, m.m23, m.m32), times4(m.m11, m.m12, m.m24, m.m33), times4(m.m11, m.m13, m.m22, m.m34), times4(m.m12, m.m13, m.m24, m.m31), times4(m.m12, m.m14, m.m21, m.m33), times4(m.m11, m.m12, m.m23, m.m34), times4(m.m13, m.m14, m.m22, m.m31), times4(m.m11, m.m13, m.m24, m.m32), times4(m.m12, m.m13, m.m21, m.m34), times4(m.m12, m.m14, m.m23, m.m31), times4(m.m13, m.m14, m.m21, m.m32), times4(m.m11, m.m14, m.m22, m.m33)];
    reveal_with_fuel(cancelling_pairs, 13);
    let pairs = Seq::empty()
        .push((true, times4(m.m11, m.m14, m.m23, m.m32))).push((false, times4(m.m11, m.m14, m.m23, m.m32)))
        .push((true, times4(m.m11, m.m12, m.m24, m.m33))).push((false, times4(m.m11, m.m12, m.m24, m.m33)))
        .push((true, times4(m.m11, m.m13, m.m22, m.m34))).push((false, times4(m.m11, m.m13, m.m22, m.m34)))
        .push((true, times4(m.m12, m.m13, m.m24, m.m31))).push((false, times4(m.m12, m.m13, m.m24, m.m31)))
        .push((true, times4(m.m12, m.m14, m.m21, m.m33))).push((false, times4(m.m12, m.m14, m.m21, m.m33)))
        .push((true, times4(m.m11, m.m12, m.m23, m.m34))).push((false, times4(m.m11, m.m12, m.m23, m.m34)))
        .push((true, times4(m.m13, m.m14, m.m22, m.m31))).push((false, times4(m.m13, m.m14, m.m22, m.m31)))
        .push((true, times4(m.m11, m.m13, m.m24, m.m32))).push((false, times4(m.m11, m.m13, m.m24, m.m32)))
        .push((true, times4(m.m12, m.m13, m.m21, m.m34))).push((false, times4(m.m12, m.m13, m.m21, m.m34)))
        .push((true, times4(m.m12, m.m14, m.m23, m.m31))).push((false, times4(m.m12, m.m14, m.m23, m.m31)))
        .push((true, times4(m.m13, m.m14, m.m21, m.m32))).push((false, times4(m.m13, m.m14, m.m21, m.m32)))
        .push((true, times4(m.m11, m.m14, m.m22, m.m33))).push((false, times4(m.m11, m.m14, m.m22, m.m33)));
    assert(cancelling_pairs(ts) =~= pairs);
    assert(canon.to_multiset() =~= cancelling_pairs(ts).to_multiset());
    lemma_signed_sum_permutation(canon, cancelling_pairs(ts));
    lemma_cancelling_pairs(ts);
}

/// Row 2 of `m` times column 1 of the adjugate: zero.
#[verifier::spinoff_prover]
#[verifier::rlimit(40)]
proof fn lemma_row2_adjugate_col1<T: Add<Output = T> + Sub<Output = T> + Mul<Output = T> + Zero + One>(m: Matrix4<T>)
    requires
        commutative_ring::<T>(),
    ensures
        dot4(
            m.m21, m.m22, m.m23, m.m24,
            adjugate(m).m11, adjugate(m).m21, adjugate(m).m31, adjugate(m).m41,
        ) == T::spec_zero(),
{
    broadcast use group_to_multiset_ensures, group_multiset_axioms;

    let a = adjugate(m);
    let at = adjugate_terms(m);
    lemma_adjugate_m11_terms(m);
    lemma_times_commutes(m.m21, a.m11);
    lemma_signed_sum_times(at.m11, m.m21);
    let s1 = scaled_terms(at.m11, m.m21);
    lemma_adjugate_m21_terms(m);
    lemma_times_commutes(m.m22, a.m21);
    lemma_signed_sum_times(at.m21, m.m22);
    let s2 = scaled_terms(at.m21, m.m22);
    lemma_adjugate_m31_terms(m);
    lemma_times_commutes(m.m23, a.m31);
    lemma_signed_sum_times(at.m31, m.m23);
    let s3 = scaled_terms(at.m31, m.m23);
    lemma_adjugate_m41_terms(m);
    lemma_times_commutes(m.m24, a.m41);
    lemma_signed_sum_times(at.m41, m.m24);
    let s4 = scaled_terms(at.m41, m.m24);
    lemma_signed_sum_concat(s1, s2);
    lemma_signed_sum_concat(s1 + s2, s3);
    lemma_signed_sum_concat(s1 + s2 + s3, s4);
    lemma_times4_insert(m.m23, m.m34, m.m42, m.m21);
    lemma_times4_insert(m.m24, m.m33, m.m42, m.m21);
    lemma_times4_insert(m.m24, m.m32, m.m43, m.m21);
    lemma_times4_insert(m.m22, m.m34, m.m43, m.m21);
    lemma_times4_insert(m.m23, m.m32, m.m44, m.m21);
    lemma_times4_insert(m.m22, m.m33, m.m44, m.m21);
    lemma_times4_insert(m.m24, m.m33, m.m41, m.m22);
    lemma_times4_insert(m.m23, m.m34, m.m41, m.m22);
    lemma_times4_insert(m.m24, m.m31, m.m43, m.m22);
    lemma_times4_insert(m.m21, m.m34, m.m43, m.m22);
    lemma_times4_insert(m.m23, m.m31, m.m44, m.m22);
    lemma_times4_insert(m.m21, m.m33, m.m44, m.m22);
    lemma_times4_insert(m.m22, m.m34, m.m41, m.m23);
    lemma_times4_insert(m.m24, m.m32, m.m41, m.m23);
    lemma_times4_insert(m.m24, m.m31, m.m42, m.m23);
    lemma_times4_insert(m.m21, m.m34, m.m42, m.m23);
    lemma_times4_insert(m.m22, m.m31, m.m44, m.m23);
    lemma_times4_insert(m.m21, m.m32, m.m44, m.m23);
    lemma_times4_insert(m.m23, m.m32, m.m41, m.m24);
    lemma_times4_insert(m.m22, m.m33, m.m41, m.m24);
    lemma_times4_insert(m.m23, m.m31, m.m42, m.m24);
    lemma_times4_insert(m.m21, m.m33, m.m42, m.m24);
    lemma_times4_insert(m.m22, m.m31, m.m43, m.m24);
    lemma_times4_insert(m.m21, m.m32, m.m43, m.m24);
    let canon = Seq::empty()
        .push((true, times4(m.m21, m.m23, m.m34, m.m42)))
        .push((false, times4(m.m21, m.m24, m.m33, m.m42)))
        .push((true, times4(m.m21, m.m24, m.m32, m.m43)))
        .push((false, times4(m.m21, m.m22, m.m34, m.m43)))
        .push((false, times4(m.m21, m.m23, m.m32, m.m44)))
        .push((true, times4(m.m21, m.m22, m.m33, m.m44)))
        .push((true, times4(m.m22, m.m24, m.m33, m.m41)))
        .push((false, times4(m.m22, m.m23, m.m34, m.m41)))
        .push((false, times4(m.m22, m.m24, m.m31, m.m43)))
        .push((true, times4(m.m21, m.m22, m.m34, m.m43)))
        .push((true, times4(m.m22, m.m23, m.m31, m.m44)))
        .push((false, times4(m.m21, m.m22, m.m33, m.m44)))
        .push((true, times4(m.m22, m.m23, m.m34, m.m41)))
        .push((false, times4(m.m23, m.m24, m.m32, m.m41)))
        .push((true, times4(m.m23, m.m24, m.m31, m.m42)))
        .push((false, times4(m.m21, m.m23, m.m34, m.m42)))
        .push((false, times4(m.m22, m.m23, m.m31, m.m44)))
        .push((true, times4(m.m21, m.m23, m.m32, m.m44)))
        .push((true, times4(m.m23, m.m24, m.m32, m.m41)))
        .push((false, times4(m.m22, m.m24, m.m33, m.m41)))
        .push((false, times4(m.m23, m.m24, m.m31, m.m42)))
        .push((true, times4(m.m21, m.m24, m.m33, m.m42)))
        .push((true, times4(m.m22, m.m24, m.m31, m.m43)))
        .push((false, times4(m.m21, m.m24, m.m32, m.m43)));
    assert(s1 + s2 + s3 + s4 =~= canon);
    let ts = seq![times4(m.m21, m.m23, m.m34, m.m42), times4(m.m21, m.m24, m.m32, m.m43), times4(m.m21, m.m22, m.m33, m.m44), times4(m.m22, m.m24, m.m33, m.m41), times4(m.m21, m.m22, m.m34, m.m43), times4(m.m22, m.m23, m.m31, m.m44), times4(m.m22, m.m23, m.m34, m.m41), times4(m.m23, m.m24, m.m31, m.m42), times4(m.m21, m.m23, m.m32, m.m44), times4(m.m23, m.m24, m.m32, m.m41), times4(m.m21, m.m24, m.m33, m.m42), times4(m.m22, m.m24, m.m31, m.m43)];
    reveal_with_fuel(cancelling_pairs, 13);
    let pairs = Seq::empty()
        .push((true, times4(m.m21, m.m23, m.m34, m.m42))).push((false, times4(m.m21, m.m23, m.m34, m.m42)))
        .push((true, times4(m.m21, m.m24, m.m32, m.m43))).push((false, times4(m.m21, m.m24, m.m32, m.m43)))
        .push((true, times4(m.m21, m.m22, m.m33, m.m44))).push((false, times4(m.m21, m.m22, m.m33, m.m44)))
        .push((true, times4(m.m22, m.m24, m.m33, m.m41))).push((false, times4(m.m22, m.m24, m.m33, m.m41)))
        .push((true, times4(m.m21, m.m22, m.m34, m.m43))).push((false, times4(m.m21, m.m22, m.m34, m.m43)))
        .push((true, times4(m.m22, m.m23, m.m31, m.m44))).push((false, times4(m.m22, m.m23, m.m31, m.m44)))
        .push((true, times4(m.m22, m.m23, m.m34, m.m41))).push((false, times4(m.m22, m.m23, m.m34, m.m41)))
        .push((true, times4(m.m23, m.m24, m.m31, m.m42))).push((false, times4(m.m23, m.m24, m.m31, m.m42)))
        .push((true, times4(m.m21, m.m23, m.m32, m.m44))).push((false, times4(m.m21, m.m23, m.m32, m.m44)))
        .push((true, times4(m.m23, m.m24, m.m32, m.m41))).push((false, times4(m.m23, m.m24, m.m32, m.m41)))
        .push((true, times4(m.m21, m.m24, m.m33, m.m42))).push((false, times4(m.m21, m.m24, m.m33, m.m42)))
        .push((true, times4(m.m22, m.m24, m.m31, m.m43))).push((false, times4(m.m22, m.m24, m.m31, m.m43)));
    assert(cancelling_pairs(ts) =~= pairs);
    assert(canon.to_multiset() =~= cancelling_pairs(ts).to_multiset());
    lemma_signed_sum_permutation(canon, cancelling_pairs(ts));
    lemma_cancelling_pairs(ts);
}

/// Row 2 of `m` times column 2 of the adjugate: the determinant.
#[verifier::spinoff_prover]
#[verifier::rlimit(40)]
proof fn lemma_row2_adjugate_col2<T: Add<Output = T> + Sub<Output = T> + Mul<Output = T> + Zero + One>(m: Matrix4<T>)
    requires
        commutative_ring::<T>(),
    ensures
        dot4(
            m.m21, m.m22, m.m23, m.m24,
            adjugate(m).m12, adjugate(m).m22, adjugate(m).m32, adjugate(m).m42,
        ) == determinant(m),
{
    broadcast use group_to_multiset_ensures, group_multiset_axioms;

    let a = adjugate(m);
    let at = adjugate_terms(m);
    lemma_adjugate_m12_terms(m);
    lemma_times_commutes(m.m21, a.m12);
    lemma_signed_sum_times(at.m12, m.m21);
    let s1 = scaled_terms(at.m12, m.m21);
    lemma_adjugate_m22_terms(m);
    lemma_times_commutes(m.m22, a.m22);
    lemma_signed_sum_times(at.m22, m.m22);
    let s2 = scaled_terms(at.m22, m.m22);
    lemma_adjugate_m32_terms(m);
    lemma_times_commutes(m.m23, a.m32);
    lemma_signed_sum_times(at.m32, m.m23);
    let s3 = scaled_terms(at.m32, m.m23);
    lemma_adjugate_m42_terms(m);
    lemma_times_commutes(m.m24, a.m42);
    lemma_signed_sum_times(at.m42, m.m24);
    let s4 = scaled_terms(at.m42, m.m24);
    lemma_signed_sum_concat(s1, s2);
    lemma_signed_sum_concat(s1 + s2, s3);
    lemma_signed_sum_concat(s1 + s2 + s3, s4);
    lemma_times4_insert(m.m14, m.m33, m.m42, m.m21);
    lemma_times4_insert(m.m13, m.m34, m.m42, m.m21);
    lemma_times4_insert(m.m14, m.m32, m.m43, m.m21);
    lemma_times4_insert(m.m12, m.m34, m.m43, m.m21);
    lemma_times4_insert(m.m13, m.m32, m.m44, m.m21);
    lemma_times4_insert(m.m12, m.m33, m.m44, m.m21);
    lemma_times4_insert(m.m13, m.m34, m.m41, m.m22);
    lemma_times4_insert(m.m14, m.m33, m.m41, m.m22);
    lemma_times4_insert(m.m14, m.m31, m.m43, m.m22);
    lemma_times4_insert(m.m11, m.m34, m.m43, m.m22);
    lemma_times4_insert(m.m13, m.m31, m.m44, m.m22);
    lemma_times4_insert(m.m11, m.m33, m.m44, m.m22);
    lemma_times4_insert(m.m14, m.m32, m.m41, m.m23);
    lemma_times4_insert(m.m12, m.m34, m.m41, m.m23);
    lemma_times4_insert(m.m14, m.m31, m.m42, m.m23);
    lemma_times4_insert(m.m11, m.m34, m.m42, m.m23);
    lemma_times4_insert(m.m12, m.m31, m.m44, m.m23);
    lemma_times4_insert(m.m11, m.m32, m.m44, m.m23);
    lemma_times4_insert(m.m12, m.m33, m.m41, m.m24);
    lemma_times4_insert(m.m13, m.m32, m.m41, m.m24);
    lemma_times4_insert(m.m13, m.m31, m.m42, m.m24);
    lemma_times4_insert(m.m11, m.m33, m.m42, m.m24);
    lemma_times4_insert(m.m12, m.m31, m.m43, m.m24);
    lemma_times4_insert(m.m11, m.m32, m.m43, m.m24);
    let canon = Seq::empty()
        .push((true, times4(m.m14, m.m21, m.m33, m.m42)))
        .push((false, times4(m.m13, m.m21, m.m34, m.m42)))
        .push((false, times4(m.m14, m.m21, m.m32, m.m43)))
        .push((true, times4(m.m12, m.m21, m.m34, m.m43)))
        .push((true, times4(m.m13, m.m21, m.m32, m.m44)))
        .push((false, times4(m.m12, m.m21, m.m33, m.m44)))
        .push((true, times4(m.m13, m.m22, m.m34, m.m41)))
        .push((false, times4(m.m14, m.m22, m.m33, m.m41)))
        .push((true, times4(m.m14, m.m22, m.m31, m.m43)))
        .push((false, times4(m.m11, m.m22, m.m34, m.m43)))
        .push((false, times4(m.m13, m.m22, m.m31, m.m44)))
        .push((true, times4(m.m11, m.m22, m.m33, m.m44)))
        .push((true, times4(m.m14, m.m23, m.m32, m.m41)))
        .push((false, times4(m.m12, m.m23, m.m34, m.m41)))
        .push((false, times4(m.m14, m.m23, m.m31, m.m42)))
        .push((true, times4(m.m11, m.m23, m.m34, m.m42)))
        .push((true, times4(m.m12, m.m23, m.m31, m.m44)))
        .push((false, times4(m.m11, m.m23, m.m32, m.m44)))
        .push((true, times4(m.m12, m.m24, m.m33, m.m41)))
        .push((false, times4(m.m13, m.m24, m.m32, m.m41)))
        .push((true, times4(m.m13, m.m24, m.m31, m.m42)))
        .push((false, times4(m.m11, m.m24, m.m33, m.m42)))
        .push((false, times4(m.m12, m.m24, m.m31, m.m43)))
        .push((true, times4(m.m11, m.m24, m.m32, m.m43)));
    assert(s1 + s2 + s3 + s4 =~= canon);
    lemma_determinant_terms(m);
    assert(canon.to_multiset() =~= determinant_terms(m).to_multiset());
    lemma_signed_sum_permutation(canon, determinant_terms(m));
}

/// Row 2 of `m` times column 3 of the adjugate: zero.
#[verifier::spinoff_prover]
#[verifier::rlimit(40)]
proof fn lemma_row2_adjugate_col3<T: Add<Output = T> + Sub<Output = T> + Mul<Output = T> + Zero + One>(m: Matrix4<T>)
    requires
        commutative_ring::<T>(),
    ensures
        dot4(
            m.m21, m.m22, m.m23, m.m24,
            adjugate(m).m13, adjugate(m).m23, adjugate(m).m33, adjugate(m).m43,
        ) == T::spec_zero(),
{
    broadcast use group_to_multiset_ensures, group_multiset_axioms;

    let a = adjugate(m);
    let at = adjugate_terms(m);
    lemma_adjugate_m13_terms(m);
    lemma_times_commutes(m.m21, a.m13);
    lemma_signed_sum_times(at.m13, m.m21);
    let s1 = scaled_terms(at.m13, m.m21);
    lemma_adjugate_m23_terms(m);
    lemma_times_commutes(m.m22, a.m23);
    lemma_signed_sum_times(at.m23, m.m22);
    let s2 = scaled_terms(at.m23, m.m22);
    lemma_adjugate_m33_terms(m);
    lemma_times_commutes(m.m23, a.m33);
    lemma_signed_sum_times(at.m33, m.m23);
    let s3 = scaled_terms(at.m33, m.m23);
    lemma_adjugate_m43_terms(m);
    lemma_times_commutes(m.m24, a.m43);
    lemma_signed_sum_times(at.m43, m.m24);
    let s4 = scaled_terms(at.m43, m.m24);
    lemma_signed_sum_concat(s1, s2);
    lemma_signed_sum_concat(s1 + s2, s3);
    lemma_signed_sum_concat(s1 + s2 + s3, s4);
    lemma_times4_insert(m.m13, m.m24, m.m42, m.m21);
    lemma_times4_insert(m.m14, m.m23, m.m42, m.m21);
    lemma_times4_insert(m.m14, m.m22, m.m43, m.m21);
    lemma_times4_insert(m.m12, m.m24, m.m43, m.m21);
    lemma_times4_insert(m.m13, m.m22, m.m44, m.m21);
    lemma_times4_insert(m.m12, m.m23, m.m44, m.m21);
    lemma_times4_insert(m.m14, m.m23, m.m41, m.m22);
    lemma_times4_insert(m.m13, m.m24, m.m41, m.m22);
    lemma_times4_insert(m.m14, m.m21, m.m43, m.m22);
    lemma_times4_insert(m.m11, m.m24, m.m43, m.m22);
    lemma_times4_insert(m.m13, m.m21, m.m44, m.m22);
    lemma_times4_insert(m.m11, m.m23, m.m44, m.m22);
    lemma_times4_insert(m.m12, m.m24, m.m41, m.m23);
    lemma_times4_insert(m.m14, m.m22, m.m41, m.m23);
    lemma_times4_insert(m.m14, m.m21, m.m42, m.m23);
    lemma_times4_insert(m.m11, m.m24, m.m42, m.m23);
    lemma_times4_insert(m.m12, m.m21, m.m44, m.m23);
    lemma_times4_insert(m.m11, m.m22, m.m44, m.m23);
    lemma_times4_insert(m.m13, m.m22, m.m41, m.m24);
    lemma_times4_insert(m.m12, m.m23, m.m41, m.m24);
    lemma_times4_insert(m.m13, m.m21, m.m42, m.m24);
    lemma_times4_insert(m.m11, m.m23, m.m42, m.m24);
    lemma_times4_insert(m.m12, m.m21, m.m43, m.m24);
    lemma_times4_insert(m.m11, m.m22, m.m43, m.m24);
    let canon = Seq::empty()
        .push((true, times4(m.m13, m.m21, m.m24, m.m42)))
        .push((false, times4(m.m14, m.m21, m.m23, m.m42)))
        .push((true, times4(m.m14, m.m21, m.m22, m.m43)))
        .push((false, times4(m.m12, m.m21, m.m24, m.m43)))
        .push((false, times4(m.m13, m.m21, m.m22, m.m44)))
        .push((true, times4(m.m12, m.m21, m.m23, m.m44)))
        .push((true, times4(m.m14, m.m22, m.m23, m.m41)))
        .push((false, times4(m.m13, m.m22, m.m24, m.m41)))
        .push((false, times4(m.m14, m.m21, m.m22, m.m43)))
        .push((true, times4(m.m11, m.m22, m.m24, m.m43)))
        .push((true, times4(m.m13, m.m21, m.m22, m.m44)))
        .push((false, times4(m.m11, m.m22, m.m23, m.m44)))
        .push((true, times4(m.m12, m.m23, m.m24, m.m41)))
        .push((false, times4(m.m14, m.m22, m.m23, m.m41)))
        .push((true, times4(m.m14, m.m21, m.m23, m.m42)))
        .push((false, times4(m.m11, m.m23, m.m24, m.m42)))
        .push((false, times4(m.m12, m.m21, m.m23, m.m44)))
        .push((true, times4(m.m11, m.m22, m.m23, m.m44)))
        .push((true, times4(m.m13, m.m22, m.m24, m.m41)))
        .push((false, times4(m.m12, m.m23, m.m24, m.m41)))
        .push((false, times4(m.m13, m.m21, m.m24, m.m42)))
        .push((true, times4(m.m11, m.m23, m.m24, m.m42)))
        .push((true, times4(m.m12, m.m21, m.m24, m.m43)))
        .push((false, times4(m.m11, m.m22, m.m24, m.m43)));
    assert(s1 + s2 + s3 + s4 =~= canon);
    let ts = seq![times4(m.m13, m.m21, m.m24, m.m42), times4(m.m14, m.m21, m.m22, m.m43), times4(m.m12, m.m21, m.m23, m.m44), times4(m.m14, m.m22, m.m23, m.m41), times4(m.m11, m.m22, m.m24, m.m43), times4(m.m13, m.m21, m.m22, m.m44), times4(m.m12, m.m23, m.m24, m.m41), times4(m.m14, m.m21, m.m23, m.m42), times4(m.m11, m.m22, m.m23, m.m44), times4(m.m13, m.m22, m.m24, m.m41), times4(m.m11, m.m23, m.m24, m.m42), times4(m.m12, m.m21, m.m24, m.m43)];
    reveal_with_fuel(cancelling_pairs, 13);
    let pairs = Seq::empty()
        .push((true, times4(m.m13, m.m21, m.m24, m.m42))).push((false, times4(m.m13, m.m21, m.m24, m.m42)))
        .push((true, times4(m.m14, m.m21, m.m22, m.m43))).push((false, times4(m.m14, m.m21, m.m22, m.m43)))
        .push((true, times4(m.m12, m.m21, m.m23, m.m44))).push((false, times4(m.m12, m.m21, m.m23, m.m44)))
        .push((true, times4(m.m14, m.m22, m.m23, m.m41))).push((false, times4(m.m14, m.m22, m.m23, m.m41)))
        .push((true, times4(m.m11, m.m22, m.m24, m.m43))).push((false, times4(m.m11, m.m22, m.m24, m.m43)))
        .push((true, times4(m.m13, m.m21, m.m22, m.m44))).push((false, times4(m.m13, m.m21, m.m22, m.m44)))
        .push((true, times4(m.m12, m.m23, m.m24, m.m41))).push((false, times4(m.m12, m.m23, m.m24, m.m41)))
        .push((true, times4(m.m14, m.m21, m.m23, m.m42))).push((false, times4(m.m14, m.m21, m.m23, m.m42)))
        .push((true, times4(m.m11, m.m22, m.m23, m.m44))).push((false, times4(m.m11, m.m22, m.m23, m.m44)))
        .push((true, times4(m.m13, m.m22, m.m24, m.m41))).push((false, times4(m.m13, m.m22, m.m24, m.m41)))
        .push((true, times4(m.m11, m.m23, m.m24, m.m42))).push((false, times4(m.m11, m.m23, m.m24, m.m42)))
        .push((true, times4(m.m12, m.m21, m.m24, m.m43))).push((false, times4(m.m12, m.m21, m.m24, m.m43)));
    assert(cancelling_pairs(ts) =~= pairs);
    assert(canon.to_multiset() =~= cancelling_pairs(ts).to_multiset());
    lemma_signed_sum_permutation(canon, cancelling_pairs(ts));
    lemma_cancelling_pairs(ts);
}

/// Row 2 of `m` times column 4 of the adjugate: zero.
#[verifier::spinoff_prover]
#[verifier::rlimit(40)]
proof fn lemma_row2_adjugate_col4<T: Add<Output = T> + Sub<Output = T> + Mul<Output = T> + Zero + One>(m: Matrix4<T>)
    requires
        commutative_ring::<T>(),
    ensures
        dot4(
            m.m21, m.m22, m.m23, m.m24,
            adjugate(m).m14, adjugate(m).m24, adjugate(m).m34, adjugate(m).m44,
        ) == T::spec_zero(),
{
    broadcast use group_to_multiset_ensures, group_multiset_axioms;

    let a = adjugate(m);
    let at = adjugate_terms(m);
    lemma_adjugate_m14_terms(m);
    lemma_times_commutes(m.m21, a.m14);
    lemma_signed_sum_times(at.m14, m.m21);
    let s1 = scaled_terms(at.m14, m.m21);
    lemma_adjugate_m24_terms(m);
    lemma_times_commutes(m.m22, a.m24);
    lemma_signed_sum_times(at.m24, m.m22);
    let s2 = scaled_terms(at.m24, m.m22);
    lemma_adjugate_m34_terms(m);
    lemma_times_commutes(m.m23, a.m34);
    lemma_signed_sum_times(at.m34, m.m23);
    let s3 = scaled_terms(at.m34, m.m23);
    lemma_adjugate_m44_terms(m);
    lemma_times_commutes(m.m24, a.m44);
    lemma_signed_sum_times(at.m44, m.m24);
    let s4 = scaled_terms(at.m44, m.m24);
    lemma_signed_sum_concat(s1, s2);
    lemma_signed_sum_concat(s1 + s2, s3);
    lemma_signed_sum_concat(s1 + s2 + s3, s4);
    lemma_times4_insert(m.m14, m.m23, m.m32, m.m21);
    lemma_times4_insert(m.m13, m.m24, m.m32, m.m21);
    lemma_times4_insert(m.m14, m.m22, m.m33, m.m21);
    lemma_times4_insert(m.m12, m.m24, m.m33, m.m21);
    lemma_times4_insert(m.m13, m.m22, m.m34, m.m21);
    lemma_times4_insert(m.m12, m.m23, m.m34, m.m21);
    lemma_times4_insert(m.m13, m.m24, m.m31, m.m22);
    lemma_times4_insert(m.m14, m.m23, m.m31, m.m22);
    lemma_times4_insert(m.m14, m.m21, m.m33, m.m22);
    lemma_times4_insert(m.m11, m.m24, m.m33, m.m22);
    lemma_times4_insert(m.m13, m.m21, m.m34, m.m22);
    lemma_times4_insert(m.m11, m.m23, m.m34, m.m22);
    lemma_times4_insert(m.m14, m.m22, m.m31, m.m23);
    lemma_times4_insert(m.m12, m.m24, m.m31, m.m23);
    lemma_times4_insert(m.m14, m.m21, m.m32, m.m23);
    lemma_times4_insert(m.m11, m.m24, m.m32, m.m23);
    lemma_times4_insert(m.m12, m.m21, m.m34, m.m23);
    lemma_times4_insert(m.m11, m.m22, m.m34, m.m23);
    lemma_times4_insert(m.m12, m.m23, m.m31, m.m24);
    lemma_times4_insert(m.m13, m.m22, m.m31, m.m24);
    lemma_times4_insert(m.m13, m.m21, m.m32, m.m24);
    lemma_times4_insert(m.m11, m.m23, m.m32, m.m24);
    lemma_times4_insert(m.m12, m.m21, m.m33, m.m24);
    lemma_times4_insert(m.m11, m.m22, m.m33, m.m24);
    let canon = Seq::empty()
        .push((true, times4(m.m14, m.m21, m.m23, m.m32)))
        .push((false, times4(m.m13, m.m21, m.m24, m.m32)))
        .push((false, times4(m.m14, m.m21, m.m22, m.m33)))
        .push((true, times4(m.m12, m.m21, m.m24, m.m33)))
        .push((true, times4(m.m13, m.m21, m.m22, m.m34)))
        .push((false, times4(m.m12, m.m21, m.m23, m.m34)))
        .push((true, times4(m.m13, m.m22, m.m24, m.m31)))
        .push((false, times4(m.m14, m.m22, m.m23, m.m31)))
        .push((true, times4(m.m14, m.m21, m.m22, m.m33)))
        .push((false, times4(m.m11, m.m22, m.m24, m.m33)))
        .push((false, times4(m.m13, m.m21, m.m22, m.m34)))
        .push((true, times4(m.m11, m.m22, m.m23, m.m34)))
        .push((true, times4(m.m14, m.m22, m.m23, m.m31)))
        .push((false, times4(m.m12, m.m23, m.m24, m.m31)))
        .push((false, times4(m.m14, m.m21, m.m23, m.m32)))
        .push((true, times4(m.m11, m.m23, m.m24, m.m32)))
        .push((true, times4(m.m12, m.m21, m.m23, m.m34)))
        .push((false, times4(m.m11, m.m22, m.m23, m.m34)))
        .push((true, times4(m.m12, m.m23, m.m24, m.m31)))
        .push((false, times4(m.m13, m.m22, m.m24, m.m31)))
        .push((true, times4(m.m13, m.m21, m.m24, m.m32)))
        .push((false, times4(m.m11, m.m23, m.m24, m.m32)))
        .push((false, times4(m.m12, m.m21, m.m24, m.m33)))
        .push((true, times4(m.m11, m.m22, m.m24, m.m33)));
    assert(s1 + s2 + s3 + s4 =~= canon);
    let ts = seq![times4(m.m14, m.m21, m.m23, m.m32), times4(m.m12, m.m21, m.m24, m.m33), times4(m.m13, m.m21, m.m22, m.m34), times4(m.m13, m.m22, m.m24, m.m31), times4(m.m14, m.m21, m.m22, m.m33), times4(m.m11, m.m22, m.m23, m.m34), times4(m.m14, m.m22, m.m23, m.m31), times4(m.m11, m.m23, m.m24, m.m32), times4(m.m12, m.m21, m.m23, m.m34), times4(m.m12, m.m23, m.m24, m.m31), times4(m.m13, m.m21, m.m24, m.m32), times4(m.m11, m.m22, m.m24, m.m33)];
    reveal_with_fuel(cancelling_pairs, 13);
    let pairs = Seq::empty()
        .push((true, times4(m.m14, m.m21, m.m23, m.m32))).push((false, times4(m.m14, m.m21, m.m23, m.m32)))
        .push((true, times4(m.m12, m.m21, m.m24, m.m33))).push((false, times4(m.m12, m.m21, m.m24, m.m33)))
        .push((true, times4(m.m13, m.m21, m.m22, m.m34))).push((false, times4(m.m13, m.m21, m.m22, m.m34)))
        .push((true, times4(m.m13, m.m22, m.m24, m.m31))).push((false, times4(m.m13, m.m22, m.m24, m.m31)))
        .push((true, times4(m.m14, m.m21, m.m22, m.m33))).push((false, times4(m.m14, m.m21, m.m22, m.m33)))
        .push((true, times4(m.m11, m.m22, m.m23, m.m34))).push((false, times4(m.m11, m.m22, m.m23, m.m34)))
        .push((true, times4(m.m14, m.m22, m.m23, m.m31))).push((false, times4(m.m14, m.m22, m.m23, m.m31)))
        .push((true, times4(m.m11, m.m23, m.m24, m.m32))).push((false, times4(m.m11, m.m23, m.m24, m.m32)))
        .push((true, times4(m.m12, m.m21, m.m23, m.m34))).push((false, times4(m.m12, m.m21, m.m23, m.m34)))
        .push((true, times4(m.m12, m.m23, m.m24, m.m31))).push((false, times4(m.m12, m.m23, m.m24, m.m31)))
        .push((true, times4(m.m13, m.m21, m.m24, m.m32))).push((false, times4(m.m13, m.m21, m.m24, m.m32)))
        .push((true, times4(m.m11, m.m22, m.m24, m.m33))).push((false, times4(m.m11, m.m22, m.m24, m.m33)));
    assert(cancelling_pairs(ts) =~= pairs);
    assert(canon.to_multiset() =~= cancelling_pairs(ts).to_multiset());
    lemma_signed_sum_permutation(canon, cancelling_pairs(ts));
    lemma_cancelling_pairs(ts);
}

/// Row 3 of `m` times column 1 of the adjugate: zero.
#[verifier::spinoff_prover]
#[verifier::rlimit(40)]
proof fn lemma_row3_adjugate_col1<T: Add<Output = T> + Sub<Output = T> + Mul<Output = T> + Zero + One>(m: Matrix4<T>)
    requires
        commutative_ring::<T>(),
    ensures
        dot4(
            m.m31, m.m32, m.m33, m.m34,
            adjugate(m).m11, adjugate(m).m21, adjugate(m).m31, adjugate(m).m41,
        ) == T::spec_zero(),
{
    broadcast use group_to_multiset_ensures, group_multiset_axioms;

    let a = adjugate(m);
    let at = adjugate_terms(m);
    lemma_adjugate_m11_terms(m);
    lemma_times_commutes(m.m31, a.m11);
    lemma_signed_sum_times(at.m11, m.m31);
    let s1 = scaled_terms(at.m11, m.m31);
    lemma_adjugate_m21_terms(m);
    lemma_times_commutes(m.m32, a.m21);
    lemma_signed_sum_times(at.m21, m.m32);
    let s2 = scaled_terms(at.m21, m.m32);
    lemma_adjugate_m31_terms(m);
    lemma_times_commutes(m.m33, a.m31);
    lemma_signed_sum_times(at.m31, m.m33);
    let s3 = scaled_terms(at.m31, m.m33);
    lemma_adjugate_m41_terms(m);
    lemma_times_commutes(m.m34, a.m41);
    lemma_signed_sum_times(at.m41, m.m34);
    let s4 = scaled_terms(at.m41, m.m34);
    lemma_signed_sum_concat(s1, s2);
    lemma_signed_sum_concat(s1 + s2, s3);
    lemma_signed_sum_concat(s1 + s2 + s3, s4);
    lemma_times4_insert(m.m23, m.m34, m.m42, m.m31);
    lemma_times4_insert(m.m24, m.m33, m.m42, m.m31);
    lemma_times4_insert(m.m24, m.m32, m.m43, m.m31);
    lemma_times4_insert(m.m22, m.m34, m.m43, m.m31);
    lemma_times4_insert(m.m23, m.m32, m.m44, m.m31);
    lemma_times4_insert(m.m22, m.m33, m.m44, m.m31);
    lemma_times4_insert(m.m24, m.m33, m.m41, m.m32);
    lemma_times4_insert(m.m23, m.m34, m.m41, m.m32);
    lemma_times4_insert(m.m24, m.m31, m.m43, m.m32);
    lemma_times4_insert(m.m21, m.m34, m.m43, m.m32);
    lemma_times4_insert(m.m23, m.m31, m.m44, m.m32);
    lemma_times4_insert(m.m21, m.m33, m.m44, m.m32);
    lemma_times4_insert(m.m22, m.m34, m.m41, m.m33);
    lemma_times4_insert(m.m24, m.m32, m.m41, m.m33);
    lemma_times4_insert(m.m24, m.m31, m.m42, m.m33);
    lemma_times4_insert(m.m21, m.m34, m.m42, m.m33);
    lemma_times4_insert(m.m22, m.m31, m.m44, m.m33);
    lemma_times4_insert(m.m21, m.m32, m.m44, m.m33);
    lemma_times4_insert(m.m23, m.m32, m.m41, m.m34);
    lemma_times4_insert(m.m22, m.m33, m.m41, m.m34);
    lemma_times4_insert(m.m23, m.m31, m.m42, m.m34);
    lemma_times4_insert(m.m21, m.m33, m.m42, m.m34);
    lemma_times4_insert(m.m22, m.m31, m.m43, m.m34);
    lemma_times4_insert(m.m21, m.m32, m.m43, m.m34);
    let canon = Seq::empty()
        .push((true, times4(m.m23, m.m31, m.m34, m.m42)))
        .push((false, times4(m.m24, m.m31, m.m33, m.m42)))
        .push((true, times4(m.m24, m.m31, m.m32, m.m43)))
        .push((false, times4(m.m22, m.m31, m.m34, m.m43)))
        .push((false, times4(m.m23, m.m31, m.m32, m.m44)))
        .push((true, times4(m.m22, m.m31, m.m33, m.m44)))
        .push((true, times4(m.m24, m.m32, m.m33, m.m41)))
        .push((false, times4(m.m23, m.m32, m.m34, m.m41)))
        .push((false, times4(m.m24, m.m31, m.m32, m.m43)))
        .push((true, times4(m.m21, m.m32, m.m34, m.m43)))
        .push((true, times4(m.m23, m.m31, m.m32, m.m44)))
        .push((false, times4(m.m21, m.m32, m.m33, m.m44)))
        .push((true, times4(m.m22, m.m33, m.m34, m.m41)))
        .push((false, times4(m.m24, m.m32, m.m33, m.m41)))
        .push((true, times4(m.m24, m.m31, m.m33, m.m42)))
        .push((false, times4(m.m21, m.m33, m.m34, m.m42)))
        .push((false, times4(m.m22, m.m31, m.m33, m.m44)))
        .push((true, times4(m.m21, m.m32, m.m33, m.m44)))
        .push((true, times4(m.m23, m.m32, m.m34, m.m41)))
        .push((false, times4(m.m22, m.m33, m.m34, m.m41)))
        .push((false, times4(m.m23, m.m31, m.m34, m.m42)))
        .push((true, times4(m.m21, m.m33, m.m34, m.m42)))
        .push((true, times4(m.m22, m.m31, m.m34, m.m43)))
        .push((false, times4(m.m21, m.m32, m.m34, m.m43)));
    assert(s1 + s2 + s3 + s4 =~= canon);
    let ts = seq![times4(m.m23, m.m31, m.m34, m.m42), times4(m.m24, m.m31, m.m32, m.m43), times4(m.m22, m.m31, m.m33, m.m44), times4(m.m24, m.m32, m.m33, m.m41), times4(m.m21, m.m32, m.m34, m.m43), times4(m.m23, m.m31, m.m32, m.m44), times4(m.m22, m.m33, m.m34, m.m41), times4(m.m24, m.m31, m.m33, m.m42), times4(m.m21, m.m32, m.m33, m.m44), times4(m.m23, m.m32, m.m34, m.m41), times4(m.m21, m.m33, m.m34, m.m42), times4(m.m22, m.m31, m.m34, m.m43)];
    reveal_with_fuel(cancelling_pairs, 13);
    let pairs = Seq::empty()
        .push((true, times4(m.m23, m.m31, m.m34, m.m42))).push((false, times4(m.m23, m.m31, m.m34, m.m42)))
        .push((true, times4(m.m24, m.m31, m.m32, m.m43))).push((false, times4(m.m24, m.m31, m.m32, m.m43)))
        .push((true, times4(m.m22, m.m31, m.m33, m.m44))).push((false, times4(m.m22, m.m31, m.m33, m.m44)))
        .push((true, times4(m.m24, m.m32, m.m33, m.m41))).push((false, times4(m.m24, m.m32, m.m33, m.m41)))
        .push((true, times4(m.m21, m.m32, m.m34, m.m43))).push((false, times4(m.m21, m.m32, m.m34, m.m43)))
        .push((true, times4(m.m23, m.m31, m.m32, m.m44))).push((false, times4(m.m23, m.m31, m.m32, m.m44)))
        .push((true, times4(m.m22, m.m33, m.m34, m.m41))).push((false, times4(m.m22, m.m33, m.m34, m.m41)))
        .push((true, times4(m.m24, m.m31, m.m33, m.m42))).push((false, times4(m.m24, m.m31, m.m33, m.m42)))
        .push((true, times4(m.m21, m.m32, m.m33, m.m44))).push((false, times4(m.m21, m.m32, m.m33, m.m44)))
        .push((true, times4(m.m23, m.m32, m.m34, m.m41))).push((false, times4(m.m23, m.m32, m.m34, m.m41)))
        .push((true, times4(m.m21, m.m33, m.m34, m.m42))).push((false, times4(m.m21, m.m33, m.m34, m.m42)))
        .push((true, times4(m.m22, m.m31, m.m34, m.m43))).push((false, times4(m.m22, m.m31, m.m34, m.m43)));
    assert(cancelling_pairs(ts) =~= pairs);
    assert(canon.to_multiset() =~= cancelling_pairs(ts).to_multiset());
    lemma_signed_sum_permutation(canon, cancelling_pairs(ts));
    lemma_cancelling_pairs(ts);
}

/// Row 3 of `m` times column 2 of the adjugate: zero.
#[verifier::spinoff_prover]
#[verifier::rlimit(40)]
proof fn lemma_row3_adjugate_col2<T: Add<Output = T> + Sub<Output = T> + Mul<Output = T> + Zero + One>(m: Matrix4<T>)
    requires
        commutative_ring::<T>(),
    ensures
        dot4(
            m.m31, m.m32, m.m33, m.m34,
            adjugate(m).m12, adjugate(m).m22, adjugate(m).m32, adjugate(m).m42,
        ) == T::spec_zero(),
{
    broadcast use group_to_multiset_ensures, group_multiset_axioms;

    let a = adjugate(m);
    let at = adjugate_terms(m);
    lemma_adjugate_m12_terms(m);
    lemma_times_commutes(m.m31, a.m12);
    lemma_signed_sum_times(at.m12, m.m31);
    let s1 = scaled_terms(at.m12, m.m31);
    lemma_adjugate_m22_terms(m);
    lemma_times_commutes(m.m32, a.m22);
    lemma_signed_sum_times(at.m22, m.m32);
    let s2 = scaled_terms(at.m22, m.m32);
    lemma_adjugate_m32_terms(m);
    lemma_times_commutes(m.m33, a.m32);
    lemma_signed_sum_times(at.m32, m.m33);
    let s3 = scaled_terms(at.m32, m.m33);
    lemma_adjugate_m42_terms(m);
    lemma_times_commutes(m.m34, a.m42);
    lemma_signed_sum_times(at.m42, m.m34);
    let s4 = scaled_terms(at.m42, m.m34);
    lemma_signed_sum_concat(s1, s2);
    lemma_signed_sum_concat(s1 + s2, s3);
    lemma_signed_sum_concat(s1 + s2 + s3, s4);
    lemma_times4_insert(m.m14, m.m33, m.m42, m.m31);
    lemma_times4_insert(m.m13, m.m34, m.m42, m.m31);
    lemma_times4_insert(m.m14, m.m32, m.m43, m.m31);
    lemma_times4_insert(m.m12, m.m34, m.m43, m.m31);
    lemma_times4_insert(m.m13, m.m32, m.m44, m.m31);
    lemma_times4_insert(m.m12, m.m33, m.m44, m.m31);
    lemma_times4_insert(m.m13, m.m34, m.m41, m.m32);
    lemma_times4_insert(m.m14, m.m33, m.m41, m.m32);
    lemma_times4_insert(m.m14, m.m31, m.m43, m.m32);
    lemma_times4_insert(m.m11, m.m34, m.m43, m.m32);
    lemma_times4_insert(m.m13, m.m31, m.m44, m.m32);
    lemma_times4_insert(m.m11, m.m33, m.m44, m.m32);
    lemma_times4_insert(m.m14, m.m32, m.m41, m.m33);
    lemma_times4_insert(m.m12, m.m34, m.m41, m.m33);
    lemma_times4_insert(m.m14, m.m31, m.m42, m.m33);
    lemma_times4_insert(m.m11, m.m34, m.m42, m.m33);
    lemma_times4_insert(m.m12, m.m31, m.m44, m.m33);
    lemma_times4_insert(m.m11, m.m32, m.m44, m.m33);
    lemma_times4_insert(m.m12, m.m33, m.m41, m.m34);
    lemma_times4_insert(m.m13, m.m32, m.m41, m.m34);
    lemma_times4_insert(m.m13, m.m31, m.m42, m.m34);
    lemma_times4_insert(m.m11, m.m33, m.m42, m.m34);
    lemma_times4_insert(m.m12, m.m31, m.m43, m.m34);
    lemma_times4_insert(m.m11, m.m32, m.m43, m.m34);
    let canon = Seq::empty()
        .push((true, times4(m.m14, m.m31, m.m33, m.m42)))
        .push((false, times4(m.m13, m.m31, m.m34, m.m42)))
        .push((false, times4(m.m14, m.m31, m.m32, m.m43)))
        .push((true, times4(m.m12, m.m31, m.m34, m.m43)))
        .push((true, times4(m.m13, m.m31, m.m32, m.m44)))
        .push((false, times4(m.m12, m.m31, m.m33, m.m44)))
        .push((true, times4(m.m13, m.m32, m.m34, m.m41)))
        .push((false, times4(m.m14, m.m32, m.m33, m.m41)))
        .push((true, times4(m.m14, m.m31, m.m32, m.m43)))
        .push((false, times4(m.m11, m.m32, m.m34, m.m43)))
        .push((false, times4(m.m13, m.m31, m.m32, m.m44)))
        .push((true, times4(m.m11, m.m32, m.m33, m.m44)))
        .push((true, times4(m.m14, m.m32, m.m33, m.m41)))
        .push((false, times4(m.m12, m.m33, m.m34, m.m41)))
        .push((false, times4(m.m14, m.m31, m.m33, m.m42)))
        .push((true, times4(m.m11, m.m33, m.m34, m.m42)))
        .push((true, times4(m.m12, m.m31, m.m33, m.m44)))
        .push((false, times4(m.m11, m.m32, m.m33, m.m44)))
        .push((true, times4(m.m12, m.m33, m.m34, m.m41)))
        .push((false, times4(m.m13, m.m32, m.m34, m.m41)))
        .push((true, times4(m.m13, m.m31, m.m34, m.m42)))
        .push((false, times4(m.m11, m.m33, m.m34, m.m42)))
        .push((false, times4(m.m12, m.m31, m.m34, m.m43)))
        .push((true, times4(m.m11, m.m32, m.m34, m.m43)));
    assert(s1 + s2 + s3 + s4 =~= canon);
    let ts = seq![times4(m.m14, m.m31, m.m33, m.m42), times4(m.m12, m.m31, m.m34, m.m43), times4(m.m13, m.m31, m.m32, m.m44), times4(m.m13, m.m32, m.m34, m.m41), times4(m.m14, m.m31, m.m32, m.m43), times4(m.m11, m.m32, m.m33, m.m44), times4(m.m14, m.m32, m.m33, m.m41), times4(m.m11, m.m33, m.m34, m.m42), times4(m.m12, m.m31, m.m33, m.m44), times4(m.m12, m.m33, m.m34, m.m41), times4(m.m13, m.m31, m.m34, m.m42), times4(m.m11, m.m32, m.m34, m.m43)];
    reveal_with_fuel(cancelling_pairs, 13);
    let pairs = Seq::empty()
        .push((true, times4(m.m14, m.m31, m.m33, m.m42))).push((false, times4(m.m14, m.m31, m.m33, m.m42)))
        .push((true, times4(m.m12, m.m31, m.m34, m.m43))).push((false, times4(m.m12, m.m31, m.m34, m.m43)))
        .push((true, times4(m.m13, m.m31, m.m32, m.m44))).push((false, times4(m.m13, m.m31, m.m32, m.m44)))
        .push((true, times4(m.m13, m.m32, m.m34, m.m41))).push((false, times4(m.m13, m.m32, m.m34, m.m41)))
        .push((true, times4(m.m14, m.m31, m.m32, m.m43))).push((false, times4(m.m14, m.m31, m.m32, m.m43)))
        .push((true, times4(m.m11, m.m32, m.m33, m.m44))).push((false, times4(m.m11, m.m32, m.m33, m.m44)))
        .push((true, times4(m.m14, m.m32, m.m33, m.m41))).push((false, times4(m.m14, m.m32, m.m33, m.m41)))
        .push((true, times4(m.m11, m.m33, m.m34, m.m42))).push((false, times4(m.m11, m.m33, m.m34, m.m42)))
        .push((true, times4(m.m12, m.m31, m.m33, m.m44))).push((false, times4(m.m12, m.m31, m.m33, m.m44)))
        .push((true, times4(m.m12, m.m33, m.m34, m.m41))).push((false, times4(m.m12, m.m33, m.m34, m.m41)))
        .push((true, times4(m.m13, m.m31, m.m34, m.m42))).push((false, times4(m.m13, m.m31, m.m34, m.m42)))
        .push((true, times4(m.m11, m.m32, m.m34, m.m43))).push((false, times4(m.m11, m.m32, m.m34, m.m43)));
    assert(cancelling_pairs(ts) =~= pairs);
    assert(canon.to_multiset() =~= cancelling_pairs(ts).to_multiset());
    lemma_signed_sum_permutation(canon, cancelling_pairs(ts));
    lemma_cancelling_pairs(ts);
}

/// Row 3 of `m` times column 3 of the adjugate: the determinant.
#[verifier::spinoff_prover]
#[verifier::rlimit(40)]
proof fn lemma_row3_adjugate_col3<T: Add<Output = T> + Sub<Output = T> + Mul<Output = T> + Zero + One>(m: Matrix4<T>)
    requires
        commutative_ring::<T>(),
    ensures
        dot4(
            m.m31, m.m32, m.m33, m.m34,
            adjugate(m).m13, adjugate(m).m23, adjugate(m).m33, adjugate(m).m43,
        ) == determinant(m),
{
    broadcast use group_to_multiset_ensures, group_multiset_axioms;

    let a = adjugate(m);
    let at = adjugate_terms(m);
    lemma_adjugate_m13_terms(m);
    lemma_times_commutes(m.m31, a.m13);
    lemma_signed_sum_times(at.m13, m.m31);
    let s1 = scaled_terms(at.m13, m.m31);
    lemma_adjugate_m23_terms(m);
    lemma_times_commutes(m.m32, a.m23);
    lemma_signed_sum_times(at.m23, m.m32);
    let s2 = scaled_terms(at.m23, m.m32);
    lemma_adjugate_m33_terms(m);
    lemma_times_commutes(m.m33, a.m33);
    lemma_signed_sum_times(at.m33, m.m33);
    let s3 = scaled_terms(at.m33, m.m33);
    lemma_adjugate_m43_terms(m);
    lemma_times_commutes(m.m34, a.m43);
    lemma_signed_sum_times(at.m43, m.m34);
    let s4 = scaled_terms(at.m43, m.m34);
    lemma_signed_sum_concat(s1, s2);
    lemma_signed_sum_concat(s1 + s2, s3);
    lemma_signed_sum_concat(s1 + s2 + s3, s4);
    lemma_times4_insert(m.m13, m.m24, m.m42, m.m31);
    lemma_times4_insert(m.m14, m.m23, m.m42, m.m31);
    lemma_times4_insert(m.m14, m.m22, m.m43, m.m31);
    lemma_times4_insert(m.m12, m.m24, m.m43, m.m31);
    lemma_times4_insert(m.m13, m.m22, m.m44, m.m31);
    lemma_times4_insert(m.m12, m.m23, m.m44, m.m31);
    lemma_times4_insert(m.m14, m.m23, m.m41, m.m32);
    lemma_times4_insert(m.m13, m.m24, m.m41, m.m32);
    lemma_times4_insert(m.m14, m.m21, m.m43, m.m32);
    lemma_times4_insert(m.m11, m.m24, m.m43, m.m32);
    lemma_times4_insert(m.m13, m.m21, m.m44, m.m32);
    lemma_times4_insert(m.m11, m.m23, m.m44, m.m32);
    lemma_times4_insert(m.m12, m.m24, m.m41, m.m33);
    lemma_times4_insert(m.m14, m.m22, m.m41, m.m33);
    lemma_times4_insert(m.m14, m.m21, m.m42, m.m33);
    lemma_times4_insert(m.m11, m.m24, m.m42, m.m33);
    lemma_times4_insert(m.m12, m.m21, m.m44, m.m33);
    lemma_times4_insert(m.m11, m.m22, m.m44, m.m33);
    lemma_times4_insert(m.m13, m.m22, m.m41, m.m34);
    lemma_times4_insert(m.m12, m.m23, m.m41, m.m34);
    lemma_times4_insert(m.m13, m.m21, m.m42, m.m34);
    lemma_times4_insert(m.m11, m.m23, m.m42, m.m34);
    lemma_times4_insert(m.m12, m.m21, m.m43, m.m34);
    lemma_times4_insert(m.m11, m.m22, m.m43, m.m34);
    let canon = Seq::empty()
        .push((true, times4(m.m13, m.m24, m.m31, m.m42)))
        .push((false, times4(m.m14, m.m23, m.m31, m.m42)))
        .push((true, times4(m.m14, m.m22, m.m31, m.m43)))
        .push((false, times4(m.m12, m.m24, m.m31, m.m43)))
        .push((false, times4(m.m13, m.m22, m.m31, m.m44)))
        .push((true, times4(m.m12, m.m23, m.m31, m.m44)))
        .push((true, times4(m.m14, m.m23, m.m32, m.m41)))
        .push((false, times4(m.m13, m.m24, m.m32, m.m41)))
        .push((false, times4(m.m14, m.m21, m.m32, m.m43)))
        .push((true, times4(m.m11, m.m24, m.m32, m.m43)))
        .push((true, times4(m.m13, m.m21, m.m32, m.m44)))
        .push((false, times4(m.m11, m.m23, m.m32, m.m44)))
        .push((true, times4(m.m12, m.m24, m.m33, m.m41)))
        .push((false, times4(m.m14, m.m22, m.m33, m.m41)))
        .push((true, times4(m.m14, m.m21, m.m33, m.m42)))
        .push((false, times4(m.m11, m.m24, m.m33, m.m42)))
        .push((false, times4(m.m12, m.m21, m.m33, m.m44)))
        .push((true, times4(m.m11, m.m22, m.m33, m.m44)))
        .push((true, times4(m.m13, m.m22, m.m34, m.m41)))
        .push((false, times4(m.m12, m.m23, m.m34, m.m41)))
        .push((false, times4(m.m13, m.m21, m.m34, m.m42)))
        .push((true, times4(m.m11, m.m23, m.m34, m.m42)))
        .push((true, times4(m.m12, m.m21, m.m34, m.m43)))
        .push((false, times4(m.m11, m.m22, m.m34, m.m43)));
    assert(s1 + s2 + s3 + s4 =~= canon);
    lemma_determinant_terms(m);
    assert(canon.to_multiset() =~= determinant_terms(m).to_multiset());
    lemma_signed_sum_permutation(canon, determinant_terms(m));
}

/// Row 3 of `m` times column 4 of the adjugate: zero.
#[verifier::spinoff_prover]
#[verifier::rlimit(40)]
proof fn lemma_row3_adjugate_col4<T: Add<Output = T> + Sub<Output = T> + Mul<Output = T> + Zero + One>(m: Matrix4<T>)
    requires
        commutative_ring::<T>(),
    ensures
        dot4(
            m.m31, m.m32, m.m33, m.m34,
            adjugate(m).m14, adjugate(m).m24, adjugate(m).m34, adjugate(m).m44,
        ) == T::spec_zero(),
{
    broadcast use group_to_multiset_ensures, group_multiset_axioms;

    let a = adjugate(m);
    let at = adjugate_terms(m);
    lemma_adjugate_m14_terms(m);
    lemma_times_commutes(m.m31, a.m14);
    lemma_signed_sum_times(at.m14, m.m31);
    let s1 = scaled_terms(at.m14, m.m31);
    lemma_adjugate_m24_terms(m);
    lemma_times_commutes(m.m32, a.m24);
    lemma_signed_sum_times(at.m24, m.m32);
    let s2 = scaled_terms(at.m24, m.m32);
    lemma_adjugate_m34_terms(m);
    lemma_times_commutes(m.m33, a.m34);
    lemma_signed_sum_times(at.m34, m.m33);
    let s3 = scaled_terms(at.m34, m.m33);
    lemma_adjugate_m44_terms(m);
    lemma_times_commutes(m.m34, a.m44);
    lemma_signed_sum_times(at.m44, m.m34);
    let s4 = scaled_terms(at.m44, m.m34);
    lemma_signed_sum_concat(s1, s2);
    lemma_signed_sum_concat(s1 + s2, s3);
    lemma_signed_sum_concat(s1 + s2 + s3, s4);
    lemma_times4_insert(m.m14, m.m23, m.m32, m.m31);
    lemma_times4_insert(m.m13, m.m24, m.m32, m.m31);
    lemma_times4_insert(m.m14, m.m22, m.m33, m.m31);
    lemma_times4_insert(m.m12, m.m24, m.m33, m.m31);
    lemma_times4_insert(m.m13, m.m22, m.m34, m.m31);
    lemma_times4_insert(m.m12, m.m23, m.m34, m.m31);
    lemma_times4_insert(m.m14, m.m21, m.m33, m.m32);
    lemma_times4_insert(m.m11, m.m24, m.m33, m.m32);
    lemma_times4_insert(m.m13, m.m21, m.m34, m.m32);
    lemma_times4_insert(m.m11, m.m23, m.m34, m.m32);
    lemma_times4_insert(m.m12, m.m21, m.m34, m.m33);
    lemma_times4_insert(m.m11, m.m22, m.m34, m.m33);
    let canon = Seq::empty()
        .push((true, times4(m.m14, m.m23, m.m31, m.m32)))
        .push((false, times4(m.m13, m.m24, m.m31, m.m32)))
        .push((false, times4(m.m14, m.m22, m.m31, m.m33)))
        .push((true, times4(m.m12, m.m24, m.m31, m.m33)))
        .push((true, times4(m.m13, m.m22, m.m31, m.m34)))
        .push((false, times4(m.m12, m.m23, m.m31, m.m34)))
        .push((true, times4(m.m13, m.m24, m.m31, m.m32)))
        .push((false, times4(m.m14, m.m23, m.m31, m.m32)))
        .push((true, times4(m.m14, m.m21, m.m32, m.m33)))
        .push((false, times4(m.m11, m.m24, m.m32, m.m33)))
        .push((false, times4(m.m13, m.m21, m.m32, m.m34)))
        .push((true, times4(m.m11, m.m23, m.m32, m.m34)))
        .push((true, times4(m.m14, m.m22, m.m31, m.m33)))
        .push((false, times4(m.m12, m.m24, m.m31, m.m33)))
        .push((false, times4(m.m14, m.m21, m.m32, m.m33)))
        .push((true, times4(m.m11, m.m24, m.m32, m.m33)))
        .push((true, times4(m.m12, m.m21, m.m33, m.m34)))
        .push((false, times4(m.m11, m.m22, m.m33, m.m34)))
        .push((true, times4(m.m12, m.m23, m.m31, m.m34)))
        .push((false, times4(m.m13, m.m22, m.m31, m.m34)))
        .push((true, times4(m.m13, m.m21, m.m32, m.m34)))
        .push((false, times4(m.m11, m.m23, m.m32, m.m34)))
        .push((false, times4(m.m12, m.m21, m.m33, m.m34)))
        .push((true, times4(m.m11, m.m22, m.m33, m.m34)));
    assert(s1 + s2 + s3 + s4 =~= canon);
    let ts = seq![times4(m.m14, m.m23, m.m31, m.m32), times4(m.m12, m.m24, m.m31, m.m33), times4(m.m13, m.m22, m.m31, m.m34), times4(m.m13, m.m24, m.m31, m.m32), times4(m.m14, m.m21, m.m32, m.m33), times4(m.m11, m.m23, m.m32, m.m34), times4(m.m14, m.m22, m.m31, m.m33), times4(m.m11, m.m24, m.m32, m.m33), times4(m.m12, m.m21, m.m33, m.m34), times4(m.m12, m.m23, m.m31, m.m34), times4(m.m13, m.m21, m.m32, m.m34), times4(m.m11, m.m22, m.m33, m.m34)];
    reveal_with_fuel(cancelling_pairs, 13);
    let pairs = Seq::empty()
        .push((true, times4(m.m14, m.m23, m.m31, m.m32))).push((false, times4(m.m14, m.m23, m.m31, m.m32)))
        .push((true, times4(m.m12, m.m24, m.m31, m.m33))).push((false, times4(m.m12, m.m24, m.m31, m.m33)))
        .push((true, times4(m.m13, m.m22, m.m31, m.m34))).push((false, times4(m.m13, m.m22, m.m31, m.m34)))
        .push((true, times4(m.m13, m.m24, m.m31, m.m32))).push((false, times4(m.m13, m.m24, m.m31, m.m32)))
        .push((true, times4(m.m14, m.m21, m.m32, m.m33))).push((false, times4(m.m14, m.m21, m.m32, m.m33)))
        .push((true, times4(m.m11, m.m23, m.m32, m.m34))).push((false, times4(m.m11, m.m23, m.m32, m.m34)))
        .push((true, times4(m.m14, m.m22, m.m31, m.m33))).push((false, times4(m.m14, m.m22, m.m31, m.m33)))
        .push((true, times4(m.m11, m.m24, m.m32, m.m33))).push((false, times4(m.m11, m.m24, m.m32, m.m33)))
        .push((true, times4(m.m12, m.m21, m.m33, m.m34))).push((false, times4(m.m12, m.m21, m.m33, m.m34)))
        .push((true, times4(m.m12, m.m23, m.m31, m.m34))).push((false, times4(m.m12, m.m23, m.m31, m.m34)))
        .push((true, times4(m.m13, m.m21, m.m32, m.m34))).push((false, times4(m.m13, m.m21, m.m32, m.m34)))
        .push((true, times4(m.m11, m.m22, m.m33, m.m34))).push((false, times4(m.m11, m.m22, m.m33, m.m34)));
    assert(cancelling_pairs(ts) =~= pairs);
    assert(canon.to_multiset() =~= cancelling_pairs(ts).to_multiset());
    lemma_signed_sum_permutation(canon, cancelling_pairs(ts));
    lemma_cancelling_pairs(ts);
}

/// Row 4 of `m` times column 1 of the adjugate: zero.
#[verifier::spinoff_prover]
#[verifier::rlimit(40)]
proof fn lemma_row4_adjugate_col1<T: Add<Output = T> + Sub<Output = T> + Mul<Output = T> + Zero + One>(m: Matrix4<T>)
    requires
        commutative_ring::<T>(),
    ensures
        dot4(
            m.m41, m.m42, m.m43, m.m44,
            adjugate(m).m11, adjugate(m).m21, adjugate(m).m31, adjugate(m).m41,
        ) == T::spec_zero(),
{
    broadcast use group_to_multiset_ensures, group_multiset_axioms;

    let a = adjugate(m);
    let at = adjugate_terms(m);
    lemma_adjugate_m11_terms(m);
    lemma_times_commutes(m.m41, a.m11);
    lemma_signed_sum_times(at.m11, m.m41);
    let s1 = scaled_terms(at.m11, m.m41);
    lemma_adjugate_m21_terms(m);
    lemma_times_commutes(m.m42, a.m21);
    lemma_signed_sum_times(at.m21, m.m42);
    let s2 = scaled_terms(at.m21, m.m42);
    lemma_adjugate_m31_terms(m);
    lemma_times_commutes(m.m43, a.m31);
    lemma_signed_sum_times(at.m31, m.m43);
    let s3 = scaled_terms(at.m31, m.m43);
    lemma_adjugate_m41_terms(m);
    lemma_times_commutes(m.m44, a.m41);
    lemma_signed_sum_times(at.m41, m.m44);
    let s4 = scaled_terms(at.m41, m.m44);
    lemma_signed_sum_concat(s1, s2);
    lemma_signed_sum_concat(s1 + s2, s3);
    lemma_signed_sum_concat(s1 + s2 + s3, s4);
    lemma_times4_insert(m.m23, m.m34, m.m42, m.m41);
    lemma_times4_insert(m.m24, m.m33, m.m42, m.m41);
    lemma_times4_insert(m.m24, m.m32, m.m43, m.m41);
    lemma_times4_insert(m.m22, m.m34, m.m43, m.m41);
    lemma_times4_insert(m.m23, m.m32, m.m44, m.m41);
    lemma_times4_insert(m.m22, m.m33, m.m44, m.m41);
    lemma_times4_insert(m.m24, m.m31, m.m43, m.m42);
    lemma_times4_insert(m.m21, m.m34, m.m43, m.m42);
    lemma_times4_insert(m.m23, m.m31, m.m44, m.m42);
    lemma_times4_insert(m.m21, m.m33, m.m44, m.m42);
    lemma_times4_insert(m.m22, m.m31, m.m44, m.m43);
    lemma_times4_insert(m.m21, m.m32, m.m44, m.m43);
    let canon = Seq::empty()
        .push((true, times4(m.m23, m.m34, m.m41, m.m42)))
        .push((false, times4(m.m24, m.m33, m.m41, m.m42)))
        .push((true, times4(m.m24, m.m32, m.m41, m.m43)))
        .push((false, times4(m.m22, m.m34, m.m41, m.m43)))
        .push((false, times4(m.m23, m.m32, m.m41, m.m44)))
        .push((true, times4(m.m22, m.m33, m.m41, m.m44)))
        .push((true, times4(m.m24, m.m33, m.m41, m.m42)))
        .push((false, times4(m.m23, m.m34, m.m41, m.m42)))
        .push((false, times4(m.m24, m.m31, m.m42, m.m43)))
        .push((true, times4(m.m21, m.m34, m.m42, m.m43)))
        .push((true, times4(m.m23, m.m31, m.m42, m.m44)))
        .push((false, times4(m.m21, m.m33, m.m42, m.m44)))
        .push((true, times4(m.m22, m.m34, m.m41, m.m43)))
        .push((false, times4(m.m24, m.m32, m.m41, m.m43)))
        .push((true, times4(m.m24, m.m31, m.m42, m.m43)))
        .push((false, times4(m.m21, m.m34, m.m42, m.m43)))
        .push((false, times4(m.m22, m.m31, m.m43, m.m44)))
        .push((true, times4(m.m21, m.m32, m.m43, m.m44)))
        .push((true, times4(m.m23, m.m32, m.m41, m.m44)))
        .push((false, times4(m.m22, m.m33, m.m41, m.m44)))
        .push((false, times4(m.m23, m.m31, m.m42, m.m44)))
        .push((true, times4(m.m21, m.m33, m.m42, m.m44)))
        .push((true, times4(m.m22, m.m31, m.m43, m.m44)))
        .push((false, times4(m.m21, m.m32, m.m43, m.m44)));
    assert(s1 + s2 + s3 + s4 =~= canon);
    let ts = seq![times4(m.m23, m.m34, m.m41, m.m42), times4(m.m24, m.m32, m.m41, m.m43), times4(m.m22, m.m33, m.m41, m.m44), times4(m.m24, m.m33, m.m41, m.m42), times4(m.m21, m.m34, m.m42, m.m43), times4(m.m23, m.m31, m.m42, m.m44), times4(m.m22, m.m34, m.m41, m.m43), times4(m.m24, m.m31, m.m42, m.m43), times4(m.m21, m.m32, m.m43, m.m44), times4(m.m23, m.m32, m.m41, m.m44), times4(m.m21, m.m33, m.m42, m.m44), times4(m.m22, m.m31, m.m43, m.m44)];
    reveal_with_fuel(cancelling_pairs, 13);
    let pairs = Seq::empty()
        .push((true, times4(m.m23, m.m34, m.m41, m.m42))).push((false, times4(m.m23, m.m34, m.m41, m.m42)))
        .push((true, times4(m.m24, m.m32, m.m41, m.m43))).push((false, times4(m.m24, m.m32, m.m41, m.m43)))
        .push((true, times4(m.m22, m.m33, m.m41, m.m44))).push((false, times4(m.m22, m.m33, m.m41, m.m44)))
        .push((true, times4(m.m24, m.m33, m.m41, m.m42))).push((false, times4(m.m24, m.m33, m.m41, m.m42)))
        .push((true, times4(m.m21, m.m34, m.m42, m.m43))).push((false, times4(m.m21, m.m34, m.m42, m.m43)))
        .push((true, times4(m.m23, m.m31, m.m42, m.m44))).push((false, times4(m.m23, m.m31, m.m42, m.m44)))
        .push((true, times4(m.m22, m.m34, m.m41, m.m43))).push((false, times4(m.m22, m.m34, m.m41, m.m43)))
        .push((true, times4(m.m24, m.m31, m.m42, m.m43))).push((false, times4(m.m24, m.m31, m.m42, m.m43)))
        .push((true, times4(m.m21, m.m32, m.m43, m.m44))).push((false, times4(m.m21, m.m32, m.m43, m.m44)))
        .push((true, times4(m.m23, m.m32, m.m41, m.m44))).push((false, times4(m.m23, m.m32, m.m41, m.m44)))
        .push((true, times4(m.m21, m.m33, m.m42, m.m44))).push((false, times4(m.m21, m.m33, m.m42, m.m44)))
        .push((true, times4(m.m22, m.m31, m.m43, m.m44))).push((false, times4(m.m22, m.m31, m.m43, m.m44)));
    assert(cancelling_pairs(ts) =~= pairs);
    assert(canon.to_multiset() =~= cancelling_pairs(ts).to_multiset());
    lemma_signed_sum_permutation(canon, cancelling_pairs(ts));
    lemma_cancelling_pairs(ts);
}

/// Row 4 of `m` times column 2 of the adjugate: zero.
#[verifier::spinoff_prover]
#[verifier::rlimit(100)]
proof fn lemma_row4_adjugate_col2<T: Add<Output = T> + Sub<Output = T> + Mul<Output = T> + Zero + One>(m: Matrix4<T>)
    requires
        commutative_ring::<T>(),
    ensures
        dot4(
            m.m41, m.m42, m.m43, m.m44,
            adjugate(m).m12, adjugate(m).m22, adjugate(m).m32, adjugate(m).m42,
        ) == T::spec_zero(),
{
    broadcast use group_to_multiset_ensures, group_multiset_axioms;

    let a = adjugate(m);
    let at = adjugate_terms(m);
    lemma_adjugate_m12_terms(m);
    lemma_times_commutes(m.m41, a.m12);
    lemma_signed_sum_times(at.m12, m.m41);
    let s1 = scaled_terms(at.m12, m.m41);
    lemma_adjugate_m22_terms(m);
    lemma_times_commutes(m.m42, a.m22);
    lemma_signed_sum_times(at.m22, m.m42);
    let s2 = scaled_terms(at.m22, m.m42);
    lemma_adjugate_m32_terms(m);
    lemma_times_commutes(m.m43, a.m32);
    lemma_signed_sum_times(at.m32, m.m43);
    let s3 = scaled_terms(at.m32, m.m43);
    lemma_adjugate_m42_terms(m);
    lemma_times_commutes(m.m44, a.m42);
    lemma_signed_sum_times(at.m42, m.m44);
    let s4 = scaled_terms(at.m42, m.m44);
    lemma_signed_sum_concat(s1, s2);
    lemma_signed_sum_concat(s1 + s2, s3);
    lemma_signed_sum_concat(s1 + s2 + s3, s4);
    lemma_times4_insert(m.m14, m.m33, m.m42, m.m41);
    lemma_times4_insert(m.m13, m.m34, m.m42, m.m41);
    lemma_times4_insert(m.m14, m.m32, m.m43, m.m41);
    lemma_times4_insert(m.m12, m.m34, m.m43, m.m41);
    lemma_times4_insert(m.m13, m.m32, m.m44, m.m41);
    lemma_times4_insert(m.m12, m.m33, m.m44, m.m41);
    lemma_times4_insert(m.m14, m.m31, m.m43, m.m42);
    lemma_times4_insert(m.m11, m.m34, m.m43, m.m42);
    lemma_times4_insert(m.m13, m.m31, m.m44, m.m42);
    lemma_times4_insert(m.m11, m.m33, m.m44, m.m42);
    lemma_times4_insert(m.m12, m.m31, m.m44, m.m43);
    lemma_times4_insert(m.m11, m.m32, m.m44, m.m43);
    let canon = Seq::empty()
        .push((true, times4(m.m14, m.m33, m.m41, m.m42)))
        .push((false, times4(m.m13, m.m34, m.m41, m.m42)))
        .push((false, times4(m.m14, m.m32, m.m41, m.m43)))
        .push((true, times4(m.m12, m.m34, m.m41, m.m43)))
        .push((true, times4(m.m13, m.m32, m.m41, m.m44)))
        .push((false, times4(m.m12, m.m33, m.m41, m.m44)))
        .push((true, times4(m.m13, m.m34, m.m41, m.m42)))
        .push((false, times4(m.m14, m.m33, m.m41, m.m42)))
        .push((true, times4(m.m14, m.m31, m.m42, m.m43)))
        .push((false, times4(m.m11, m.m34, m.m42, m.m43)))
        .push((false, times4(m.m13, m.m31, m.m42, m.m44)))
        .push((true, times4(m.m11, m.m33, m.m42, m.m44)))
        .push((true, times4(m.m14, m.m32, m.m41, m.m43)))
        .push((false, times4(m.m12, m.m34, m.m41, m.m43)))
        .push((false, times4(m.m14, m.m31, m.m42, m.m43)))
        .push((true, times4(m.m11, m.m34, m.m42, m.m43)))
        .push((true, times4(m.m12, m.m31, m.m43, m.m44)))
        .push((false, times4(m.m11, m.m32, m.m43, m.m44)))
        .push((true, times4(m.m12, m.m33, m.m41, m.m44)))
        .push((false, times4(m.m13, m.m32, m.m41, m.m44)))
        .push((true, times4(m.m13, m.m31, m.m42, m.m44)))
        .push((false, times4(m.m11, m.m33, m.m42, m.m44)))
        .push((false, times4(m.m12, m.m31, m.m43, m.m44)))
        .push((true, times4(m.m11, m.m32, m.m43, m.m44)));
    assert(s1 + s2 + s3 + s4 =~= canon);
    let ts = seq![times4(m.m14, m.m33, m.m41, m.m42), times4(m.m12, m.m34, m.m41, m.m43), times4(m.m13, m.m32, m.m41, m.m44), times4(m.m13, m.m34, m.m41, m.m42), times4(m.m14, m.m31, m.m42, m.m43), times4(m.m11, m.m33, m.m42, m.m44), times4(m.m14, m.m32, m.m41, m.m43), times4(m.m11, m.m34, m.m42, m.m43), times4(m.m12, m.m31, m.m43, m.m44), times4(m.m12, m.m33, m.m41, m.m44), times4(m.m13, m.m31, m.m42, m.m44), times4(m.m11, m.m32, m.m43, m.m44)];
    reveal_with_fuel(cancelling_pairs, 13);
    let pairs = Seq::empty()
        .push((true, times4(m.m14, m.m33, m.m41, m.m42))).push((false, times4(m.m14, m.m33, m.m41, m.m42)))
        .push((true, times4(m.m12, m.m34, m.m41, m.m43))).push((false, times4(m.m12, m.m34, m.m41, m.m43)))
        .push((true, times4(m.m13, m.m32, m.m41, m.m44))).push((false, times4(m.m13, m.m32, m.m41, m.m44)))
        .push((true, times4(m.m13, m.m34, m.m41, m.m42))).push((false, times4(m.m13, m.m34, m.m41, m.m42)))
        .push((true, times4(m.m14, m.m31, m.m42, m.m43))).push((false, times4(m.m14, m.m31, m.m42, m.m43)))
        .push((true, times4(m.m11, m.m33, m.m42, m.m44))).push((false, times4(m.m11, m.m33, m.m42, m.m44)))
        .push((true, times4(m.m14, m.m32, m.m41, m.m43))).push((false, times4(m.m14, m.m32, m.m41, m.m43)))
        .push((true, times4(m.m11, m.m34, m.m42, m.m43))).push((false, times4(m.m11, m.m34, m.m42, m.m43)))
        .push((true, times4(m.m12, m.m31, m.m43, m.m44))).push((false, times4(m.m12, m.m31, m.m43, m.m44)))
        .push((true, times4(m.m12, m.m33, m.m41, m.m44))).push((false, times4(m.m12, m.m33, m.m41, m.m44)))
        .push((true, times4(m.m13, m.m31, m.m42, m.m44))).push((false, times4(m.m13, m.m31, m.m42, m.m44)))
        .push((true, times4(m.m11, m.m32, m.m43, m.m44))).push((false, times4(m.m11, m.m32, m.m43, m.m44)));
    assert(cancelling_pairs(ts) =~= pairs);
    assert(canon.to_multiset() =~= cancelling_pairs(ts).to_multiset());
    lemma_signed_sum_permutation(canon, cancelling_pairs(ts));
    lemma_cancelling_pairs(ts);
}

/// Row 4 of `m` times column 3 of the adjugate: zero.
#[verifier::spinoff_prover]
#[verifier::rlimit(40)]
proof fn lemma_row4_adjugate_col3<T: Add<Output = T> + Sub<Output = T> + Mul<Output = T> + Zero + One>(m: Matrix4<T>)
    requires
        commutative_ring::<T>(),
    ensures
        dot4(
            m.m41, m.m42, m.m43, m.m44,
            adjugate(m).m13, adjugate(m).m23, adjugate(m).m33, adjugate(m).m43,
        ) == T::spec_zero(),
{
    broadcast use group_to_multiset_ensures, group_multiset_axioms;

    let a = adjugate(m);
    let at = adjugate_terms(m);
    lemma_adjugate_m13_terms(m);
    lemma_times_commutes(m.m41, a.m13);
    lemma_signed_sum_times(at.m13, m.m41);
    let s1 = scaled_terms(at.m13, m.m41);
    lemma_adjugate_m23_terms(m);
    lemma_times_commutes(m.m42, a.m23);
    lemma_signed_sum_times(at.m23, m.m42);
    let s2 = scaled_terms(at.m23, m.m42);
    lemma_adjugate_m33_terms(m);
    lemma_times_commutes(m.m43, a.m33);
    lemma_signed_sum_times(at.m33, m.m43);
    let s3 = scaled_terms(at.m33, m.m43);
    lemma_adjugate_m43_terms(m);
    lemma_times_commutes(m.m44, a.m43);
    lemma_signed_sum_times(at.m43, m.m44);
    let s4 = scaled_terms(at.m43, m.m44);
    lemma_signed_sum_concat(s1, s2);
    lemma_signed_sum_concat(s1 + s2, s3);
    lemma_signed_sum_concat(s1 + s2 + s3, s4);
    lemma_times4_insert(m.m13, m.m24, m.m42, m.m41);
    lemma_times4_insert(m.m14, m.m23, m.m42, m.m41);
    lemma_times4_insert(m.m14, m.m22, m.m43, m.m41);
    lemma_times4_insert(m.m12, m.m24, m.m43, m.m41);
    lemma_times4_insert(m.m13, m.m22, m.m44, m.m41);
    lemma_times4_insert(m.m12, m.m23, m.m44, m.m41);
    lemma_times4_insert(m.m14, m.m21, m.m43, m.m42);
    lemma_times4_insert(m.m11, m.m24, m.m43, m.m42);
    lemma_times4_insert(m.m13, m.m21, m.m44, m.m42);
    lemma_times4_insert(m.m11, m.m23, m.m44, m.m42);
    lemma_times4_insert(m.m12, m.m21, m.m44, m.m43);
    lemma_times4_insert(m.m11, m.m22, m.m44, m.m43);
    let canon = Seq::empty()
        .push((true, times4(m.m13, m.m24, m.m41, m.m42)))
        .push((false, times4(m.m14, m.m23, m.m41, m.m42)))
        .push((true, times4(m.m14, m.m22, m.m41, m.m43)))
        .push((false, times4(m.m12, m.m24, m.m41, m.m43)))
        .push((false, times4(m.m13, m.m22, m.m41, m.m44)))
        .push((true, times4(m.m12, m.m23, m.m41, m.m44)))
        .push((true, times4(m.m14, m.m23, m.m41, m.m42)))
        .push((false, times4(m.m13, m.m24, m.m41, m.m42)))
        .push((false, times4(m.m14, m.m21, m.m42, m.m43)))
        .push((true, times4(m.m11, m.m24, m.m42, m.m43)))
        .push((true, times4(m.m13, m.m21, m.m42, m.m44)))
        .push((false, times4(m.m11, m.m23, m.m42, m.m44)))
        .push((true, times4(m.m12, m.m24, m.m41, m.m43)))
        .push((false, times4(m.m14, m.m22, m.m41, m.m43)))
        .push((true, times4(m.m14, m.m21, m.m42, m.m43)))
        .push((false, times4(m.m11, m.m24, m.m42, m.m43)))
        .push((false, times4(m.m12, m.m21, m.m43, m.m44)))
        .push((true, times4(m.m11, m.m22, m.m43, m.m44)))
        .push((true, times4(m.m13, m.m22, m.m41, m.m44)))
        .push((false, times4(m.m12, m.m23, m.m41, m.m44)))
        .push((false, times4(m.m13, m.m21, m.m42, m.m44)))
        .push((true, times4(m.m11, m.m23, m.m42, m.m44)))
        .push((true, times4(m.m12, m.m21, m.m43, m.m44)))
        .push((false, times4(m.m11, m.m22, m.m43, m.m44)));
    assert(s1 + s2 + s3 + s4 =~= canon);
    let ts = seq![times4(m.m13, m.m24, m.m41, m.m42), times4(m.m14, m.m22, m.m41, m.m43), times4(m.m12, m.m23, m.m41, m.m44), times4(m.m14, m.m23, m.m41, m.m42), times4(m.m11, m.m24, m.m42, m.m43), times4(m.m13, m.m21, m.m42, m.m44), times4(m.m12, m.m24, m.m41, m.m43), times4(m.m14, m.m21, m.m42, m.m43), times4(m.m11, m.m22, m.m43, m.m44), times4(m.m13, m.m22, m.m41, m.m44), times4(m.m11, m.m23, m.m42, m.m44), times4(m.m12, m.m21, m.m43, m.m44)];
    reveal_with_fuel(cancelling_pairs, 13);
    let pairs = Seq::empty()
        .push((true, times4(m.m13, m.m24, m.m41, m.m42))).push((false, times4(m.m13, m.m24, m.m41, m.m42)))
        .push((true, times4(m.m14, m.m22, m.m41, m.m43))).push((false, times4(m.m14, m.m22, m.m41, m.m43)))
        .push((true, times4(m.m12, m.m23, m.m41, m.m44))).push((false, times4(m.m12, m.m23, m.m41, m.m44)))
        .push((true, times4(m.m14, m.m23, m.m41, m.m42))).push((false, times4(m.m14, m.m23, m.m41, m.m42)))
        .push((true, times4(m.m11, m.m24, m.m42, m.m43))).push((false, times4(m.m11, m.m24, m.m42, m.m43)))
        .push((true, times4(m.m13, m.m21, m.m42, m.m44))).push((false, times4(m.m13, m.m21, m.m42, m.m44)))
        .push((true, times4(m.m12, m.m24, m.m41, m.m43))).push((false, times4(m.m12, m.m24, m.m41, m.m43)))
        .push((true, times4(m.m14, m.m21, m.m42, m.m43))).push((false, times4(m.m14, m.m21, m.m42, m.m43)))
        .push((true, times4(m.m11, m.m22, m.m43, m.m44))).push((false, times4(m.m11, m.m22, m.m43, m.m44)))
        .push((true, times4(m.m13, m.m22, m.m41, m.m44))).push((false, times4(m.m13, m.m22, m.m41, m.m44)))
        .push((true, times4(m.m11, m.m23, m.m42, m.m44))).push((false, times4(m.m11, m.m23, m.m42, m.m44)))
        .push((true, times4(m.m12, m.m21, m.m43, m.m44))).push((false, times4(m.m12, m.m21, m.m43, m.m44)));
    assert(cancelling_pairs(ts) =~= pairs);
    assert(canon.to_multiset() =~= cancelling_pairs(ts).to_multiset());
    lemma_signed_sum_permutation(canon, cancelling_pairs(ts));
    lemma_cancelling_pairs(ts);
}

/// Row 4 of `m` times column 4 of the adjugate: the determinant.
#[verifier::spinoff_prover]
#[verifier::rlimit(40)]
proof fn lemma_row4_adjugate_col4<T: Add<Output = T> + Sub<Output = T> + Mul<Output = T> + Zero + One>(m: Matrix4<T>)
    requires
        commutative_ring::<T>(),
    ensures
        dot4(
            m.m41, m.m42, m.m43, m.m44,
            adjugate(m).m14, adjugate(m).m24, adjugate(m).m34, adjugate(m).m44,
        ) == determinant(m),
{
    broadcast use group_to_multiset_ensures, group_multiset_axioms;

    let a = adjugate(m);
    let at = adjugate_terms(m);
    lemma_adjugate_m14_terms(m);
    lemma_times_commutes(m.m41, a.m14);
    lemma_signed_sum_times(at.m14, m.m41);
    let s1 = scaled_terms(at.m14, m.m41);
    lemma_adjugate_m24_terms(m);
    lemma_times_commutes(m.m42, a.m24);
    lemma_signed_sum_times(at.m24, m.m42);
    let s2 = scaled_terms(at.m24, m.m42);
    lemma_adjugate_m34_terms(m);
    lemma_times_commutes(m.m43, a.m34);
    lemma_signed_sum_times(at.m34, m.m43);
    let s3 = scaled_terms(at.m34, m.m43);
    lemma_adjugate_m44_terms(m);
    lemma_times_commutes(m.m44, a.m44);
    lemma_signed_sum_times(at.m44, m.m44);
    let s4 = scaled_terms(at.m44, m.m44);
    lemma_signed_sum_concat(s1, s2);
    lemma_signed_sum_concat(s1 + s2, s3);
    lemma_signed_sum_concat(s1 + s2 + s3, s4);
    let canon = Seq::empty()
        .push((true, times4(m.m14, m.m23, m.m32, m.m41)))
        .push((false, times4(m.m13, m.m24, m.m32, m.m41)))
        .push((false, times4(m.m14, m.m22, m.m33, m.m41)))
        .push((true, times4(m.m12, m.m24, m.m33, m.m41)))
        .push((true, times4(m.m13, m.m22, m.m34, m.m41)))
        .push((false, times4(m.m12, m.m23, m.m34, m.m41)))
        .push((true, times4(m.m13, m.m24, m.m31, m.m42)))
        .push((false, times4(m.m14, m.m23, m.m31, m.m42)))
        .push((true, times4(m.m14, m.m21, m.m33, m.m42)))
        .push((false, times4(m.m11, m.m24, m.m33, m.m42)))
        .push((false, times4(m.m13, m.m21, m.m34, m.m42)))
        .push((true, times4(m.m11, m.m23, m.m34, m.m42)))
        .push((true, times4(m.m14, m.m22, m.m31, m.m43)))
        .push((false, times4(m.m12, m.m24, m.m31, m.m43)))
        .push((false, times4(m.m14, m.m21, m.m32, m.m43)))
        .push((true, times4(m.m11, m.m24, m.m32, m.m43)))
        .push((true, times4(m.m12, m.m21, m.m34, m.m43)))
        .push((false, times4(m.m11, m.m22, m.m34, m.m43)))
        .push((true, times4(m.m12, m.m23, m.m31, m.m44)))
        .push((false, times4(m.m13, m.m22, m.m31, m.m44)))
        .push((true, times4(m.m13, m.m21, m.m32, m.m44)))
        .push((false, times4(m.m11, m.m23, m.m32, m.m44)))
        .push((false, times4(m.m12, m.m21, m.m33, m.m44)))
        .push((true, times4(m.m11, m.m22, m.m33, m.m44)));
    assert(s1 + s2 + s3 + s4 =~= canon);
    lemma_determinant_terms(m);
    assert(canon.to_multiset() =~= determinant_terms(m).to_multiset());
    lemma_signed_sum_permutation(canon, determinant_terms(m));
}

/// `x * y == y * x`
proof fn lemma_times_commutes<T: Add<Output = T> + Sub<Output = T> + Mul<Output = T> + Zero + One>(x: T, y: T)
    requires
        commutative_ring::<T>(),
    ensures
        times(x, y) == times(y, x),
{
    reveal(commutative_ring);
}

/// `0 * s == 0`
proof fn lemma_zero_times<T: Add<Output = T> + Sub<Output = T> + Mul<Output = T> + Zero + One>(s: T)
    requires
        commutative_ring::<T>(),
    ensures
        times(T::spec_zero(), s) == T::spec_zero(),
{
    reveal(commutative_ring);
}

/// Scaling the left factors of a row-by-column product scales the product.
proof fn lemma_dot4_scaled_left<T: Add<Output = T> + Sub<Output = T> + Mul<Output = T> + Zero + One>(a1: T, a2: T, a3: T, a4: T, b1: T, b2: T, b3: T, b4: T, s: T)
    requires
        commutative_ring::<T>(),
    ensures
        dot4(times(a1, s), times(a2, s), times(a3, s), times(a4, s), b1, b2, b3, b4) == times(
            dot4(a1, a2, a3, a4, b1, b2, b3, b4),
            s,
        ),
{
    reveal(commutative_ring);
    assert forall|a: T, b: T| #[trigger] times(times(a, s), b) == times(times(a, b), s) by {
        assert(times(times(a, s), b) == times(a, times(s, b)));
        assert(times(s, b) == times(b, s));
        assert(times(a, times(b, s)) == times(times(a, b), s));
    }
    let (p1, p2, p3, p4) = (times(a1, b1), times(a2, b2), times(a3, b3), times(a4, b4));
    assert(plus(times(p1, s), times(p2, s)) == times(plus(p1, p2), s));
    assert(plus(times(plus(p1, p2), s), times(p3, s)) == times(plus(plus(p1, p2), p3), s));
    assert(plus(times(plus(plus(p1, p2), p3), s), times(p4, s)) == times(plus(plus(plus(p1, p2), p3), p4), s));
}

/// Scaling the right factors of a row-by-column product scales the product.
proof fn lemma_dot4_scaled_right<T: Add<Output = T> + Sub<Output = T> + Mul<Output = T> + Zero + One>(a1: T, a2: T, a3: T, a4: T, b1: T, b2: T, b3: T, b4: T, s: T)
    requires
        commutative_ring::<T>(),
    ensures
        dot4(a1, a2, a3, a4, times(b1, s), times(b2, s), times(b3, s), times(b4, s)) == times(
            dot4(a1, a2, a3, a4, b1, b2, b3, b4),
            s,
        ),
{
    reveal(commutative_ring);
    let (p1, p2, p3, p4) = (times(a1, b1), times(a2, b2), times(a3, b3), times(a4, b4));
    assert(plus(times(p1, s), times(p2, s)) == times(plus(p1, p2), s));
    assert(plus(times(plus(p1, p2), s), times(p3, s)) == times(plus(plus(p1, p2), p3), s));
    assert(plus(times(plus(plus(p1, p2), p3), s), times(p4, s)) == times(plus(plus(plus(p1, p2), p3), p4), s));
}

/// The inverse undoes the transform, on both sides: over a field, where the determinant
/// is not zero, the adjugate scaled by `1 / determinant` (what `inverse` returns) times `m`,
/// and `m` times it, are the identity.
pub proof fn lemma_inverse_is_inverse<T: Add<Output = T> + Sub<Output = T> + Mul<Output = T> + Div<Output = T> + Zero + One>(m: Matrix4<T>)
    requires
        field::<T>(),
        determinant(m) != T::spec_zero(),
    ensures
        mat_mul(mat_scaled(adjugate(m), quot(T::spec_one(), determinant(m))), m) == mat_identity::<T>(),
        mat_mul(m, mat_scaled(adjugate(m), quot(T::spec_one(), determinant(m)))) == mat_identity::<T>(),
{
    let a = adjugate(m);
    let s = quot(T::spec_one(), determinant(m));
    assert(times(determinant(m), s) == T::spec_one());
    lemma_zero_times(s);
    lemma_dot4_scaled_left(a.m11, a.m12, a.m13, a.m14, m.m11, m.m21, m.m31, m.m41, s);
    lemma_adjugate_row1_col1(m);
    lemma_dot4_scaled_left(a.m11, a.m12, a.m13, a.m14, m.m12, m.m22, m.m32, m.m42, s);
    lemma_adjugate_row1_col2(m);
    lemma_dot4_scaled_left(a.m11, a.m12, a.m13, a.m14, m.m13, m.m23, m.m33, m.m43, s);
    lemma_adjugate_row1_col3(m);
    lemma_dot4_scaled_left(a.m11, a.m12, a.m13, a.m14, m.m14, m.m24, m.m34, m.m44, s);
    lemma_adjugate_row1_col4(m);
    lemma_dot4_scaled_left(a.m21, a.m22, a.m23, a.m24, m.m11, m.m21, m.m31, m.m41, s);
    lemma_adjugate_row2_col1(m);
    lemma_dot4_scaled_left(a.m21, a.m22, a.m23, a.m24, m.m12, m.m22, m.m32, m.m42, s);
    lemma_adjugate_row2_col2(m);
    lemma_dot4_scaled_left(a.m21, a.m22, a.m23, a.m24, m.m13, m.m23, m.m33, m.m43, s);
    lemma_adjugate_row2_col3(m);
    lemma_dot4_scaled_left(a.m21, a.m22, a.m23, a.m24, m.m14, m.m24, m.m34, m.m44, s);
    lemma_adjugate_row2_col4(m);
    lemma_dot4_scaled_left(a.m31, a.m32, a.m33, a.m34, m.m11, m.m21, m.m31, m.m41, s);
    lemma_adjugate_row3_col1(m);
    lemma_dot4_scaled_left(a.m31, a.m32, a.m33, a.m34, m.m12, m.m22, m.m32, m.m42, s);
    lemma_adjugate_row3_col2(m);
    lemma_dot4_scaled_left(a.m31, a.m32, a.m33, a.m34, m.m13, m.m23, m.m33, m.m43, s);
    lemma_adjugate_row3_col3(m);
    lemma_dot4_scaled_left(a.m31, a.m32, a.m33, a.m34, m.m14, m.m24, m.m34, m.m44, s);
    lemma_adjugate_row3_col4(m);
    lemma_dot4_scaled_left(a.m41, a.m42, a.m43, a.m44, m.m11, m.m21, m.m31, m.m41, s);
    lemma_adjugate_row4_col1(m);
    lemma_dot4_scaled_left(a.m41, a.m42, a.m43, a.m44, m.m12, m.m22, m.m32, m.m42, s);
    lemma_adjugate_row4_col2(m);
    lemma_dot4_scaled_left(a.m41, a.m42, a.m43, a.m44, m.m13, m.m23, m.m33, m.m43, s);
    lemma_adjugate_row4_col3(m);
    lemma_dot4_scaled_left(a.m41, a.m42, a.m43, a.m44, m.m14, m.m24, m.m34, m.m44, s);
    lemma_adjugate_row4_col4(m);
    lemma_dot4_scaled_right(m.m11, m.m12, m.m13, m.m14, a.m11, a.m21, a.m31, a.m41, s);
    lemma_row1_adjugate_col1(m);
    lemma_dot4_scaled_right(m.m11, m.m12, m.m13, m.m14, a.m12, a.m22, a.m32, a.m42, s);
    lemma_row1_adjugate_col2(m);
    lemma_dot4_scaled_right(m.m11, m.m12, m.m13, m.m14, a.m13, a.m23, a.m33, a.m43, s);
    lemma_row1_adjugate_col3(m);
    lemma_dot4_scaled_right(m.m11, m.m12, m.m13, m.m14, a.m14, a.m24, a.m34, a.m44, s);
    lemma_row1_adjugate_col4(m);
    lemma_dot4_scaled_right(m.m21, m.m22, m.m23, m.m24, a.m11, a.m21, a.m31, a.m41, s);
    lemma_row2_adjugate_col1(m);
    lemma_dot4_scaled_right(m.m21, m.m22, m.m23, m.m24, a.m12, a.m22, a.m32, a.m42, s);
    lemma_row2_adjugate_col2(m);
    lemma_dot4_scaled_right(m.m21, m.m22, m.m23, m.m24, a.m13, a.m23, a.m33, a.m43, s);
    lemma_row2_adjugate_col3(m);
    lemma_dot4_scaled_right(m.m21, m.m22, m.m23, m.m24, a.m14, a.m24, a.m34, a.m44, s);
    lemma_row2_adjugate_col4(m);
    lemma_dot4_scaled_right(m.m31, m.m32, m.m33, m.m34, a.m11, a.m21, a.m31, a.m41, s);
    lemma_row3_adjugate_col1(m);
    lemma_dot4_scaled_right(m.m31, m.m32, m.m33, m.m34, a.m12, a.m22, a.m32, a.m42, s);
    lemma_row3_adjugate_col2(m);
    lemma_dot4_scaled_right(m.m31, m.m32, m.m33, m.m34, a.m13, a.m23, a.m33, a.m43, s);
    lemma_row3_adjugate_col3(m);
    lemma_dot4_scaled_right(m.m31, m.m32, m.m33, m.m34, a.m14, a.m24, a.m34, a.m44, s);
    lemma_row3_adjugate_col4(m);
    lemma_dot4_scaled_right(m.m41, m.m42, m.m43, m.m44, a.m11, a.m21, a.m31, a.m41, s);
    lemma_row4_adjugate_col1(m);
    lemma_dot4_scaled_right(m.m41, m.m42, m.m43, m.m44, a.m12, a.m22, a.m32, a.m42, s);
    lemma_row4_adjugate_col2(m);
    lemma_dot4_scaled_right(m.m41, m.m42, m.m43, m.m44, a.m13, a.m23, a.m33, a.m43, s);
    lemma_row4_adjugate_col3(m);
    lemma_dot4_scaled_right(m.m41, m.m42, m.m43, m.m44, a.m14, a.m24, a.m34, a.m44, s);
    lemma_row4_adjugate_col4(m);
}

} // verus!
