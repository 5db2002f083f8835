//! Sums of signed terms over a commutative ring, and the rearrangements that keep
//! their value: the algebra behind the laws of the determinant and the inverse.
use crate::num::{minus, plus, quot, times, One, Zero};
use core::ops::{Add, Div, Mul, Sub};
use vstd::prelude::*;
use vstd::seq_lib::group_to_multiset_ensures;

verus! {

/// `T`'s `+`, `-` and `*` satisfy the identities of a commutative ring (with `0` and `1`
/// from `Zero` and `One`).
#[verifier::opaque]
pub open spec fn commutative_ring<T: Add<Output = T> + Sub<Output = T> + Mul<Output = T> + Zero + One>() -> bool {
    let o = T::spec_zero();
    let l = T::spec_one();
    &&& forall|x: T, y: T, z: T| #[trigger] plus(plus(x, y), z) == plus(x, plus(y, z))
    &&& forall|x: T, y: T| #[trigger] plus(x, y) == plus(y, x)
    &&& forall|x: T| #[trigger] plus(x, o) == x
    &&& forall|x: T, y: T| #[trigger] minus(x, y) == plus(x, minus(o, y))
    &&& forall|x: T| #[trigger] plus(x, minus(o, x)) == o
    &&& forall|x: T, y: T, z: T| #[trigger] times(times(x, y), z) == times(x, times(y, z))
    &&& forall|x: T, y: T| #[trigger] times(x, y) == times(y, x)
    &&& forall|x: T| #[trigger] times(x, l) == x
    &&& forall|x: T, y: T, z: T| #[trigger] times(plus(x, y), z) == plus(times(x, z), times(y, z))
    &&& forall|x: T, y: T, z: T| #[trigger] times(minus(x, y), z) == minus(times(x, z), times(y, z))
    &&& forall|x: T| #[trigger] times(o, x) == o
}

/// A commutative ring in which every element but `0` has the inverse `1 / x`.
pub open spec fn field<T: Add<Output = T> + Sub<Output = T> + Mul<Output = T> + Div<Output = T> + Zero + One>() -> bool {
    &&& commutative_ring::<T>()
    &&& forall|x: T| x != T::spec_zero() ==> #[trigger] times(x, quot(T::spec_one(), x)) == T::spec_one()
}

/// `r + t` for a positive term, `r - t` for a negative one.
pub open spec fn step<T: Add<Output = T> + Sub<Output = T>>(r: T, term: (bool, T)) -> T {
    if term.0 {
        plus(r, term.1)
    } else {
        minus(r, term.1)
    }
}

/// `0 ± t1 ± t2 ...`, evaluated left to right: `(true, t)` adds `t`, `(false, t)` subtracts it.
pub open spec fn signed_sum<T: Add<Output = T> + Sub<Output = T> + Zero>(s: Seq<(bool, T)>) -> T
    decreases s.len(),
{
    if s.len() == 0 {
        T::spec_zero()
    } else {
        step(signed_sum(s.drop_last()), s.last())
    }
}

/// Every term multiplied by `c` on the right.
pub open spec fn scaled_terms<T: Mul<Output = T>>(s: Seq<(bool, T)>, c: T) -> Seq<(bool, T)> {
    s.map_values(|term: (bool, T)| (term.0, times(term.1, c)))
}

/// Each of `ts` added and then subtracted.
pub open spec fn cancelling_pairs<T>(ts: Seq<T>) -> Seq<(bool, T)>
    decreases ts.len(),
{
    if ts.len() == 0 {
        Seq::empty()
    } else {
        cancelling_pairs(ts.drop_last()).push((true, ts.last())).push((false, ts.last()))
    }
}

/// The facts about `0` that follow from the ring identities.
pub proof fn lemma_ring_zero<T: Add<Output = T> + Sub<Output = T> + Mul<Output = T> + Zero + One>(x: T)
    requires
        commutative_ring::<T>(),
    ensures
        plus(x, T::spec_zero()) == x,
        plus(T::spec_zero(), x) == x,
        minus(x, T::spec_zero()) == x,
        times(T::spec_zero(), x) == T::spec_zero(),
        times(x, T::spec_zero()) == T::spec_zero(),
{
    reveal(commutative_ring);
    let o = T::spec_zero();
    assert(plus(o, x) == plus(x, o));
    assert(times(x, o) == times(o, x));
    assert(plus(o, minus(o, o)) == o);
    assert(minus(o, o) == plus(o, minus(o, o)));
    assert(minus(x, o) == plus(x, minus(o, o)));
}

proof fn lemma_plus_zero_left<T: Add<Output = T> + Sub<Output = T> + Mul<Output = T> + Zero + One>(x: T)
    requires
        commutative_ring::<T>(),
    ensures
        plus(T::spec_zero(), x) == x,
{
    reveal(commutative_ring);
    assert(plus(T::spec_zero(), x) == plus(x, T::spec_zero()));
}

/// Two steps commute: `(r ± a) ± b == (r ± b) ± a`.
proof fn lemma_step_swap<T: Add<Output = T> + Sub<Output = T> + Mul<Output = T> + Zero + One>(
    r: T,
    a: (bool, T),
    b: (bool, T),
)
    requires
        commutative_ring::<T>(),
    ensures
        step(step(r, a), b) == step(step(r, b), a),
{
    reveal(commutative_ring);
    let o = T::spec_zero();
    // each step adds a signed value
    let va = if a.0 { a.1 } else { minus(o, a.1) };
    let vb = if b.0 { b.1 } else { minus(o, b.1) };
    assert(step(r, a) == plus(r, va));
    assert(step(plus(r, va), b) == plus(plus(r, va), vb));
    assert(step(r, b) == plus(r, vb));
    assert(step(plus(r, vb), a) == plus(plus(r, vb), va));
    assert(plus(plus(r, va), vb) == plus(r, plus(va, vb)));
    assert(plus(va, vb) == plus(vb, va));
    assert(plus(plus(r, vb), va) == plus(r, plus(vb, va)));
}

/// Removing the term at `i` and adding it last keeps the sum.
proof fn lemma_signed_sum_remove<T: Add<Output = T> + Sub<Output = T> + Mul<Output = T> + Zero + One>(
    s: Seq<(bool, T)>,
    i: int,
)
    requires
        commutative_ring::<T>(),
        0 <= i < s.len(),
    ensures
        signed_sum(s) == step(signed_sum(s.remove(i)), s[i]),
    decreases s.len(),
{
    if i == s.len() - 1 {
        assert(s.remove(i) =~= s.drop_last());
    } else {
        let t = s.drop_last();
        lemma_signed_sum_remove(t, i);
        assert(s.remove(i).drop_last() =~= t.remove(i));
        assert(s.remove(i).last() == s.last());
        lemma_step_swap(signed_sum(t.remove(i)), s[i], s.last());
    }
}

/// A signed sum does not depend on the order of its terms.
pub proof fn lemma_signed_sum_permutation<T: Add<Output = T> + Sub<Output = T> + Mul<Output = T> + Zero + One>(
    s1: Seq<(bool, T)>,
    s2: Seq<(bool, T)>,
)
    requires
        commutative_ring::<T>(),
        s1.to_multiset() == s2.to_multiset(),
    ensures
        signed_sum(s1) == signed_sum(s2),
    decreases s1.len(),
{
    broadcast use group_to_multiset_ensures;

    if s1.len() == 0 {
        assert(s2.to_multiset().len() == 0);
    } else {
        let x = s1.last();
        assert(s1.drop_last().push(x) =~= s1);
        assert(s1.to_multiset().count(x) > 0);
        assert(s2.contains(x));
        let i = choose|i: int| 0 <= i < s2.len() && s2[i] == x;
        assert(s1.drop_last().to_multiset() =~= s1.to_multiset().remove(x));
        assert(s2.remove(i).to_multiset() =~= s2.to_multiset().remove(x));
        lemma_signed_sum_permutation(s1.drop_last(), s2.remove(i));
        lemma_signed_sum_remove(s2, i);
    }
}

/// Concatenated sums add: `sum(a) + sum(b) == sum(a + b)`.
pub proof fn lemma_signed_sum_concat<T: Add<Output = T> + Sub<Output = T> + Mul<Output = T> + Zero + One>(
    a: Seq<(bool, T)>,
    b: Seq<(bool, T)>,
)
    requires
        commutative_ring::<T>(),
    ensures
        plus(signed_sum(a), signed_sum(b)) == signed_sum(a + b),
    decreases b.len(),
{
    reveal(commutative_ring);
    if b.len() == 0 {
        assert(a + b =~= a);
    } else {
        let b0 = b.drop_last();
        let x = b.last();
        lemma_signed_sum_concat(a, b0);
        assert((a + b).drop_last() =~= a + b0);
        assert((a + b).last() == x);
        let o = T::spec_zero();
        let vx = if x.0 { x.1 } else { minus(o, x.1) };
        let sa = signed_sum(a);
        let sb = signed_sum(b0);
        assert(step(sb, x) == plus(sb, vx));
        assert(step(plus(sa, sb), x) == plus(plus(sa, sb), vx));
        assert(plus(plus(sa, sb), vx) == plus(sa, plus(sb, vx)));
    }
}

/// One step times `c`: `(r ± t) * c == r * c ± t * c`, and `0 * c == 0`.
proof fn lemma_step_times<T: Add<Output = T> + Sub<Output = T> + Mul<Output = T> + Zero + One>(
    r: T,
    t: (bool, T),
    c: T,
)
    requires
        commutative_ring::<T>(),
    ensures
        times(step(r, t), c) == step(times(r, c), (t.0, times(t.1, c))),
        times(T::spec_zero(), c) == T::spec_zero(),
{
    reveal(commutative_ring);
    if t.0 {
        assert(times(plus(r, t.1), c) == plus(times(r, c), times(t.1, c)));
    } else {
        assert(times(minus(r, t.1), c) == minus(times(r, c), times(t.1, c)));
    }
}

/// A sum times `c` is the sum of its terms times `c`.
pub proof fn lemma_signed_sum_times<T: Add<Output = T> + Sub<Output = T> + Mul<Output = T> + Zero + One>(
    s: Seq<(bool, T)>,
    c: T,
)
    requires
        commutative_ring::<T>(),
    ensures
        times(signed_sum(s), c) == signed_sum(scaled_terms(s, c)),
    decreases s.len(),
{
    if s.len() == 0 {
        lemma_step_times(T::spec_zero(), (true, c), c);
        assert(scaled_terms(s, c).len() == 0);
    } else {
        lemma_signed_sum_times(s.drop_last(), c);
        assert(scaled_terms(s, c).drop_last() =~= scaled_terms(s.drop_last(), c));
        assert(scaled_terms(s, c).last() == (s.last().0, times(s.last().1, c)));
        lemma_step_times(signed_sum(s.drop_last()), s.last(), c);
    }
}

/// `(r + t) - t == r`
proof fn lemma_add_sub_cancel<T: Add<Output = T> + Sub<Output = T> + Mul<Output = T> + Zero + One>(r: T, t: T)
    requires
        commutative_ring::<T>(),
    ensures
        minus(plus(r, t), t) == r,
{
    reveal(commutative_ring);
    let o = T::spec_zero();
    assert(minus(plus(r, t), t) == plus(plus(r, t), minus(o, t)));
    assert(plus(plus(r, t), minus(o, t)) == plus(r, plus(t, minus(o, t))));
}

/// Terms that cancel in pairs sum to zero.
pub proof fn lemma_cancelling_pairs<T: Add<Output = T> + Sub<Output = T> + Mul<Output = T> + Zero + One>(
    ts: Seq<T>,
)
    requires
        commutative_ring::<T>(),
    ensures
        signed_sum(cancelling_pairs(ts)) == T::spec_zero(),
    decreases ts.len(),
{
    if ts.len() > 0 {
        lemma_cancelling_pairs(ts.drop_last());
        let t = ts.last();
        let p = cancelling_pairs(ts.drop_last());
        let q = p.push((true, t));
        assert(cancelling_pairs(ts) == q.push((false, t)));
        assert(q.push((false, t)).drop_last() =~= q);
        assert(q.drop_last() =~= p);
        assert(signed_sum(q) == plus(signed_sum(p), t));
        assert(signed_sum(q.push((false, t))) == minus(signed_sum(q), t));
        lemma_add_sub_cancel(signed_sum(p), t);
    }
}

} // verus!
