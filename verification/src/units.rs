//! Units, angles and scale factors.
use core::marker::PhantomData;
use vstd::prelude::*;

verus! {

/// `Clone` of `PhantomData` (std's `impl Clone for PhantomData<T>`): the marker holds
/// nothing, and its clone is the same marker value.  Stated here so that derived
/// `Clone` impls of the unit-tagged types can be verified.
pub assume_specification<T: core::marker::PointeeSized>[ <PhantomData<T> as Clone>::clone ](p: &PhantomData<T>) -> (r:
    PhantomData<T>)
    ensures
        r == *p,
;

/// The default unit.
#[derive(Clone, Copy, Debug, PartialEq, Eq, Hash, Default)]
pub struct UnknownUnit;

/// An angle in radians.
#[derive(Clone, Copy, Debug, PartialEq)]
pub struct Angle<T> {
    pub radians: T,
}

impl<T: Copy> Angle<T> {
    pub fn radians(radians: T) -> (r: Self)
        ensures
            r.radians == radians,
    {
        Angle { radians }
    }

    pub fn get(self) -> (r: T)
        ensures
            r == self.radians,
    {
        self.radians
    }
}

/// A scale factor that converts lengths in the unit `Src` into lengths in `Dst`.
#[derive(Clone, Copy, Debug, PartialEq)]
pub struct Scale<T, Src, Dst>(pub T, pub PhantomData<(Src, Dst)>);

impl<T: Copy, Src, Dst> Scale<T, Src, Dst> {
    pub fn new(x: T) -> (r: Self)
        ensures
            r.0 == x,
    {
        Scale(x, PhantomData)
    }

    pub fn get(self) -> (r: T)
        ensures
            r == self.0,
    {
        self.0
    }
}

} // verus!
