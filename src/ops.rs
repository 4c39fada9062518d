//! The set protocol: capabilities that every set-like type of the library
//! offers, each in a trait of its own, with a mathematical reading of each
//! operation in a spec function.
//!
//! `i32` takes part as a one-point set: a number contains itself only, is
//! its own lower and upper bound, and is a subset of, or overlaps, exactly
//! the equal number.
use vstd::prelude::*;

verus! {

/// A collection whose number of elements can be counted.
pub trait Cardinality {
    /// The number of elements.
    spec fn card(&self) -> nat;

    fn size(&self) -> (r: usize)
        ensures
            r as nat == self.card(),
    ;

    fn is_empty(&self) -> (r: bool)
        ensures
            r == (self.card() == 0),
    {
        self.size() == 0
    }

    fn is_singleton(&self) -> (r: bool)
        ensures
            r == (self.card() == 1),
    {
        self.size() == 1
    }
}

/// A collection that can hold exactly one given element.
pub trait Singleton<Item>: Sized {
    spec fn singleton_spec(value: Item) -> Self;

    fn singleton(value: Item) -> (r: Self)
        ensures
            r == Self::singleton_spec(value),
    ;
}

/// A collection that can be empty.
pub trait Empty: Sized {
    spec fn empty_spec() -> Self;

    fn empty() -> (r: Self)
        ensures
            r == Self::empty_spec(),
    ;
}

/// A set with a smallest and a largest bound.
pub trait Bounded {
    type Bound;

    /// Whether the bounds are defined (they are not on an empty set).
    spec fn has_bounds(&self) -> bool;

    spec fn lower_spec(&self) -> Self::Bound;

    spec fn upper_spec(&self) -> Self::Bound;

    fn lower(&self) -> (r: Self::Bound)
        requires
            self.has_bounds(),
        ensures
            r == self.lower_spec(),
    ;

    fn upper(&self) -> (r: Self::Bound)
        requires
            self.has_bounds(),
        ensures
            r == self.upper_spec(),
    ;
}

/// The elements that two sets share.
pub trait Intersection<Rhs = Self> {
    type Output;

    fn intersection(&self, other: &Rhs) -> Self::Output;
}

/// The elements of one set that are not in another.
pub trait Difference<Rhs = Self> {
    type Output;

    fn difference(&self, other: &Rhs) -> Self::Output;
}

/// Whether two sets share no element.
pub trait Disjoint<Rhs = Self> {
    spec fn disjoint_spec(&self, other: &Rhs) -> bool;

    fn is_disjoint(&self, other: &Rhs) -> (r: bool)
        ensures
            r == self.disjoint_spec(other),
    ;
}

/// Whether a set holds a given element.
pub trait Contains<Item> {
    spec fn contains_spec(&self, value: &Item) -> bool;

    fn contains(&self, value: &Item) -> (r: bool)
        ensures
            r == self.contains_spec(value),
    ;
}

/// Whether every element of one set is in another.
pub trait Subset<Rhs = Self> {
    spec fn subset_spec(&self, other: &Rhs) -> bool;

    fn is_subset(&self, other: &Rhs) -> (r: bool)
        ensures
            r == self.subset_spec(other),
    ;
}

/// Whether one set is a subset of another and differs from it.
pub trait ProperSubset<Rhs = Self> {
    fn is_proper_subset(&self, other: &Rhs) -> bool;
}

/// Whether two sets have an element in common.
pub trait Overlap<Rhs = Self> {
    spec fn overlap_spec(&self, other: &Rhs) -> bool;

    fn overlap(&self, other: &Rhs) -> (r: bool)
        ensures
            r == self.overlap_spec(other),
    ;
}

/// Keeps the elements that are greater than or equal to a lower bound.
pub trait ShrinkLeft<Bound>: Sized {
    fn shrink_left(&self, lb: Bound) -> Self;
}

/// Keeps the elements that are less than or equal to an upper bound.
pub trait ShrinkRight<Bound>: Sized {
    fn shrink_right(&self, ub: Bound) -> Self;
}

/// Keeps the elements that are strictly greater than a lower bound.
pub trait StrictShrinkLeft<Bound>: Sized {
    fn strict_shrink_left(&self, lb: Bound) -> Self;
}

/// Keeps the elements that are strictly less than an upper bound.
pub trait StrictShrinkRight<Bound>: Sized {
    fn strict_shrink_right(&self, ub: Bound) -> Self;
}

impl Bounded for i32 {
    type Bound = i32;

    open spec fn has_bounds(&self) -> bool {
        true
    }

    open spec fn lower_spec(&self) -> i32 {
        *self
    }

    open spec fn upper_spec(&self) -> i32 {
        *self
    }

    fn lower(&self) -> (r: i32) {
        *self
    }

    fn upper(&self) -> (r: i32) {
        *self
    }
}

impl Contains<i32> for i32 {
    open spec fn contains_spec(&self, value: &i32) -> bool {
        *self == *value
    }

    fn contains(&self, value: &i32) -> (r: bool) {
        *self == *value
    }
}

impl Disjoint for i32 {
    open spec fn disjoint_spec(&self, other: &i32) -> bool {
        *self != *other
    }

    fn is_disjoint(&self, other: &i32) -> (r: bool) {
        *self != *other
    }
}

impl Subset for i32 {
    open spec fn subset_spec(&self, other: &i32) -> bool {
        *self == *other
    }

    fn is_subset(&self, other: &i32) -> (r: bool) {
        *self == *other
    }
}

impl Overlap for i32 {
    open spec fn overlap_spec(&self, other: &i32) -> bool {
        *self == *other
    }

    fn overlap(&self, other: &i32) -> (r: bool) {
        *self == *other
    }
}

} // verus!
