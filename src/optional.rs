//! `Optional<T>`: a set of zero or one element, taking part in the set
//! protocol of `ops`. Questions on the element itself (bounds, containment,
//! disjointness, subset, overlap) are handed on to `T`; this type decides
//! only what happens at the empty set.
use vstd::prelude::*;
use crate::ops::{
    Bounded, Cardinality, Contains, Difference, Disjoint, Empty, Intersection, Overlap,
    ProperSubset, ShrinkLeft, ShrinkRight, Singleton, StrictShrinkLeft, StrictShrinkRight, Subset,
};
use std::ops::{Deref, DerefMut};
use vstd::std_specs::cmp::{PartialEqSpec, PartialOrdSpec};
use std::cmp::Ordering;

verus! {

/// The empty set, or the set of one value.
#[derive(Clone, Copy, PartialEq, Eq, PartialOrd, Ord, Debug)]
pub struct Optional<T> {
    value: Option<T>,
}

impl<T> View for Optional<T> {
    type V = Option<T>;

    closed spec fn view(&self) -> Option<T> {
        self.value
    }
}

impl<T> Optional<T> {
    /// Lifts a raw optional value into a set, empty exactly when it is `None`.
    pub fn wrap(value: Option<T>) -> (r: Optional<T>)
        ensures
            r@ == value,
    {
        Optional { value: value }
    }
}

impl<T> Deref for Optional<T> {
    type Target = Option<T>;

    /// Read access to the raw optional value.
    fn deref(&self) -> (r: &Option<T>)
        ensures
            *r == self@,
    {
        &self.value
    }
}

impl<T> DerefMut for Optional<T> {
    /// Write access to the raw optional value.
    fn deref_mut(&mut self) -> (r: &mut Option<T>)
        ensures
            *r == old(self)@,
    {
        &mut self.value
    }
}

impl<T> Cardinality for Optional<T> {
    open spec fn card(&self) -> nat {
        if self@ is Some {
            1
        } else {
            0
        }
    }

    fn size(&self) -> (r: usize) {
        if self.value.is_some() {
            1
        } else {
            0
        }
    }
}

impl<T> Singleton<T> for Optional<T> {
    closed spec fn singleton_spec(value: T) -> Optional<T> {
        Optional { value: Some(value) }
    }

    fn singleton(value: T) -> (r: Optional<T>)
        ensures
            r@ == Some(value),
    {
        Optional::wrap(Some(value))
    }
}

impl<T> Empty for Optional<T> {
    closed spec fn empty_spec() -> Optional<T> {
        Optional { value: None }
    }

    fn empty() -> (r: Optional<T>)
        ensures
            r@ is None,
    {
        Optional::wrap(None)
    }
}

impl<T: Bounded> Bounded for Optional<T> {
    type Bound = T::Bound;

    /// Bounds exist on a non-empty set whose element has them.
    open spec fn has_bounds(&self) -> bool {
        self@ is Some && self@.unwrap().has_bounds()
    }

    open spec fn lower_spec(&self) -> T::Bound {
        self@.unwrap().lower_spec()
    }

    open spec fn upper_spec(&self) -> T::Bound {
        self@.unwrap().upper_spec()
    }

    fn lower(&self) -> (r: T::Bound) {
        self.value.as_ref().unwrap().lower()
    }

    fn upper(&self) -> (r: T::Bound) {
        self.value.as_ref().unwrap().upper()
    }
}

/// `==` on `T` compares values as they are: it agrees with equality of values.
pub open spec fn faithful_eq<T: PartialEq>() -> bool {
    &&& T::obeys_eq_spec()
    &&& forall|x: T, y: T| #[trigger] x.eq_spec(&y) <==> x == y
}

/// `clone` on `T` gives back an equal value.
pub open spec fn faithful_clone<T: Clone>() -> bool {
    forall|x: T, y: T| #[trigger] cloned(x, y) ==> x == y
}

/// The common part of two zero-or-one-element sets: the element, where both
/// hold the same one.
pub open spec fn meet<T>(a: Option<T>, b: Option<T>) -> Option<T> {
    if a is Some && a == b {
        a
    } else {
        None
    }
}

/// What remains of `a` once the elements of `b` are taken out.
pub open spec fn minus<T>(a: Option<T>, b: Option<T>) -> Option<T> {
    if a == b {
        None
    } else {
        a
    }
}

impl<T: PartialEq + Clone> Intersection for Optional<T> {
    type Output = Optional<T>;

    fn intersection(&self, other: &Optional<T>) -> (r: Optional<T>)
        ensures
            self@ is None || other@ is None ==> r@ is None,
            T::obeys_eq_spec() ==> (r@ is Some <==> self@ is Some && other@ is Some
                && self@.unwrap().eq_spec(&other@.unwrap())),
            r@ is Some ==> cloned(self@.unwrap(), r@.unwrap()),
            faithful_eq::<T>() && faithful_clone::<T>() ==> r@ == meet(self@, other@),
    {
        if self.value.is_none() || other.value.is_none() || !(self.value == other.value) {
            Optional::empty()
        } else {
            Optional::wrap(self.value.clone())
        }
    }
}

impl<T: PartialEq + Clone> Difference for Optional<T> {
    type Output = Optional<T>;

    fn difference(&self, other: &Optional<T>) -> (r: Optional<T>)
        ensures
            self@ is None ==> r@ is None,
            T::obeys_eq_spec() ==> (r@ is Some <==> self@ is Some && !self@.eq_spec(&other@)),
            r@ is Some ==> cloned(self@.unwrap(), r@.unwrap()),
            faithful_eq::<T>() && faithful_clone::<T>() ==> r@ == minus(self@, other@),
    {
        if self.value.is_none() || self.value == other.value {
            Optional::empty()
        } else {
            Optional::wrap(self.value.clone())
        }
    }
}

impl<T: Disjoint<U>, U> Disjoint<Optional<U>> for Optional<T> {
    /// An empty set is disjoint from every set; two singletons are disjoint
    /// when their elements are.
    open spec fn disjoint_spec(&self, other: &Optional<U>) -> bool {
        match (self@, other@) {
            (Some(x), Some(y)) => x.disjoint_spec(&y),
            _ => true,
        }
    }

    fn is_disjoint(&self, other: &Optional<U>) -> (r: bool) {
        self.value.is_none() || other.value.is_none() || self.value.as_ref().unwrap().is_disjoint(
            other.value.as_ref().unwrap(),
        )
    }
}

impl<U, T: Contains<U>> Contains<U> for Optional<T> {
    /// An empty set contains nothing; a singleton what its element contains.
    open spec fn contains_spec(&self, value: &U) -> bool {
        match self@ {
            Some(x) => x.contains_spec(value),
            None => false,
        }
    }

    fn contains(&self, value: &U) -> (r: bool) {
        match &self.value {
            Some(x) => x.contains(value),
            None => false,
        }
    }
}

impl<T: Subset<U>, U> Subset<Optional<U>> for Optional<T> {
    /// The empty set is a subset of every set, a singleton of no empty set,
    /// and of another singleton when its element is a subset of the other's.
    open spec fn subset_spec(&self, other: &Optional<U>) -> bool {
        match (self@, other@) {
            (None, _) => true,
            (Some(_), None) => false,
            (Some(x), Some(y)) => x.subset_spec(&y),
        }
    }

    fn is_subset(&self, other: &Optional<U>) -> (r: bool) {
        if self.value.is_none() {
            true
        } else if other.value.is_none() {
            false
        } else {
            self.value.as_ref().unwrap().is_subset(other.value.as_ref().unwrap())
        }
    }
}

impl<T: Subset + PartialEq> ProperSubset for Optional<T> {
    fn is_proper_subset(&self, other: &Optional<T>) -> (r: bool)
        ensures
            r ==> self.subset_spec(other),
            T::obeys_eq_spec() ==> r == (self.subset_spec(other) && !self@.eq_spec(&other@)),
            faithful_eq::<T>() ==> r == (self.subset_spec(other) && self@ != other@),
    {
        self.is_subset(other) && !(self.value == other.value)
    }
}

impl<T: Overlap> Overlap for Optional<T> {
    /// Two sets overlap when both hold an element and those elements overlap.
    open spec fn overlap_spec(&self, other: &Optional<T>) -> bool {
        match (self@, other@) {
            (Some(x), Some(y)) => x.overlap_spec(&y),
            _ => false,
        }
    }

    fn overlap(&self, other: &Optional<T>) -> (r: bool) {
        if self.value.is_none() || other.value.is_none() {
            false
        } else {
            self.value.as_ref().unwrap().overlap(other.value.as_ref().unwrap())
        }
    }
}

/// `x` is greater than or equal to `b` in `T`'s order.
pub open spec fn at_least<T: PartialOrd>(x: T, b: T) -> bool {
    x.partial_cmp_spec(&b) matches Some(Ordering::Greater | Ordering::Equal)
}

/// `x` is less than or equal to `b` in `T`'s order.
pub open spec fn at_most<T: PartialOrd>(x: T, b: T) -> bool {
    x.partial_cmp_spec(&b) matches Some(Ordering::Less | Ordering::Equal)
}

/// `x` is strictly greater than `b` in `T`'s order.
pub open spec fn above<T: PartialOrd>(x: T, b: T) -> bool {
    x.partial_cmp_spec(&b) == Some(Ordering::Greater)
}

/// `x` is strictly less than `b` in `T`'s order.
pub open spec fn below<T: PartialOrd>(x: T, b: T) -> bool {
    x.partial_cmp_spec(&b) == Some(Ordering::Less)
}

/// Keeps the element of `value` when `cond` accepts it against `bound`.
fn shrink_if<T: Ord + Clone, F: FnOnce(&T, &T) -> bool>(value: &Optional<T>, bound: T, cond: F) -> (r:
    Optional<T>)
    requires
        value@ is Some ==> cond.requires((&value@.unwrap(), &bound)),
    ensures
        value@ is None ==> r@ is None,
        r@ is Some ==> cond.ensures((&value@.unwrap(), &bound), true),
        value@ is Some && r@ is None ==> cond.ensures((&value@.unwrap(), &bound), false),
        r@ is Some ==> cloned(value@.unwrap(), r@.unwrap()),
{
    match &value.value {
        Some(x) => {
            if cond(x, &bound) {
                Optional::singleton(x.clone())
            } else {
                Optional::empty()
            }
        },
        None => Optional::empty(),
    }
}

impl<T: Ord + Clone> ShrinkLeft<T> for Optional<T> {
    fn shrink_left(&self, lb: T) -> (r: Optional<T>)
        ensures
            self@ is None ==> r@ is None,
            T::obeys_partial_cmp_spec() ==> (r@ is Some <==> self@ is Some && at_least(
                self@.unwrap(),
                lb,
            )),
            r@ is Some ==> cloned(self@.unwrap(), r@.unwrap()),
    {
        shrink_if(
            self,
            lb,
            (|x: &T, lb: &T| -> (b: bool)
                ensures
                    T::obeys_partial_cmp_spec() ==> b == at_least(*x, *lb),
                { x >= lb }),
        )
    }
}

impl<T: Ord + Clone> ShrinkRight<T> for Optional<T> {
    fn shrink_right(&self, ub: T) -> (r: Optional<T>)
        ensures
            self@ is None ==> r@ is None,
            T::obeys_partial_cmp_spec() ==> (r@ is Some <==> self@ is Some && at_most(
                self@.unwrap(),
                ub,
            )),
            r@ is Some ==> cloned(self@.unwrap(), r@.unwrap()),
    {
        shrink_if(
            self,
            ub,
            (|x: &T, ub: &T| -> (b: bool)
                ensures
                    T::obeys_partial_cmp_spec() ==> b == at_most(*x, *ub),
                { x <= ub }),
        )
    }
}

impl<T: Ord + Clone> StrictShrinkLeft<T> for Optional<T> {
    fn strict_shrink_left(&self, lb: T) -> (r: Optional<T>)
        ensures
            self@ is None ==> r@ is None,
            T::obeys_partial_cmp_spec() ==> (r@ is Some <==> self@ is Some && above(
                self@.unwrap(),
                lb,
            )),
            r@ is Some ==> cloned(self@.unwrap(), r@.unwrap()),
    {
        shrink_if(
            self,
            lb,
            (|x: &T, lb: &T| -> (b: bool)
                ensures
                    T::obeys_partial_cmp_spec() ==> b == above(*x, *lb),
                { x > lb }),
        )
    }
}

impl<T: Ord + Clone> StrictShrinkRight<T> for Optional<T> {
    fn strict_shrink_right(&self, ub: T) -> (r: Optional<T>)
        ensures
            self@ is None ==> r@ is None,
            T::obeys_partial_cmp_spec() ==> (r@ is Some <==> self@ is Some && below(
                self@.unwrap(),
                ub,
            )),
            r@ is Some ==> cloned(self@.unwrap(), r@.unwrap()),
    {
        shrink_if(
            self,
            ub,
            (|x: &T, ub: &T| -> (b: bool)
                ensures
                    T::obeys_partial_cmp_spec() ==> b == below(*x, *ub),
                { x < ub }),
        )
    }
}

/// Integers compare and clone as plain values, so the contracts above that
/// assume so hold of `Optional<i32>` without condition.
pub proof fn lemma_i32_is_faithful()
    ensures
        faithful_eq::<i32>(),
        faithful_clone::<i32>(),
        <i32 as PartialOrdSpec>::obeys_partial_cmp_spec(),
{
}

/// `empty()` builds what `wrap(None)` builds, and `singleton(v)` what
/// `wrap(Some(v))` builds.
pub proof fn lemma_constructors_wrap<T>(v: T)
    ensures
        Optional::<T>::empty_spec()@ == None::<T>,
        Optional::<T>::singleton_spec(v)@ == Some(v),
{
}

/// Intersection does not depend on the order of its operands.
pub proof fn lemma_intersection_symmetric<T>(a: Optional<T>, b: Optional<T>)
    ensures
        meet(a@, b@) == meet(b@, a@),
{
}

/// A set with an empty side is disjoint and does not overlap; between two
/// singletons, disjointness is the negation of overlap exactly when it is so
/// between their elements.
pub proof fn lemma_disjoint_overlap_duality<T: Disjoint + Overlap>(a: Optional<T>, b: Optional<T>)
    ensures
        a@ is None || b@ is None ==> a.disjoint_spec(&b) && !a.overlap_spec(&b),
        a@ is Some && b@ is Some ==> (a.disjoint_spec(&b) == !a.overlap_spec(&b)
            <==> a@.unwrap().disjoint_spec(&b@.unwrap()) == !a@.unwrap().overlap_spec(
            &b@.unwrap(),
        )),
{
}

/// A set meets itself in itself, and nothing remains of it once it is taken
/// from itself.
pub proof fn lemma_idempotent<T>(a: Optional<T>)
    ensures
        meet(a@, a@) == a@,
        minus(a@, a@) == None::<T>,
{
}

} // verus!
