//! The marker for a type parameter.

#![allow(unused_imports)]

use crate::anchor::Anchored;
use crate::formatter::written;
use std::cmp::Ordering;
use std::fmt::Debug;
use std::fmt::Formatter;
use std::hash::Hash;
use std::hash::Hasher;
use std::marker::PhantomData;
use vstd::laws_cmp::obeys_cmp_partial_ord;
use vstd::laws_cmp::obeys_partial_cmp_spec_properties;
use vstd::laws_eq::obeys_concrete_eq;
use vstd::laws_eq::obeys_eq;
use vstd::laws_eq::obeys_eq_spec_properties;
use vstd::prelude::*;
use vstd::std_specs::cmp::PartialEqIs;
use vstd::std_specs::cmp::PartialEqSpec;
use vstd::std_specs::cmp::PartialOrdIs;
use vstd::std_specs::cmp::PartialOrdSpec;

verus! {

/// A marker for forcing `T` to be considered invariant.
///
/// The marker holds no `T`, no pointer and no reference to one. It has one
/// value per `T` ([`lemma_one_marker`]), takes no space, and is `Copy`,
/// `Send` and `Sync` for every `T`, also for a `T` that is none of these.
pub struct Invariant<T>(Anchored<T>);

impl<T> Invariant<T> {
    /// The marker of `T`, as a value that contracts can name.
    pub closed spec fn spec_new() -> Self {
        Invariant(PhantomData)
    }

    /// The state of a hasher after this marker was hashed into it from
    /// `state`. A marker feeds a hasher nothing, so the hasher stays as it
    /// was.
    pub open spec fn hashed<H>(&self, state: H) -> H {
        state
    }

    /// Create a new Invariant marker instance.
    ///
    /// All instances of Invariant with the same T are equivalent.
    #[inline]
    #[verifier::when_used_as_spec(spec_new)]
    pub fn new() -> (m: Self)
        ensures
            m == Self::spec_new(),
            forall|other: Self| #[trigger] m.eq_spec(&other),
    {
        Invariant(PhantomData)
    }
}

impl<T> Default for Invariant<T> {
    /// The default marker is the marker that [`Invariant::new`] creates.
    #[inline]
    fn default() -> (m: Self)
        ensures
            m == Invariant::<T>::new(),
    {
        Invariant::new()
    }
}

impl<T> Copy for Invariant<T> {

}

impl<T> Clone for Invariant<T> {
    /// The duplicate equals the marker it was made from.
    #[inline]
    fn clone(&self) -> (m: Self)
        ensures
            m == *self,
            m.eq_spec(self),
    {
        Invariant::new()
    }
}

impl<T> PartialEq for Invariant<T> {
    /// Always `true`.
    #[inline]
    fn eq(&self, other: &Self) -> (r: bool)
        ensures
            r,
    {
        true
    }

    /// Always `false`.
    #[inline]
    fn ne(&self, other: &Self) -> (r: bool)
        ensures
            !r,
    {
        false
    }
}

impl<T> vstd::std_specs::cmp::PartialEqSpecImpl for Invariant<T> {
    open spec fn obeys_eq_spec() -> bool {
        true
    }

    /// `==` on markers is equality of values.
    open spec fn eq_spec(&self, other: &Self) -> bool {
        *self == *other
    }
}

impl<T> Eq for Invariant<T> {

}

impl<T> PartialOrd for Invariant<T> {
    /// Always `Some(Ordering::Equal)`.
    #[inline]
    fn partial_cmp(&self, other: &Self) -> (r: Option<Ordering>)
        ensures
            r == Some(Ordering::Equal),
    {
        Some(Ordering::Equal)
    }

    /// Always `false`.
    #[inline]
    fn lt(&self, other: &Self) -> (r: bool)
        ensures
            !r,
    {
        false
    }

    /// Always `true`.
    #[inline]
    fn le(&self, other: &Self) -> (r: bool)
        ensures
            r,
    {
        true
    }

    /// Always `false`.
    #[inline]
    fn gt(&self, other: &Self) -> (r: bool)
        ensures
            !r,
    {
        false
    }

    /// Always `true`.
    #[inline]
    fn ge(&self, other: &Self) -> (r: bool)
        ensures
            r,
    {
        true
    }
}

impl<T> vstd::std_specs::cmp::PartialOrdSpecImpl for Invariant<T> {
    open spec fn obeys_partial_cmp_spec() -> bool {
        true
    }

    /// Two markers are always comparable, and the comparison finds them equal.
    open spec fn partial_cmp_spec(&self, other: &Self) -> Option<Ordering> {
        Some(Ordering::Equal)
    }
}

impl<T> Ord for Invariant<T> {
    /// Always `Ordering::Equal`.
    ///
    /// Trusted, not proved. `vstd` states the result of `Ord::cmp` through
    /// `cmp_spec`, which nothing here defines for the marker, so no body
    /// could be proved against it. This one hands the comparison to
    /// `Ord::cmp` of the `PhantomData` that the marker holds, and the
    /// contract states what that returns: a `PhantomData` type has a single
    /// value, which `cmp` orders as equal to itself.
    #[inline]
    #[verifier::external_body]
    fn cmp(&self, other: &Self) -> (r: Ordering)
        ensures
            r == Ordering::Equal,
    {
        self.0.cmp(&other.0)
    }
}

impl<T> Hash for Invariant<T> {
    /// Feeds the hasher nothing, which is what hashing `()` does: the hasher
    /// is left in the state it was in.
    #[inline]
    fn hash<H: Hasher>(&self, state: &mut H)
        ensures
            *final(state) == self.hashed(*old(state)),
    {
    }
}

impl<T> Debug for Invariant<T> {
    /// Writes `Invariant Type Marker`, whatever `T` is, and reports what the
    /// formatter reported.
    #[inline]
    fn fmt(&self, f: &mut Formatter<'_>) -> (r: std::fmt::Result)
        ensures
            r is Ok ==> written(*final(f)) == written(*old(f)) + "Invariant Type Marker"@,
    {
        f.write_str("Invariant Type Marker")
    }
}

/// A marker type has one value: any two markers of one `T` are the same.
pub proof fn lemma_one_marker<T>(a: Invariant<T>, b: Invariant<T>)
    ensures
        a == b,
        a == Invariant::<T>::new(),
{
}

/// Any two markers of one `T` are equal under `==`, `<=` and `>=`, the
/// three-way comparison finds them equal, and `!=`, `<` and `>` fail.
pub proof fn lemma_markers_compare_equal<T>(a: Invariant<T>, b: Invariant<T>)
    ensures
        a.is_eq(&b),
        a.is_le(&b),
        a.is_ge(&b),
        a.partial_cmp_spec(&b) == Some(Ordering::Equal),
        !a.is_ne(&b),
        !a.is_lt(&b),
        !a.is_gt(&b),
{
}

/// Hashing agrees with equality: two markers of one `T` are equal, and from
/// one state of a hasher, hashing either leads to the same state, the one
/// the hasher was in.
pub proof fn lemma_markers_hash_alike<T, H>(a: Invariant<T>, b: Invariant<T>, state: H)
    ensures
        a.eq_spec(&b),
        a.hashed(state) == b.hashed(state),
        a.hashed(state) == state,
{
}

/// `==` and the partial order on markers obey the laws that `vstd` asks of
/// a well-behaved type: `==` is an equivalence that coincides with equality
/// of values, and the order is consistent with it.
pub proof fn lemma_marker_comparison_laws<T>()
    ensures
        obeys_eq::<Invariant<T>>(),
        obeys_concrete_eq::<Invariant<T>>(),
        obeys_cmp_partial_ord::<Invariant<T>>(),
        obeys_partial_cmp_spec_properties::<Invariant<T>>(),
{
    reveal(obeys_eq_spec_properties);
    reveal(obeys_concrete_eq);
    reveal(obeys_cmp_partial_ord);
    reveal(obeys_partial_cmp_spec_properties);
}

} // verus!
