//! The marker for a lifetime parameter.

#![allow(unused_imports)]

use crate::marker::lemma_one_marker;
use crate::marker::Invariant;
use std::cmp::Ordering;
use std::hash::Hash;
use std::hash::Hasher;
use vstd::laws_cmp::obeys_cmp_partial_ord;
use vstd::laws_cmp::obeys_partial_cmp_spec_properties;
use vstd::laws_eq::obeys_concrete_eq;
use vstd::laws_eq::obeys_eq;
use vstd::laws_eq::obeys_eq_spec_properties;
use vstd::prelude::*;
use vstd::std_specs::cmp::PartialEqIs;
use vstd::std_specs::cmp::PartialEqSpec;
use vstd::std_specs::cmp::PartialOrdIs;
use vstd::std_specs::cmp::PartialOrdSpec;

verus! {

/// A marker for forcing `'id` to be considered invariant.
///
/// It wraps the marker of a reference type that carries `'id`. No such
/// reference ever exists: what [`Invariant`] does to its type parameter, it
/// does to the lifetime inside it. Every operation hands on to the same
/// operation of the wrapped marker. `Debug` and `Ord` are derived, so their
/// methods come without a contract.
#[derive(Debug, Ord)]
pub struct InvariantLifetime<'id>(Invariant<&'id ()>);

impl<'id> InvariantLifetime<'id> {
    /// The marker of `'id`, as a value that contracts can name.
    pub closed spec fn spec_new() -> Self {
        InvariantLifetime(Invariant::new())
    }

    /// The state of a hasher after this marker was hashed into it from
    /// `state`. A marker feeds a hasher nothing, so the hasher stays as it
    /// was.
    pub open spec fn hashed<H>(&self, state: H) -> H {
        state
    }

    /// Create a new InvariantLifetime marker instance.
    ///
    /// All instances of InvariantLifetime with the same lifetime are equivalent.
    #[inline]
    #[verifier::when_used_as_spec(spec_new)]
    pub fn new() -> (m: Self)
        ensures
            m == Self::spec_new(),
            forall|other: Self| #[trigger] m.eq_spec(&other),
    {
        let m = InvariantLifetime::default();
        assert forall|other: Self| #[trigger] m.eq_spec(&other) by {
            lemma_one_lifetime_marker(m, other);
        }
        m
    }
}

impl<'id> Default for InvariantLifetime<'id> {
    /// The default marker is the marker that [`InvariantLifetime::new`]
    /// creates: it wraps the default of the wrapped type.
    #[inline]
    fn default() -> (m: Self)
        ensures
            m == InvariantLifetime::<'id>::new(),
    {
        InvariantLifetime(Invariant::default())
    }
}

impl<'id> Copy for InvariantLifetime<'id> {

}

impl<'id> Clone for InvariantLifetime<'id> {
    /// The duplicate equals the marker it was made from.
    #[inline]
    fn clone(&self) -> (m: Self)
        ensures
            m == *self,
            m.eq_spec(self),
    {
        *self
    }
}

impl<'id> PartialEq for InvariantLifetime<'id> {
    /// Always `true`: the wrapped markers are equal.
    #[inline]
    fn eq(&self, other: &Self) -> (r: bool)
        ensures
            r,
    {
        self.0 == other.0
    }
}

impl<'id> vstd::std_specs::cmp::PartialEqSpecImpl for InvariantLifetime<'id> {
    open spec fn obeys_eq_spec() -> bool {
        true
    }

    /// `==` on markers is equality of values.
    open spec fn eq_spec(&self, other: &Self) -> bool {
        *self == *other
    }
}

impl<'id> Eq for InvariantLifetime<'id> {

}

impl<'id> PartialOrd for InvariantLifetime<'id> {
    /// Always `Some(Ordering::Equal)`: the order of the wrapped markers.
    #[inline]
    fn partial_cmp(&self, other: &Self) -> (r: Option<Ordering>)
        ensures
            r == Some(Ordering::Equal),
    {
        self.0.partial_cmp(&other.0)
    }
}

impl<'id> vstd::std_specs::cmp::PartialOrdSpecImpl for InvariantLifetime<'id> {
    open spec fn obeys_partial_cmp_spec() -> bool {
        true
    }

    /// Two markers are always comparable, and the comparison finds them equal.
    open spec fn partial_cmp_spec(&self, other: &Self) -> Option<Ordering> {
        Some(Ordering::Equal)
    }
}

impl<'id> Hash for InvariantLifetime<'id> {
    /// Hashes the wrapped marker, which feeds the hasher nothing: the hasher
    /// is left in the state it was in.
    #[inline]
    fn hash<H: Hasher>(&self, state: &mut H)
        ensures
            *final(state) == self.hashed(*old(state)),
    {
        self.0.hash(state)
    }
}

/// A marker type has one value: any two markers of one lifetime are the same.
pub proof fn lemma_one_lifetime_marker<'id>(a: InvariantLifetime<'id>, b: InvariantLifetime<'id>)
    ensures
        a == b,
        a == InvariantLifetime::<'id>::new(),
{
    lemma_one_marker(a.0, b.0);
    lemma_one_marker(a.0, InvariantLifetime::<'id>::spec_new().0);
}

/// Any two markers of one lifetime are equal under `==`, `<=` and `>=`, the
/// three-way comparison finds them equal, and `!=`, `<` and `>` fail.
/// Whichever lifetime `'id` is, the statement is the same.
pub proof fn lemma_lifetime_markers_compare_equal<'id>(
    a: InvariantLifetime<'id>,
    b: InvariantLifetime<'id>,
)
    ensures
        a.is_eq(&b),
        a.is_le(&b),
        a.is_ge(&b),
        a.partial_cmp_spec(&b) == Some(Ordering::Equal),
        !a.is_ne(&b),
        !a.is_lt(&b),
        !a.is_gt(&b),
{
    lemma_one_lifetime_marker(a, b);
}

/// Hashing agrees with equality: two markers of one lifetime are equal, and
/// from one state of a hasher, hashing either leads to the same state, the
/// one the hasher was in.
pub proof fn lemma_lifetime_markers_hash_alike<'id, H>(
    a: InvariantLifetime<'id>,
    b: InvariantLifetime<'id>,
    state: H,
)
    ensures
        a.eq_spec(&b),
        a.hashed(state) == b.hashed(state),
        a.hashed(state) == state,
{
    lemma_one_lifetime_marker(a, b);
}

/// `==` and the partial order on markers obey the laws that `vstd` asks of
/// a well-behaved type: `==` is an equivalence that coincides with equality
/// of values, and the order is consistent with it.
pub proof fn lemma_lifetime_marker_comparison_laws<'id>()
    ensures
        obeys_eq::<InvariantLifetime<'id>>(),
        obeys_concrete_eq::<InvariantLifetime<'id>>(),
        obeys_cmp_partial_ord::<InvariantLifetime<'id>>(),
        obeys_partial_cmp_spec_properties::<InvariantLifetime<'id>>(),
{
    reveal(obeys_eq_spec_properties);
    reveal(obeys_concrete_eq);
    reveal(obeys_cmp_partial_ord);
    reveal(obeys_partial_cmp_spec_properties);
    assert forall|x: InvariantLifetime<'id>, y: InvariantLifetime<'id>| #[trigger]
        x.eq_spec(&y) by {
        lemma_one_lifetime_marker(x, y);
    }
}

} // verus!
