//! Compile-time checks of what the markers can do.
//!
//! Nothing here runs. That this file compiles shows that each marker has
//! every capability it is meant to have, for parameters that have none of
//! them.

use crate::lifetime::InvariantLifetime;
use crate::marker::Invariant;
use std::fmt::Debug;
use std::hash::Hash;
use std::rc::Rc;
use vstd::prelude::*;

verus! {

/// A type with no capability at all.
struct Nothing;

fn is_send<T: Send>() {
}

fn is_sync<T: Sync>() {
}

fn is_derived<T: Copy + Clone + Debug + PartialEq + Eq + PartialOrd + Ord + Hash + Default>() {
}

/// The lifetime marker, for whatever lifetime `'a` is.
fn lifetime<'a>() {
    is_send::<InvariantLifetime<'a>>();
    is_sync::<InvariantLifetime<'a>>();
    is_derived::<InvariantLifetime<'a>>();
}

/// The type marker, once for a parameter that can be neither sent to nor
/// shared with another thread, and once for one that can be neither copied,
/// compared, hashed nor printed.
fn _assert_bounds() {
    is_send::<Invariant<Rc<()>>>();
    is_sync::<Invariant<Rc<()>>>();
    is_derived::<Invariant<Nothing>>();
    lifetime();
}

} // verus!
