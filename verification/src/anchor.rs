//! How a marker holds on to its parameter without holding anything.

use std::marker::PhantomData;
use vstd::prelude::*;

verus! {

/// Sends every type to `()`.
pub(crate) trait Anchor {
    type Unit;
}

impl<T: ?Sized> Anchor for T {
    type Unit = ();
}

/// A zero-size field that makes the structure around it invariant over `T`.
///
/// The compiler infers no variance through an associated type: a parameter
/// that occurs only as the input of a projection is invariant. Since the
/// projection is `()` for every input, the field is a `PhantomData<()>`
/// whatever `T` is, and so it is `Copy`, `Send` and `Sync` also where `T` is
/// not.
pub(crate) type Anchored<T> = PhantomData<<T as Anchor>::Unit>;

} // verus!
