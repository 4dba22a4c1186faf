//! # variance
//!
//! Helpers for establishing the variance of lifetimes and type parameters.
//!
//! A generic structure that mentions a parameter only in positions the
//! compiler treats as covariant or contravariant may have that parameter
//! widened or narrowed behind its author's back. Embedding one of the two
//! markers of this crate as a field forbids it: [`Invariant<T>`] makes the
//! structure invariant over the type `T`, and [`InvariantLifetime<'id>`]
//! over the lifetime `'id`.
//!
//! Both markers are zero-size and hold no data. A marker type has exactly one
//! value, so construction cannot fail, every comparison finds two markers
//! equal, hashing one feeds the hasher nothing, and a marker is `Copy`,
//! `Send` and `Sync` whatever its parameter is. The contracts in
//! [`marker`] and [`lifetime`] state this, and Verus proves it. Two things
//! are taken on trust from the standard library and marked as such: what
//! `Ord::cmp` of a `PhantomData` returns, and what writing to a formatter
//! does ([`formatter`]).

pub mod formatter;
pub mod lifetime;
pub mod marker;

mod anchor;
#[allow(dead_code)]
mod bounds;

pub use lifetime::InvariantLifetime;
pub use marker::Invariant;
