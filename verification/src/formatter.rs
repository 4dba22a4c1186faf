//! What this crate assumes of `std::fmt`.
//!
//! Verus has no specification for formatting, so the few items of `std::fmt`
//! that the markers' `Debug` impls touch are declared here. Nothing in this
//! file is proved: each contract restates the standard library's
//! documentation.

use vstd::prelude::*;

verus! {

/// Declares `std::fmt::Formatter` so that it can stand in a signature. Proofs
/// see nothing inside a formatter; what they know of one is [`written`].
#[verifier::external_type_specification]
#[verifier::external_body]
pub struct ExFormatter<'a>(std::fmt::Formatter<'a>);

/// Declares `std::fmt::Error`, the error of every formatting operation. It
/// carries no information.
#[verifier::external_type_specification]
#[verifier::external_body]
pub struct ExFmtError(std::fmt::Error);

/// The text that has been written to the buffer underlying `f`, from the
/// first character to the last.
pub uninterp spec fn written(f: std::fmt::Formatter) -> Seq<char>;

/// Assumed of `std::fmt::Formatter::write_str`, which "writes some data to
/// the underlying buffer contained within this formatter": when it reports
/// success, the buffer has grown by exactly `data`, with no padding and no
/// other formatting applied. Nothing is claimed of a failed write.
pub assume_specification<'a>[ std::fmt::Formatter::<'a>::write_str ](
    f: &mut std::fmt::Formatter<'a>,
    data: &str,
) -> (r: Result<(), std::fmt::Error>)
    ensures
        r is Ok ==> written(*final(f)) == written(*old(f)) + data@,
;

} // verus!
