//! The errors of cell construction, decoding and lookup.
use vstd::prelude::*;

verus! {

/// `core::str::Utf8Error`, the error of a failed UTF-8 validation as the
/// standard library reports it. Nothing is known of its contents here; it is
/// carried to the caller.
#[verifier::external_type_specification]
#[verifier::external_body]
pub struct ExUtf8Error(core::str::Utf8Error);

/// `Clone::clone` of a `Utf8Error`, which is a plain `Copy` value: the clone
/// equals the value it was made from.
pub assume_specification[ <core::str::Utf8Error as Clone>::clone ](
    e: &core::str::Utf8Error,
) -> (r: core::str::Utf8Error)
    ensures
        r == *e,
;

/// What can go wrong when a small string is built, decoded or looked up.
#[derive(Clone, Debug)]
pub enum SSErrorType {
    /// The string does not fit into the data buffer of a cell.
    StringTooBig,
    /// The string has no bytes.
    StringEmpty,
    /// The query is storable but no populated slot holds it.
    MatchNotFound,
    /// The cell was never initialized.
    Uninit,
    /// The stored bytes are not valid UTF-8.
    Utf8Error(core::str::Utf8Error),
}

} // verus!
