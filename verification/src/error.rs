//! The shared failure vocabulary of the conversion layer.

use vstd::prelude::*;

verus! {

/// An error found while converting a wire record into a domain value.
///
/// Every conversion returns either a fully valid domain value or the first
/// of these failures it encounters; errors are never wrapped or downgraded.
#[derive(PartialEq, Eq, Debug, Clone, Copy)]
pub enum Error {
    /// A field the domain model requires was absent from the wire record.
    /// Carries the field's name so the offending record can be pinpointed
    /// without re-parsing.
    MissingField(&'static str),
    /// A field was present but its value is semantically wrong. Reserved
    /// for stricter checks; no current conversion produces it.
    InvalidField(&'static str),
    /// A byte buffer meant to hold a fixed-length identifier had some other
    /// length.
    InvalidBufferLength,
    /// A payload buffer failed structural decoding or the format's own
    /// semantic self-checks.
    PackableError,
}

} // verus!
