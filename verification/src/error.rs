//! What the crate takes from `std::io::Error`.
use std::fmt::Write;
use vstd::prelude::*;

verus! {

/// `std::io::Error`, an opaque value that is carried through to the caller.
#[verifier::external_type_specification]
#[verifier::external_body]
pub struct ExError(std::io::Error);

/// `std::io::ErrorKind`, with the variants that the standard library declares.
#[verifier::external_type_specification]
pub struct ExErrorKind(std::io::ErrorKind);

/// The kind that `std::io::Error::kind` reads from an error.
pub uninterp spec fn error_kind(error: std::io::Error) -> std::io::ErrorKind;

/// The error that `std::io::Error::new` builds from a kind and a message.
pub uninterp spec fn custom_error(kind: std::io::ErrorKind, message: Seq<char>) -> std::io::Error;

/// `std::io::Error::kind`: reading the kind of an error depends on the error alone.
pub assume_specification[ std::io::Error::kind ](error: &std::io::Error) -> (
    kind: std::io::ErrorKind)
    ensures
        kind == error_kind(*error),
;

/// `std::io::Error::new` with a message as its payload: the error is determined by the two
/// arguments, and its kind is the one that was given.
#[verifier::external_body]
pub(crate) fn new_error(kind: std::io::ErrorKind, message: &str) -> (error: std::io::Error)
    ensures
        error == custom_error(kind, message@),
        error_kind(error) == kind,
{
    std::io::Error::new(kind, message)
}

/// The text that `std::io::Error` displays: what its `Display` writes into a string.
///
/// Nothing is claimed of it: for an error of the operating system the text is the system's own, and
/// for an error around another it is the other's. Should the other's `Display` fail, the text is
/// what was written until then.
#[verifier::external_body]
pub(crate) fn error_text(error: &std::io::Error) -> String {
    let mut text = String::new();
    let _ = write!(text, "{}", error);
    text
}

} // verus!
