//! Failures of the standard library's input and output, as far as the errors
//! of this crate wrap them.
use vstd::prelude::*;

verus! {

/// Trusted declaration of `std::io::Error`, which this crate only carries.
#[verifier::external_type_specification]
#[verifier::external_body]
pub struct ExIoError(std::io::Error);

/// Trusted: the `Display` form of a `std::io::Error`. Nothing is claimed of
/// the text.
#[verifier::external_body]
pub(crate) fn io_error_text(error: &std::io::Error) -> String {
    error.to_string()
}

/// Trusted: whether `std::io::Error::kind` is `ErrorKind::NotFound`. Nothing
/// is claimed of the answer.
#[verifier::external_body]
pub(crate) fn io_error_is_not_found(error: &std::io::Error) -> bool {
    error.kind() == std::io::ErrorKind::NotFound
}

} // verus!
