//! Non-blocking I/O results as poll results.

use vstd::prelude::*;

verus! {

#[verifier::external_type_specification]
#[verifier::external_body]
pub struct ExIoError(std::io::Error);

#[verifier::external_type_specification]
pub struct ExIoErrorKind(std::io::ErrorKind);

#[verifier::external_type_specification]
#[verifier::reject_recursive_types(T)]
pub struct ExPoll<T>(std::task::Poll<T>);

/// The kind that `std::io::Error::kind` reports for an error.
pub uninterp spec fn kind_of(e: std::io::Error) -> std::io::ErrorKind;

/// Relies on `std::io::Error::kind`: it reports the error's kind, a function
/// of the error alone.
pub assume_specification[ std::io::Error::kind ](e: &std::io::Error) -> (r: std::io::ErrorKind)
    ensures
        r == kind_of(*e),
;

/// Whether an I/O error only says that the operation would have blocked.
pub open spec fn would_block(e: std::io::Error) -> bool {
    kind_of(e) == std::io::ErrorKind::WouldBlock
}

/// Turns the result of a non-blocking call into a poll result: "would block"
/// becomes `Pending`, every other outcome is ready as it is.
pub fn map_would_block<T>(inner: std::io::Result<T>) -> (r: std::task::Poll<std::io::Result<T>>)
    ensures
        match inner {
            Err(e) if would_block(e) => r is Pending,
            _ => r == std::task::Poll::Ready(inner),
        },
{
    match inner {
        Err(err) => {
            if matches!(err.kind(), std::io::ErrorKind::WouldBlock) {
                std::task::Poll::Pending
            } else {
                std::task::Poll::Ready(Err(err))
            }
        },
        other => std::task::Poll::Ready(other),
    }
}

} // verus!
