//! Declarations and contracts for the outside items the library's logic
//! runs through: the HTTP/2 engine's error and reason types, std's I/O
//! failure, the wire parser's failure enum, and the header library's
//! validation failures. Verus believes what is stated here; each item's
//! doc comment names the outside function it relies on.
use vstd::prelude::*;

use h2::Error as H2Failure;
use httparse::Error as HttparseFailure;

verus! {

/// The HTTP/2 protocol engine's error type, carried opaquely as a cause.
#[verifier::external_type_specification]
#[verifier::external_body]
pub struct ExH2Error(H2Failure);

/// The HTTP/2 termination reason code, carried opaquely.
#[verifier::external_type_specification]
#[verifier::external_body]
pub struct ExH2Reason(h2::Reason);

/// std's I/O failure type, carried opaquely as a cause.
#[verifier::external_type_specification]
#[verifier::external_body]
pub struct ExIoError(std::io::Error);

/// The wire parser's failure enum. Its variants are plain, public and
/// field-free, so they are declared for verified code to match on.
#[verifier::external_type_specification]
pub struct ExHttparseError(HttparseFailure);

/// A malformed request method, as the header library reports it.
#[verifier::external_type_specification]
#[verifier::external_body]
pub struct ExInvalidMethod(http::method::InvalidMethod);

/// A malformed status code, as the header library reports it.
#[verifier::external_type_specification]
#[verifier::external_body]
pub struct ExInvalidStatusCode(http::status::InvalidStatusCode);

/// A malformed URI, as the header library reports it.
#[verifier::external_type_specification]
#[verifier::external_body]
pub struct ExInvalidUri(http::uri::InvalidUri);

/// A malformed URI built from parts, as the header library reports it.
#[verifier::external_type_specification]
#[verifier::external_body]
pub struct ExInvalidUriParts(http::uri::InvalidUriParts);

/// The reason code that `h2::Error::reason` reports for a given engine
/// error: a function of the error value alone.
pub uninterp spec fn h2_reason_of(e: h2::Error) -> Option<h2::Reason>;

/// Whether `h2::Error::is_io` holds of a given engine error: a function
/// of the error value alone.
pub uninterp spec fn h2_is_io_of(e: h2::Error) -> bool;

/// The reason value that `h2::Reason::from` builds from a numeric
/// HTTP/2 error code: a function of the code alone.
pub uninterp spec fn h2_reason_from(code: u32) -> h2::Reason;

/// Relies on h2's `reason` method: reports the reason code of a protocol
/// error, if the peer or the engine attached one, reading the value only.
pub assume_specification[ H2Failure::reason ](e: &H2Failure) -> (r: Option<h2::Reason>)
    ensures
        r == h2_reason_of(*e),
;

/// Relies on h2's `is_io` method: true exactly of engine errors that
/// carry an underlying I/O failure.
pub assume_specification[ H2Failure::is_io ](e: &H2Failure) -> (r: bool)
    ensures
        r == h2_is_io_of(*e),
;

/// Relies on h2's `into_io` method: hands out the underlying I/O
/// failure, and does so exactly when `is_io` holds of the value.
pub assume_specification[ H2Failure::into_io ](e: H2Failure) -> (r: Option<std::io::Error>)
    ensures
        r is Some <==> h2_is_io_of(e),
;

/// Relies on the `From<u32>` impl of h2::Reason: builds the reason that
/// stands for a numeric HTTP/2 error code.
pub assume_specification[ <h2::Reason as core::convert::From<u32>>::from ](code: u32) -> (r: h2::Reason)
    ensures
        r == h2_reason_from(code),
;

} // verus!
