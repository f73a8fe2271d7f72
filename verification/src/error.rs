//! The ways in which fetching and normalizing a readme can fail.

use vstd::prelude::*;

verus! {

/// `std::io::Error`, carried through as an opaque value.
#[verifier::external_type_specification]
#[verifier::external_body]
pub struct ExIoError(std::io::Error);

/// `url::ParseError`, carried through as an opaque value.
#[verifier::external_type_specification]
#[verifier::external_body]
pub struct ExUrlParseError(url::ParseError);

/// `base64::DecodeError`, carried through as an opaque value.
#[verifier::external_type_specification]
#[verifier::external_body]
pub struct ExBase64DecodeError(base64::DecodeError);

/// `std::string::FromUtf8Error`, carried through as an opaque value.
#[verifier::external_type_specification]
#[verifier::external_body]
pub struct ExFromUtf8Error(std::string::FromUtf8Error);

/// Why a readme could not be delivered.
///
/// Every failure keeps its kind from the place where it arose up to the
/// caller; none is retried or replaced by another.
#[derive(Debug)]
pub enum Error {
    /// A local file, directory or process operation failed.
    Io(std::io::Error),
    /// The HTTP transport failed, or the host answered with a malformed
    /// payload. The library sends nothing itself: the caller that does
    /// reports the failure in the transport's own words.
    Reqwest(String),
    /// A request address could not be parsed.
    Url(url::ParseError),
    /// The document converter exited without success.
    Pandoc,
    /// The readme's file name carries no extension to tell its format by.
    NoExtensionFound,
    /// Inline content was not valid base64.
    Base64(base64::DecodeError),
    /// Decoded content was not valid UTF-8 text.
    Utf8(std::string::FromUtf8Error),
}

} // verus!
