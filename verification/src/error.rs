//! The error conditions the verified core reports to its callers.

use vstd::prelude::*;

verus! {

/// The `url` crate's parse error, declared so the crate's signatures can
/// carry it.
#[verifier::external_type_specification]
#[verifier::external_body]
pub struct ExUrlParseError(url::ParseError);

/// Why building a calendar request failed.
#[derive(Debug)]
pub enum RequestError {
    /// The assembled address was not a valid URL.
    UrlParseError(url::ParseError),
}

impl From<url::ParseError> for RequestError {
    fn from(e: url::ParseError) -> (r: Self)
        ensures
            r == RequestError::UrlParseError(e),
    {
        RequestError::UrlParseError(e)
    }
}

impl vstd::std_specs::convert::FromSpecImpl<url::ParseError> for RequestError {
    open spec fn obeys_from_spec() -> bool {
        true
    }

    open spec fn from_spec(e: url::ParseError) -> Self {
        RequestError::UrlParseError(e)
    }
}

/// Why an agenda mutation was refused.  The document is left untouched
/// whenever one of these is returned.
#[derive(Clone, Copy, Debug, PartialEq, Eq, Structural)]
pub enum AgendaError {
    /// An index at or past the end of the list.
    OutOfBounds,
    /// A removal range whose bounds do not fit the list.
    InvalidRange,
}

} // verus!
