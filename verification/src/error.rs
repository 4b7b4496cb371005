//! The error of this library.

use vstd::prelude::*;
use vstd::string::*;
use vstd::std_specs::convert::FromSpecImpl;
use http::header::{InvalidHeaderValue, MaxSizeReached};

verus! {

/// What can go wrong while a response header is built.
#[derive(Debug)]
pub enum HxError {
    /// The text is not a legal header value.
    InvalidHeaderValue(InvalidHeaderValue),
    /// The response holds as many headers as it can take.
    TooManyResponseHeaders(MaxSizeReached),
    /// A value could not be written as JSON.
    Json(serde_json::Error),
}

impl HxError {
    /// The text shown for this error.
    pub open spec fn text(self) -> Seq<char> {
        match self {
            HxError::InvalidHeaderValue(_) => "Invalid header value"@,
            HxError::TooManyResponseHeaders(_) => "Too many response headers"@,
            HxError::Json(_) => "Json"@,
        }
    }

    /// The text shown for this error.
    pub fn message(&self) -> (r: String)
        ensures
            r@ == self.text(),
    {
        match self {
            HxError::InvalidHeaderValue(_) => "Invalid header value".to_owned(),
            HxError::TooManyResponseHeaders(_) => "Too many response headers".to_owned(),
            HxError::Json(_) => "Json".to_owned(),
        }
    }

    /// The status of the response that stands in for a failed one: 500,
    /// Internal Server Error.
    pub fn status(&self) -> (r: u16)
        ensures
            r == 500,
    {
        500
    }
}

/// What becomes of the header map's answer to a write: it stands, or the
/// map was full.
pub fn checked_size<T>(outcome: Result<T, MaxSizeReached>) -> (r: Result<T, HxError>)
    ensures
        outcome matches Ok(done) ==> r == Ok::<T, HxError>(done),
        outcome matches Err(e) ==> r == Err::<T, HxError>(HxError::TooManyResponseHeaders(e)),
{
    match outcome {
        Ok(done) => Ok(done),
        Err(e) => Err(HxError::TooManyResponseHeaders(e)),
    }
}

/// What becomes of an attempt to make a header value: the value, or the
/// text was refused.
pub fn checked_value<T>(outcome: Result<T, InvalidHeaderValue>) -> (r: Result<T, HxError>)
    ensures
        outcome matches Ok(value) ==> r == Ok::<T, HxError>(value),
        outcome matches Err(e) ==> r == Err::<T, HxError>(HxError::InvalidHeaderValue(e)),
{
    match outcome {
        Ok(value) => Ok(value),
        Err(e) => Err(HxError::InvalidHeaderValue(e)),
    }
}

impl From<InvalidHeaderValue> for HxError {
    fn from(value: InvalidHeaderValue) -> (r: HxError) {
        HxError::InvalidHeaderValue(value)
    }
}

impl FromSpecImpl<InvalidHeaderValue> for HxError {
    open spec fn obeys_from_spec() -> bool {
        true
    }

    open spec fn from_spec(value: InvalidHeaderValue) -> HxError {
        HxError::InvalidHeaderValue(value)
    }
}

impl From<MaxSizeReached> for HxError {
    fn from(value: MaxSizeReached) -> (r: HxError) {
        HxError::TooManyResponseHeaders(value)
    }
}

impl FromSpecImpl<MaxSizeReached> for HxError {
    open spec fn obeys_from_spec() -> bool {
        true
    }

    open spec fn from_spec(value: MaxSizeReached) -> HxError {
        HxError::TooManyResponseHeaders(value)
    }
}

impl From<serde_json::Error> for HxError {
    fn from(value: serde_json::Error) -> (r: HxError) {
        HxError::Json(value)
    }
}

impl FromSpecImpl<serde_json::Error> for HxError {
    open spec fn obeys_from_spec() -> bool {
        true
    }

    open spec fn from_spec(value: serde_json::Error) -> HxError {
        HxError::Json(value)
    }
}

} // verus!
