//! Responders that add one `Vary` header by hand.

use vstd::prelude::*;
use vstd::string::*;
use vstd::utf8::*;
use http::header::{HeaderMap, HeaderValue};
use crate::error::{checked_size, HxError};
use crate::extractors::{HxRequest, HxTarget, HxTrigger, HxTriggerName};
use crate::headers::{lemma_names_are_plain, VARY};
use crate::signal::HeaderKind;
use crate::wire::{
    header_entries, header_map_try_append, header_value_from_static, with_appended,
};

verus! {

/// What adding `Vary: name` comes to: the name stands behind the `Vary`
/// values that were there, unless the header map is full.
pub open spec fn vary_added(
    before: HeaderMap<HeaderValue>,
    after: Result<HeaderMap<HeaderValue>, HxError>,
    kind: HeaderKind,
) -> bool {
    match after {
        Ok(headers) => header_entries(headers) == with_appended(
            header_entries(before),
            VARY@,
            encode_utf8(kind.name()),
        ),
        Err(e) => e is TooManyResponseHeaders,
    }
}

/// Adds `Vary` with the name of `kind` to the headers.
pub fn append_vary(headers: HeaderMap<HeaderValue>, kind: HeaderKind) -> (r: Result<
    HeaderMap<HeaderValue>,
    HxError,
>)
    ensures
        vary_added(headers, r, kind),
{
    proof {
        lemma_names_are_plain();
        let name = kind.name();
        assert forall|i: int| 0 <= i < name.len() implies ' ' <= #[trigger] name[i] <= '~' by {
            assert(crate::headers::is_name_char(name[i]));
        }
    }
    let mut headers = headers;
    let value = header_value_from_static(kind.as_str());
    match checked_size(header_map_try_append(&mut headers, VARY, value)) {
        Ok(_) => Ok(headers),
        Err(e) => Err(e),
    }
}

/// The `Vary: HX-Request` header, for a handler that answers differently
/// depending on `HX-Request`.
#[derive(Debug, Clone, Copy)]
pub struct VaryHxRequest;

impl VaryHxRequest {
    /// Adds the header to a response.
    pub fn into_response_parts(self, headers: HeaderMap<HeaderValue>) -> (r: Result<
        HeaderMap<HeaderValue>,
        HxError,
    >)
        ensures
            vary_added(headers, r, HeaderKind::Request),
    {
        append_vary(headers, HeaderKind::Request)
    }
}

impl HxRequest {
    /// The `Vary` responder that goes with this extractor.
    pub fn vary_response() -> (r: VaryHxRequest)
        ensures
            r == VaryHxRequest,
    {
        VaryHxRequest
    }
}

/// The `Vary: HX-Target` header, for a handler that answers differently
/// depending on `HX-Target`.
#[derive(Debug, Clone, Copy)]
pub struct VaryHxTarget;

impl VaryHxTarget {
    /// Adds the header to a response.
    pub fn into_response_parts(self, headers: HeaderMap<HeaderValue>) -> (r: Result<
        HeaderMap<HeaderValue>,
        HxError,
    >)
        ensures
            vary_added(headers, r, HeaderKind::Target),
    {
        append_vary(headers, HeaderKind::Target)
    }
}

impl HxTarget {
    /// The `Vary` responder that goes with this extractor.
    pub fn vary_response() -> (r: VaryHxTarget)
        ensures
            r == VaryHxTarget,
    {
        VaryHxTarget
    }
}

/// The `Vary: HX-Trigger` header, for a handler that answers differently
/// depending on `HX-Trigger`.
#[derive(Debug, Clone, Copy)]
pub struct VaryHxTrigger;

impl VaryHxTrigger {
    /// Adds the header to a response.
    pub fn into_response_parts(self, headers: HeaderMap<HeaderValue>) -> (r: Result<
        HeaderMap<HeaderValue>,
        HxError,
    >)
        ensures
            vary_added(headers, r, HeaderKind::Trigger),
    {
        append_vary(headers, HeaderKind::Trigger)
    }
}

impl HxTrigger {
    /// The `Vary` responder that goes with this extractor.
    pub fn vary_response() -> (r: VaryHxTrigger)
        ensures
            r == VaryHxTrigger,
    {
        VaryHxTrigger
    }
}

/// The `Vary: HX-Trigger-Name` header, for a handler that answers
/// differently depending on `HX-Trigger-Name`.
#[derive(Debug, Clone, Copy)]
pub struct VaryHxTriggerName;

impl VaryHxTriggerName {
    /// Adds the header to a response.
    pub fn into_response_parts(self, headers: HeaderMap<HeaderValue>) -> (r: Result<
        HeaderMap<HeaderValue>,
        HxError,
    >)
        ensures
            vary_added(headers, r, HeaderKind::TriggerName),
    {
        append_vary(headers, HeaderKind::TriggerName)
    }
}

impl HxTriggerName {
    /// The `Vary` responder that goes with this extractor.
    pub fn vary_response() -> (r: VaryHxTriggerName)
        ensures
            r == VaryHxTriggerName,
    {
        VaryHxTriggerName
    }
}

} // verus!
