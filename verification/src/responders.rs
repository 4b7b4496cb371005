//! Building the htmx response headers.

use vstd::prelude::*;
use vstd::string::*;
use vstd::utf8::*;
use vstd::std_specs::convert::FromSpecImpl;
use http::header::{HeaderMap, HeaderValue};
use crate::error::{checked_size, checked_value, HxError};
use crate::headers::{
    is_plain_header_name, lemma_names_are_plain, HX_PUSH_URL, HX_REDIRECT, HX_REFRESH,
    HX_REPLACE_URL, HX_RESELECT, HX_RESWAP, HX_RETARGET,
};
use crate::wire::{
    header_entries, header_map_try_insert, header_value_from_static, header_value_from_string,
    is_header_value, is_visible_text, lemma_visible_text_is_value, value_bytes, with_replaced,
};

pub mod location;
pub mod trigger;
pub mod vary;

verus! {

/// What setting a header to `bytes` comes to: bytes that are no legal header
/// value are refused; legal ones replace whatever stood under `name`, unless
/// the header map is full.
pub open spec fn header_set(
    before: HeaderMap<HeaderValue>,
    after: Result<HeaderMap<HeaderValue>, HxError>,
    name: Seq<char>,
    bytes: Seq<u8>,
) -> bool {
    if !is_header_value(bytes) {
        after is Err && after->Err_0 is InvalidHeaderValue
    } else {
        match after {
            Ok(headers) => header_entries(headers) == with_replaced(
                header_entries(before),
                name,
                bytes,
            ),
            Err(e) => e is TooManyResponseHeaders,
        }
    }
}

/// Stores `value` as the only value under `name`.
pub fn put_value(headers: HeaderMap<HeaderValue>, name: &'static str, value: HeaderValue) -> (r:
    Result<HeaderMap<HeaderValue>, HxError>)
    requires
        is_plain_header_name(name@),
    ensures
        r matches Ok(after) ==> header_entries(after) == with_replaced(
            header_entries(headers),
            name@,
            value_bytes(value),
        ),
        r matches Err(e) ==> e is TooManyResponseHeaders,
{
    let mut headers = headers;
    match checked_size(header_map_try_insert(&mut headers, name, value)) {
        Ok(_) => Ok(headers),
        Err(e) => Err(e),
    }
}

/// Sets the header `name` to `text`.
pub fn put_text(headers: HeaderMap<HeaderValue>, name: &'static str, text: String) -> (r: Result<
    HeaderMap<HeaderValue>,
    HxError,
>)
    requires
        is_plain_header_name(name@),
    ensures
        header_set(headers, r, name@, encode_utf8(text@)),
{
    match checked_value(header_value_from_string(text)) {
        Ok(value) => put_value(headers, name, value),
        Err(e) => Err(e),
    }
}

/// The `HX-Push-Url` header: pushes a new URL onto the history stack.
#[derive(Debug, Clone)]
pub struct HxPushUrl(pub String);

impl HxPushUrl {
    /// The header for `value`.
    pub fn new(value: &str) -> (r: HxPushUrl)
        ensures
            r.0@ == value@,
    {
        HxPushUrl(value.to_owned())
    }

    /// Sets the header on a response.
    pub fn into_response_parts(self, headers: HeaderMap<HeaderValue>) -> (r: Result<
        HeaderMap<HeaderValue>,
        HxError,
    >)
        ensures
            header_set(headers, r, HX_PUSH_URL@, encode_utf8(self.0@)),
    {
        proof {
            lemma_names_are_plain();
        }
        put_text(headers, HX_PUSH_URL, self.0)
    }
}

/// The `HX-Redirect` header: a client-side redirect to a new location.
#[derive(Debug, Clone)]
pub struct HxRedirect(pub String);

impl HxRedirect {
    /// The header for `value`.
    pub fn new(value: &str) -> (r: HxRedirect)
        ensures
            r.0@ == value@,
    {
        HxRedirect(value.to_owned())
    }

    /// Sets the header on a response.
    pub fn into_response_parts(self, headers: HeaderMap<HeaderValue>) -> (r: Result<
        HeaderMap<HeaderValue>,
        HxError,
    >)
        ensures
            header_set(headers, r, HX_REDIRECT@, encode_utf8(self.0@)),
    {
        proof {
            lemma_names_are_plain();
        }
        put_text(headers, HX_REDIRECT, self.0)
    }
}

/// The `HX-Refresh` header: if `true`, the client does a full refresh of the
/// page.
#[derive(Debug, Clone, Copy)]
pub struct HxRefresh(pub bool);

impl HxRefresh {
    /// The text of the header's value.
    pub open spec fn text(self) -> Seq<char> {
        if self.0 {
            "true"@
        } else {
            "false"@
        }
    }

    /// Sets the header on a response. Fails only where the header map is
    /// full.
    pub fn into_response_parts(self, headers: HeaderMap<HeaderValue>) -> (r: Result<
        HeaderMap<HeaderValue>,
        HxError,
    >)
        ensures
            is_header_value(encode_utf8(self.text())),
            header_set(headers, r, HX_REFRESH@, encode_utf8(self.text())),
    {
        proof {
            lemma_names_are_plain();
            reveal_strlit("true");
            reveal_strlit("false");
            lemma_visible_text_is_value(self.text());
        }
        let value = if self.0 {
            header_value_from_static("true")
        } else {
            header_value_from_static("false")
        };
        put_value(headers, HX_REFRESH, value)
    }
}

impl From<bool> for HxRefresh {
    fn from(value: bool) -> (r: HxRefresh) {
        HxRefresh(value)
    }
}

impl FromSpecImpl<bool> for HxRefresh {
    open spec fn obeys_from_spec() -> bool {
        true
    }

    open spec fn from_spec(value: bool) -> HxRefresh {
        HxRefresh(value)
    }
}

/// The `HX-Replace-Url` header: replaces the current URL in the location
/// bar.
#[derive(Debug, Clone)]
pub struct HxReplaceUrl(pub String);

impl HxReplaceUrl {
    /// The header for `value`.
    pub fn new(value: &str) -> (r: HxReplaceUrl)
        ensures
            r.0@ == value@,
    {
        HxReplaceUrl(value.to_owned())
    }

    /// Sets the header on a response.
    pub fn into_response_parts(self, headers: HeaderMap<HeaderValue>) -> (r: Result<
        HeaderMap<HeaderValue>,
        HxError,
    >)
        ensures
            header_set(headers, r, HX_REPLACE_URL@, encode_utf8(self.0@)),
    {
        proof {
            lemma_names_are_plain();
        }
        put_text(headers, HX_REPLACE_URL, self.0)
    }
}

/// The `HX-Reswap` header: says how the response will be swapped.
#[derive(Debug, Clone, Copy)]
pub struct HxReswap(pub SwapOption);

impl HxReswap {
    /// Sets the header on a response. Fails only where the header map is
    /// full.
    pub fn into_response_parts(self, headers: HeaderMap<HeaderValue>) -> (r: Result<
        HeaderMap<HeaderValue>,
        HxError,
    >)
        ensures
            is_header_value(encode_utf8(self.0.text())),
            header_set(headers, r, HX_RESWAP@, encode_utf8(self.0.text())),
    {
        proof {
            lemma_names_are_plain();
            lemma_swap_text_is_visible(self.0);
            lemma_visible_text_is_value(self.0.text());
        }
        put_value(headers, HX_RESWAP, self.0.header_value())
    }
}

impl From<SwapOption> for HxReswap {
    fn from(value: SwapOption) -> (r: HxReswap) {
        HxReswap(value)
    }
}

impl FromSpecImpl<SwapOption> for HxReswap {
    open spec fn obeys_from_spec() -> bool {
        true
    }

    open spec fn from_spec(value: SwapOption) -> HxReswap {
        HxReswap(value)
    }
}

/// The `HX-Retarget` header: a CSS selector that moves the target of the
/// content update to another element.
#[derive(Debug, Clone)]
pub struct HxRetarget(pub String);

impl HxRetarget {
    /// The header for `value`.
    pub fn new(value: &str) -> (r: HxRetarget)
        ensures
            r.0@ == value@,
    {
        HxRetarget(value.to_owned())
    }

    /// Sets the header on a response.
    pub fn into_response_parts(self, headers: HeaderMap<HeaderValue>) -> (r: Result<
        HeaderMap<HeaderValue>,
        HxError,
    >)
        ensures
            header_set(headers, r, HX_RETARGET@, encode_utf8(self.0@)),
    {
        proof {
            lemma_names_are_plain();
        }
        put_text(headers, HX_RETARGET, self.0)
    }
}

/// The `HX-Reselect` header: a CSS selector that chooses which part of the
/// response is swapped in.
#[derive(Debug, Clone)]
pub struct HxReselect(pub String);

impl HxReselect {
    /// The header for `value`.
    pub fn new(value: &str) -> (r: HxReselect)
        ensures
            r.0@ == value@,
    {
        HxReselect(value.to_owned())
    }

    /// Sets the header on a response.
    pub fn into_response_parts(self, headers: HeaderMap<HeaderValue>) -> (r: Result<
        HeaderMap<HeaderValue>,
        HxError,
    >)
        ensures
            header_set(headers, r, HX_RESELECT@, encode_utf8(self.0@)),
    {
        proof {
            lemma_names_are_plain();
        }
        put_text(headers, HX_RESELECT, self.0)
    }
}

/// Values of the `hx-swap` attribute.
#[derive(Debug, Clone, Copy, PartialEq, Eq, Structural)]
pub enum SwapOption {
    /// Replace the inner html of the target element.
    InnerHtml,
    /// Replace the entire target element with the response.
    OuterHtml,
    /// Insert the response before the target element.
    BeforeBegin,
    /// Insert the response before the first child of the target element.
    AfterBegin,
    /// Insert the response after the last child of the target element.
    BeforeEnd,
    /// Insert the response after the target element.
    AfterEnd,
    /// Delete the target element regardless of the response.
    Delete,
    /// Do not append content from the response.
    NoSwap,
}

impl SwapOption {
    /// The word that htmx knows this option by.
    pub open spec fn text(self) -> Seq<char> {
        match self {
            SwapOption::InnerHtml => "innerHTML"@,
            SwapOption::OuterHtml => "outerHTML"@,
            SwapOption::BeforeBegin => "beforebegin"@,
            SwapOption::AfterBegin => "afterbegin"@,
            SwapOption::BeforeEnd => "beforeend"@,
            SwapOption::AfterEnd => "afterend"@,
            SwapOption::Delete => "delete"@,
            SwapOption::NoSwap => "none"@,
        }
    }

    /// The word that htmx knows this option by.
    pub fn as_str(&self) -> (r: &'static str)
        ensures
            r@ == self.text(),
    {
        match self {
            SwapOption::InnerHtml => "innerHTML",
            SwapOption::OuterHtml => "outerHTML",
            SwapOption::BeforeBegin => "beforebegin",
            SwapOption::AfterBegin => "afterbegin",
            SwapOption::BeforeEnd => "beforeend",
            SwapOption::AfterEnd => "afterend",
            SwapOption::Delete => "delete",
            SwapOption::NoSwap => "none",
        }
    }

    /// The option as a header value.
    pub fn header_value(self) -> (r: HeaderValue)
        ensures
            value_bytes(r) == encode_utf8(self.text()),
    {
        proof {
            lemma_swap_text_is_visible(self);
        }
        header_value_from_static(self.as_str())
    }
}

/// The word of every swap option is printable ASCII.
pub proof fn lemma_swap_text_is_visible(option: SwapOption)
    ensures
        is_visible_text(option.text()),
{
    reveal_strlit("innerHTML");
    reveal_strlit("outerHTML");
    reveal_strlit("beforebegin");
    reveal_strlit("afterbegin");
    reveal_strlit("beforeend");
    reveal_strlit("afterend");
    reveal_strlit("delete");
    reveal_strlit("none");
}

} // verus!
