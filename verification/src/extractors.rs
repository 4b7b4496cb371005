//! Reading the htmx request headers.
//!
//! The four headers that are tracked for `Vary` report their use to the
//! request's storage while they are read; without an installed signal set
//! that report does nothing.

use vstd::prelude::*;
use vstd::string::*;
use vstd::utf8::*;
use http::header::{HeaderMap, HeaderValue};
use crate::headers::{
    is_plain_header_name, lemma_names_are_plain, HX_BOOSTED, HX_CURRENT_URL,
    HX_HISTORY_RESTORE_REQUEST, HX_PROMPT, HX_REQUEST, HX_TARGET, HX_TRIGGER, HX_TRIGGER_NAME,
};
use crate::signal::{HeaderKind, RequestStorage};
use crate::wire::{
    header_entries, header_map_contains_key, header_map_get, header_value_to_str, is_visible_value,
    parse_uri, uri_parses, values_of,
};

verus! {

/// The text of the first value under `name`, where there is such a value and
/// it reads as text.
pub open spec fn header_text(entries: Map<Seq<char>, Seq<Seq<u8>>>, name: Seq<char>) -> Option<
    Seq<char>,
> {
    if entries.contains_key(name) && is_visible_value(values_of(entries, name)[0]) {
        Some(decode_utf8(values_of(entries, name)[0]))
    } else {
        None
    }
}

/// Reads the first value under `name` as text.
pub fn read_text(headers: &HeaderMap<HeaderValue>, name: &str) -> (r: Option<String>)
    requires
        is_plain_header_name(name@),
    ensures
        r is Some <==> header_text(header_entries(*headers), name@) is Some,
        r matches Some(text) ==> Some(text@) == header_text(header_entries(*headers), name@),
{
    match header_map_get(headers, name) {
        Some(value) => match header_value_to_str(value) {
            Some(text) => {
                proof {
                    encode_utf8_decode_utf8(text@);
                }
                Some(text.to_owned())
            },
            None => None,
        },
        None => None,
    }
}

/// The `HX-Boosted` header: whether the request comes from an element whose
/// parent has `hx-boost` set.
#[derive(Debug, Clone, Copy)]
pub struct HxBoosted(pub bool);

impl HxBoosted {
    /// `true` exactly when the header is present.
    pub fn from_request_parts(headers: &HeaderMap<HeaderValue>) -> (r: HxBoosted)
        ensures
            r.0 == header_entries(*headers).contains_key(HX_BOOSTED@),
    {
        proof {
            lemma_names_are_plain();
        }
        HxBoosted(header_map_contains_key(headers, HX_BOOSTED))
    }
}

/// The `HX-Current-Url` header: the URL that the browser shows.
#[derive(Debug, Clone)]
pub struct HxCurrentUrl(pub Option<http::Uri>);

impl HxCurrentUrl {
    /// The header's URL, or nothing where the header is missing, is not
    /// text, or is not read as a URI.
    pub fn from_request_parts(headers: &HeaderMap<HeaderValue>) -> (r: HxCurrentUrl)
        ensures
            r.0 is Some <==> (header_text(header_entries(*headers), HX_CURRENT_URL@) matches Some(
                text,
            ) && uri_parses(text)),
    {
        proof {
            lemma_names_are_plain();
        }
        match read_text(headers, HX_CURRENT_URL) {
            Some(text) => HxCurrentUrl(parse_uri(text.as_str())),
            None => HxCurrentUrl(None),
        }
    }
}

/// The `HX-History-Restore-Request` header.
#[derive(Debug, Clone, Copy)]
pub struct HxHistoryRestoreRequest(pub bool);

impl HxHistoryRestoreRequest {
    /// `true` exactly when the header is present.
    pub fn from_request_parts(headers: &HeaderMap<HeaderValue>) -> (r: HxHistoryRestoreRequest)
        ensures
            r.0 == header_entries(*headers).contains_key(HX_HISTORY_RESTORE_REQUEST@),
    {
        proof {
            lemma_names_are_plain();
        }
        HxHistoryRestoreRequest(header_map_contains_key(headers, HX_HISTORY_RESTORE_REQUEST))
    }
}

/// The `HX-Prompt` header: what the user typed into an `hx-prompt`.
#[derive(Debug, Clone)]
pub struct HxPrompt(pub Option<String>);

impl HxPrompt {
    /// The header's text, or nothing where the header is missing or is not
    /// text.
    pub fn from_request_parts(headers: &HeaderMap<HeaderValue>) -> (r: HxPrompt)
        ensures
            r.0 is Some <==> header_text(header_entries(*headers), HX_PROMPT@) is Some,
            r.0 matches Some(text) ==> Some(text@) == header_text(
                header_entries(*headers),
                HX_PROMPT@,
            ),
    {
        proof {
            lemma_names_are_plain();
        }
        HxPrompt(read_text(headers, HX_PROMPT))
    }
}

/// The `HX-Request` header: whether the request was made by htmx.
#[derive(Debug, Clone, Copy)]
pub struct HxRequest(pub bool);

impl HxRequest {
    /// `true` exactly when the header is present. Reports the read to the
    /// request's storage.
    pub fn from_request_parts(headers: &HeaderMap<HeaderValue>, storage: &mut RequestStorage) -> (r:
        HxRequest)
        ensures
            r.0 == header_entries(*headers).contains_key(HX_REQUEST@),
            *final(storage) == old(storage).marked(HeaderKind::Request),
    {
        proof {
            lemma_names_are_plain();
        }
        storage.try_mark(HeaderKind::Request);
        HxRequest(header_map_contains_key(headers, HX_REQUEST))
    }
}

/// The `HX-Target` header: the `id` of the target element.
#[derive(Debug, Clone)]
pub struct HxTarget(pub Option<String>);

impl HxTarget {
    /// The header's text, or nothing where the header is missing or is not
    /// text. Reports the read to the request's storage.
    pub fn from_request_parts(headers: &HeaderMap<HeaderValue>, storage: &mut RequestStorage) -> (r:
        HxTarget)
        ensures
            r.0 is Some <==> header_text(header_entries(*headers), HX_TARGET@) is Some,
            r.0 matches Some(text) ==> Some(text@) == header_text(
                header_entries(*headers),
                HX_TARGET@,
            ),
            *final(storage) == old(storage).marked(HeaderKind::Target),
    {
        proof {
            lemma_names_are_plain();
        }
        storage.try_mark(HeaderKind::Target);
        HxTarget(read_text(headers, HX_TARGET))
    }
}

/// The `HX-Trigger-Name` header: the `name` of the element that triggered
/// the request.
#[derive(Debug, Clone)]
pub struct HxTriggerName(pub Option<String>);

impl HxTriggerName {
    /// The header's text, or nothing where the header is missing or is not
    /// text. Reports the read to the request's storage.
    pub fn from_request_parts(headers: &HeaderMap<HeaderValue>, storage: &mut RequestStorage) -> (r:
        HxTriggerName)
        ensures
            r.0 is Some <==> header_text(header_entries(*headers), HX_TRIGGER_NAME@) is Some,
            r.0 matches Some(text) ==> Some(text@) == header_text(
                header_entries(*headers),
                HX_TRIGGER_NAME@,
            ),
            *final(storage) == old(storage).marked(HeaderKind::TriggerName),
    {
        proof {
            lemma_names_are_plain();
        }
        storage.try_mark(HeaderKind::TriggerName);
        HxTriggerName(read_text(headers, HX_TRIGGER_NAME))
    }
}

/// The `HX-Trigger` header: the `id` of the element that triggered the
/// request.
#[derive(Debug, Clone)]
pub struct HxTrigger(pub Option<String>);

impl HxTrigger {
    /// The header's text, or nothing where the header is missing or is not
    /// text. Reports the read to the request's storage.
    pub fn from_request_parts(headers: &HeaderMap<HeaderValue>, storage: &mut RequestStorage) -> (r:
        HxTrigger)
        ensures
            r.0 is Some <==> header_text(header_entries(*headers), HX_TRIGGER@) is Some,
            r.0 matches Some(text) ==> Some(text@) == header_text(
                header_entries(*headers),
                HX_TRIGGER@,
            ),
            *final(storage) == old(storage).marked(HeaderKind::Trigger),
    {
        proof {
            lemma_names_are_plain();
        }
        storage.try_mark(HeaderKind::Trigger);
        HxTrigger(read_text(headers, HX_TRIGGER))
    }
}

} // verus!
