//! The `HX-Location` response header.

use vstd::prelude::*;
use vstd::string::*;
use vstd::utf8::*;
use http::header::{HeaderMap, HeaderValue};
use serde_json::Value;
use crate::error::HxError;
use crate::headers::{lemma_names_are_plain, HX_LOCATION};
use crate::json::{json_quote, json_quoted, json_value_text};
use crate::responders::{header_set, put_text, SwapOption};

verus! {

/// More options for the `HX-Location` header.
#[derive(Debug, Clone)]
pub struct LocationOptions {
    /// The source element of the request.
    pub source: Option<String>,
    /// An event that "triggered" the request.
    pub event: Option<String>,
    /// A callback that will handle the response HTML.
    pub handler: Option<String>,
    /// The target to swap the response into.
    pub target: Option<String>,
    /// How the response will be swapped in relative to the target.
    pub swap: Option<SwapOption>,
    /// Values to submit with the request.
    pub values: Option<Value>,
    /// Headers to submit with the request.
    pub headers: Option<Value>,
}

impl LocationOptions {
    /// No option is set.
    pub open spec fn all_unset(self) -> bool {
        &&& self.source is None
        &&& self.event is None
        &&& self.handler is None
        &&& self.target is None
        &&& self.swap is None
        &&& self.values is None
        &&& self.headers is None
    }

    /// Tells whether no option is set.
    pub fn is_default(&self) -> (r: bool)
        ensures
            r == self.all_unset(),
    {
        self.source.is_none() && self.event.is_none() && self.handler.is_none()
            && self.target.is_none() && self.swap.is_none() && self.values.is_none()
            && self.headers.is_none()
    }
}

impl Default for LocationOptions {
    /// The options with none set.
    fn default() -> (r: Self)
        ensures
            r.all_unset(),
    {
        LocationOptions {
            source: None,
            event: None,
            handler: None,
            target: None,
            swap: None,
            values: None,
            headers: None,
        }
    }
}

/// The text of an optional string.
pub open spec fn opt_text(value: Option<String>) -> Option<Seq<char>> {
    match value {
        Some(text) => Some(text@),
        None => None,
    }
}

/// The JSON string literal for an optional text.
pub open spec fn opt_quoted(value: Option<Seq<char>>) -> Option<Seq<char>> {
    match value {
        Some(text) => Some(json_quoted(text)),
        None => None,
    }
}

/// The word of an optional swap option.
pub open spec fn opt_swap(value: Option<SwapOption>) -> Option<Seq<char>> {
    match value {
        Some(option) => Some(option.text()),
        None => None,
    }
}

/// One member of the JSON object behind the first: its key, written out
/// with comma, quotes and colon, and its value; nothing where there is no
/// value.
pub open spec fn member(key: Seq<char>, value: Option<Seq<char>>) -> Seq<char> {
    match value {
        Some(text) => key + text,
        None => Seq::empty(),
    }
}

/// The JSON object made of the given members, each value already written as
/// JSON: the path first, then the options that are set, in their fixed
/// order.
pub open spec fn framed(
    path: Seq<char>,
    source: Option<Seq<char>>,
    event: Option<Seq<char>>,
    handler: Option<Seq<char>>,
    target: Option<Seq<char>>,
    swap: Option<Seq<char>>,
    values: Option<Seq<char>>,
    headers: Option<Seq<char>>,
) -> Seq<char> {
    "{\"path\":"@ + path + member(",\"source\":"@, source) + member(",\"event\":"@, event)
        + member(",\"handler\":"@, handler) + member(",\"target\":"@, target) + member(
        ",\"swap\":"@,
        swap,
    ) + member(",\"values\":"@, values) + member(",\"headers\":"@, headers) + "}"@
}

/// The JSON text for a path and options that hold neither values nor
/// headers.
pub open spec fn location_json(path: Seq<char>, options: LocationOptions) -> Seq<char> {
    framed(
        json_quoted(path),
        opt_quoted(opt_text(options.source)),
        opt_quoted(opt_text(options.event)),
        opt_quoted(opt_text(options.handler)),
        opt_quoted(opt_text(options.target)),
        opt_quoted(opt_swap(options.swap)),
        None,
        None,
    )
}

/// The members of the JSON object, each value written as JSON.
#[derive(Debug)]
pub struct LocationMembers {
    pub path: String,
    pub source: Option<String>,
    pub event: Option<String>,
    pub handler: Option<String>,
    pub target: Option<String>,
    pub swap: Option<String>,
    pub values: Option<String>,
    pub headers: Option<String>,
}

impl LocationMembers {
    /// The JSON object that these members make.
    pub open spec fn text(self) -> Seq<char> {
        framed(
            self.path@,
            opt_text(self.source),
            opt_text(self.event),
            opt_text(self.handler),
            opt_text(self.target),
            opt_text(self.swap),
            opt_text(self.values),
            opt_text(self.headers),
        )
    }

    /// Writes the JSON object: braces round the members, the path first.
    pub fn frame(&self) -> (r: String)
        ensures
            r@ == self.text(),
    {
        let mut text = "{\"path\":".to_owned();
        text.append(self.path.as_str());
        push_member(&mut text, ",\"source\":", &self.source);
        push_member(&mut text, ",\"event\":", &self.event);
        push_member(&mut text, ",\"handler\":", &self.handler);
        push_member(&mut text, ",\"target\":", &self.target);
        push_member(&mut text, ",\"swap\":", &self.swap);
        push_member(&mut text, ",\"values\":", &self.values);
        push_member(&mut text, ",\"headers\":", &self.headers);
        text.append("}");
        text
    }
}

/// Appends one member to the text, where it has a value.
pub fn push_member(text: &mut String, key: &str, value: &Option<String>)
    ensures
        final(text)@ == old(text)@ + member(key@, opt_text(*value)),
{
    match value {
        Some(value) => {
            text.append(key);
            text.append(value.as_str());
            proof {
                assert(final(text)@ =~= old(text)@ + (key@ + value@));
            }
        },
        None => {
            proof {
                assert(text@ =~= old(text)@ + Seq::<char>::empty());
            }
        },
    }
}

/// Writes an optional text as a JSON string literal.
pub fn quote_opt(value: &Option<String>) -> (r: Result<Option<String>, HxError>)
    ensures
        r matches Ok(quoted) ==> opt_text(quoted) == opt_quoted(opt_text(*value)),
        r matches Err(e) ==> e is Json,
        *value is None ==> r is Ok,
{
    match value {
        Some(text) => match json_quote(text.as_str()) {
            Ok(quoted) => Ok(Some(quoted)),
            Err(e) => Err(HxError::Json(e)),
        },
        None => Ok(None),
    }
}

/// Writes an optional JSON value as text.
pub fn write_opt(value: &Option<Value>) -> (r: Result<Option<String>, HxError>)
    ensures
        r matches Ok(text) ==> (text is Some <==> *value is Some),
        r matches Err(e) ==> e is Json,
        *value is None ==> r is Ok,
{
    match value {
        Some(value) => match json_value_text(value) {
            Ok(text) => Ok(Some(text)),
            Err(e) => Err(HxError::Json(e)),
        },
        None => Ok(None),
    }
}

/// The `HX-Location` header: a client-side redirect that does not reload the
/// whole page.
#[derive(Debug, Clone)]
pub struct HxLocation {
    /// URI path of the new location.
    pub path: String,
    /// Extra options.
    pub options: Option<LocationOptions>,
}

impl HxLocation {
    /// Whether the header's value is a JSON object: it is where an option is
    /// set, else it is the bare path.
    pub open spec fn uses_json(self) -> bool {
        self.options is Some && !self.options->Some_0.all_unset()
    }

    /// Sets `path` as the location.
    pub fn from_path(path: &str) -> (r: HxLocation)
        ensures
            r.path@ == path@,
            r.options is None,
    {
        HxLocation { path: path.to_owned(), options: None }
    }

    /// Sets `path` as the location, with options.
    pub fn from_path_with_options(path: &str, options: LocationOptions) -> (r: HxLocation)
        ensures
            r.path@ == path@,
            r.options == Some(options),
    {
        HxLocation { path: path.to_owned(), options: Some(options) }
    }

    /// The text of the header's value: the bare path where no option is
    /// set, else a JSON object with the path and the options that are set.
    pub fn into_header_with_options(self) -> (r: Result<String, HxError>)
        ensures
            !self.uses_json() ==> r is Ok && r->Ok_0@ == self.path@,
            r matches Err(e) ==> e is Json,
            self.uses_json() && self.options->Some_0.values is None
                && self.options->Some_0.headers is None && r is Ok ==> r->Ok_0@ == location_json(
                self.path@,
                self.options->Some_0,
            ),
            self.uses_json() && r is Ok ==> exists|values: Option<Seq<char>>, headers: Option<Seq<char>>|
                {
                    &&& values is Some <==> self.options->Some_0.values is Some
                    &&& headers is Some <==> self.options->Some_0.headers is Some
                    &&& r->Ok_0@ == #[trigger] framed(
                        json_quoted(self.path@),
                        opt_quoted(opt_text(self.options->Some_0.source)),
                        opt_quoted(opt_text(self.options->Some_0.event)),
                        opt_quoted(opt_text(self.options->Some_0.handler)),
                        opt_quoted(opt_text(self.options->Some_0.target)),
                        opt_quoted(opt_swap(self.options->Some_0.swap)),
                        values,
                        headers,
                    )
                },
    {
        match self.options {
            Some(options) => {
                if options.is_default() {
                    return Ok(self.path);
                }
                let path = match json_quote(self.path.as_str()) {
                    Ok(quoted) => quoted,
                    Err(e) => {
                        return Err(HxError::Json(e));
                    },
                };
                let source = match quote_opt(&options.source) {
                    Ok(quoted) => quoted,
                    Err(e) => {
                        return Err(e);
                    },
                };
                let event = match quote_opt(&options.event) {
                    Ok(quoted) => quoted,
                    Err(e) => {
                        return Err(e);
                    },
                };
                let handler = match quote_opt(&options.handler) {
                    Ok(quoted) => quoted,
                    Err(e) => {
                        return Err(e);
                    },
                };
                let target = match quote_opt(&options.target) {
                    Ok(quoted) => quoted,
                    Err(e) => {
                        return Err(e);
                    },
                };
                let swap = match options.swap {
                    Some(option) => match json_quote(option.as_str()) {
                        Ok(quoted) => Some(quoted),
                        Err(e) => {
                            return Err(HxError::Json(e));
                        },
                    },
                    None => None,
                };
                let values = match write_opt(&options.values) {
                    Ok(text) => text,
                    Err(e) => {
                        return Err(e);
                    },
                };
                let headers = match write_opt(&options.headers) {
                    Ok(text) => text,
                    Err(e) => {
                        return Err(e);
                    },
                };
                let members = LocationMembers {
                    path,
                    source,
                    event,
                    handler,
                    target,
                    swap,
                    values,
                    headers,
                };
                Ok(members.frame())
            },
            None => Ok(self.path),
        }
    }

    /// Sets the header on a response.
    pub fn into_response_parts(self, headers: HeaderMap<HeaderValue>) -> (r: Result<
        HeaderMap<HeaderValue>,
        HxError,
    >)
        ensures
            !self.uses_json() ==> header_set(headers, r, HX_LOCATION@, encode_utf8(self.path@)),
            self.uses_json() && self.options->Some_0.values is None
                && self.options->Some_0.headers is None ==> (r is Err && r->Err_0 is Json)
                || header_set(
                headers,
                r,
                HX_LOCATION@,
                encode_utf8(location_json(self.path@, self.options->Some_0)),
            ),
    {
        proof {
            lemma_names_are_plain();
        }
        match self.into_header_with_options() {
            Ok(text) => put_text(headers, HX_LOCATION, text),
            Err(e) => Err(e),
        }
    }
}

} // verus!
