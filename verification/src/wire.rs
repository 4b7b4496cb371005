//! The parts of the `http` crate that this library builds on: header values
//! and the header map. Their code is not verified here; each item below says
//! what is taken for granted about it.

use vstd::prelude::*;
use vstd::string::*;
use http::header::{HeaderMap, HeaderValue, InvalidHeaderValue, MaxSizeReached};
use http::Uri;
use vstd::utf8::*;
use crate::headers::is_plain_header_name;

verus! {

/// `http::header::HeaderValue`, carried as an opaque value.
#[verifier::external_type_specification]
#[verifier::external_body]
pub struct ExHeaderValue(HeaderValue);

/// `http::header::HeaderMap`, carried as an opaque value.
#[verifier::external_type_specification]
#[verifier::external_body]
#[verifier::reject_recursive_types(T)]
pub struct ExHeaderMap<T>(HeaderMap<T>);

/// `http::header::InvalidHeaderValue`, the error of a refused header value.
#[verifier::external_type_specification]
#[verifier::external_body]
pub struct ExInvalidHeaderValue(InvalidHeaderValue);

/// `http::header::MaxSizeReached`, the error of a header map that cannot grow.
#[verifier::external_type_specification]
#[verifier::external_body]
pub struct ExMaxSizeReached(MaxSizeReached);

/// `http::Uri`, carried as an opaque value.
#[verifier::external_type_specification]
#[verifier::external_body]
pub struct ExUri(Uri);

/// Whether `http` reads a text as a URI.
pub uninterp spec fn uri_parses(text: Seq<char>) -> bool;

/// The bytes that a header value holds.
pub uninterp spec fn value_bytes(value: HeaderValue) -> Seq<u8>;

/// What a header map holds: for each header name that occurs in it, the
/// bytes of its values in the order in which they were added.
pub uninterp spec fn header_entries(map: HeaderMap<HeaderValue>) -> Map<Seq<char>, Seq<Seq<u8>>>;

/// A byte that `http` accepts inside a header value: anything from the space
/// upwards except DEL, and the horizontal tab.
pub open spec fn is_value_byte(b: u8) -> bool {
    (b >= 32 && b != 127) || b == 9
}

/// Bytes that `http` accepts as a header value.
pub open spec fn is_header_value(bytes: Seq<u8>) -> bool {
    forall|i: int| 0 <= i < bytes.len() ==> is_value_byte(#[trigger] bytes[i])
}

/// A byte that reads as text: printable ASCII or the horizontal tab.
pub open spec fn is_visible_byte(b: u8) -> bool {
    (b >= 32 && b < 127) || b == 9
}

/// Bytes that read as text throughout.
pub open spec fn is_visible_value(bytes: Seq<u8>) -> bool {
    forall|i: int| 0 <= i < bytes.len() ==> is_visible_byte(#[trigger] bytes[i])
}

/// Text made of printable ASCII characters only.
pub open spec fn is_visible_text(text: Seq<char>) -> bool {
    forall|i: int| 0 <= i < text.len() ==> ' ' <= #[trigger] text[i] <= '~'
}

/// Printable ASCII text is a legal header value, byte for character.
pub proof fn lemma_visible_text_is_value(text: Seq<char>)
    requires
        is_visible_text(text),
    ensures
        is_header_value(encode_utf8(text)),
        encode_utf8(text).len() == text.len(),
{
    assert(is_ascii_chars(text));
    is_ascii_chars_encode_utf8(text);
    let bytes = encode_utf8(text);
    assert forall|i: int| 0 <= i < bytes.len() implies is_value_byte(#[trigger] bytes[i]) by {
        assert(text[i] as u8 == bytes[i]);
        assert(' ' <= text[i] <= '~');
    }
}

/// The values stored under `name`, empty where the name does not occur.
pub open spec fn values_of(entries: Map<Seq<char>, Seq<Seq<u8>>>, name: Seq<char>) -> Seq<Seq<u8>> {
    if entries.contains_key(name) {
        entries[name]
    } else {
        Seq::empty()
    }
}

/// The entries after one more value was added under `name`, behind those
/// already there.
pub open spec fn with_appended(
    entries: Map<Seq<char>, Seq<Seq<u8>>>,
    name: Seq<char>,
    bytes: Seq<u8>,
) -> Map<Seq<char>, Seq<Seq<u8>>> {
    entries.insert(name, values_of(entries, name).push(bytes))
}

/// The entries after the values under `name` were replaced by a single one.
pub open spec fn with_replaced(
    entries: Map<Seq<char>, Seq<Seq<u8>>>,
    name: Seq<char>,
    bytes: Seq<u8>,
) -> Map<Seq<char>, Seq<Seq<u8>>> {
    entries.insert(name, seq![bytes])
}

/// Calls `HeaderValue::from_str`. Taken for granted: the text is accepted
/// exactly when every byte of its UTF-8 form is a legal value byte, and the
/// value then holds those bytes.
#[verifier::external_body]
pub(crate) fn header_value_from_str(text: &str) -> (r: Result<HeaderValue, InvalidHeaderValue>)
    ensures
        r.is_ok() <==> is_header_value(text.spec_bytes()),
        r matches Ok(v) ==> value_bytes(v) == text.spec_bytes(),
{
    HeaderValue::from_str(text)
}

/// Calls `HeaderMap::try_append` with a name given as static text. Taken for
/// granted: on success the value stands last under that name, everything
/// else is as before, and the flag tells whether the name was already
/// present; on failure the map holds what it held.
#[verifier::external_body]
pub(crate) fn header_map_try_append(
    map: &mut HeaderMap<HeaderValue>,
    name: &'static str,
    value: HeaderValue,
) -> (r: Result<bool, MaxSizeReached>)
    requires
        is_plain_header_name(name@),
    ensures
        r matches Ok(present) ==> present == header_entries(*old(map)).contains_key(name@)
            && header_entries(*final(map)) == with_appended(
            header_entries(*old(map)),
            name@,
            value_bytes(value),
        ),
        r is Err ==> header_entries(*final(map)) == header_entries(*old(map)),
{
    map.try_append(name, value)
}

/// Calls `HeaderValue::from_static`. Taken for granted: for printable ASCII
/// text the call returns a value that holds the bytes of the text.
#[verifier::external_body]
pub(crate) fn header_value_from_static(text: &'static str) -> (r: HeaderValue)
    requires
        is_visible_text(text@),
    ensures
        value_bytes(r) == text.spec_bytes(),
{
    HeaderValue::from_static(text)
}

/// Calls `HeaderValue::from_maybe_shared` on an owned string. Taken for
/// granted: the same as for `HeaderValue::from_str`.
#[verifier::external_body]
pub(crate) fn header_value_from_string(text: String) -> (r: Result<
    HeaderValue,
    InvalidHeaderValue,
>)
    ensures
        r.is_ok() <==> is_header_value(encode_utf8(text@)),
        r matches Ok(v) ==> value_bytes(v) == encode_utf8(text@),
{
    HeaderValue::from_maybe_shared(text)
}

/// Calls `HeaderValue::to_str`. Taken for granted: the value reads as text
/// exactly when all its bytes are printable ASCII or tabs, and the text then
/// has those bytes.
#[verifier::external_body]
pub(crate) fn header_value_to_str(value: &HeaderValue) -> (r: Option<&str>)
    ensures
        r is Some <==> is_visible_value(value_bytes(*value)),
        r matches Some(text) ==> text.spec_bytes() == value_bytes(*value),
{
    value.to_str().ok()
}

/// Calls `HeaderMap::contains_key` with a name given as text. Taken for
/// granted: it tells whether the map holds a value under that name.
#[verifier::external_body]
pub(crate) fn header_map_contains_key(map: &HeaderMap<HeaderValue>, name: &str) -> (r: bool)
    requires
        is_plain_header_name(name@),
    ensures
        r == header_entries(*map).contains_key(name@),
{
    map.contains_key(name)
}

/// Calls `HeaderMap::get` with a name given as text. Taken for granted: it
/// returns the first value under that name, where there is one.
#[verifier::external_body]
pub(crate) fn header_map_get<'a>(map: &'a HeaderMap<HeaderValue>, name: &str) -> (r: Option<
    &'a HeaderValue,
>)
    requires
        is_plain_header_name(name@),
    ensures
        r is Some <==> header_entries(*map).contains_key(name@),
        r matches Some(value) ==> values_of(header_entries(*map), name@).len() > 0 && value_bytes(
            *value,
        ) == values_of(header_entries(*map), name@)[0],
{
    map.get(name)
}

/// Calls `HeaderMap::try_insert` with a name given as static text. Taken for
/// granted: on success the value is the only one under that name and
/// everything else is as before; on failure the map holds what it held.
#[verifier::external_body]
pub(crate) fn header_map_try_insert(
    map: &mut HeaderMap<HeaderValue>,
    name: &'static str,
    value: HeaderValue,
) -> (r: Result<Option<HeaderValue>, MaxSizeReached>)
    requires
        is_plain_header_name(name@),
    ensures
        r matches Ok(previous) ==> (previous is Some <==> header_entries(*old(map)).contains_key(
            name@,
        )) && header_entries(*final(map)) == with_replaced(
            header_entries(*old(map)),
            name@,
            value_bytes(value),
        ),
        r is Err ==> header_entries(*final(map)) == header_entries(*old(map)),
{
    map.try_insert(name, value)
}

/// Parses a text with `Uri`'s `FromStr`. Taken for granted: whether a text
/// is read as a URI depends on the text alone. Nothing is stated of the URI
/// itself.
#[verifier::external_body]
pub(crate) fn parse_uri(text: &str) -> (r: Option<Uri>)
    ensures
        r is Some <==> uri_parses(text@),
{
    text.parse::<Uri>().ok()
}

} // verus!
