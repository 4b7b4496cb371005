//! Adds a `Vary` header that names the tracked request headers which were
//! read while a request was handled.

use vstd::prelude::*;
use vstd::string::*;
use vstd::utf8::*;
use http::header::{HeaderMap, HeaderValue};
use crate::error::{checked_size, checked_value, HxError};
use crate::headers::{is_name_char, lemma_names_are_plain, VARY};
use crate::signal::{ConfigError, HeaderKind, RequestStorage, SignalSet};
use crate::wire::{
    header_entries, header_map_try_append, header_value_from_str, is_header_value,
    is_visible_text, lemma_visible_text_is_value, value_bytes, values_of, with_appended,
};

verus! {

/// The names of `kinds`, in the order given, joined by a comma and a space.
pub open spec fn vary_text(kinds: Seq<HeaderKind>) -> Seq<char>
    decreases kinds.len(),
{
    if kinds.len() == 0 {
        Seq::empty()
    } else if kinds.len() == 1 {
        kinds[0].name()
    } else {
        vary_text(kinds.drop_last()) + ", "@ + kinds.last().name()
    }
}

/// The bytes of the `Vary` value for `kinds`.
pub open spec fn vary_bytes(kinds: Seq<HeaderKind>) -> Seq<u8> {
    encode_utf8(vary_text(kinds))
}

/// The joined names of any kinds are printable ASCII, so they always make a
/// legal header value; the text is empty only for no kinds at all.
pub proof fn lemma_vary_text_is_value(kinds: Seq<HeaderKind>)
    ensures
        is_visible_text(vary_text(kinds)),
        is_header_value(vary_bytes(kinds)),
        kinds.len() > 0 ==> vary_text(kinds).len() > 0,
    decreases kinds.len(),
{
    lemma_names_are_plain();
    reveal_strlit(", ");
    if kinds.len() > 1 {
        lemma_vary_text_is_value(kinds.drop_last());
        let name = kinds.last().name();
        assert forall|i: int| 0 <= i < name.len() implies ' ' <= #[trigger] name[i] <= '~' by {
            assert(is_name_char(name[i]));
        }
    } else if kinds.len() == 1 {
        let name = kinds[0].name();
        assert forall|i: int| 0 <= i < name.len() implies ' ' <= #[trigger] name[i] <= '~' by {
            assert(is_name_char(name[i]));
        }
    }
    lemma_visible_text_is_value(vary_text(kinds));
}

/// Joins the names of `kinds` with a comma and a space.
pub fn join_names(kinds: &Vec<HeaderKind>) -> (r: String)
    ensures
        r@ == vary_text(kinds@),
{
    let mut text = String::new();
    let mut i: usize = 0;
    while i < kinds.len()
        invariant
            i <= kinds.len(),
            text@ == vary_text(kinds@.take(i as int)),
        decreases kinds.len() - i,
    {
        if i > 0 {
            text.append(", ");
        }
        text.append(kinds[i].as_str());
        proof {
            let now = kinds@.take(i + 1);
            assert(now.drop_last() =~= kinds@.take(i as int));
            assert(now.last() == kinds@[i as int]);
            if i == 0 {
                assert(text@ =~= now[0].name());
            }
        }
        i += 1;
    }
    proof {
        assert(kinds@.take(i as int) =~= kinds@);
    }
    text
}

/// Turns the kinds that fired into the value of a `Vary` header: none where
/// nothing fired, else the joined names.
pub fn encode(used: &Vec<HeaderKind>) -> (r: Result<Option<HeaderValue>, HxError>)
    ensures
        used@.len() == 0 ==> r matches Ok(None),
        used@.len() > 0 ==> (r matches Ok(Some(value)) && value_bytes(value) == vary_bytes(used@)),
{
    if used.len() == 0 {
        return Ok(None);
    }
    let text = join_names(used);
    proof {
        lemma_vary_text_is_value(used@);
    }
    match checked_value(header_value_from_str(text.as_str())) {
        Ok(value) => Ok(Some(value)),
        Err(e) => Err(e),
    }
}

/// Adds `value` to the response headers as one more `Vary` header, behind
/// those that are there.
pub fn merge(headers: &mut HeaderMap<HeaderValue>, value: HeaderValue) -> (r: Result<(), HxError>)
    ensures
        r is Ok ==> header_entries(*final(headers)) == with_appended(
            header_entries(*old(headers)),
            VARY@,
            value_bytes(value),
        ),
        r is Err ==> r->Err_0 is TooManyResponseHeaders && header_entries(
            *final(headers),
        ) == header_entries(*old(headers)),
{
    proof {
        lemma_names_are_plain();
    }
    match checked_size(header_map_try_append(headers, VARY, value)) {
        Ok(_) => Ok(()),
        Err(e) => Err(e),
    }
}

/// Reads the cells in canonical order and adds the `Vary` header that they
/// call for. Where nothing fired the headers stay as they are. Where
/// something fired, either one `Vary` header with the fired kinds' names is
/// added behind the existing ones, or the header map is full: then the
/// headers stay as they are and the error says so.
pub fn add_vary(signals: SignalSet, headers: &mut HeaderMap<HeaderValue>) -> (r: Result<
    (),
    HxError,
>)
    ensures
        signals.fired() == Set::<HeaderKind>::empty() ==> r is Ok && header_entries(*final(headers))
            == header_entries(*old(headers)),
        signals.fired() != Set::<HeaderKind>::empty() && r is Ok ==> header_entries(*final(headers))
            == with_appended(
            header_entries(*old(headers)),
            VARY@,
            vary_bytes(signals.fired_in_order()),
        ),
        r is Err ==> r->Err_0 is TooManyResponseHeaders && header_entries(
            *final(headers),
        ) == header_entries(*old(headers)),
{
    let used = signals.drain();
    match encode(&used) {
        Ok(Some(value)) => merge(headers, value),
        Ok(None) => Ok(()),
        Err(e) => Err(e),
    }
}

/// Adding a value under a name keeps every value that was there: those
/// under the same name stay in front of the new one, in their order, and
/// those under other names are untouched.
pub proof fn lemma_append_preserves(
    entries: Map<Seq<char>, Seq<Seq<u8>>>,
    name: Seq<char>,
    bytes: Seq<u8>,
)
    ensures
        values_of(with_appended(entries, name, bytes), name) == values_of(entries, name).push(bytes),
        values_of(with_appended(entries, name, bytes), name).len() == values_of(entries, name).len()
            + 1,
        forall|i: int|
            0 <= i < values_of(entries, name).len() ==> values_of(
                with_appended(entries, name, bytes),
                name,
            )[i] == values_of(entries, name)[i],
        forall|other: Seq<char>|
            other != name ==> values_of(with_appended(entries, name, bytes), other) == values_of(
                entries,
                other,
            ),
{
}

/// From installation to the response: whatever was marked in between, in
/// any order and however often, the signal set that comes back calls for a
/// `Vary` value that names exactly the marked kinds, each once, in canonical
/// order. That value is always a legal header value, and none is due only
/// where nothing was marked.
pub proof fn lemma_vary_of_marks(storage: RequestStorage, marks: Seq<HeaderKind>)
    requires
        storage.signals is None,
    ensures
        storage.installed() is Some,
        storage.installed().unwrap().marked_all(marks).collected() is Some,
        ({
            let set = storage.installed().unwrap().marked_all(marks).collected().unwrap();
            &&& set.fired() == marks.to_set()
            &&& set.fired_in_order() == HeaderKind::canonical().filter(
                |kind: HeaderKind| marks.contains(kind),
            )
            &&& is_header_value(vary_bytes(set.fired_in_order()))
            &&& (set.fired() == Set::<HeaderKind>::empty() <==> marks.len() == 0)
        }),
{
    crate::signal::lemma_collected_marks(storage, marks);
    let set = storage.installed().unwrap().marked_all(marks).collected().unwrap();
    lemma_vary_text_is_value(set.fired_in_order());
    if marks.len() > 0 {
        assert(marks.to_set().contains(marks[0]));
    } else {
        assert(marks.to_set() =~= Set::<HeaderKind>::empty());
    }
}

/// Puts the middleware around a service.
#[derive(Debug, Clone, Copy)]
pub struct AutoVaryLayer;

/// A service wrapped so that its responses get the `Vary` header they need.
#[derive(Debug, Clone)]
pub struct AutoVaryMiddleware<S> {
    /// The wrapped service.
    pub inner: S,
}

impl AutoVaryLayer {
    /// Wraps `inner`.
    pub fn layer<S>(&self, inner: S) -> (r: AutoVaryMiddleware<S>)
        ensures
            r.inner == inner,
    {
        AutoVaryMiddleware { inner }
    }
}

impl<S> AutoVaryMiddleware<S> {
    /// Before the wrapped service runs: installs the signal set in the
    /// request's storage. Fails where a set is installed already, which
    /// means that the middleware was applied twice.
    pub fn before_dispatch(&self, storage: &mut RequestStorage) -> (r: Result<(), ConfigError>)
        ensures
            r is Ok <==> old(storage).signals is None,
            r is Ok ==> Some(*final(storage)) == old(storage).installed(),
            r is Err ==> r == Err::<(), ConfigError>(ConfigError::InstalledTwice) && *final(storage)
                == *old(storage),
    {
        storage.install()
    }

    /// After the wrapped service has answered: takes the signal set back
    /// and adds the `Vary` header for the kinds that fired.
    pub fn after_dispatch(
        &self,
        storage: &mut RequestStorage,
        headers: &mut HeaderMap<HeaderValue>,
    ) -> (r: Result<(), HxError>)
        ensures
            final(storage).signals is None,
            final(storage).others == old(storage).others,
            old(storage).signals matches Some(set) ==> {
                &&& set.fired() == Set::<HeaderKind>::empty() ==> r is Ok && header_entries(
                    *final(headers),
                ) == header_entries(*old(headers))
                &&& set.fired() != Set::<HeaderKind>::empty() && r is Ok ==> header_entries(
                    *final(headers),
                ) == with_appended(
                    header_entries(*old(headers)),
                    VARY@,
                    vary_bytes(set.fired_in_order()),
                )
            },
            old(storage).signals is None ==> r is Ok && header_entries(*final(headers))
                == header_entries(*old(headers)),
            r is Err ==> r->Err_0 is TooManyResponseHeaders && header_entries(
                *final(headers),
            ) == header_entries(*old(headers)),
    {
        match storage.collect() {
            Some(set) => {
                proof {
                    crate::signal::lemma_released_fired(old(storage).signals.unwrap());
                }
                add_vary(set, headers)
            },
            None => Ok(()),
        }
    }
}

} // verus!
