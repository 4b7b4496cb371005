//! The `HX-Trigger` family of response headers.

use vstd::prelude::*;
use vstd::string::*;
use vstd::utf8::*;
use std::collections::HashMap;
use http::header::{HeaderMap, HeaderValue};
use serde_json::Value;
use crate::error::{checked_value, HxError};
use crate::headers::{lemma_names_are_plain, HX_TRIGGER, HX_TRIGGER_AFTER_SETTLE};
use crate::json::{json_map_text, json_null};
use crate::responders::{header_set, put_value};
use crate::wire::{
    header_entries, header_value_from_string, is_header_value, value_bytes, with_replaced,
};

verus! {

/// A client-side event, with data or without.
#[derive(Debug, Clone)]
pub struct HxEvent {
    /// The event's name.
    pub name: String,
    /// What the event carries.
    pub data: Option<Value>,
}

impl HxEvent {
    /// An event without data.
    pub fn new(name: String) -> (r: HxEvent)
        ensures
            r.name@ == name@,
            r.data is None,
    {
        HxEvent { name, data: None }
    }

    /// An event without data, from its name as text.
    pub fn from_name(name: &str) -> (r: HxEvent)
        ensures
            r.name@ == name@,
            r.data is None,
    {
        HxEvent { name: name.to_owned(), data: None }
    }

    /// An event that carries `data`.
    pub fn new_with_data(name: &str, data: Value) -> (r: HxEvent)
        ensures
            r.name@ == name@,
            r.data == Some(data),
    {
        HxEvent { name: name.to_owned(), data: Some(data) }
    }
}

/// The names of the events, joined by a comma and a space.
pub open spec fn joined_names(events: Seq<HxEvent>) -> Seq<char>
    decreases events.len(),
{
    if events.len() == 0 {
        Seq::empty()
    } else if events.len() == 1 {
        events[0].name@
    } else {
        joined_names(events.drop_last()) + ", "@ + events.last().name@
    }
}

/// Whether one of the events carries data.
pub open spec fn any_data(events: Seq<HxEvent>) -> bool {
    exists|i: int| 0 <= i < events.len() && (#[trigger] events[i]).data is Some
}

/// What turning `bytes` into a header value comes to: legal bytes give a
/// value that holds them, others are refused.
pub open spec fn value_made(r: Result<HeaderValue, HxError>, bytes: Seq<u8>) -> bool {
    if is_header_value(bytes) {
        r is Ok && value_bytes(r->Ok_0) == bytes
    } else {
        r is Err && r->Err_0 is InvalidHeaderValue
    }
}

/// Tells whether one of the events carries data.
pub fn has_data(events: &Vec<HxEvent>) -> (r: bool)
    ensures
        r == any_data(events@),
{
    let mut i: usize = 0;
    while i < events.len()
        invariant
            i <= events.len(),
            forall|j: int| 0 <= j < i ==> (#[trigger] events@[j]).data is None,
        decreases events.len() - i,
    {
        if events[i].data.is_some() {
            return true;
        }
        i += 1;
    }
    false
}

/// Joins the names of the events with a comma and a space.
pub fn join_event_names(events: &Vec<HxEvent>) -> (r: String)
    ensures
        r@ == joined_names(events@),
{
    let mut text = String::new();
    let mut i: usize = 0;
    while i < events.len()
        invariant
            i <= events.len(),
            text@ == joined_names(events@.take(i as int)),
        decreases events.len() - i,
    {
        if i > 0 {
            text.append(", ");
        }
        text.append(events[i].name.as_str());
        proof {
            let now = events@.take(i + 1);
            assert(now.drop_last() =~= events@.take(i as int));
            assert(now.last() == events@[i as int]);
            if i == 0 {
                assert(text@ =~= now[0].name@);
            }
        }
        i += 1;
    }
    proof {
        assert(events@.take(i as int) =~= events@);
    }
    text
}

/// Makes a header value of what the JSON writer gave: its error is handed
/// on, its text has to be a legal header value.
pub fn header_from_json(text: Result<String, serde_json::Error>) -> (r: Result<
    HeaderValue,
    HxError,
>)
    ensures
        text is Err ==> r is Err && r->Err_0 is Json,
        text matches Ok(t) ==> value_made(r, encode_utf8(t@)),
{
    match text {
        Ok(t) => checked_value(header_value_from_string(t)),
        Err(e) => Err(HxError::Json(e)),
    }
}

/// The header value for a list of events. Without data it is the events'
/// names, joined by a comma and a space. Where an event carries data it is
/// a JSON object with one member per name, `null` standing for no data;
/// the JSON writer decides on that text.
pub fn events_to_header_value(events: Vec<HxEvent>) -> (r: Result<HeaderValue, HxError>)
    ensures
        !any_data(events@) ==> value_made(r, encode_utf8(joined_names(events@))),
        r matches Ok(value) ==> is_header_value(value_bytes(value)),
        r matches Err(e) ==> e is InvalidHeaderValue || (e is Json && any_data(events@)),
{
    if has_data(&events) {
        let mut events = events;
        let mut map: HashMap<String, Value> = HashMap::new();
        while events.len() > 0
            decreases events.len(),
        {
            let event = events.remove(0);
            let data = match event.data {
                Some(data) => data,
                None => json_null(),
            };
            map.insert(event.name, data);
        }
        header_from_json(json_map_text(&map))
    } else {
        checked_value(header_value_from_string(join_event_names(&events)))
    }
}

/// Says when an event is triggered.
#[derive(Debug, Clone, Copy, PartialEq, Eq, Structural)]
#[non_exhaustive]
pub enum TriggerMode {
    /// As soon as the response is received.
    Normal,
    /// After the settling step.
    AfterSettle,
    /// After the swap step.
    AfterSwap,
}

impl TriggerMode {
    /// The name of the header that carries the events of this mode. Events
    /// for after the swap travel in the same header as those for after the
    /// settling.
    pub open spec fn header(self) -> Seq<char> {
        match self {
            TriggerMode::Normal => HX_TRIGGER@,
            TriggerMode::AfterSettle => HX_TRIGGER_AFTER_SETTLE@,
            TriggerMode::AfterSwap => HX_TRIGGER_AFTER_SETTLE@,
        }
    }

    /// The name of the header that carries the events of this mode.
    pub fn header_name(&self) -> (r: &'static str)
        ensures
            r@ == self.header(),
            crate::headers::is_plain_header_name(r@),
    {
        proof {
            lemma_names_are_plain();
        }
        match self {
            TriggerMode::Normal => HX_TRIGGER,
            TriggerMode::AfterSettle => HX_TRIGGER_AFTER_SETTLE,
            TriggerMode::AfterSwap => HX_TRIGGER_AFTER_SETTLE,
        }
    }
}

/// The `HX-Trigger*` headers: events to trigger on the client.
#[derive(Debug, Clone)]
pub struct HxResponseTrigger {
    /// When the events are triggered.
    pub mode: TriggerMode,
    /// The events.
    pub events: Vec<HxEvent>,
}

impl HxResponseTrigger {
    /// A trigger of the given mode and events.
    pub fn new(mode: TriggerMode, events: Vec<HxEvent>) -> (r: HxResponseTrigger)
        ensures
            r.mode == mode,
            r.events == events,
    {
        HxResponseTrigger { mode, events }
    }

    /// A trigger that fires as soon as the response is received.
    pub fn normal(events: Vec<HxEvent>) -> (r: HxResponseTrigger)
        ensures
            r.mode == TriggerMode::Normal,
            r.events == events,
    {
        HxResponseTrigger::new(TriggerMode::Normal, events)
    }

    /// A trigger that fires after the settling step.
    pub fn after_settle(events: Vec<HxEvent>) -> (r: HxResponseTrigger)
        ensures
            r.mode == TriggerMode::AfterSettle,
            r.events == events,
    {
        HxResponseTrigger::new(TriggerMode::AfterSettle, events)
    }

    /// A trigger that fires after the swap step.
    pub fn after_swap(events: Vec<HxEvent>) -> (r: HxResponseTrigger)
        ensures
            r.mode == TriggerMode::AfterSwap,
            r.events == events,
    {
        HxResponseTrigger::new(TriggerMode::AfterSwap, events)
    }

    /// Sets the header on a response. Without events the headers stay as
    /// they are.
    pub fn into_response_parts(self, headers: HeaderMap<HeaderValue>) -> (r: Result<
        HeaderMap<HeaderValue>,
        HxError,
    >)
        ensures
            self.events@.len() == 0 ==> r == Ok::<HeaderMap<HeaderValue>, HxError>(headers),
            self.events@.len() > 0 && !any_data(self.events@) ==> header_set(
                headers,
                r,
                self.mode.header(),
                encode_utf8(joined_names(self.events@)),
            ),
            self.events@.len() > 0 ==> (r matches Ok(after) ==> exists|bytes: Seq<u8>|
                is_header_value(bytes) && header_entries(after) == #[trigger] with_replaced(
                    header_entries(headers),
                    self.mode.header(),
                    bytes,
                )),
    {
        if self.events.len() == 0 {
            return Ok(headers);
        }
        let name = self.mode.header_name();
        match events_to_header_value(self.events) {
            Ok(value) => put_value(headers, name, value),
            Err(e) => Err(e),
        }
    }
}

} // verus!
