use axum_htmx::error::HxError;
use axum_htmx::extractors::{HxRequest, HxTarget, HxTrigger, HxTriggerName};
use axum_htmx::responders::location::{HxLocation, LocationMembers, LocationOptions};
use axum_htmx::responders::trigger::{
    events_to_header_value, header_from_json, HxEvent, HxResponseTrigger, TriggerMode,
};
use axum_htmx::responders::vary::{VaryHxRequest, VaryHxTarget};
use axum_htmx::responders::{
    HxPushUrl, HxRedirect, HxRefresh, HxReplaceUrl, HxReselect, HxReswap, HxRetarget, SwapOption,
};
use http::header::{HeaderMap, HeaderValue};
use serde_json::Value;
use std::collections::hash_set::HashSet;

#[test]
fn test_serialize_location() {
    let loc = HxLocation::from_path("/foo");
    assert_eq!(loc.into_header_with_options().unwrap(), "/foo");

    let loc = HxLocation::from_path_with_options(
        "/foo",
        LocationOptions {
            event: Some("click".into()),
            swap: Some(SwapOption::InnerHtml),
            ..Default::default()
        },
    );
    assert_eq!(
        loc.into_header_with_options().unwrap(),
        r#"{"path":"/foo","event":"click","swap":"innerHTML"}"#
    );
}

#[test]
fn valid_event_to_header_encoding() {
    let mut message = serde_json::Map::new();
    message.insert(
        "body".to_string(),
        Value::String("This is a test message.".to_string()),
    );
    message.insert(
        "title".to_string(),
        Value::String("Hello, world!".to_string()),
    );
    let mut data = serde_json::Map::new();
    data.insert("level".to_string(), Value::String("info".to_string()));
    data.insert("message".to_string(), Value::Object(message));
    let evt = HxEvent::new_with_data("my-event", Value::Object(data));

    let header_value = events_to_header_value(vec![evt]).unwrap();

    let expected_value = r#"{"my-event":{"level":"info","message":{"body":"This is a test message.","title":"Hello, world!"}}}"#;

    assert_eq!(header_value, HeaderValue::from_static(expected_value));

    let value = events_to_header_value(
        HxResponseTrigger::normal(vec![HxEvent::from_name("foo"), HxEvent::from_name("bar")])
            .events,
    )
    .unwrap();
    assert_eq!(value, HeaderValue::from_static("foo, bar"));
}

#[test]
fn multiple_headers() {
    let headers = HeaderMap::new();
    let headers = VaryHxRequest.into_response_parts(headers).unwrap();
    let headers = VaryHxTarget.into_response_parts(headers).unwrap();
    let values: HashSet<HeaderValue> = headers.get_all("vary").iter().cloned().collect();
    assert_eq!(
        values,
        HashSet::from([
            HeaderValue::from_static("hx-request"),
            HeaderValue::from_static("hx-target")
        ])
    );
}

#[test]
fn vary_responders_append_in_order() {
    let mut headers = HeaderMap::new();
    headers.insert("vary", HeaderValue::from_static("accept"));
    let headers = HxTrigger::vary_response().into_response_parts(headers).unwrap();
    let headers = HxTriggerName::vary_response()
        .into_response_parts(headers)
        .unwrap();
    let headers = HxRequest::vary_response().into_response_parts(headers).unwrap();
    let headers = HxTarget::vary_response().into_response_parts(headers).unwrap();
    let vary: Vec<HeaderValue> = headers.get_all("vary").iter().cloned().collect();
    assert_eq!(
        vary,
        ["accept", "hx-trigger", "hx-trigger-name", "hx-request", "hx-target"]
    );
}

#[test]
fn text_responders_set_their_header() {
    let headers = HeaderMap::new();
    let headers = HxPushUrl::new("/a").into_response_parts(headers).unwrap();
    let headers = HxRedirect::new("/b").into_response_parts(headers).unwrap();
    let headers = HxReplaceUrl::new("/c").into_response_parts(headers).unwrap();
    let headers = HxRetarget::new("#d").into_response_parts(headers).unwrap();
    let headers = HxReselect::new(".e").into_response_parts(headers).unwrap();
    assert_eq!(headers.get("hx-push-url").unwrap(), "/a");
    assert_eq!(headers.get("hx-redirect").unwrap(), "/b");
    assert_eq!(headers.get("hx-replace-url").unwrap(), "/c");
    assert_eq!(headers.get("hx-retarget").unwrap(), "#d");
    assert_eq!(headers.get("hx-reselect").unwrap(), ".e");
    assert_eq!(headers.len(), 5);
}

#[test]
fn setting_a_header_replaces_what_was_there() {
    let mut headers = HeaderMap::new();
    headers.append("hx-push-url", HeaderValue::from_static("/old"));
    headers.append("hx-push-url", HeaderValue::from_static("/older"));
    headers.append("x-other", HeaderValue::from_static("kept"));
    let headers = HxPushUrl::new("/new").into_response_parts(headers).unwrap();
    let urls: Vec<HeaderValue> = headers.get_all("hx-push-url").iter().cloned().collect();
    assert_eq!(urls, ["/new"]);
    assert_eq!(headers.get("x-other").unwrap(), "kept");
}

#[test]
fn illegal_text_is_refused() {
    let result = HxPushUrl::new("/a\nb").into_response_parts(HeaderMap::new());
    match result {
        Err(e) => {
            assert!(matches!(e, HxError::InvalidHeaderValue(_)));
            assert_eq!(e.message(), "Invalid header value");
            assert_eq!(e.status(), 500);
        }
        Ok(_) => panic!("a line feed was accepted"),
    }
    assert!(HxRedirect::new("\u{7f}")
        .into_response_parts(HeaderMap::new())
        .is_err());
    assert!(HxRetarget::new("caf\u{e9}\ttab")
        .into_response_parts(HeaderMap::new())
        .is_ok());
}

#[test]
fn refresh_and_reswap() {
    let headers = HxRefresh(true).into_response_parts(HeaderMap::new()).unwrap();
    assert_eq!(headers.get("hx-refresh").unwrap(), "true");
    let headers = HxRefresh::from(false).into_response_parts(headers).unwrap();
    assert_eq!(headers.get("hx-refresh").unwrap(), "false");
    let headers = HxReswap::from(SwapOption::OuterHtml)
        .into_response_parts(headers)
        .unwrap();
    assert_eq!(headers.get("hx-reswap").unwrap(), "outerHTML");
    assert_eq!(headers.len(), 2);
}

#[test]
fn swap_option_words() {
    let all = [
        (SwapOption::InnerHtml, "innerHTML"),
        (SwapOption::OuterHtml, "outerHTML"),
        (SwapOption::BeforeBegin, "beforebegin"),
        (SwapOption::AfterBegin, "afterbegin"),
        (SwapOption::BeforeEnd, "beforeend"),
        (SwapOption::AfterEnd, "afterend"),
        (SwapOption::Delete, "delete"),
        (SwapOption::NoSwap, "none"),
    ];
    for (option, word) in all {
        assert_eq!(option.as_str(), word);
        assert_eq!(option.header_value(), word);
    }
}

#[test]
fn trigger_header_by_mode() {
    let events = || vec![HxEvent::new("a".to_string()), HxEvent::from_name("b")];
    let headers = HxResponseTrigger::normal(events())
        .into_response_parts(HeaderMap::new())
        .unwrap();
    assert_eq!(headers.get("hx-trigger").unwrap(), "a, b");
    let headers = HxResponseTrigger::after_settle(events())
        .into_response_parts(HeaderMap::new())
        .unwrap();
    assert_eq!(headers.get("hx-trigger-after-settle").unwrap(), "a, b");
    let headers = HxResponseTrigger::after_swap(events())
        .into_response_parts(HeaderMap::new())
        .unwrap();
    assert_eq!(headers.get("hx-trigger-after-settle").unwrap(), "a, b");
    assert_eq!(headers.len(), 1);
    let trigger = HxResponseTrigger::new(TriggerMode::AfterSwap, events());
    assert_eq!(trigger.mode, TriggerMode::AfterSwap);
    assert_eq!(trigger.events.len(), 2);
}

#[test]
fn trigger_without_events_adds_nothing() {
    let mut headers = HeaderMap::new();
    headers.insert("hx-trigger", HeaderValue::from_static("kept"));
    let headers = HxResponseTrigger::normal(vec![])
        .into_response_parts(headers)
        .unwrap();
    assert_eq!(headers.get("hx-trigger").unwrap(), "kept");
    assert_eq!(headers.len(), 1);
}

#[test]
fn event_without_data_becomes_null_beside_data() {
    let value = events_to_header_value(vec![HxEvent::from_name("plain")]).unwrap();
    assert_eq!(value, "plain");
    let both = events_to_header_value(vec![
        HxEvent::new_with_data("rich", Value::Bool(true)),
        HxEvent::from_name("plain"),
    ])
    .unwrap();
    let parsed: Value = serde_json::from_slice(both.as_bytes()).unwrap();
    let object = parsed.as_object().unwrap();
    assert_eq!(object.len(), 2);
    assert_eq!(object.get("rich"), Some(&Value::Bool(true)));
    assert_eq!(object.get("plain"), Some(&Value::Null));
}

#[test]
fn event_names_that_are_no_header_value_are_refused() {
    let result = events_to_header_value(vec![HxEvent::from_name("a\r\nb")]);
    assert!(matches!(result, Err(HxError::InvalidHeaderValue(_))));
}

#[test]
fn json_error_is_handed_on() {
    let broken = serde_json::from_str::<Value>("{").unwrap_err();
    match header_from_json(Err(broken)) {
        Err(e) => {
            assert!(matches!(e, HxError::Json(_)));
            assert_eq!(e.message(), "Json");
        }
        Ok(_) => panic!("an error became a value"),
    }
    assert_eq!(header_from_json(Ok("{}".to_string())).unwrap(), "{}");
    assert!(matches!(
        header_from_json(Ok("\u{0}".to_string())),
        Err(HxError::InvalidHeaderValue(_))
    ));
}

#[test]
fn location_with_default_options_is_the_bare_path() {
    let loc = HxLocation::from_path_with_options("/foo", LocationOptions::default());
    assert!(loc.options.as_ref().unwrap().is_default());
    assert_eq!(loc.into_header_with_options().unwrap(), "/foo");
    let headers = HxLocation::from_path("/bar")
        .into_response_parts(HeaderMap::new())
        .unwrap();
    assert_eq!(headers.get("hx-location").unwrap(), "/bar");
}

#[test]
fn location_with_all_options() {
    let mut values = serde_json::Map::new();
    values.insert("n".to_string(), Value::from(1));
    let options = LocationOptions {
        source: Some("#src".into()),
        event: Some("click".into()),
        handler: Some("h".into()),
        target: Some("#t \"q\"".into()),
        swap: Some(SwapOption::NoSwap),
        values: Some(Value::Object(values)),
        headers: Some(Value::Null),
    };
    assert!(!options.is_default());
    let text = HxLocation::from_path_with_options("/p", options)
        .into_header_with_options()
        .unwrap();
    assert_eq!(
        text,
        r##"{"path":"/p","source":"#src","event":"click","handler":"h","target":"#t \"q\"","swap":"none","values":{"n":1},"headers":null}"##
    );
    let headers = HxLocation::from_path_with_options(
        "/p",
        LocationOptions {
            target: Some("#t".into()),
            ..Default::default()
        },
    )
    .into_response_parts(HeaderMap::new())
    .unwrap();
    assert_eq!(
        headers.get("hx-location").unwrap(),
        r##"{"path":"/p","target":"#t"}"##
    );
}

#[test]
fn members_are_framed_in_order() {
    let members = LocationMembers {
        path: "1".to_string(),
        source: None,
        event: Some("2".to_string()),
        handler: None,
        target: None,
        swap: None,
        values: None,
        headers: Some("3".to_string()),
    };
    assert_eq!(members.frame(), r#"{"path":1,"event":2,"headers":3}"#);
}
