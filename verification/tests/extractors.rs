use axum_htmx::extractors::{
    read_text, HxBoosted, HxCurrentUrl, HxHistoryRestoreRequest, HxPrompt, HxRequest, HxTarget,
    HxTrigger, HxTriggerName,
};
use axum_htmx::request::HtmxRequestHeader;
use axum_htmx::response::HtmxResponseHeader;
use axum_htmx::signal::{RequestStorage, SignalCell};
use http::header::{HeaderMap, HeaderValue};

fn request(pairs: &[(&'static str, &'static str)]) -> HeaderMap {
    let mut headers = HeaderMap::new();
    for (name, value) in pairs {
        headers.append(*name, HeaderValue::from_static(value));
    }
    headers
}

#[test]
fn flags_follow_presence() {
    let headers = request(&[("hx-boosted", "true"), ("hx-request", "true")]);
    let mut storage = RequestStorage::new();
    assert!(HxBoosted::from_request_parts(&headers).0);
    assert!(!HxHistoryRestoreRequest::from_request_parts(&headers).0);
    assert!(HxRequest::from_request_parts(&headers, &mut storage).0);
    let empty = HeaderMap::new();
    assert!(!HxBoosted::from_request_parts(&empty).0);
    assert!(!HxRequest::from_request_parts(&empty, &mut storage).0);
    let restore = request(&[("hx-history-restore-request", "true")]);
    assert!(HxHistoryRestoreRequest::from_request_parts(&restore).0);
}

#[test]
fn texts_are_read_from_the_first_value() {
    let headers = request(&[
        ("hx-target", "main"),
        ("hx-target", "other"),
        ("hx-trigger", "button-1"),
        ("hx-trigger-name", "save"),
        ("hx-prompt", "yes please"),
    ]);
    let mut storage = RequestStorage::new();
    assert_eq!(
        HxTarget::from_request_parts(&headers, &mut storage).0.as_deref(),
        Some("main")
    );
    assert_eq!(
        HxTrigger::from_request_parts(&headers, &mut storage).0.as_deref(),
        Some("button-1")
    );
    assert_eq!(
        HxTriggerName::from_request_parts(&headers, &mut storage).0.as_deref(),
        Some("save")
    );
    assert_eq!(
        HxPrompt::from_request_parts(&headers).0.as_deref(),
        Some("yes please")
    );
    assert_eq!(read_text(&headers, "hx-current-url"), None);
}

#[test]
fn text_that_is_not_visible_ascii_reads_as_missing() {
    let mut headers = HeaderMap::new();
    headers.insert("hx-target", HeaderValue::from_bytes(b"caf\xc3\xa9").unwrap());
    let mut storage = RequestStorage::new();
    assert_eq!(HxTarget::from_request_parts(&headers, &mut storage).0, None);
    assert_eq!(HxPrompt::from_request_parts(&headers).0, None);
}

#[test]
fn tracked_extractors_mark_their_own_cell() {
    let headers = HeaderMap::new();
    let mut storage = RequestStorage::new();
    storage.install().unwrap();
    let _ = HxTrigger::from_request_parts(&headers, &mut storage);
    let set = storage.signals.clone().unwrap();
    assert_eq!(set.trigger, SignalCell::Fired);
    assert_eq!(set.request, SignalCell::Armed);
    let _ = HxBoosted::from_request_parts(&headers);
    let _ = HxTriggerName::from_request_parts(&headers, &mut storage);
    let _ = HxRequest::from_request_parts(&headers, &mut storage);
    let _ = HxTarget::from_request_parts(&headers, &mut storage);
    let set = storage.collect().unwrap();
    assert_eq!(set.drain().len(), 4);
    assert!(storage.signals.is_none());
}

#[test]
fn request_header_names() {
    assert_eq!(HtmxRequestHeader::Boosted.as_str(), "HX-Boosted");
    assert_eq!(HtmxRequestHeader::CurrentUrl.as_str(), "HX-Current-Url");
    assert_eq!(
        HtmxRequestHeader::HistoryRestoreRequest.as_str(),
        "HX-History-Restore-Request"
    );
    assert_eq!(HtmxRequestHeader::Prompt.as_str(), "HX-Prompt");
    assert_eq!(HtmxRequestHeader::Request.as_str(), "HX-Request");
    assert_eq!(HtmxRequestHeader::Target.as_str(), "HX-Target");
    assert_eq!(HtmxRequestHeader::TriggerName.as_str(), "HX-Trigger-Name");
    assert_eq!(HtmxRequestHeader::Trigger.as_str(), "HX-Trigger");
}

#[test]
fn response_header_names() {
    assert_eq!(HtmxResponseHeader::Location.as_str(), "HX-Location");
    assert_eq!(HtmxResponseHeader::PushUrl.as_str(), "HX-Push-Url");
    assert_eq!(HtmxResponseHeader::Redirect.as_str(), "HX-Redirect");
    assert_eq!(HtmxResponseHeader::Refresh.as_str(), "HX-Refresh");
    assert_eq!(HtmxResponseHeader::ReplaceUrl.as_str(), "HX-Replace-Url");
    assert_eq!(HtmxResponseHeader::Reswap.as_str(), "HX-Reswap");
    assert_eq!(HtmxResponseHeader::Retarget.as_str(), "HX-Retarget");
    assert_eq!(HtmxResponseHeader::Reselect.as_str(), "HX-Reselect");
    assert_eq!(HtmxResponseHeader::Trigger.as_str(), "HX-Trigger");
    assert_eq!(
        HtmxResponseHeader::TriggerAfterSettle.as_str(),
        "HX-Trigger-After-Settle"
    );
    assert_eq!(
        HtmxResponseHeader::TriggerAfterSwap.as_str(),
        "HX-Trigger-After-Swap"
    );
}

#[test]
fn current_url_is_parsed() {
    let headers = request(&[("hx-current-url", "https://example.com/page?x=1")]);
    let url = HxCurrentUrl::from_request_parts(&headers).0.unwrap();
    assert_eq!(url.host(), Some("example.com"));
    assert_eq!(url.path(), "/page");
    assert_eq!(url.query(), Some("x=1"));
}

#[test]
fn current_url_that_is_no_uri_reads_as_missing() {
    let headers = request(&[("hx-current-url", "not a uri")]);
    assert!(HxCurrentUrl::from_request_parts(&headers).0.is_none());
    assert!(HxCurrentUrl::from_request_parts(&HeaderMap::new()).0.is_none());
    let mut headers = HeaderMap::new();
    headers.insert(
        "hx-current-url",
        HeaderValue::from_bytes(b"/caf\xc3\xa9").unwrap(),
    );
    assert!(HxCurrentUrl::from_request_parts(&headers).0.is_none());
}
