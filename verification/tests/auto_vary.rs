use axum_htmx::auto_vary::{AutoVaryLayer, AutoVaryMiddleware};
use axum_htmx::extractors::{HxRequest, HxTarget, HxTrigger, HxTriggerName};
use axum_htmx::signal::{ConfigError, RequestStorage};
use http::header::{HeaderMap, HeaderValue};

#[derive(Clone, Copy)]
enum Route {
    NoExtractors,
    Request,
    Target,
    Trigger,
    TriggerName,
    Repeated,
    Multiple,
}

fn handle(route: Route, request: &HeaderMap, storage: &mut RequestStorage) {
    match route {
        Route::NoExtractors => {}
        Route::Request => {
            let _ = HxRequest::from_request_parts(request, storage);
        }
        Route::Target => {
            let _ = HxTarget::from_request_parts(request, storage);
        }
        Route::Trigger => {
            let _ = HxTrigger::from_request_parts(request, storage);
        }
        Route::TriggerName => {
            let _ = HxTriggerName::from_request_parts(request, storage);
        }
        Route::Repeated => {
            let _ = HxRequest::from_request_parts(request, storage);
            let _ = HxRequest::from_request_parts(request, storage);
        }
        Route::Multiple => {
            let _ = HxTriggerName::from_request_parts(request, storage);
            let _ = HxRequest::from_request_parts(request, storage);
            let _ = HxTrigger::from_request_parts(request, storage);
            let _ = HxTarget::from_request_parts(request, storage);
        }
    }
}

fn serve(route: Route) -> Vec<HeaderValue> {
    let service: AutoVaryMiddleware<Route> = AutoVaryLayer.layer(route);
    let request = HeaderMap::new();
    let mut storage = RequestStorage::new();
    service.before_dispatch(&mut storage).unwrap();
    handle(service.inner, &request, &mut storage);
    let mut response = HeaderMap::new();
    service.after_dispatch(&mut storage, &mut response).unwrap();
    response.get_all("vary").iter().cloned().collect()
}

#[test]
fn auto_vary_no_extractors() {
    assert!(serve(Route::NoExtractors).is_empty());
}

#[test]
fn auto_vary_single_hx_request() {
    assert_eq!(serve(Route::Request), ["hx-request"]);
}

#[test]
fn auto_vary_single_hx_target() {
    assert_eq!(serve(Route::Target), ["hx-target"]);
}

#[test]
fn auto_vary_single_hx_trigger() {
    assert_eq!(serve(Route::Trigger), ["hx-trigger"]);
}

#[test]
fn auto_vary_single_hx_trigger_name() {
    assert_eq!(serve(Route::TriggerName), ["hx-trigger-name"]);
}

#[test]
fn auto_vary_repeated_extractor() {
    assert_eq!(serve(Route::Repeated), ["hx-request"]);
}

#[test]
fn auto_vary_multiple_extractors() {
    assert_eq!(
        serve(Route::Multiple),
        ["hx-request, hx-target, hx-trigger, hx-trigger-name"],
    );
}

#[test]
fn nested_middleware_is_a_configuration_error() {
    let outer = AutoVaryLayer.layer(());
    let inner = AutoVaryLayer.layer(());
    let mut storage = RequestStorage::new();
    assert_eq!(outer.before_dispatch(&mut storage), Ok(()));
    let _ = HxRequest::from_request_parts(&HeaderMap::new(), &mut storage);
    let before = storage.signals.clone();
    assert_eq!(
        inner.before_dispatch(&mut storage),
        Err(ConfigError::InstalledTwice)
    );
    assert_eq!(storage.signals, before);
    assert_eq!(
        ConfigError::InstalledTwice.message(),
        "Configuration error: `axum_httpx::vary_middleware` is used twice"
    );
}

#[test]
fn unrelated_storage_does_not_count_as_installed() {
    let service = AutoVaryLayer.layer(());
    let mut storage = RequestStorage::new();
    storage.attach(7);
    storage.attach(7);
    assert_eq!(service.before_dispatch(&mut storage), Ok(()));
    assert_eq!(storage.others, vec![7, 7]);
}

#[test]
fn handler_vary_is_kept_in_front() {
    let service = AutoVaryLayer.layer(());
    let mut storage = RequestStorage::new();
    service.before_dispatch(&mut storage).unwrap();
    let _ = HxTarget::from_request_parts(&HeaderMap::new(), &mut storage);
    let mut response = HeaderMap::new();
    response.append("vary", HeaderValue::from_static("accept-encoding"));
    response.append("vary", HeaderValue::from_static("origin"));
    response.append("content-type", HeaderValue::from_static("text/html"));
    service.after_dispatch(&mut storage, &mut response).unwrap();
    let vary: Vec<HeaderValue> = response.get_all("vary").iter().cloned().collect();
    assert_eq!(vary, ["accept-encoding", "origin", "hx-target"]);
    assert_eq!(response.get("content-type").unwrap(), "text/html");
    assert_eq!(response.len(), 4);
}

#[test]
fn without_installation_nothing_is_added() {
    let service = AutoVaryLayer.layer(());
    let mut storage = RequestStorage::new();
    let got = HxRequest::from_request_parts(&HeaderMap::new(), &mut storage);
    assert!(!got.0);
    assert!(storage.signals.is_none());
    let mut response = HeaderMap::new();
    service.after_dispatch(&mut storage, &mut response).unwrap();
    assert!(response.is_empty());
}

#[test]
fn each_request_starts_armed() {
    let service = AutoVaryLayer.layer(());
    let mut first = RequestStorage::new();
    service.before_dispatch(&mut first).unwrap();
    let _ = HxRequest::from_request_parts(&HeaderMap::new(), &mut first);
    let mut response = HeaderMap::new();
    service.after_dispatch(&mut first, &mut response).unwrap();
    assert_eq!(response.get_all("vary").iter().count(), 1);

    let mut second = RequestStorage::new();
    service.before_dispatch(&mut second).unwrap();
    let mut response = HeaderMap::new();
    service.after_dispatch(&mut second, &mut response).unwrap();
    assert!(response.is_empty());
}
