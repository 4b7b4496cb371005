use axum_htmx::auto_vary::{add_vary, encode, join_names, merge};
use axum_htmx::error::HxError;
use axum_htmx::signal::{HeaderKind, RequestStorage, SignalCell, SignalSet};
use http::header::{HeaderMap, HeaderName, HeaderValue};

fn run(marks: &[HeaderKind]) -> Vec<HeaderValue> {
    let mut storage = RequestStorage::new();
    storage.install().unwrap();
    for kind in marks {
        storage.try_mark(*kind);
    }
    let signals = storage.collect().unwrap();
    let mut response = HeaderMap::new();
    add_vary(signals, &mut response).unwrap();
    response.get_all("vary").iter().cloned().collect()
}

#[test]
fn vary_middleware_no_extractors() {
    assert!(run(&[]).is_empty());
}

#[test]
fn vary_middleware_single_hx_request() {
    assert_eq!(run(&[HeaderKind::Request]), ["hx-request"]);
}

#[test]
fn vary_middleware_single_hx_target() {
    assert_eq!(run(&[HeaderKind::Target]), ["hx-target"]);
}

#[test]
fn vary_middleware_single_hx_trigger() {
    assert_eq!(run(&[HeaderKind::Trigger]), ["hx-trigger"]);
}

#[test]
fn vary_middleware_single_hx_trigger_name() {
    assert_eq!(run(&[HeaderKind::TriggerName]), ["hx-trigger-name"]);
}

#[test]
fn vary_middleware_repeated_extractor() {
    assert_eq!(run(&[HeaderKind::Request, HeaderKind::Request]), ["hx-request"]);
}

#[test]
fn vary_middleware_multiple_extractors() {
    assert_eq!(
        run(&[
            HeaderKind::Request,
            HeaderKind::Target,
            HeaderKind::Trigger,
            HeaderKind::TriggerName
        ]),
        ["hx-request, hx-target, hx-trigger, hx-trigger-name"],
    );
}

#[test]
fn order_of_marks_does_not_show() {
    let forward = run(&[HeaderKind::Target, HeaderKind::TriggerName]);
    let backward = run(&[
        HeaderKind::TriggerName,
        HeaderKind::Target,
        HeaderKind::TriggerName,
    ]);
    assert_eq!(forward, ["hx-target, hx-trigger-name"]);
    assert_eq!(forward, backward);
}

#[test]
fn cell_fires_once_however_often() {
    assert!(!SignalCell::arm().observe());
    let mut once = SignalCell::arm();
    once.fire();
    let mut often = SignalCell::arm();
    for _ in 0..5 {
        often.fire();
    }
    assert_eq!(once, often);
    assert_eq!(once, SignalCell::Fired);
    assert!(often.observe());
}

#[test]
fn released_cell_reads_as_unused() {
    let mut cell = SignalCell::arm();
    cell.release();
    assert_eq!(cell, SignalCell::Abandoned);
    assert!(!cell.observe());
    let mut fired = SignalCell::arm();
    fired.fire();
    fired.release();
    assert_eq!(fired, SignalCell::Fired);
    assert!(fired.observe());
}

#[test]
fn set_marks_one_cell_only() {
    let mut set = SignalSet::new();
    set.mark(HeaderKind::Trigger);
    assert_eq!(set.trigger, SignalCell::Fired);
    assert_eq!(set.request, SignalCell::Armed);
    assert_eq!(set.target, SignalCell::Armed);
    assert_eq!(set.trigger_name, SignalCell::Armed);
    set.release();
    assert_eq!(set.request, SignalCell::Abandoned);
    assert_eq!(set.trigger, SignalCell::Fired);
    assert_eq!(set.drain(), vec![HeaderKind::Trigger]);
}

#[test]
fn kinds_have_their_names_and_places() {
    let kinds = [
        HeaderKind::Request,
        HeaderKind::Target,
        HeaderKind::Trigger,
        HeaderKind::TriggerName,
    ];
    let names = ["hx-request", "hx-target", "hx-trigger", "hx-trigger-name"];
    for (i, kind) in kinds.iter().enumerate() {
        assert_eq!(kind.position(), i);
        assert_eq!(kind.as_str(), names[i]);
    }
}

#[test]
fn join_and_encode_give_the_exact_text() {
    assert_eq!(join_names(&vec![]), "");
    assert_eq!(join_names(&vec![HeaderKind::Trigger]), "hx-trigger");
    assert_eq!(
        join_names(&vec![HeaderKind::Request, HeaderKind::TriggerName]),
        "hx-request, hx-trigger-name"
    );
    assert!(encode(&vec![]).unwrap().is_none());
    let value = encode(&vec![HeaderKind::Request, HeaderKind::Target])
        .unwrap()
        .unwrap();
    assert_eq!(value.as_bytes(), b"hx-request, hx-target");
}

#[test]
fn merge_appends_behind_existing_values() {
    let mut headers = HeaderMap::new();
    headers.insert("vary", HeaderValue::from_static("accept"));
    merge(&mut headers, HeaderValue::from_static("hx-request")).unwrap();
    let vary: Vec<HeaderValue> = headers.get_all("vary").iter().cloned().collect();
    assert_eq!(vary, ["accept", "hx-request"]);
}

#[test]
fn full_header_map_is_reported() {
    let mut headers = HeaderMap::new();
    for i in 0..(1usize << 15) {
        let name = HeaderName::from_bytes(format!("x-{}", i).as_bytes()).unwrap();
        if headers.try_insert(name, HeaderValue::from_static("v")).is_err() {
            break;
        }
    }
    let before = headers.len();
    let mut set = SignalSet::new();
    set.mark(HeaderKind::Request);
    let result = add_vary(set, &mut headers);
    match result {
        Err(e) => {
            assert!(matches!(e, HxError::TooManyResponseHeaders(_)));
            assert_eq!(e.message(), "Too many response headers");
            assert_eq!(e.status(), 500);
            assert_eq!(headers.len(), before);
            assert!(!headers.contains_key("vary"));
        }
        Ok(()) => panic!("the header map took one more header"),
    }
    let untouched = add_vary(SignalSet::new(), &mut headers);
    assert!(untouched.is_ok());
    assert_eq!(headers.len(), before);
}
