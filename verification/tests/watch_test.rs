use std::cell::RefCell;
use std::time::{Duration, Instant};

use etcd::client::Response;
use etcd::error::{Error, TransportError, WatchError};
use etcd::kv::{self, KeyValueInfo, WatchOptions};
use etcd::wire::{HttpRequest, HttpResponse, ResponseHeaders};

fn answer(status: u16, body: &str) -> Result<HttpResponse, TransportError> {
    Ok(HttpResponse {
        status,
        headers: ResponseHeaders::default(),
        body: body.as_bytes().to_vec(),
    })
}

#[test]
fn watch_long_polls_from_the_given_index() {
    let seen_url = RefCell::new(String::new());
    let endpoints = vec!["http://h/".to_string()];
    let transport = |req: &HttpRequest| {
        *seen_url.borrow_mut() = req.url.clone();
        answer(
            200,
            "{\"action\": \"set\", \"node\": {\"key\": \"/foo\", \"value\": \"new\", \
             \"modifiedIndex\": 8}}",
        )
    };

    let options = WatchOptions { index: Some(7), recursive: false, timeout: None };
    let result = kv::watch(transport, &endpoints, "/foo", options).unwrap();

    assert_eq!(
        seen_url.borrow().as_str(),
        "http://h/v2/keys/foo?recursive=false&wait=true&waitIndex=7"
    );
    assert_eq!(result.data.node.modified_index, Some(8));
}

#[test]
fn watch_wraps_dispatch_failures() {
    let endpoints = vec!["http://a/".to_string(), "http://b/".to_string()];
    let transport = |_req: &HttpRequest| -> Result<HttpResponse, TransportError> {
        Err(TransportError { message: "connection refused".to_string() })
    };

    let options = WatchOptions::default();
    let result = kv::watch(transport, &endpoints, "/foo", options);

    match result {
        Err(WatchError::Other(errors)) => {
            assert_eq!(errors.len(), 2);
            assert!(matches!(errors[0], Error::Transport(_)));
        }
        other => panic!("expected the per-endpoint errors, got {:?}", other),
    }
}

#[test]
fn watch_timeout_resolves_quickly() {
    // A transport that never answers, raced against a 50ms timer: the watch
    // must resolve to a timeout well within 100ms rather than hang.
    let runtime = tokio::runtime::Builder::new_current_thread()
        .enable_time()
        .build()
        .expect("failed to create Tokio runtime");
    let started = Instant::now();

    let raced: Option<Result<Response<KeyValueInfo>, WatchError>> = runtime.block_on(async {
        let never = futures::future::pending::<Result<Response<KeyValueInfo>, WatchError>>();
        match tokio::time::timeout(Duration::from_millis(50), never).await {
            Ok(inner) => Some(inner),
            Err(_elapsed) => None,
        }
    });

    let result = kv::watch_resolve(raced);

    assert!(matches!(result, Err(WatchError::Timeout)));
    assert!(started.elapsed() < Duration::from_millis(100));
}

#[test]
fn watch_resolve_passes_a_finished_poll_through() {
    let outcome: Option<Result<Response<KeyValueInfo>, WatchError>> =
        Some(Err(WatchError::Other(vec![Error::Serialization])));

    let result = kv::watch_resolve(outcome);

    assert!(matches!(result, Err(WatchError::Other(ref errors)) if errors.len() == 1));
}
