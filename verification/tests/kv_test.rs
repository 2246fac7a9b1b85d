use std::cell::{Cell, RefCell};

use etcd::error::{Error, TransportError};
use etcd::kv::{self, Action, GetOptions};
use etcd::wire::{HttpRequest, HttpResponse, Method, ResponseHeaders};

fn answer(status: u16, body: &str) -> Result<HttpResponse, TransportError> {
    Ok(HttpResponse {
        status,
        headers: ResponseHeaders::default(),
        body: body.as_bytes().to_vec(),
    })
}

const CREATE_BODY: &str = "{\"action\": \"create\", \"node\": {\"key\": \"/test/foo\", \
     \"value\": \"bar\", \"createdIndex\": 7, \"modifiedIndex\": 7}}";

#[test]
fn conditional_set_without_conditions_contacts_no_endpoint() {
    let calls = Cell::new(0usize);
    let endpoints = vec!["http://a/".to_string()];
    let transport = |_req: &HttpRequest| {
        calls.set(calls.get() + 1);
        answer(200, CREATE_BODY)
    };

    let result = kv::compare_and_swap(transport, &endpoints, "/test/foo", "new", None, None, None);

    assert_eq!(result, Err(vec![Error::InvalidConditions]));
    assert_eq!(calls.get(), 0);
}

#[test]
fn conditional_delete_without_conditions_contacts_no_endpoint() {
    let calls = Cell::new(0usize);
    let endpoints = vec!["http://a/".to_string()];
    let transport = |_req: &HttpRequest| {
        calls.set(calls.get() + 1);
        answer(200, CREATE_BODY)
    };

    let result = kv::compare_and_delete(transport, &endpoints, "/test/foo", None, None);

    assert_eq!(result, Err(vec![Error::InvalidConditions]));
    assert_eq!(calls.get(), 0);
}

#[test]
fn success_status_with_undecodable_body_is_serialization() {
    let endpoints = vec!["http://a/".to_string()];
    let transport = |_req: &HttpRequest| answer(200, "it is not json at all");

    let result = kv::get(transport, &endpoints, "/test/foo", GetOptions::default());

    assert_eq!(result, Err(vec![Error::Serialization]));
}

#[test]
fn success_status_with_wrong_shape_is_serialization() {
    let endpoints = vec!["http://a/".to_string()];
    // Valid JSON, but no `node` field: not the success shape.
    let transport = |_req: &HttpRequest| answer(200, "{\"action\": \"get\"}");

    let result = kv::get(transport, &endpoints, "/test/foo", GetOptions::default());

    assert_eq!(result, Err(vec![Error::Serialization]));
}

#[test]
fn set_round_trip_preserves_value_and_ttl() {
    let seen_body = RefCell::new(String::new());
    let endpoints = vec!["http://a/".to_string()];
    let transport = |req: &HttpRequest| {
        *seen_body.borrow_mut() = req.body.clone().unwrap();
        answer(
            201,
            "{\"action\": \"set\", \"node\": {\"key\": \"/test/foo\", \"value\": \"x\", \
             \"ttl\": 5, \"expiration\": \"2100-01-01T00:00:00Z\", \"createdIndex\": 8, \
             \"modifiedIndex\": 8}}",
        )
    };

    let result = kv::set(transport, &endpoints, "/test/foo", "x", Some(5)).unwrap();

    assert_eq!(seen_body.borrow().as_str(), "value=x&ttl=5");
    assert_eq!(result.data.action, Action::Put);
    let node = result.data.node;
    assert_eq!(node.value, Some("x".to_string()));
    let ttl = node.ttl.expect("ttl must be present");
    assert!(ttl >= 0);
}

#[test]
fn first_healthy_member_answers() {
    let endpoints = vec![
        "http://a/".to_string(),
        "http://b/".to_string(),
        "http://c/".to_string(),
    ];
    let transport = |req: &HttpRequest| {
        if req.url.starts_with("http://c/") {
            answer(201, CREATE_BODY)
        } else {
            Err(TransportError { message: "connection refused".to_string() })
        }
    };

    let result = kv::create(transport, &endpoints, "/test/foo", "bar", None).unwrap();

    assert_eq!(result.data.action, Action::Create);
    assert_eq!(result.data.node.key, Some("/test/foo".to_string()));
    assert_eq!(result.data.node.value, Some("bar".to_string()));
    assert_eq!(result.data.node.modified_index, Some(7));
}

#[test]
fn all_failures_are_reported_in_order() {
    let endpoints = vec!["http://a/".to_string(), "http://b/".to_string()];
    let transport = |req: &HttpRequest| {
        Err(TransportError { message: req.url.clone() })
    };

    let result = kv::delete(transport, &endpoints, "/test/foo", false);

    match result {
        Err(errors) => {
            assert_eq!(errors.len(), 2);
            assert!(matches!(
                errors[0],
                Error::Transport(ref te) if te.message.starts_with("http://a/")
            ));
            assert!(matches!(
                errors[1],
                Error::Transport(ref te) if te.message.starts_with("http://b/")
            ));
        }
        Ok(_) => panic!("expected every endpoint to fail"),
    }
}

#[test]
fn api_error_payload_is_surfaced() {
    let endpoints = vec!["http://a/".to_string()];
    let transport = |_req: &HttpRequest| {
        answer(
            404,
            "{\"errorCode\": 100, \"message\": \"Key not found\", \"cause\": \"/test/foo\", \
             \"index\": 14}",
        )
    };

    let result = kv::get(transport, &endpoints, "/test/foo", GetOptions::default());

    match result {
        Err(errors) => match &errors[0] {
            Error::Api(api_error) => {
                assert_eq!(api_error.error_code, 100);
                assert_eq!(api_error.message, "Key not found");
                assert_eq!(api_error.cause, Some("/test/foo".to_string()));
                assert_eq!(api_error.index, Some(14));
            }
            other => panic!("expected an API error, got {:?}", other),
        },
        Ok(_) => panic!("expected an error"),
    }
}

#[test]
fn error_status_with_undecodable_body_is_serialization() {
    let endpoints = vec!["http://a/".to_string()];
    let transport = |_req: &HttpRequest| answer(500, "<html>oops</html>");

    let result = kv::get(transport, &endpoints, "/test/foo", GetOptions::default());

    assert_eq!(result, Err(vec![Error::Serialization]));
}

#[test]
fn get_builds_the_documented_query() {
    let seen = RefCell::new((Method::Post, String::new()));
    let endpoints = vec!["http://h/".to_string()];
    let transport = |req: &HttpRequest| {
        *seen.borrow_mut() = (req.method, req.url.clone());
        answer(
            200,
            "{\"action\": \"get\", \"node\": {\"key\": \"/foo\", \"value\": \"v\"}}",
        )
    };

    let options = GetOptions { recursive: false, sort: true, strong_consistency: false };
    kv::get(transport, &endpoints, "/foo", options).unwrap();

    let (method, url) = seen.borrow().clone();
    assert_eq!(method, Method::Get);
    assert_eq!(url, "http://h/v2/keys/foo?recursive=false&sorted=true");
}

#[test]
fn directory_children_are_decoded_recursively() {
    let endpoints = vec!["http://a/".to_string()];
    let transport = |_req: &HttpRequest| {
        answer(
            200,
            "{\"action\": \"get\", \"node\": {\"key\": \"/dir\", \"dir\": true, \"nodes\": [\
               {\"key\": \"/dir/a\", \"value\": \"1\"}, \
               {\"key\": \"/dir/sub\", \"dir\": true, \"nodes\": [\
                 {\"key\": \"/dir/sub/b\", \"value\": \"2\"}]}]}}",
        )
    };

    let options = GetOptions { recursive: true, sort: false, strong_consistency: false };
    let result = kv::get(transport, &endpoints, "/dir", options).unwrap();

    let node = result.data.node;
    assert_eq!(node.dir, Some(true));
    let children = node.nodes.expect("children must be present");
    assert_eq!(children.len(), 2);
    assert_eq!(children[0].value, Some("1".to_string()));
    let sub = children[1].nodes.as_ref().expect("nested children must be present");
    assert_eq!(sub[0].value, Some("2".to_string()));
}

#[test]
fn compare_and_swap_sends_conditions() {
    let seen_body = RefCell::new(String::new());
    let endpoints = vec!["http://a/".to_string()];
    let transport = |req: &HttpRequest| {
        *seen_body.borrow_mut() = req.body.clone().unwrap();
        answer(
            200,
            "{\"action\": \"compareAndSwap\", \"node\": {\"key\": \"/test/foo\", \
             \"value\": \"new\", \"modifiedIndex\": 9}, \"prevNode\": {\"key\": \"/test/foo\", \
             \"value\": \"old\", \"modifiedIndex\": 8}}",
        )
    };

    let result = kv::compare_and_swap(
        transport,
        &endpoints,
        "/test/foo",
        "new",
        None,
        Some("old"),
        Some(8),
    )
    .unwrap();

    assert_eq!(seen_body.borrow().as_str(), "value=new&prevIndex=8&prevValue=old");
    assert_eq!(result.data.action, Action::CompareAndSwap);
    assert_eq!(result.data.prev_node.unwrap().value, Some("old".to_string()));
}

#[test]
fn create_in_order_uses_post() {
    let seen = RefCell::new(Method::Get);
    let endpoints = vec!["http://a/".to_string()];
    let transport = |req: &HttpRequest| {
        *seen.borrow_mut() = req.method;
        answer(
            201,
            "{\"action\": \"create\", \"node\": {\"key\": \"/queue/00000000000000000001\", \
             \"value\": \"job\", \"createdIndex\": 1, \"modifiedIndex\": 1}}",
        )
    };

    kv::create_in_order(transport, &endpoints, "/queue", "job", None).unwrap();

    assert_eq!(*seen.borrow(), Method::Post);
}

#[test]
fn set_body_is_form_escaped() {
    let seen_body = RefCell::new(String::new());
    let endpoints = vec!["http://a/".to_string()];
    let transport = |req: &HttpRequest| {
        *seen_body.borrow_mut() = req.body.clone().unwrap();
        answer(
            201,
            "{\"action\": \"set\", \"node\": {\"key\": \"/f\", \"value\": \"a b&c=d\"}}",
        )
    };

    kv::set(transport, &endpoints, "/f", "a b&c=d", None).unwrap();

    assert_eq!(seen_body.borrow().as_str(), "value=a+b%26c%3Dd");
}

#[test]
fn update_requires_a_previous_node() {
    let seen_body = RefCell::new(String::new());
    let endpoints = vec!["http://a/".to_string()];
    let transport = |req: &HttpRequest| {
        *seen_body.borrow_mut() = req.body.clone().unwrap();
        answer(
            200,
            "{\"action\": \"update\", \"node\": {\"key\": \"/f\", \"value\": \"x\"}}",
        )
    };

    let result = kv::update(transport, &endpoints, "/f", "x", None).unwrap();

    assert_eq!(seen_body.borrow().as_str(), "value=x&prevExist=true");
    assert_eq!(result.data.action, Action::Update);
}

#[test]
fn create_dir_marks_the_node_as_directory() {
    let seen = RefCell::new((Method::Get, String::new()));
    let endpoints = vec!["http://a/".to_string()];
    let transport = |req: &HttpRequest| {
        *seen.borrow_mut() = (req.method, req.body.clone().unwrap());
        answer(
            201,
            "{\"action\": \"create\", \"node\": {\"key\": \"/d\", \"dir\": true}}",
        )
    };

    kv::create_dir(transport, &endpoints, "/d", None).unwrap();

    let (method, body) = seen.borrow().clone();
    assert_eq!(method, Method::Put);
    assert_eq!(body, "dir=true&prevExist=false");
}

#[test]
fn delete_dir_asks_for_a_directory() {
    let seen_url = RefCell::new(String::new());
    let endpoints = vec!["http://a/".to_string()];
    let transport = |req: &HttpRequest| {
        *seen_url.borrow_mut() = req.url.clone();
        answer(200, "{\"action\": \"delete\", \"node\": {\"key\": \"/d\", \"dir\": true}}")
    };

    kv::delete_dir(transport, &endpoints, "/d").unwrap();

    assert_eq!(seen_url.borrow().as_str(), "http://a/v2/keys/d?dir=true");
}
