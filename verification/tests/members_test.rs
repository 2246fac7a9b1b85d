use etcd::error::{Error, TransportError};
use etcd::members;
use etcd::wire::{HttpRequest, HttpResponse, ResponseHeaders};

fn answer(status: u16, body: &str) -> Result<HttpResponse, TransportError> {
    Ok(HttpResponse {
        status,
        headers: ResponseHeaders::default(),
        body: body.as_bytes().to_vec(),
    })
}

#[test]
fn list() {
    let endpoints = vec!["http://etcd:2379/".to_string()];
    let transport = |_req: &HttpRequest| {
        answer(
            200,
            "{\"members\": [{\"id\": \"272e204152\", \"name\": \"default\", \
             \"peerURLs\": [\"http://etcd:2380\"], \
             \"clientURLs\": [\"http://etcd:2379\"]}]}",
        )
    };

    let res = members::list(transport, &endpoints).unwrap();
    let member_list = res.data;
    let member = &member_list[0];

    assert_eq!(member.name, "default");
    assert_eq!(member.peer_urls, vec!["http://etcd:2380".to_string()]);
}

#[test]
fn list_rejects_a_malformed_member() {
    let endpoints = vec!["http://etcd:2379/".to_string()];
    // peerURLs must be an array of strings.
    let transport = |_req: &HttpRequest| {
        answer(
            200,
            "{\"members\": [{\"id\": \"x\", \"name\": \"default\", \"peerURLs\": [7], \
             \"clientURLs\": []}]}",
        )
    };

    let res = members::list(transport, &endpoints);

    assert_eq!(res, Err(vec![Error::Serialization]));
}

#[test]
fn delete_succeeds_on_no_content() {
    let endpoints = vec!["http://etcd:2379/".to_string()];
    let transport = |req: &HttpRequest| {
        assert_eq!(req.url, "http://etcd:2379/v2/members/272e204152");
        answer(204, "")
    };

    assert!(members::delete(transport, &endpoints, "272e204152").is_ok());
}
