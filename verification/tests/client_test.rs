use etcd::error::TransportError;
use etcd::wire::{HttpRequest, HttpResponse, ResponseHeaders};

fn answer(status: u16, body: &str) -> Result<HttpResponse, TransportError> {
    Ok(HttpResponse {
        status,
        headers: ResponseHeaders::default(),
        body: body.as_bytes().to_vec(),
    })
}

#[test]
fn health() {
    let endpoints = vec!["http://etcd:2379/".to_string()];
    let transport = |_req: &HttpRequest| answer(200, "{\"health\": \"true\"}");

    let responses = etcd::client::health(transport, &endpoints);

    assert_eq!(responses.len(), 1);
    for response in responses {
        assert_eq!(response.unwrap().data.health, "true");
    }
}

#[test]
fn versions() {
    let endpoints = vec!["http://etcd:2379/".to_string()];
    let transport = |_req: &HttpRequest| {
        answer(200, "{\"etcdserver\": \"2.3.8\", \"etcdcluster\": \"2.3.0\"}")
    };

    let responses = etcd::client::versions(transport, &endpoints);

    assert_eq!(responses.len(), 1);
    for response in responses {
        let data = response.unwrap().data;
        assert_eq!(data.cluster_version, "2.3.0");
        assert_eq!(data.server_version, "2.3.8");
    }
}

#[test]
fn health_asks_every_member() {
    let endpoints = vec!["http://a/".to_string(), "http://b/".to_string()];
    let transport = |req: &HttpRequest| {
        if req.url.starts_with("http://a/") {
            answer(200, "{\"health\": \"true\"}")
        } else {
            Err(TransportError { message: "connection refused".to_string() })
        }
    };

    let responses = etcd::client::health(transport, &endpoints);

    assert_eq!(responses.len(), 2);
    assert_eq!(responses[0].as_ref().unwrap().data.health, "true");
    assert!(matches!(
        responses[1],
        Err(etcd::error::Error::Transport(ref te)) if te.message == "connection refused"
    ));
}

#[test]
fn versions_cluster_metadata_is_read() {
    let endpoints = vec!["http://a/".to_string()];
    let transport = |_req: &HttpRequest| {
        Ok(HttpResponse {
            status: 200,
            headers: ResponseHeaders {
                cluster_id: Some("abad1dea".to_string()),
                etcd_index: Some("42".to_string()),
                raft_index: Some("oops".to_string()),
                raft_term: None,
            },
            body: b"{\"etcdserver\": \"2.3.8\", \"etcdcluster\": \"2.3.0\"}".to_vec(),
        })
    };

    let responses = etcd::client::versions(transport, &endpoints);
    let info = responses.into_iter().next().unwrap().unwrap().cluster_info;

    assert_eq!(info.cluster_id.as_deref(), Some("abad1dea"));
    assert_eq!(info.etcd_index, Some(42));
    assert_eq!(info.raft_index, None);
    assert_eq!(info.raft_term, None);
}
