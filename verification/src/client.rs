//! Per-response metadata, the transport contract, and the cluster-wide
//! health and version reports.

use vstd::prelude::*;

use crate::codec::{api_error_decoded, decode_api_error, decode_req_str_field, req_str_field_ok};
use crate::error::{Error, TransportError};
use crate::json::{json_doc_of, json_parse, json_is_object, json_rep, Json};
use crate::strutil::{parse_u64, spec_parse_u64};
use crate::wire::{join_url, HttpRequest, HttpResponse, Method, ResponseHeaders};

verus! {

/// Credentials for HTTP Basic authentication, handed to the transport.
#[derive(Clone, Debug, PartialEq, Eq)]
pub struct BasicAuth {
    /// The user name.
    pub username: String,
    /// The password.
    pub password: String,
}

/// Cluster identifying information attached to every result for
/// observability; it does not affect control flow.
#[derive(Clone, Debug, PartialEq, Eq, Default)]
pub struct ClusterInfo {
    /// The id of the cluster, as reported in the response headers.
    pub cluster_id: Option<String>,
    /// The store's index, as reported in the response headers.
    pub etcd_index: Option<u64>,
    /// The raft index, as reported in the response headers.
    pub raft_index: Option<u64>,
    /// The raft term, as reported in the response headers.
    pub raft_term: Option<u64>,
}

/// A successful response: the decoded payload plus cluster metadata.
#[derive(Debug, PartialEq, Eq)]
pub struct Response<T> {
    /// The decoded payload.
    pub data: T,
    /// Cluster metadata from the response headers.
    pub cluster_info: ClusterInfo,
}

/// The cluster metadata carried by a set of response headers: the id is
/// taken as is, the indices must parse as decimal numbers.
pub open spec fn cluster_info_of_spec(h: ResponseHeaders) -> ClusterInfo {
    ClusterInfo {
        cluster_id: h.cluster_id,
        etcd_index: match h.etcd_index {
            Option::Some(s) => spec_parse_u64(s@),
            Option::None => None,
        },
        raft_index: match h.raft_index {
            Option::Some(s) => spec_parse_u64(s@),
            Option::None => None,
        },
        raft_term: match h.raft_term {
            Option::Some(s) => spec_parse_u64(s@),
            Option::None => None,
        },
    }
}

/// Reads the cluster metadata out of a set of response headers.
pub fn cluster_info_of(h: &ResponseHeaders) -> (r: ClusterInfo)
    ensures
        r == cluster_info_of_spec(*h),
{
    let cluster_id = match &h.cluster_id {
        Option::Some(s) => Some(s.clone()),
        Option::None => None,
    };
    let etcd_index = match &h.etcd_index {
        Option::Some(s) => parse_u64(s.as_str()),
        Option::None => None,
    };
    let raft_index = match &h.raft_index {
        Option::Some(s) => parse_u64(s.as_str()),
        Option::None => None,
    };
    let raft_term = match &h.raft_term {
        Option::Some(s) => parse_u64(s.as_str()),
        Option::None => None,
    };
    ClusterInfo { cluster_id, etcd_index, raft_index, raft_term }
}

/// A transport accepts every request plan. What it answers is its own
/// affair: the classifiers state what the library does with every possible
/// answer.
pub open spec fn transport_total<F: Fn(&HttpRequest) -> Result<HttpResponse, TransportError>>(
    f: F,
) -> bool {
    forall|req: &HttpRequest| #[trigger] call_requires(f, (req,))
}

/// How one classified outcome relates to the raw response: on a success
/// status the body must decode as the expected payload, anything else is a
/// `Serialization` error; on any other status the body must decode as the
/// structured error payload, which is surfaced as an `Api` error, and
/// anything else is again a `Serialization` error.
pub open spec fn classified_doc<T>(
    hr: HttpResponse,
    allow_created: bool,
    rel: spec_fn(Json, T) -> bool,
    out: Result<Response<T>, Error>,
) -> bool {
    if hr.status == 200 || (allow_created && hr.status == 201) {
        match json_doc_of(hr.body@) {
            Option::None => out == Err::<Response<T>, Error>(Error::Serialization),
            Option::Some(j) => match out {
                Ok(resp) => rel(j, resp.data) && resp.cluster_info == cluster_info_of_spec(
                    hr.headers,
                ),
                Err(e) => e == Error::Serialization && (forall|t: T| !(#[trigger] rel(j, t))),
            },
        }
    } else {
        match json_doc_of(hr.body@) {
            Option::None => out == Err::<Response<T>, Error>(Error::Serialization),
            Option::Some(j) => match out {
                Ok(_) => false,
                Err(e) => match e {
                    Error::Api(ae) => api_error_decoded(j, ae),
                    Error::Serialization => forall|ae: crate::error::ApiError|
                        !api_error_decoded(j, ae),
                    _ => false,
                },
            },
        }
    }
}

/// A success-status response whose body is not decodable JSON always yields
/// a `Serialization` error: never a transport error, and never a silently
/// ignored success.
pub proof fn lemma_undecodable_success_body_is_serialization<T>(
    hr: HttpResponse,
    allow_created: bool,
    rel: spec_fn(Json, T) -> bool,
    out: Result<Response<T>, Error>,
)
    requires
        classified_doc(hr, allow_created, rel, out),
        hr.status == 200 || (allow_created && hr.status == 201),
        json_doc_of(hr.body@) is None,
    ensures
        out == Err::<Response<T>, Error>(Error::Serialization),
{
}

/// How one full attempt against one endpoint relates to the transport: some
/// request with the planned verb, URL and body was handed to the transport,
/// and the outcome is the transport's failure or the classification of its
/// response.
pub open spec fn transport_attempted<
    T,
    F: Fn(&HttpRequest) -> Result<HttpResponse, TransportError>,
>(
    f: F,
    method: Method,
    url: Seq<char>,
    body: Option<Seq<char>>,
    allow_created: bool,
    rel: spec_fn(Json, T) -> bool,
    out: Result<Response<T>, Error>,
) -> bool {
    exists|req: HttpRequest, tres: Result<HttpResponse, TransportError>|
        {
            &&& req.method == method
            &&& req.url@ == url
            &&& match (req.body, body) {
                (Option::Some(b), Option::Some(bv)) => b@ == bv,
                (Option::None, Option::None) => true,
                _ => false,
            }
            &&& #[trigger] call_ensures(f, (&req,), tres)
            &&& match tres {
                Ok(hr) => classified_doc(hr, allow_created, rel, out),
                Err(te) => out == Err::<Response<T>, Error>(Error::Transport(te)),
            }
        }
}

/// How a whole call relates to its per-endpoint attempts: the endpoints
/// were tried in order; a success is the first successful attempt's answer,
/// every attempt before it having failed; a failure carries every
/// endpoint's error, in order.
pub open spec fn dispatched_by<T>(
    endpoints: Seq<String>,
    att: spec_fn(Seq<char>, Result<T, Error>) -> bool,
    r: Result<T, Vec<Error>>,
) -> bool {
    match r {
        Ok(v) => exists|i: int, errs: Seq<Error>|
            {
                &&& 0 <= i < endpoints.len()
                &&& errs.len() == i
                &&& forall|k: int| 0 <= k < i ==> att(endpoints[k]@, Err(#[trigger] errs[k]))
                &&& att(endpoints[i]@, Ok(v))
            },
        Err(errs) => {
            &&& errs@.len() == endpoints.len()
            &&& forall|k: int|
                0 <= k < endpoints.len() ==> att(endpoints[k]@, Err(#[trigger] errs@[k]))
        },
    }
}

/// How one attempt against one endpoint relates to the transport: some
/// request with the planned verb, URL and body was handed to the transport,
/// and the outcome is the transport's failure or the given classification of
/// its response.
pub open spec fn attempted<T, F: Fn(&HttpRequest) -> Result<HttpResponse, TransportError>>(
    f: F,
    method: Method,
    url: Seq<char>,
    body: Option<Seq<char>>,
    cls: spec_fn(HttpResponse, Result<T, Error>) -> bool,
    out: Result<T, Error>,
) -> bool {
    exists|req: HttpRequest, tres: Result<HttpResponse, TransportError>|
        {
            &&& req.method == method
            &&& req.url@ == url
            &&& match (req.body, body) {
                (Option::Some(b), Option::Some(bv)) => b@ == bv,
                (Option::None, Option::None) => true,
                _ => false,
            }
            &&& #[trigger] call_ensures(f, (&req,), tres)
            &&& match tres {
                Ok(hr) => cls(hr, out),
                Err(te) => out == Err::<T, Error>(Error::Transport(te)),
            }
        }
}

/// The health report of one cluster member.
#[derive(Clone, Debug, PartialEq, Eq)]
pub struct Health {
    /// The word the member uses for its own health, e.g. `"true"`.
    pub health: String,
}

/// The version report of one cluster member.
#[derive(Clone, Debug, PartialEq, Eq)]
pub struct VersionInfo {
    /// The version of the cluster's API.
    pub cluster_version: String,
    /// The version of the server itself.
    pub server_version: String,
}

/// How a decoded health report relates to the model of a document.
pub open spec fn health_decoded(j: Json, h: Health) -> bool {
    j matches Json::Obj(entries) && req_str_field_ok(entries, "health"@, h.health)
}

/// How a decoded version report relates to the model of a document.
pub open spec fn version_decoded(j: Json, v: VersionInfo) -> bool {
    &&& j matches Json::Obj(entries)
    &&& req_str_field_ok(j->Obj_0, "etcdcluster"@, v.cluster_version)
    &&& req_str_field_ok(j->Obj_0, "etcdserver"@, v.server_version)
}

/// Decodes a health report from the model of a parsed document.
fn decode_health(v: &serde_json::Value) -> (r: Result<Health, ()>)
    ensures
        match r {
            Ok(h) => health_decoded(json_rep(*v), h),
            Err(_) => forall|h: Health| !health_decoded(json_rep(*v), h),
        },
{
    let ghost j = json_rep(*v);
    if !json_is_object(v) {
        return Err(());
    }
    match decode_req_str_field(v, "health") {
        Ok(health) => Ok(Health { health }),
        Err(_) => {
            proof {
                assert forall|h: Health| !health_decoded(j, h) by {
                    if health_decoded(j, h) {
                        assert(req_str_field_ok(j->Obj_0, "health"@, h.health));
                    }
                }
            }
            Err(())
        },
    }
}

/// Decodes a version report from the model of a parsed document.
fn decode_version(v: &serde_json::Value) -> (r: Result<VersionInfo, ()>)
    ensures
        match r {
            Ok(vi) => version_decoded(json_rep(*v), vi),
            Err(_) => forall|vi: VersionInfo| !version_decoded(json_rep(*v), vi),
        },
{
    let ghost j = json_rep(*v);
    if !json_is_object(v) {
        return Err(());
    }
    let cluster_version = match decode_req_str_field(v, "etcdcluster") {
        Ok(s) => s,
        Err(_) => {
            proof {
                assert forall|vi: VersionInfo| !version_decoded(j, vi) by {
                    if version_decoded(j, vi) {
                        assert(req_str_field_ok(j->Obj_0, "etcdcluster"@, vi.cluster_version));
                    }
                }
            }
            return Err(());
        },
    };
    let server_version = match decode_req_str_field(v, "etcdserver") {
        Ok(s) => s,
        Err(_) => {
            proof {
                assert forall|vi: VersionInfo| !version_decoded(j, vi) by {
                    if version_decoded(j, vi) {
                        assert(req_str_field_ok(j->Obj_0, "etcdserver"@, vi.server_version));
                    }
                }
            }
            return Err(());
        },
    };
    Ok(VersionInfo { cluster_version, server_version })
}

/// Classifies one member's answer to a health request.
pub fn classify_health(hr: &HttpResponse) -> (out: Result<Response<Health>, Error>)
    ensures
        classified_doc(*hr, false, |j: Json, h: Health| health_decoded(j, h), out),
{
    match json_parse(hr.body.as_slice()) {
        Option::None => Err(Error::Serialization),
        Option::Some(v) => {
            if hr.status == 200 {
                match decode_health(&v) {
                    Ok(h) => Ok(Response { data: h, cluster_info: cluster_info_of(&hr.headers) }),
                    Err(_) => Err(Error::Serialization),
                }
            } else {
                match decode_api_error(&v) {
                    Ok(ae) => Err(Error::Api(ae)),
                    Err(_) => Err(Error::Serialization),
                }
            }
        },
    }
}

/// Classifies one member's answer to a version request.
pub fn classify_version(hr: &HttpResponse) -> (out: Result<Response<VersionInfo>, Error>)
    ensures
        classified_doc(*hr, false, |j: Json, vi: VersionInfo| version_decoded(j, vi), out),
{
    match json_parse(hr.body.as_slice()) {
        Option::None => Err(Error::Serialization),
        Option::Some(v) => {
            if hr.status == 200 {
                match decode_version(&v) {
                    Ok(vi) => Ok(
                        Response { data: vi, cluster_info: cluster_info_of(&hr.headers) },
                    ),
                    Err(_) => Err(Error::Serialization),
                }
            } else {
                match decode_api_error(&v) {
                    Ok(ae) => Err(Error::Api(ae)),
                    Err(_) => Err(Error::Serialization),
                }
            }
        },
    }
}

/// Asks every cluster member for its health, in order, and reports each
/// member's classified answer.
pub fn health<F: Fn(&HttpRequest) -> Result<HttpResponse, TransportError>>(
    transport: F,
    endpoints: &Vec<String>,
) -> (r: Vec<Result<Response<Health>, Error>>)
    requires
        transport_total(transport),
    ensures
        r@.len() == endpoints@.len(),
        forall|i: int|
            0 <= i < endpoints@.len() ==> transport_attempted(
                transport,
                Method::Get,
                endpoints@[i]@ + "health"@,
                None,
                false,
                |j: Json, h: Health| health_decoded(j, h),
                #[trigger] r@[i],
            ),
{
    let mut results: Vec<Result<Response<Health>, Error>> = Vec::new();
    let mut i: usize = 0;
    while i < endpoints.len()
        invariant
            transport_total(transport),
            0 <= i <= endpoints@.len(),
            results@.len() == i,
            forall|k: int|
                0 <= k < i ==> transport_attempted(
                    transport,
                    Method::Get,
                    endpoints@[k]@ + "health"@,
                    None,
                    false,
                    |j: Json, h: Health| health_decoded(j, h),
                    #[trigger] results@[k],
                ),
        decreases endpoints@.len() - i,
    {
        let url = join_url(endpoints[i].as_str(), "health");
        let req = HttpRequest { method: Method::Get, url, body: None };
        let out = match transport(&req) {
            Err(te) => Err(Error::Transport(te)),
            Ok(hr) => classify_health(&hr),
        };
        results.push(out);
        i += 1;
    }
    results
}

/// Asks every cluster member for its version, in order, and reports each
/// member's classified answer.
pub fn versions<F: Fn(&HttpRequest) -> Result<HttpResponse, TransportError>>(
    transport: F,
    endpoints: &Vec<String>,
) -> (r: Vec<Result<Response<VersionInfo>, Error>>)
    requires
        transport_total(transport),
    ensures
        r@.len() == endpoints@.len(),
        forall|i: int|
            0 <= i < endpoints@.len() ==> transport_attempted(
                transport,
                Method::Get,
                endpoints@[i]@ + "version"@,
                None,
                false,
                |j: Json, vi: VersionInfo| version_decoded(j, vi),
                #[trigger] r@[i],
            ),
{
    let mut results: Vec<Result<Response<VersionInfo>, Error>> = Vec::new();
    let mut i: usize = 0;
    while i < endpoints.len()
        invariant
            transport_total(transport),
            0 <= i <= endpoints@.len(),
            results@.len() == i,
            forall|k: int|
                0 <= k < i ==> transport_attempted(
                    transport,
                    Method::Get,
                    endpoints@[k]@ + "version"@,
                    None,
                    false,
                    |j: Json, vi: VersionInfo| version_decoded(j, vi),
                    #[trigger] results@[k],
                ),
        decreases endpoints@.len() - i,
    {
        let url = join_url(endpoints[i].as_str(), "version");
        let req = HttpRequest { method: Method::Get, url, body: None };
        let out = match transport(&req) {
            Err(te) => Err(Error::Transport(te)),
            Ok(hr) => classify_version(&hr),
        };
        results.push(out);
        i += 1;
    }
    results
}

} // verus!
