//! The store's cluster membership API.

use vstd::prelude::*;
use vstd::string::StringExecFns;

use crate::client::{
    attempted, cluster_info_of, cluster_info_of_spec, dispatched_by, transport_total, Response,
};
use crate::codec::{decode_api_error, decode_req_str_field, req_str_field_ok, api_error_decoded};
use crate::error::{Error, TransportError};
use crate::first_ok::first_ok;
use crate::json::{
    arr_rep, json_as_array, json_as_str, json_doc_of, json_get, json_is_object, json_parse,
    json_rep, obj_lookup, Json,
};
use crate::wire::{HttpRequest, HttpResponse, Method};

verus! {

/// A server that is a member of a cluster.
#[derive(Clone, Debug, PartialEq, Eq)]
pub struct Member {
    /// An internal identifier for the cluster member.
    pub id: String,
    /// A human-readable name for the cluster member.
    pub name: String,
    /// URLs exposing this cluster member's peer API.
    pub peer_urls: Vec<String>,
    /// URLs exposing this cluster member's client API.
    pub client_urls: Vec<String>,
}

/// Whether an array of the model holds exactly the given strings.
pub open spec fn str_arr_of(elems: Seq<Json>, ss: Seq<Seq<char>>) -> bool {
    elems.len() == ss.len() && (forall|i: int|
        0 <= i < elems.len() ==> elems[i] == Json::Str(#[trigger] ss[i]))
}

/// How a required string-array field relates to an object's entries.
pub open spec fn str_arr_field_ok(
    entries: Seq<(Seq<char>, Json)>,
    key: Seq<char>,
    field: Seq<Seq<char>>,
) -> bool {
    match obj_lookup(entries, key) {
        Option::Some(j) => j matches Json::Arr(elems) && str_arr_of(elems, field),
        Option::None => false,
    }
}

/// How a decoded member record relates to the model of a document.
pub open spec fn member_decoded(j: Json, m: Member) -> bool {
    match j {
        Json::Obj(entries) => {
            &&& req_str_field_ok(entries, "id"@, m.id)
            &&& req_str_field_ok(entries, "name"@, m.name)
            &&& str_arr_field_ok(entries, "peerURLs"@, m.peer_urls.deep_view())
            &&& str_arr_field_ok(entries, "clientURLs"@, m.client_urls.deep_view())
        },
        _ => false,
    }
}

/// How a decoded member list relates to the model of a document: an object
/// whose `members` field is an array of member records.
pub open spec fn members_decoded(j: Json, ms: Seq<Member>) -> bool {
    match j {
        Json::Obj(entries) => match obj_lookup(entries, "members"@) {
            Option::Some(jm) => jm matches Json::Arr(elems) && elems.len() == ms.len() && (forall|
                i: int,
            |
                0 <= i < elems.len() ==> member_decoded(elems[i], #[trigger] ms[i])),
            Option::None => false,
        },
        _ => false,
    }
}

/// Decodes a required array of strings.
fn decode_str_array(v: &serde_json::Value) -> (r: Result<Vec<String>, ()>)
    ensures
        match r {
            Ok(ss) => json_rep(*v) matches Json::Arr(elems) && str_arr_of(elems, ss.deep_view()),
            Err(_) => (json_rep(*v) matches Json::Arr(elems) ==> (forall|ss: Seq<Seq<char>>|
                !(#[trigger] str_arr_of(elems, ss)))),
        },
{
    let ghost j = json_rep(*v);
    match json_as_array(v) {
        Option::None => Err(()),
        Option::Some(arr) => {
            let ghost elems = arr_rep(arr@);
            let mut out: Vec<String> = Vec::new();
            let mut i: usize = 0;
            while i < arr.len()
                invariant
                    j == json_rep(*v),
                    j == Json::Arr(elems),
                    elems == arr_rep(arr@),
                    0 <= i <= arr@.len(),
                    out@.len() == i,
                    forall|k: int|
                        0 <= k < i ==> elems[k] == Json::Str(#[trigger] out.deep_view()[k]),
                decreases arr@.len() - i,
            {
                match json_as_str(&arr[i]) {
                    Option::Some(s) => {
                        let ghost prev = out.deep_view();
                        out.push(s.to_owned());
                        proof {
                            assert(elems[i as int] == json_rep(arr@[i as int]));
                            assert(out.deep_view() =~~= prev.push(s@));
                        }
                    },
                    Option::None => {
                        proof {
                            assert(elems[i as int] == json_rep(arr@[i as int]));
                            assert forall|ss: Seq<Seq<char>>| !str_arr_of(elems, ss) by {
                                if str_arr_of(elems, ss) {
                                    assert(elems[i as int] == Json::Str(ss[i as int]));
                                }
                            }
                        }
                        return Err(());
                    },
                }
                i += 1;
            }
            proof {
                assert(str_arr_of(elems, out.deep_view()));
            }
            Ok(out)
        },
    }
}

/// Decodes a member record from the model of a parsed document.
fn decode_member(v: &serde_json::Value) -> (r: Result<Member, ()>)
    ensures
        match r {
            Ok(m) => member_decoded(json_rep(*v), m),
            Err(_) => forall|m: Member| !member_decoded(json_rep(*v), m),
        },
{
    let ghost j = json_rep(*v);
    if !json_is_object(v) {
        return Err(());
    }
    let id = match decode_req_str_field(v, "id") {
        Ok(s) => s,
        Err(_) => {
            proof {
                assert forall|m: Member| !member_decoded(j, m) by {
                    if member_decoded(j, m) {
                        assert(req_str_field_ok(j->Obj_0, "id"@, m.id));
                    }
                }
            }
            return Err(());
        },
    };
    let name = match decode_req_str_field(v, "name") {
        Ok(s) => s,
        Err(_) => {
            proof {
                assert forall|m: Member| !member_decoded(j, m) by {
                    if member_decoded(j, m) {
                        assert(req_str_field_ok(j->Obj_0, "name"@, m.name));
                    }
                }
            }
            return Err(());
        },
    };
    let peer_urls = match json_get(v, "peerURLs") {
        Option::Some(f) => match decode_str_array(f) {
            Ok(ss) => ss,
            Err(_) => {
                proof {
                    assert forall|m: Member| !member_decoded(j, m) by {
                        if member_decoded(j, m) {
                            assert(str_arr_field_ok(j->Obj_0, "peerURLs"@, m.peer_urls.deep_view()));
                        }
                    }
                }
                return Err(());
            },
        },
        Option::None => {
            return Err(());
        },
    };
    let client_urls = match json_get(v, "clientURLs") {
        Option::Some(f) => match decode_str_array(f) {
            Ok(ss) => ss,
            Err(_) => {
                proof {
                    assert forall|m: Member| !member_decoded(j, m) by {
                        if member_decoded(j, m) {
                            assert(str_arr_field_ok(
                                j->Obj_0,
                                "clientURLs"@,
                                m.client_urls.deep_view(),
                            ));
                        }
                    }
                }
                return Err(());
            },
        },
        Option::None => {
            return Err(());
        },
    };
    Ok(Member { id, name, peer_urls, client_urls })
}

/// Decodes a member list from the model of a parsed document.
fn decode_members(v: &serde_json::Value) -> (r: Result<Vec<Member>, ()>)
    ensures
        match r {
            Ok(ms) => members_decoded(json_rep(*v), ms@),
            Err(_) => forall|ms: Seq<Member>| !members_decoded(json_rep(*v), ms),
        },
{
    let ghost j = json_rep(*v);
    if !json_is_object(v) {
        return Err(());
    }
    match json_get(v, "members") {
        Option::None => Err(()),
        Option::Some(f) => match json_as_array(f) {
            Option::None => {
                proof {
                    assert forall|ms: Seq<Member>| !members_decoded(j, ms) by {
                        if members_decoded(j, ms) {
                            assert(json_rep(*f) is Arr);
                        }
                    }
                }
                Err(())
            },
            Option::Some(arr) => {
                let ghost elems = arr_rep(arr@);
                let mut out: Vec<Member> = Vec::new();
                let mut i: usize = 0;
                while i < arr.len()
                    invariant
                        j == json_rep(*v),
                        j is Obj,
                        obj_lookup(j->Obj_0, "members"@) == Some(json_rep(*f)),
                        json_rep(*f) == Json::Arr(elems),
                        elems == arr_rep(arr@),
                        0 <= i <= arr@.len(),
                        out@.len() == i,
                        forall|k: int| 0 <= k < i ==> member_decoded(elems[k], #[trigger] out@[k]),
                    decreases arr@.len() - i,
                {
                    match decode_member(&arr[i]) {
                        Ok(m) => {
                            out.push(m);
                            proof {
                                assert(elems[i as int] == json_rep(arr@[i as int]));
                            }
                        },
                        Err(_) => {
                            proof {
                                assert(elems[i as int] == json_rep(arr@[i as int]));
                                assert forall|ms: Seq<Member>| !members_decoded(j, ms) by {
                                    if members_decoded(j, ms) {
                                        assert(member_decoded(elems[i as int], ms[i as int]));
                                    }
                                }
                            }
                            return Err(());
                        },
                    }
                    i += 1;
                }
                Ok(out)
            },
        },
    }
}

/// Classifies one member's answer to a member-list request.
fn classify_members(hr: &HttpResponse) -> (out: Result<Response<Vec<Member>>, Error>)
    ensures
        crate::client::classified_doc(
            *hr,
            false,
            |j: Json, ms: Vec<Member>| members_decoded(j, ms@),
            out,
        ),
{
    match json_parse(hr.body.as_slice()) {
        Option::None => Err(Error::Serialization),
        Option::Some(v) => {
            if hr.status == 200 {
                match decode_members(&v) {
                    Ok(ms) => Ok(Response { data: ms, cluster_info: cluster_info_of(&hr.headers) }),
                    Err(_) => Err(Error::Serialization),
                }
            } else {
                match decode_api_error(&v) {
                    Ok(ae) => Err(Error::Api(ae)),
                    Err(_) => Err(Error::Serialization),
                }
            }
        },
    }
}

/// How the answer to a member deletion is classified: `204` is success with
/// no payload; on any other status the body must decode as the structured
/// error payload, and an undecodable body is a `Serialization` error.
pub open spec fn member_delete_classified(
    hr: HttpResponse,
    out: Result<Response<()>, Error>,
) -> bool {
    if hr.status == 204 {
        out == Ok::<Response<()>, Error>(
            Response { data: (), cluster_info: cluster_info_of_spec(hr.headers) },
        )
    } else {
        match json_doc_of(hr.body@) {
            Option::None => out == Err::<Response<()>, Error>(Error::Serialization),
            Option::Some(j) => match out {
                Ok(_) => false,
                Err(e) => match e {
                    Error::Api(ae) => api_error_decoded(j, ae),
                    Error::Serialization => forall|ae: crate::error::ApiError|
                        !api_error_decoded(j, ae),
                    _ => false,
                },
            },
        }
    }
}

fn classify_member_delete(hr: &HttpResponse) -> (out: Result<Response<()>, Error>)
    ensures
        member_delete_classified(*hr, out),
{
    if hr.status == 204 {
        return Ok(Response { data: (), cluster_info: cluster_info_of(&hr.headers) });
    }
    match json_parse(hr.body.as_slice()) {
        Option::None => Err(Error::Serialization),
        Option::Some(v) => match decode_api_error(&v) {
            Ok(ae) => Err(Error::Api(ae)),
            Err(_) => Err(Error::Serialization),
        },
    }
}

/// The URL of the members resource, or of one member under it.
fn members_url(endpoint: &str, path: &str) -> (r: String)
    ensures
        r@ == endpoint@ + "v2/members"@ + path@,
{
    let mut s = String::new();
    s.append(endpoint);
    s.append("v2/members");
    s.append(path);
    proof {
        assert(s@ =~= endpoint@ + "v2/members"@ + path@);
    }
    s
}

/// The per-endpoint attempt of a member-list call.
pub open spec fn members_list_attempt<
    F: Fn(&HttpRequest) -> Result<HttpResponse, TransportError>,
>(f: F) -> spec_fn(Seq<char>, Result<Response<Vec<Member>>, Error>) -> bool {
    |ep: Seq<char>, out: Result<Response<Vec<Member>>, Error>|
        attempted(
            f,
            Method::Get,
            ep + "v2/members"@,
            None,
            |hr: HttpResponse, o: Result<Response<Vec<Member>>, Error>|
                crate::client::classified_doc(
                    hr,
                    false,
                    |j: Json, ms: Vec<Member>| members_decoded(j, ms@),
                    o,
                ),
            out,
        )
}

/// Lists the members of the cluster.
pub fn list<F: Copy + Fn(&HttpRequest) -> Result<HttpResponse, TransportError>>(
    transport: F,
    endpoints: &Vec<String>,
) -> (r: Result<Response<Vec<Member>>, Vec<Error>>)
    requires
        transport_total(transport),
    ensures
        dispatched_by(endpoints@, members_list_attempt(transport), r),
{
    let attempt = move |ep: &String| -> (out: Result<Response<Vec<Member>>, Error>)
        ensures
            members_list_attempt(transport)(ep@, out),
        {
            let req = HttpRequest {
                method: Method::Get,
                url: members_url(ep.as_str(), ""),
                body: None,
            };
            proof {
                reveal_strlit("");
                assert(ep@ + "v2/members"@ + ""@ =~= ep@ + "v2/members"@);
            }
            match transport(&req) {
                Err(te) => Err(Error::Transport(te)),
                Ok(hr) => classify_members(&hr),
            }
        };
    first_ok(endpoints, attempt)
}

/// The per-endpoint attempt of a member deletion.
pub open spec fn member_delete_attempt<
    F: Fn(&HttpRequest) -> Result<HttpResponse, TransportError>,
>(f: F, id: Seq<char>) -> spec_fn(Seq<char>, Result<Response<()>, Error>) -> bool {
    |ep: Seq<char>, out: Result<Response<()>, Error>|
        attempted(
            f,
            Method::Delete,
            ep + "v2/members"@ + "/"@ + id,
            None,
            |hr: HttpResponse, o: Result<Response<()>, Error>| member_delete_classified(hr, o),
            out,
        )
}

/// Deletes a member from the cluster, by its unique identifier.
pub fn delete<F: Copy + Fn(&HttpRequest) -> Result<HttpResponse, TransportError>>(
    transport: F,
    endpoints: &Vec<String>,
    id: &str,
) -> (r: Result<Response<()>, Vec<Error>>)
    requires
        transport_total(transport),
    ensures
        dispatched_by(endpoints@, member_delete_attempt(transport, id@), r),
{
    let attempt = move |ep: &String| -> (out: Result<Response<()>, Error>)
        ensures
            member_delete_attempt(transport, id@)(ep@, out),
        {
            let mut path = String::new();
            path.append("/");
            path.append(id);
            let req = HttpRequest {
                method: Method::Delete,
                url: members_url(ep.as_str(), path.as_str()),
                body: None,
            };
            proof {
                assert(ep@ + "v2/members"@ + (Seq::<char>::empty() + "/"@ + id@) =~= ep@
                    + "v2/members"@ + "/"@ + id@);
            }
            match transport(&req) {
                Err(te) => Err(Error::Transport(te)),
                Ok(hr) => classify_member_delete(&hr),
            }
        };
    first_ok(endpoints, attempt)
}

} // verus!
