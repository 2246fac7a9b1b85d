//! The store's key-value API.
//!
//! The term "node" refers to a key-value pair or a directory of key-value
//! pairs. For example, "/foo" is a key if it has a value, but it is a
//! directory if there are other key-value pairs "underneath" it, such as
//! "/foo/bar".

use vstd::prelude::*;

use crate::client::{
    classified_doc, cluster_info_of, transport_attempted, transport_total, Response,
};
use crate::codec::{decode_api_error, decode_kv_info, kvinfo_decoded};
use crate::error::{Error, TransportError, WatchError};
use crate::first_ok::first_ok;
use crate::json::{json_parse, Json};
use crate::options::{ComparisonConditions, DeleteOptions, SetOptions};
use crate::strutil::{bool_str, dec_digits, u64_to_dec};
use crate::wire::{
    build_keys_url, form_encode, form_encoded_of, pairs_view, url_with_params, url_with_query_of,
    HttpRequest, HttpResponse, Method,
};

verus! {

/// Information about the result of a successful key-value API operation.
#[derive(Debug, PartialEq, Eq)]
pub struct KeyValueInfo {
    /// The action that was taken, e.g. `get`, `set`.
    pub action: Action,
    /// The node that was operated upon.
    pub node: Node,
    /// The previous state of the target node.
    pub prev_node: Option<Node>,
}

/// The type of action that was taken in response to a key-value API request.
///
/// "Node" refers to the key or directory being acted upon.
#[derive(Clone, Copy, Debug, PartialEq, Eq, Structural)]
pub enum Action {
    /// Atomic deletion of a node based on previous state.
    CompareAndDelete,
    /// Atomic update of a node based on previous state.
    CompareAndSwap,
    /// Creation of a node that didn't previously exist.
    Create,
    /// Deletion of a node.
    Delete,
    /// Expiration of a node.
    Expire,
    /// Retrieval of a node.
    Get,
    /// Assignment of a node, which may have previously existed. Reported by
    /// the server as the action `set`.
    Put,
    /// Update of an existing node.
    Update,
}

/// A key or directory of the store.
#[derive(Debug, PartialEq, Eq)]
pub struct Node {
    /// The new value of the creation index.
    pub created_index: Option<u64>,
    /// Whether or not the node is a directory.
    pub dir: Option<bool>,
    /// An ISO 8601 timestamp for when the key will expire.
    pub expiration: Option<String>,
    /// The name of the key.
    pub key: Option<String>,
    /// The new value of the modification index.
    pub modified_index: Option<u64>,
    /// Child nodes of a directory.
    pub nodes: Option<Vec<Node>>,
    /// The key's time to live in seconds.
    pub ttl: Option<i64>,
    /// The value of the key.
    pub value: Option<String>,
}

/// Options for customizing the behavior of [`get`].
#[derive(Clone, Copy, Debug, Default, PartialEq, Eq, Structural)]
pub struct GetOptions {
    /// If true and the node is a directory, child nodes will be returned as
    /// well.
    pub recursive: bool,
    /// If true and the node is a directory, any child nodes returned will be
    /// sorted alphabetically.
    pub sort: bool,
    /// If true, the node serving the response will synchronize with the
    /// quorum before returning the value.
    ///
    /// This is slower but avoids possibly stale data from being returned.
    pub strong_consistency: bool,
}

/// Options for customizing the behavior of [`watch`].
#[derive(Clone, Copy, Debug, Default, PartialEq, Eq)]
pub struct WatchOptions {
    /// If given, the watch operation will return the first change at the
    /// index or greater, allowing you to watch for changes that happened in
    /// the past.
    pub index: Option<u64>,
    /// Whether or not to watch all child keys as well.
    pub recursive: bool,
    /// If given, the watch operation will time out after this many
    /// milliseconds without a response.
    pub timeout: Option<u64>,
}

/// What a get or watch request puts on the wire.
pub struct GetPlan {
    /// The `recursive` query value.
    pub recursive: bool,
    /// The `sorted` query value, when given.
    pub sort: Option<bool>,
    /// Whether the request long-polls.
    pub wait: bool,
    /// With `wait`, the index to start from.
    pub wait_index: Option<u64>,
}

/// What a delete request puts on the wire.
pub struct DeletePlan {
    /// The `recursive` query value, when given.
    pub recursive: Option<bool>,
    /// The `dir` query value, when given.
    pub dir: Option<bool>,
    /// The `prevValue` condition, when given.
    pub prev_value: Option<Seq<char>>,
    /// The `prevIndex` condition, when given.
    pub prev_index: Option<u64>,
}

/// What a set request puts on the wire, and with which verb.
pub struct SetPlan {
    /// The `value` form field, when given.
    pub value: Option<Seq<char>>,
    /// The `ttl` form field, when given.
    pub ttl: Option<u64>,
    /// The `dir` form field, when given.
    pub dir: Option<bool>,
    /// The `prevExist` form field, when given.
    pub prev_exist: Option<bool>,
    /// POST instead of PUT, for ordered-key creation.
    pub create_in_order: bool,
    /// The `prevValue` condition, when given.
    pub prev_value: Option<Seq<char>>,
    /// The `prevIndex` condition, when given.
    pub prev_index: Option<u64>,
}

/// One key-value request plan, for stating which request a call made.
pub enum KvPlan {
    /// A get or watch.
    Fetch(GetPlan),
    /// A delete.
    Remove(DeletePlan),
    /// A set.
    Store(SetPlan),
}

/// The word the wire format uses for a boolean.
pub open spec fn bool_view(b: bool) -> Seq<char> {
    if b {
        "true"@
    } else {
        "false"@
    }
}

/// The query pairs of a get or watch request: each present option is exactly
/// one pair, absent options contribute none.
pub open spec fn get_query_pairs(p: GetPlan) -> Seq<(Seq<char>, Seq<char>)> {
    seq![("recursive"@, bool_view(p.recursive))] + (match p.sort {
        Option::Some(b) => seq![("sorted"@, bool_view(b))],
        Option::None => seq![],
    }) + (if p.wait {
        seq![("wait"@, "true"@)]
    } else {
        seq![]
    }) + (match p.wait_index {
        Option::Some(i) => seq![("waitIndex"@, dec_digits(i as nat))],
        Option::None => seq![],
    })
}

/// The query pairs of a delete request.
pub open spec fn delete_query_pairs(p: DeletePlan) -> Seq<(Seq<char>, Seq<char>)> {
    (match p.recursive {
        Option::Some(b) => seq![("recursive"@, bool_view(b))],
        Option::None => seq![],
    }) + (match p.dir {
        Option::Some(b) => seq![("dir"@, bool_view(b))],
        Option::None => seq![],
    }) + (match p.prev_index {
        Option::Some(i) => seq![("prevIndex"@, dec_digits(i as nat))],
        Option::None => seq![],
    }) + (match p.prev_value {
        Option::Some(s) => seq![("prevValue"@, s)],
        Option::None => seq![],
    })
}

/// The form fields of a set request's body.
pub open spec fn set_body_pairs(p: SetPlan) -> Seq<(Seq<char>, Seq<char>)> {
    (match p.value {
        Option::Some(s) => seq![("value"@, s)],
        Option::None => seq![],
    }) + (match p.ttl {
        Option::Some(t) => seq![("ttl"@, dec_digits(t as nat))],
        Option::None => seq![],
    }) + (match p.dir {
        Option::Some(b) => seq![("dir"@, bool_view(b))],
        Option::None => seq![],
    }) + (match p.prev_exist {
        Option::Some(b) => seq![("prevExist"@, bool_view(b))],
        Option::None => seq![],
    }) + (match p.prev_index {
        Option::Some(i) => seq![("prevIndex"@, dec_digits(i as nat))],
        Option::None => seq![],
    }) + (match p.prev_value {
        Option::Some(s) => seq![("prevValue"@, s)],
        Option::None => seq![],
    })
}

fn push_pair(q: &mut Vec<(String, String)>, k: &str, v: String)
    ensures
        pairs_view(final(q)@) == pairs_view(old(q)@) + seq![(k@, v@)],
{
    let ghost old_q = q@;
    q.push((k.to_owned(), v));
    proof {
        assert(pairs_view(q@) =~~= pairs_view(old_q) + seq![(k@, v@)]);
    }
}

/// The wire view of a get or watch request's options. The
/// `strong_consistency` option does not reach the wire.
pub open spec fn get_plan_of(o: crate::options::GetOptions) -> GetPlan {
    GetPlan { recursive: o.recursive, sort: o.sort, wait: o.wait, wait_index: o.wait_index }
}

/// Builds the query of a get or watch request.
fn build_get_query(p: Ghost<GetPlan>, o: &crate::options::GetOptions) -> (r: Vec<(String, String)>)
    requires
        p@ == get_plan_of(*o),
    ensures
        pairs_view(r@) == get_query_pairs(p@),
{
    let mut q: Vec<(String, String)> = Vec::new();
    proof {
        assert(pairs_view(q@) =~~= Seq::<(Seq<char>, Seq<char>)>::empty());
    }
    push_pair(&mut q, "recursive", bool_str(o.recursive).to_owned());
    match o.sort {
        Option::Some(b) => push_pair(&mut q, "sorted", bool_str(b).to_owned()),
        Option::None => (),
    }
    if o.wait {
        push_pair(&mut q, "wait", "true".to_owned());
    }
    match o.wait_index {
        Option::Some(i) => push_pair(&mut q, "waitIndex", u64_to_dec(i)),
        Option::None => (),
    }
    proof {
        assert(pairs_view(q@) =~~= get_query_pairs(p@));
    }
    q
}

/// Builds the query of a delete request.
fn build_delete_query(p: Ghost<DeletePlan>, recursive: Option<bool>, dir: Option<bool>, prev_value: &Option<String>, prev_index: Option<u64>) -> (r: Vec<(String, String)>)
    requires
        p@.recursive == recursive,
        p@.dir == dir,
        match (p@.prev_value, prev_value) {
            (Option::Some(s), Option::Some(v)) => s == v@,
            (Option::None, Option::None) => true,
            _ => false,
        },
        p@.prev_index == prev_index,
    ensures
        pairs_view(r@) == delete_query_pairs(p@),
{
    let mut q: Vec<(String, String)> = Vec::new();
    proof {
        assert(pairs_view(q@) =~~= Seq::<(Seq<char>, Seq<char>)>::empty());
    }
    match recursive {
        Option::Some(b) => push_pair(&mut q, "recursive", bool_str(b).to_owned()),
        Option::None => (),
    }
    match dir {
        Option::Some(b) => push_pair(&mut q, "dir", bool_str(b).to_owned()),
        Option::None => (),
    }
    match prev_index {
        Option::Some(i) => push_pair(&mut q, "prevIndex", u64_to_dec(i)),
        Option::None => (),
    }
    match prev_value {
        Option::Some(s) => push_pair(&mut q, "prevValue", s.clone()),
        Option::None => (),
    }
    proof {
        assert(pairs_view(q@) =~~= delete_query_pairs(p@));
    }
    q
}

/// Builds the form fields of a set request's body.
fn build_set_pairs(p: Ghost<SetPlan>, o: &SetOptions) -> (r: Vec<(String, String)>)
    requires
        p@ == set_plan_of(*o),
    ensures
        pairs_view(r@) == set_body_pairs(p@),
{
    let mut q: Vec<(String, String)> = Vec::new();
    proof {
        assert(pairs_view(q@) =~~= Seq::<(Seq<char>, Seq<char>)>::empty());
    }
    match &o.value {
        Option::Some(s) => push_pair(&mut q, "value", s.clone()),
        Option::None => (),
    }
    match o.ttl {
        Option::Some(t) => push_pair(&mut q, "ttl", u64_to_dec(t)),
        Option::None => (),
    }
    match o.dir {
        Option::Some(b) => push_pair(&mut q, "dir", bool_str(b).to_owned()),
        Option::None => (),
    }
    match o.prev_exist {
        Option::Some(b) => push_pair(&mut q, "prevExist", bool_str(b).to_owned()),
        Option::None => (),
    }
    match &o.conditions {
        Option::Some(c) => {
            match c.modified_index {
                Option::Some(i) => push_pair(&mut q, "prevIndex", u64_to_dec(i)),
                Option::None => (),
            }
            match &c.value {
                Option::Some(s) => push_pair(&mut q, "prevValue", s.clone()),
                Option::None => (),
            }
        },
        Option::None => (),
    }
    proof {
        assert(pairs_view(q@) =~~= set_body_pairs(p@));
    }
    q
}

/// The wire view of a set request's options.
pub open spec fn set_plan_of(o: SetOptions) -> SetPlan {
    SetPlan {
        value: match o.value {
            Option::Some(s) => Some(s@),
            Option::None => None,
        },
        ttl: o.ttl,
        dir: o.dir,
        prev_exist: o.prev_exist,
        create_in_order: o.create_in_order,
        prev_value: match o.conditions {
            Option::Some(c) => match c.value {
                Option::Some(s) => Some(s@),
                Option::None => None,
            },
            Option::None => None,
        },
        prev_index: match o.conditions {
            Option::Some(c) => c.modified_index,
            Option::None => None,
        },
    }
}

/// The decode relation of the key-value payload, as one value.
pub open spec fn kv_rel() -> spec_fn(Json, KeyValueInfo) -> bool {
    |j: Json, info: KeyValueInfo| kvinfo_decoded(j, info)
}

/// Classifies one member's answer to a key-value request: see
/// [`classified_doc`] for the story. Writes accept `201` as well as `200`.
pub fn classify_kv(hr: &HttpResponse, allow_created: bool) -> (out: Result<
    Response<KeyValueInfo>,
    Error,
>)
    ensures
        classified_doc(*hr, allow_created, kv_rel(), out),
{
    match json_parse(hr.body.as_slice()) {
        Option::None => Err(Error::Serialization),
        Option::Some(v) => {
            if hr.status == 200 || (allow_created && hr.status == 201) {
                match decode_kv_info(&v) {
                    Ok(info) => Ok(
                        Response { data: info, cluster_info: cluster_info_of(&hr.headers) },
                    ),
                    Err(_) => Err(Error::Serialization),
                }
            } else {
                match decode_api_error(&v) {
                    Ok(ae) => Err(Error::Api(ae)),
                    Err(_) => Err(Error::Serialization),
                }
            }
        },
    }
}

/// The error recorded when an endpoint's base URL does not parse.
pub open spec fn invalid_url_error_spec(e: Error) -> bool {
    e matches Error::Transport(te) && te.message@ == "invalid URL"@
}

fn invalid_url_error() -> (e: Error)
    ensures
        invalid_url_error_spec(e),
{
    Error::Transport(TransportError { message: "invalid URL".to_owned() })
}

/// How one attempt of a plan against one endpoint relates to the transport.
///
/// For the query-bearing verbs the URL is assembled first and a base URL that
/// does not parse fails the attempt without a request; a set request's body
/// is the form encoding of its fields, and ordered-key creation uses POST in
/// place of PUT.
pub open spec fn kv_attempted<F: Fn(&HttpRequest) -> Result<HttpResponse, TransportError>>(
    f: F,
    endpoint: Seq<char>,
    key: Seq<char>,
    plan: KvPlan,
    out: Result<Response<KeyValueInfo>, Error>,
) -> bool {
    match plan {
        KvPlan::Fetch(p) => match url_with_query_of(
            endpoint + "v2/keys"@ + key,
            get_query_pairs(p),
        ) {
            Option::None => out matches Err(e) && invalid_url_error_spec(e),
            Option::Some(u) => transport_attempted(f, Method::Get, u, None, false, kv_rel(), out),
        },
        KvPlan::Remove(p) => match url_with_query_of(
            endpoint + "v2/keys"@ + key,
            delete_query_pairs(p),
        ) {
            Option::None => out matches Err(e) && invalid_url_error_spec(e),
            Option::Some(u) => transport_attempted(
                f,
                Method::Delete,
                u,
                None,
                false,
                kv_rel(),
                out,
            ),
        },
        KvPlan::Store(p) => transport_attempted(
            f,
            if p.create_in_order {
                Method::Post
            } else {
                Method::Put
            },
            endpoint + "v2/keys"@ + key,
            Some(form_encoded_of(set_body_pairs(p))),
            true,
            kv_rel(),
            out,
        ),
    }
}

/// How a whole call relates to the transport: the endpoints were tried in
/// order; a success is the classified answer of the first endpoint whose
/// attempt succeeded, every endpoint before it having failed; a failure
/// carries every endpoint's error, in order.
pub open spec fn kv_dispatched<F: Fn(&HttpRequest) -> Result<HttpResponse, TransportError>>(
    f: F,
    endpoints: Seq<String>,
    key: Seq<char>,
    plan: KvPlan,
    r: Result<Response<KeyValueInfo>, Vec<Error>>,
) -> bool {
    match r {
        Ok(resp) => exists|i: int, errs: Seq<Error>|
            {
                &&& 0 <= i < endpoints.len()
                &&& errs.len() == i
                &&& forall|k: int|
                    0 <= k < i ==> kv_attempted(f, endpoints[k]@, key, plan, Err(#[trigger] errs[k]))
                &&& kv_attempted(f, endpoints[i]@, key, plan, Ok(resp))
            },
        Err(errs) => {
            &&& errs@.len() == endpoints.len()
            &&& forall|k: int|
                0 <= k < endpoints.len() ==> kv_attempted(
                    f,
                    endpoints[k]@,
                    key,
                    plan,
                    Err(#[trigger] errs@[k]),
                )
        },
    }
}

/// Handles all get operations: builds the query, then tries each endpoint in
/// order through the failover dispatcher.
fn raw_get<F: Copy + Fn(&HttpRequest) -> Result<HttpResponse, TransportError>>(
    transport: F,
    endpoints: &Vec<String>,
    key: &str,
    options: crate::options::GetOptions,
) -> (r: Result<Response<KeyValueInfo>, Vec<Error>>)
    requires
        transport_total(transport),
    ensures
        kv_dispatched(transport, endpoints@, key@, KvPlan::Fetch(get_plan_of(options)), r),
{
    let plan: Ghost<GetPlan> = Ghost(get_plan_of(options));
    let query = build_get_query(plan, &options);
    let attempt = move |ep: &String| -> (out: Result<Response<KeyValueInfo>, Error>)
        ensures
            kv_attempted(transport, ep@, key@, KvPlan::Fetch(plan@), out),
        {
            let base = build_keys_url(ep.as_str(), key);
            match url_with_params(base.as_str(), &query) {
                Option::None => Err(invalid_url_error()),
                Option::Some(u) => {
                    let req = HttpRequest { method: Method::Get, url: u, body: None };
                    match transport(&req) {
                        Err(te) => Err(Error::Transport(te)),
                        Ok(hr) => classify_kv(&hr, false),
                    }
                },
            }
        };
    first_ok(endpoints, attempt)
}

/// Whether a conditions record is present but names no condition at all.
pub open spec fn empty_conditions(c: Option<ComparisonConditions>) -> bool {
    c matches Some(cc) && cc.value is None && cc.modified_index is None
}

/// The wire view of a delete request's options.
pub open spec fn delete_plan_of(o: DeleteOptions) -> DeletePlan {
    DeletePlan {
        recursive: o.recursive,
        dir: o.dir,
        prev_value: match o.conditions {
            Option::Some(c) => match c.value {
                Option::Some(s) => Some(s@),
                Option::None => None,
            },
            Option::None => None,
        },
        prev_index: match o.conditions {
            Option::Some(c) => c.modified_index,
            Option::None => None,
        },
    }
}

fn invalid_conditions_errors() -> (es: Vec<Error>)
    ensures
        es@ == seq![Error::InvalidConditions],
{
    let mut es: Vec<Error> = Vec::new();
    es.push(Error::InvalidConditions);
    proof {
        assert(es@ =~= seq![Error::InvalidConditions]);
    }
    es
}

/// Handles all delete operations: rejects empty conditions before any
/// endpoint is contacted, builds the query, then tries each endpoint in
/// order through the failover dispatcher.
fn raw_delete<F: Copy + Fn(&HttpRequest) -> Result<HttpResponse, TransportError>>(
    transport: F,
    endpoints: &Vec<String>,
    key: &str,
    options: DeleteOptions,
) -> (r: Result<Response<KeyValueInfo>, Vec<Error>>)
    requires
        transport_total(transport),
    ensures
        empty_conditions(options.conditions) ==> (r matches Err(es) && es@ == seq![
            Error::InvalidConditions,
        ]),
        !empty_conditions(options.conditions) ==> kv_dispatched(
            transport,
            endpoints@,
            key@,
            KvPlan::Remove(delete_plan_of(options)),
            r,
        ),
{
    let plan: Ghost<DeletePlan> = Ghost(delete_plan_of(options));
    let DeleteOptions { recursive, dir, conditions } = options;
    let (prev_value, prev_index): (Option<String>, Option<u64>) = match conditions {
        Option::Some(c) => {
            if c.is_empty() {
                return Err(invalid_conditions_errors());
            }
            (c.value, c.modified_index)
        },
        Option::None => (None, None),
    };
    let query = build_delete_query(plan, recursive, dir, &prev_value, prev_index);
    let attempt = move |ep: &String| -> (out: Result<Response<KeyValueInfo>, Error>)
        ensures
            kv_attempted(transport, ep@, key@, KvPlan::Remove(plan@), out),
        {
            let base = build_keys_url(ep.as_str(), key);
            match url_with_params(base.as_str(), &query) {
                Option::None => Err(invalid_url_error()),
                Option::Some(u) => {
                    let req = HttpRequest { method: Method::Delete, url: u, body: None };
                    match transport(&req) {
                        Err(te) => Err(Error::Transport(te)),
                        Ok(hr) => classify_kv(&hr, false),
                    }
                },
            }
        };
    first_ok(endpoints, attempt)
}

/// Handles all set operations: rejects empty conditions before any endpoint
/// is contacted, form-encodes the body, then tries each endpoint in order
/// through the failover dispatcher, with POST in place of PUT for
/// ordered-key creation.
fn raw_set<F: Copy + Fn(&HttpRequest) -> Result<HttpResponse, TransportError>>(
    transport: F,
    endpoints: &Vec<String>,
    key: &str,
    options: SetOptions,
) -> (r: Result<Response<KeyValueInfo>, Vec<Error>>)
    requires
        transport_total(transport),
    ensures
        empty_conditions(options.conditions) ==> (r matches Err(es) && es@ == seq![
            Error::InvalidConditions,
        ]),
        !empty_conditions(options.conditions) ==> kv_dispatched(
            transport,
            endpoints@,
            key@,
            KvPlan::Store(set_plan_of(options)),
            r,
        ),
{
    let plan: Ghost<SetPlan> = Ghost(set_plan_of(options));
    match &options.conditions {
        Option::Some(c) => {
            if c.is_empty() {
                return Err(invalid_conditions_errors());
            }
        },
        Option::None => (),
    }
    let create_in_order = options.create_in_order;
    let pairs = build_set_pairs(plan, &options);
    let body = form_encode(&pairs);
    let attempt = move |ep: &String| -> (out: Result<Response<KeyValueInfo>, Error>)
        ensures
            kv_attempted(transport, ep@, key@, KvPlan::Store(plan@), out),
        {
            let url = build_keys_url(ep.as_str(), key);
            let req = HttpRequest {
                method: if create_in_order {
                    Method::Post
                } else {
                    Method::Put
                },
                url,
                body: Some(body.clone()),
            };
            match transport(&req) {
                Err(te) => Err(Error::Transport(te)),
                Ok(hr) => classify_kv(&hr, true),
            }
        };
    first_ok(endpoints, attempt)
}

/// Gets the value of a node.
///
/// Fails if the key doesn't exist.
pub fn get<F: Copy + Fn(&HttpRequest) -> Result<HttpResponse, TransportError>>(
    transport: F,
    endpoints: &Vec<String>,
    key: &str,
    options: GetOptions,
) -> (r: Result<Response<KeyValueInfo>, Vec<Error>>)
    requires
        transport_total(transport),
    ensures
        kv_dispatched(
            transport,
            endpoints@,
            key@,
            KvPlan::Fetch(
                GetPlan {
                    recursive: options.recursive,
                    sort: Some(options.sort),
                    wait: false,
                    wait_index: None,
                },
            ),
            r,
        ),
{
    raw_get(
        transport,
        endpoints,
        key,
        crate::options::GetOptions {
            recursive: options.recursive,
            sort: Some(options.sort),
            strong_consistency: options.strong_consistency,
            wait: false,
            wait_index: None,
        },
    )
}

/// Sets the value of a key-value pair.
///
/// Any previous value and TTL will be replaced.
pub fn set<F: Copy + Fn(&HttpRequest) -> Result<HttpResponse, TransportError>>(
    transport: F,
    endpoints: &Vec<String>,
    key: &str,
    value: &str,
    ttl: Option<u64>,
) -> (r: Result<Response<KeyValueInfo>, Vec<Error>>)
    requires
        transport_total(transport),
    ensures
        kv_dispatched(
            transport,
            endpoints@,
            key@,
            KvPlan::Store(
                SetPlan {
                    value: Some(value@),
                    ttl,
                    dir: None,
                    prev_exist: None,
                    create_in_order: false,
                    prev_value: None,
                    prev_index: None,
                },
            ),
            r,
        ),
{
    raw_set(
        transport,
        endpoints,
        key,
        SetOptions {
            value: Some(value.to_owned()),
            ttl,
            dir: None,
            prev_exist: None,
            create_in_order: false,
            conditions: None,
        },
    )
}

/// Creates a new key-value pair.
///
/// Fails if the key already exists.
pub fn create<F: Copy + Fn(&HttpRequest) -> Result<HttpResponse, TransportError>>(
    transport: F,
    endpoints: &Vec<String>,
    key: &str,
    value: &str,
    ttl: Option<u64>,
) -> (r: Result<Response<KeyValueInfo>, Vec<Error>>)
    requires
        transport_total(transport),
    ensures
        kv_dispatched(
            transport,
            endpoints@,
            key@,
            KvPlan::Store(
                SetPlan {
                    value: Some(value@),
                    ttl,
                    dir: None,
                    prev_exist: Some(false),
                    create_in_order: false,
                    prev_value: None,
                    prev_index: None,
                },
            ),
            r,
        ),
{
    raw_set(
        transport,
        endpoints,
        key,
        SetOptions {
            value: Some(value.to_owned()),
            ttl,
            dir: None,
            prev_exist: Some(false),
            create_in_order: false,
            conditions: None,
        },
    )
}

/// Creates a new empty directory.
///
/// Fails if the key already exists.
pub fn create_dir<F: Copy + Fn(&HttpRequest) -> Result<HttpResponse, TransportError>>(
    transport: F,
    endpoints: &Vec<String>,
    key: &str,
    ttl: Option<u64>,
) -> (r: Result<Response<KeyValueInfo>, Vec<Error>>)
    requires
        transport_total(transport),
    ensures
        kv_dispatched(
            transport,
            endpoints@,
            key@,
            KvPlan::Store(
                SetPlan {
                    value: None,
                    ttl,
                    dir: Some(true),
                    prev_exist: Some(false),
                    create_in_order: false,
                    prev_value: None,
                    prev_index: None,
                },
            ),
            r,
        ),
{
    raw_set(
        transport,
        endpoints,
        key,
        SetOptions {
            value: None,
            ttl,
            dir: Some(true),
            prev_exist: Some(false),
            create_in_order: false,
            conditions: None,
        },
    )
}

/// Creates a new key-value pair in a directory with a numeric key name
/// larger than any of its sibling key-value pairs, a behavior guaranteed by
/// the server.
///
/// Fails if the key already exists and is not a directory.
pub fn create_in_order<F: Copy + Fn(&HttpRequest) -> Result<HttpResponse, TransportError>>(
    transport: F,
    endpoints: &Vec<String>,
    key: &str,
    value: &str,
    ttl: Option<u64>,
) -> (r: Result<Response<KeyValueInfo>, Vec<Error>>)
    requires
        transport_total(transport),
    ensures
        kv_dispatched(
            transport,
            endpoints@,
            key@,
            KvPlan::Store(
                SetPlan {
                    value: Some(value@),
                    ttl,
                    dir: None,
                    prev_exist: None,
                    create_in_order: true,
                    prev_value: None,
                    prev_index: None,
                },
            ),
            r,
        ),
{
    raw_set(
        transport,
        endpoints,
        key,
        SetOptions {
            value: Some(value.to_owned()),
            ttl,
            dir: None,
            prev_exist: None,
            create_in_order: true,
            conditions: None,
        },
    )
}

/// Updates an existing key-value pair.
///
/// Fails if the key does not exist.
pub fn update<F: Copy + Fn(&HttpRequest) -> Result<HttpResponse, TransportError>>(
    transport: F,
    endpoints: &Vec<String>,
    key: &str,
    value: &str,
    ttl: Option<u64>,
) -> (r: Result<Response<KeyValueInfo>, Vec<Error>>)
    requires
        transport_total(transport),
    ensures
        kv_dispatched(
            transport,
            endpoints@,
            key@,
            KvPlan::Store(
                SetPlan {
                    value: Some(value@),
                    ttl,
                    dir: None,
                    prev_exist: Some(true),
                    create_in_order: false,
                    prev_value: None,
                    prev_index: None,
                },
            ),
            r,
        ),
{
    raw_set(
        transport,
        endpoints,
        key,
        SetOptions {
            value: Some(value.to_owned()),
            ttl,
            dir: None,
            prev_exist: Some(true),
            create_in_order: false,
            conditions: None,
        },
    )
}

/// Updates a directory: if it already existed only the TTL is updated; a
/// key-value pair at the key loses its value and gets the new TTL.
///
/// Fails if the node does not exist.
pub fn update_dir<F: Copy + Fn(&HttpRequest) -> Result<HttpResponse, TransportError>>(
    transport: F,
    endpoints: &Vec<String>,
    key: &str,
    ttl: Option<u64>,
) -> (r: Result<Response<KeyValueInfo>, Vec<Error>>)
    requires
        transport_total(transport),
    ensures
        kv_dispatched(
            transport,
            endpoints@,
            key@,
            KvPlan::Store(
                SetPlan {
                    value: None,
                    ttl,
                    dir: Some(true),
                    prev_exist: Some(true),
                    create_in_order: false,
                    prev_value: None,
                    prev_index: None,
                },
            ),
            r,
        ),
{
    raw_set(
        transport,
        endpoints,
        key,
        SetOptions {
            value: None,
            ttl,
            dir: Some(true),
            prev_exist: Some(true),
            create_in_order: false,
            conditions: None,
        },
    )
}

/// Sets the key to an empty directory: an existing key-value pair is
/// replaced, an existing directory is not.
///
/// Fails if the node is an existing directory.
pub fn set_dir<F: Copy + Fn(&HttpRequest) -> Result<HttpResponse, TransportError>>(
    transport: F,
    endpoints: &Vec<String>,
    key: &str,
    ttl: Option<u64>,
) -> (r: Result<Response<KeyValueInfo>, Vec<Error>>)
    requires
        transport_total(transport),
    ensures
        kv_dispatched(
            transport,
            endpoints@,
            key@,
            KvPlan::Store(
                SetPlan {
                    value: None,
                    ttl,
                    dir: Some(true),
                    prev_exist: None,
                    create_in_order: false,
                    prev_value: None,
                    prev_index: None,
                },
            ),
            r,
        ),
{
    raw_set(
        transport,
        endpoints,
        key,
        SetOptions {
            value: None,
            ttl,
            dir: Some(true),
            prev_exist: None,
            create_in_order: false,
            conditions: None,
        },
    )
}

/// Deletes a node.
///
/// Fails if the key is a directory and `recursive` is `false`.
pub fn delete<F: Copy + Fn(&HttpRequest) -> Result<HttpResponse, TransportError>>(
    transport: F,
    endpoints: &Vec<String>,
    key: &str,
    recursive: bool,
) -> (r: Result<Response<KeyValueInfo>, Vec<Error>>)
    requires
        transport_total(transport),
    ensures
        kv_dispatched(
            transport,
            endpoints@,
            key@,
            KvPlan::Remove(
                DeletePlan {
                    recursive: Some(recursive),
                    dir: None,
                    prev_value: None,
                    prev_index: None,
                },
            ),
            r,
        ),
{
    raw_delete(
        transport,
        endpoints,
        key,
        DeleteOptions { recursive: Some(recursive), dir: None, conditions: None },
    )
}

/// Deletes an empty directory or a key-value pair at the given key.
///
/// Fails if the directory is not empty.
pub fn delete_dir<F: Copy + Fn(&HttpRequest) -> Result<HttpResponse, TransportError>>(
    transport: F,
    endpoints: &Vec<String>,
    key: &str,
) -> (r: Result<Response<KeyValueInfo>, Vec<Error>>)
    requires
        transport_total(transport),
    ensures
        kv_dispatched(
            transport,
            endpoints@,
            key@,
            KvPlan::Remove(
                DeletePlan { recursive: None, dir: Some(true), prev_value: None, prev_index: None },
            ),
            r,
        ),
{
    raw_delete(
        transport,
        endpoints,
        key,
        DeleteOptions { recursive: None, dir: Some(true), conditions: None },
    )
}

/// Deletes a node only if the given current value and/or current modified
/// index match.
///
/// Fails if the conditions didn't match, or, before any endpoint is
/// contacted, if no conditions were given.
pub fn compare_and_delete<F: Copy + Fn(&HttpRequest) -> Result<HttpResponse, TransportError>>(
    transport: F,
    endpoints: &Vec<String>,
    key: &str,
    current_value: Option<&str>,
    current_modified_index: Option<u64>,
) -> (r: Result<Response<KeyValueInfo>, Vec<Error>>)
    requires
        transport_total(transport),
    ensures
        current_value is None && current_modified_index is None ==> (r matches Err(es) && es@
            == seq![Error::InvalidConditions]),
        !(current_value is None && current_modified_index is None) ==> kv_dispatched(
            transport,
            endpoints@,
            key@,
            KvPlan::Remove(
                DeletePlan {
                    recursive: None,
                    dir: None,
                    prev_value: match current_value {
                        Option::Some(v) => Some(v@),
                        Option::None => None,
                    },
                    prev_index: current_modified_index,
                },
            ),
            r,
        ),
{
    let value: Option<String> = match current_value {
        Option::Some(v) => Some(v.to_owned()),
        Option::None => None,
    };
    raw_delete(
        transport,
        endpoints,
        key,
        DeleteOptions {
            recursive: None,
            dir: None,
            conditions: Some(
                ComparisonConditions { value, modified_index: current_modified_index },
            ),
        },
    )
}

/// Updates a node only if the given current value and/or current modified
/// index match.
///
/// Fails if the conditions didn't match, or, before any endpoint is
/// contacted, if no conditions were given.
pub fn compare_and_swap<F: Copy + Fn(&HttpRequest) -> Result<HttpResponse, TransportError>>(
    transport: F,
    endpoints: &Vec<String>,
    key: &str,
    value: &str,
    ttl: Option<u64>,
    current_value: Option<&str>,
    current_modified_index: Option<u64>,
) -> (r: Result<Response<KeyValueInfo>, Vec<Error>>)
    requires
        transport_total(transport),
    ensures
        current_value is None && current_modified_index is None ==> (r matches Err(es) && es@
            == seq![Error::InvalidConditions]),
        !(current_value is None && current_modified_index is None) ==> kv_dispatched(
            transport,
            endpoints@,
            key@,
            KvPlan::Store(
                SetPlan {
                    value: Some(value@),
                    ttl,
                    dir: None,
                    prev_exist: None,
                    create_in_order: false,
                    prev_value: match current_value {
                        Option::Some(v) => Some(v@),
                        Option::None => None,
                    },
                    prev_index: current_modified_index,
                },
            ),
            r,
        ),
{
    let prev: Option<String> = match current_value {
        Option::Some(v) => Some(v.to_owned()),
        Option::None => None,
    };
    raw_set(
        transport,
        endpoints,
        key,
        SetOptions {
            value: Some(value.to_owned()),
            ttl,
            dir: None,
            prev_exist: None,
            create_in_order: false,
            conditions: Some(
                ComparisonConditions { value: prev, modified_index: current_modified_index },
            ),
        },
    )
}

/// Collapses one layer of nesting in a result whose two layers share an error
/// type.
pub fn flatten_result<T, E>(res: Result<Result<T, E>, E>) -> (r: Result<T, E>)
    ensures
        match res {
            Ok(inner) => r == inner,
            Err(e) => r == Err::<T, E>(e),
        },
{
    match res {
        Ok(inner) => inner,
        Err(e) => Err(e),
    }
}

/// The request a watch puts on the wire: a get that long-polls, starting
/// from the given index when one was supplied.
pub open spec fn watch_plan(options: WatchOptions) -> GetPlan {
    GetPlan { recursive: options.recursive, sort: None, wait: true, wait_index: options.index }
}

/// Watches a node for changes and returns the new value as soon as a change
/// takes place.
///
/// This is the long-poll itself: it runs to completion or failure. A
/// configured timeout is enforced by racing this poll against a timer and
/// handing the race's outcome to [`watch_resolve`].
///
/// Fails if `options.index` is too old and has been flushed out of the
/// store's internal history of recent change events; the caller should then
/// query the key for its latest modified index and watch again from there.
pub fn watch<F: Copy + Fn(&HttpRequest) -> Result<HttpResponse, TransportError>>(
    transport: F,
    endpoints: &Vec<String>,
    key: &str,
    options: WatchOptions,
) -> (r: Result<Response<KeyValueInfo>, WatchError>)
    requires
        transport_total(transport),
    ensures
        match r {
            Ok(resp) => kv_dispatched(
                transport,
                endpoints@,
                key@,
                KvPlan::Fetch(watch_plan(options)),
                Ok(resp),
            ),
            Err(we) => we matches WatchError::Other(errs) && kv_dispatched(
                transport,
                endpoints@,
                key@,
                KvPlan::Fetch(watch_plan(options)),
                Err(errs),
            ),
        },
{
    let work = raw_get(
        transport,
        endpoints,
        key,
        crate::options::GetOptions {
            recursive: options.recursive,
            sort: None,
            strong_consistency: false,
            wait: true,
            wait_index: options.index,
        },
    );
    match work {
        Ok(resp) => Ok(resp),
        Err(errs) => Err(WatchError::Other(errs)),
    }
}

/// Resolves the race between a watch's long-poll and its timer: if the timer
/// won there is no poll outcome and the watch timed out; otherwise the
/// poll's own outcome stands.
pub fn watch_resolve(raced: Option<Result<Response<KeyValueInfo>, WatchError>>) -> (r: Result<
    Response<KeyValueInfo>,
    WatchError,
>)
    ensures
        match raced {
            Option::None => r == Err::<Response<KeyValueInfo>, WatchError>(WatchError::Timeout),
            Option::Some(inner) => r == inner,
        },
{
    match raced {
        Option::None => Err(WatchError::Timeout),
        Option::Some(inner) => inner,
    }
}

} // verus!
