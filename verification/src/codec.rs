//! Decoding parsed JSON documents into the library's own types.
//!
//! Every decoder is written against a spec relation that pins the decoded
//! value's content, field by field, to the model of the document: the decoder
//! returns a value exactly when the relation holds of it, and fails exactly
//! when no value satisfies the relation.
//!
//! The field conventions mirror the store's wire format: an optional field is
//! absent when the key is missing or `null`; a present field of the wrong
//! type fails the whole decode.

use vstd::prelude::*;

use crate::error::ApiError;
use crate::json::{
    arr_rep, json_as_array, json_as_bool, json_as_i64, json_as_str, json_as_u64, json_get,
    json_get_i64, json_get_u64, json_is_null, json_is_object, json_rep, lemma_obj_lookup_decreases, obj_lookup,
    Json,
};
use crate::kv::{Action, KeyValueInfo, Node};
use crate::strutil::str_eq;

verus! {

broadcast use vstd::std_specs::vec::axiom_vec_decreases_to_view;

/// How an optional string field relates to an object's entries.
pub open spec fn str_field_ok(
    entries: Seq<(Seq<char>, Json)>,
    key: Seq<char>,
    field: Option<String>,
) -> bool {
    match obj_lookup(entries, key) {
        Option::None => field is None,
        Option::Some(j) => match j {
            Json::Null => field is None,
            Json::Str(s) => field matches Some(f) && f@ == s,
            _ => false,
        },
    }
}

/// How an optional `u64` field relates to an object's entries.
pub open spec fn u64_field_ok(
    entries: Seq<(Seq<char>, Json)>,
    key: Seq<char>,
    field: Option<u64>,
) -> bool {
    match obj_lookup(entries, key) {
        Option::None => field is None,
        Option::Some(j) => match j {
            Json::Null => field is None,
            _ => field == json_as_u64(j) && field is Some,
        },
    }
}

/// How an optional `i64` field relates to an object's entries.
pub open spec fn i64_field_ok(
    entries: Seq<(Seq<char>, Json)>,
    key: Seq<char>,
    field: Option<i64>,
) -> bool {
    match obj_lookup(entries, key) {
        Option::None => field is None,
        Option::Some(j) => match j {
            Json::Null => field is None,
            _ => field == json_as_i64(j) && field is Some,
        },
    }
}

/// How an optional `bool` field relates to an object's entries.
pub open spec fn bool_field_ok(
    entries: Seq<(Seq<char>, Json)>,
    key: Seq<char>,
    field: Option<bool>,
) -> bool {
    match obj_lookup(entries, key) {
        Option::None => field is None,
        Option::Some(j) => match j {
            Json::Null => field is None,
            Json::Bool(b) => field == Some(b),
            _ => false,
        },
    }
}

/// How a decoded node relates to the model of a document: the document is an
/// object, each scalar field matches the conventions above, and the child
/// nodes, if any, decode element by element.
pub open spec fn node_decoded(j: Json, n: Node) -> bool
    decreases n,
{
    match j {
        Json::Obj(entries) => {
            &&& u64_field_ok(entries, "createdIndex"@, n.created_index)
            &&& bool_field_ok(entries, "dir"@, n.dir)
            &&& str_field_ok(entries, "expiration"@, n.expiration)
            &&& str_field_ok(entries, "key"@, n.key)
            &&& u64_field_ok(entries, "modifiedIndex"@, n.modified_index)
            &&& i64_field_ok(entries, "ttl"@, n.ttl)
            &&& str_field_ok(entries, "value"@, n.value)
            &&& match obj_lookup(entries, "nodes"@) {
                Option::None => n.nodes is None,
                Option::Some(jn) => match jn {
                    Json::Null => n.nodes is None,
                    Json::Arr(elems) => match n.nodes {
                        Option::Some(children) => {
                            proof {
                                assert forall|i: int|
                                    0 <= i < children@.len() implies decreases_to!(
                                    n => children@[i]) by {
                                    assert(decreases_to!(n => n.nodes));
                                    assert(decreases_to!(n.nodes => children));
                                    assert(decreases_to!(children => children@));
                                    assert(decreases_to!(children@ => children@[i]));
                                }
                            }
                            elems.len() == children@.len() && (forall|i: int|
                                0 <= i < children@.len() ==> node_decoded(
                                    elems[i],
                                    #[trigger] children@[i],
                                ))
                        },
                        Option::None => false,
                    },
                    _ => false,
                },
            }
        },
        _ => false,
    }
}

/// Decodes an optional string field of an object.
fn decode_str_field(v: &serde_json::Value, key: &str) -> (r: Result<Option<String>, ()>)
    requires
        json_rep(*v) is Obj,
    ensures
        match r {
            Ok(field) => str_field_ok(json_rep(*v)->Obj_0, key@, field),
            Err(_) => forall|field: Option<String>|
                !str_field_ok(json_rep(*v)->Obj_0, key@, field),
        },
{
    match json_get(v, key) {
        Option::None => Ok(None),
        Option::Some(f) => {
            if json_is_null(f) {
                Ok(None)
            } else {
                match json_as_str(f) {
                    Option::Some(s) => Ok(Some(s.to_owned())),
                    Option::None => Err(()),
                }
            }
        },
    }
}

/// Decodes an optional `u64` field of an object.
fn decode_u64_field(v: &serde_json::Value, key: &str) -> (r: Result<Option<u64>, ()>)
    requires
        json_rep(*v) is Obj,
    ensures
        match r {
            Ok(field) => u64_field_ok(json_rep(*v)->Obj_0, key@, field),
            Err(_) => forall|field: Option<u64>| !u64_field_ok(json_rep(*v)->Obj_0, key@, field),
        },
{
    match json_get(v, key) {
        Option::None => Ok(None),
        Option::Some(f) => {
            if json_is_null(f) {
                Ok(None)
            } else {
                match json_get_u64(f) {
                    Option::Some(n) => Ok(Some(n)),
                    Option::None => Err(()),
                }
            }
        },
    }
}

/// Decodes an optional `i64` field of an object.
fn decode_i64_field(v: &serde_json::Value, key: &str) -> (r: Result<Option<i64>, ()>)
    requires
        json_rep(*v) is Obj,
    ensures
        match r {
            Ok(field) => i64_field_ok(json_rep(*v)->Obj_0, key@, field),
            Err(_) => forall|field: Option<i64>| !i64_field_ok(json_rep(*v)->Obj_0, key@, field),
        },
{
    match json_get(v, key) {
        Option::None => Ok(None),
        Option::Some(f) => {
            if json_is_null(f) {
                Ok(None)
            } else {
                match json_get_i64(f) {
                    Option::Some(n) => Ok(Some(n)),
                    Option::None => Err(()),
                }
            }
        },
    }
}

/// Decodes an optional `bool` field of an object.
fn decode_bool_field(v: &serde_json::Value, key: &str) -> (r: Result<Option<bool>, ()>)
    requires
        json_rep(*v) is Obj,
    ensures
        match r {
            Ok(field) => bool_field_ok(json_rep(*v)->Obj_0, key@, field),
            Err(_) => forall|field: Option<bool>| !bool_field_ok(json_rep(*v)->Obj_0, key@, field),
        },
{
    match json_get(v, key) {
        Option::None => Ok(None),
        Option::Some(f) => {
            if json_is_null(f) {
                Ok(None)
            } else {
                match json_as_bool(f) {
                    Option::Some(b) => Ok(Some(b)),
                    Option::None => Err(()),
                }
            }
        },
    }
}

/// Decodes a node from the model of a parsed document.
///
/// Returns the node exactly described by [`node_decoded`], or fails when no
/// node is.
pub fn decode_node(v: &serde_json::Value) -> (r: Result<Node, ()>)
    ensures
        match r {
            Ok(n) => node_decoded(json_rep(*v), n),
            Err(_) => forall|n: Node| !node_decoded(json_rep(*v), n),
        },
    decreases json_rep(*v),
{
    let ghost j = json_rep(*v);
    if !json_is_object(v) {
        proof {
            assert forall|n: Node| !node_decoded(j, n) by {}
        }
        return Err(());
    }
    let created_index = match decode_u64_field(v, "createdIndex") {
        Ok(field) => field,
        Err(_) => {
            proof {
                assert forall|n: Node| !node_decoded(j, n) by {
                    if node_decoded(j, n) {
                        assert(u64_field_ok(j->Obj_0, "createdIndex"@, n.created_index));
                    }
                }
            }
            return Err(());
        },
    };
    let dir = match decode_bool_field(v, "dir") {
        Ok(field) => field,
        Err(_) => {
            proof {
                assert forall|n: Node| !node_decoded(j, n) by {
                    if node_decoded(j, n) {
                        assert(bool_field_ok(j->Obj_0, "dir"@, n.dir));
                    }
                }
            }
            return Err(());
        },
    };
    let expiration = match decode_str_field(v, "expiration") {
        Ok(field) => field,
        Err(_) => {
            proof {
                assert forall|n: Node| !node_decoded(j, n) by {
                    if node_decoded(j, n) {
                        assert(str_field_ok(j->Obj_0, "expiration"@, n.expiration));
                    }
                }
            }
            return Err(());
        },
    };
    let key = match decode_str_field(v, "key") {
        Ok(field) => field,
        Err(_) => {
            proof {
                assert forall|n: Node| !node_decoded(j, n) by {
                    if node_decoded(j, n) {
                        assert(str_field_ok(j->Obj_0, "key"@, n.key));
                    }
                }
            }
            return Err(());
        },
    };
    let modified_index = match decode_u64_field(v, "modifiedIndex") {
        Ok(field) => field,
        Err(_) => {
            proof {
                assert forall|n: Node| !node_decoded(j, n) by {
                    if node_decoded(j, n) {
                        assert(u64_field_ok(j->Obj_0, "modifiedIndex"@, n.modified_index));
                    }
                }
            }
            return Err(());
        },
    };
    let ttl = match decode_i64_field(v, "ttl") {
        Ok(field) => field,
        Err(_) => {
            proof {
                assert forall|n: Node| !node_decoded(j, n) by {
                    if node_decoded(j, n) {
                        assert(i64_field_ok(j->Obj_0, "ttl"@, n.ttl));
                    }
                }
            }
            return Err(());
        },
    };
    let value = match decode_str_field(v, "value") {
        Ok(field) => field,
        Err(_) => {
            proof {
                assert forall|n: Node| !node_decoded(j, n) by {
                    if node_decoded(j, n) {
                        assert(str_field_ok(j->Obj_0, "value"@, n.value));
                    }
                }
            }
            return Err(());
        },
    };
    let nodes: Option<Vec<Node>> = match json_get(v, "nodes") {
        Option::None => None,
        Option::Some(f) => {
            if json_is_null(f) {
                None
            } else {
                match json_as_array(f) {
                    Option::None => {
                        proof {
                            assert forall|n: Node| !node_decoded(j, n) by {
                                if node_decoded(j, n) {
                                    assert(json_rep(*f) is Arr);
                                }
                            }
                        }
                        return Err(());
                    },
                    Option::Some(arr) => {
                        let mut children: Vec<Node> = Vec::new();
                        let ghost elems = arr_rep(arr@);
                        let mut i: usize = 0;
                        proof {
                            lemma_obj_lookup_decreases(j->Obj_0, "nodes"@, json_rep(*f));
                        }
                        while i < arr.len()
                            invariant
                                j == json_rep(*v),
                                j is Obj,
                                obj_lookup(j->Obj_0, "nodes"@) == Some(json_rep(*f)),
                                json_rep(*f) == Json::Arr(elems),
                                elems == arr_rep(arr@),
                                decreases_to!(j => json_rep(*f)),
                                0 <= i <= arr@.len(),
                                children@.len() == i,
                                forall|k: int|
                                    0 <= k < i ==> node_decoded(elems[k], #[trigger] children@[k]),
                            decreases arr@.len() - i,
                        {
                            proof {
                                let jf = json_rep(*f);
                                assert(decreases_to!(jf => jf->Arr_0));
                                assert(decreases_to!(elems => elems[i as int]));
                                assert(elems[i as int] == json_rep(arr@[i as int]));
                            }
                            match decode_node(&arr[i]) {
                                Ok(child) => {
                                    children.push(child);
                                },
                                Err(_) => {
                                    proof {
                                        assert forall|n: Node| !node_decoded(j, n) by {
                                            if node_decoded(j, n) {
                                                let cs = n.nodes->0;
                                                assert(node_decoded(
                                                    elems[i as int],
                                                    cs@[i as int],
                                                ));
                                            }
                                        }
                                    }
                                    return Err(());
                                },
                            }
                            i += 1;
                        }
                        Some(children)
                    },
                }
            }
        },
    };
    let n = Node { created_index, dir, expiration, key, modified_index, nodes, ttl, value };
    proof {
        assert(node_decoded(j, n));
    }
    Ok(n)
}

/// The action named by the server in a response, if the name is recognized.
pub open spec fn action_of(s: Seq<char>) -> Option<Action> {
    if s == "compareAndDelete"@ {
        Some(Action::CompareAndDelete)
    } else if s == "compareAndSwap"@ {
        Some(Action::CompareAndSwap)
    } else if s == "create"@ {
        Some(Action::Create)
    } else if s == "delete"@ {
        Some(Action::Delete)
    } else if s == "expire"@ {
        Some(Action::Expire)
    } else if s == "get"@ {
        Some(Action::Get)
    } else if s == "set"@ {
        Some(Action::Put)
    } else if s == "update"@ {
        Some(Action::Update)
    } else {
        None
    }
}

/// Recognizes the server's name for an action.
pub fn action_from_str(s: &str) -> (r: Option<Action>)
    ensures
        r == action_of(s@),
{
    if str_eq(s, "compareAndDelete") {
        Some(Action::CompareAndDelete)
    } else if str_eq(s, "compareAndSwap") {
        Some(Action::CompareAndSwap)
    } else if str_eq(s, "create") {
        Some(Action::Create)
    } else if str_eq(s, "delete") {
        Some(Action::Delete)
    } else if str_eq(s, "expire") {
        Some(Action::Expire)
    } else if str_eq(s, "get") {
        Some(Action::Get)
    } else if str_eq(s, "set") {
        Some(Action::Put)
    } else if str_eq(s, "update") {
        Some(Action::Update)
    } else {
        None
    }
}

/// How a required string field relates to an object's entries: the key must
/// be present and hold a string.
pub open spec fn req_str_field_ok(
    entries: Seq<(Seq<char>, Json)>,
    key: Seq<char>,
    field: String,
) -> bool {
    match obj_lookup(entries, key) {
        Option::Some(j) => j matches Json::Str(s) && field@ == s,
        Option::None => false,
    }
}

/// Decodes a required string field of an object.
pub(crate) fn decode_req_str_field(v: &serde_json::Value, key: &str) -> (r: Result<String, ()>)
    requires
        json_rep(*v) is Obj,
    ensures
        match r {
            Ok(field) => req_str_field_ok(json_rep(*v)->Obj_0, key@, field),
            Err(_) => forall|field: String| !req_str_field_ok(json_rep(*v)->Obj_0, key@, field),
        },
{
    match json_get(v, key) {
        Option::Some(f) => match json_as_str(f) {
            Option::Some(s) => Ok(s.to_owned()),
            Option::None => Err(()),
        },
        Option::None => Err(()),
    }
}

/// How a decoded operation result relates to the model of a document: an
/// object carrying a recognized `action` name, a `node`, and possibly a
/// `prevNode`.
pub open spec fn kvinfo_decoded(j: Json, info: KeyValueInfo) -> bool {
    match j {
        Json::Obj(entries) => {
            &&& match obj_lookup(entries, "action"@) {
                Option::Some(ja) => ja matches Json::Str(s) && action_of(s) == Some(info.action),
                Option::None => false,
            }
            &&& match obj_lookup(entries, "node"@) {
                Option::Some(jn) => node_decoded(jn, info.node),
                Option::None => false,
            }
            &&& match obj_lookup(entries, "prevNode"@) {
                Option::None => info.prev_node is None,
                Option::Some(jp) => match jp {
                    Json::Null => info.prev_node is None,
                    _ => info.prev_node matches Some(p) && node_decoded(jp, p),
                },
            }
        },
        _ => false,
    }
}

/// Decodes an operation result from the model of a parsed document.
///
/// Returns the result exactly described by [`kvinfo_decoded`], or fails when
/// no result is.
pub fn decode_kv_info(v: &serde_json::Value) -> (r: Result<KeyValueInfo, ()>)
    ensures
        match r {
            Ok(info) => kvinfo_decoded(json_rep(*v), info),
            Err(_) => forall|info: KeyValueInfo| !kvinfo_decoded(json_rep(*v), info),
        },
{
    let ghost j = json_rep(*v);
    if !json_is_object(v) {
        proof {
            assert forall|info: KeyValueInfo| !kvinfo_decoded(j, info) by {}
        }
        return Err(());
    }
    let action = match json_get(v, "action") {
        Option::Some(ja) => match json_as_str(ja) {
            Option::Some(s) => match action_from_str(s) {
                Option::Some(a) => a,
                Option::None => {
                    return Err(());
                },
            },
            Option::None => {
                return Err(());
            },
        },
        Option::None => {
            return Err(());
        },
    };
    let node = match json_get(v, "node") {
        Option::Some(jn) => match decode_node(jn) {
            Ok(n) => n,
            Err(_) => {
                proof {
                    assert forall|info: KeyValueInfo| !kvinfo_decoded(j, info) by {
                        if kvinfo_decoded(j, info) {
                            assert(node_decoded(json_rep(*jn), info.node));
                        }
                    }
                }
                return Err(());
            },
        },
        Option::None => {
            return Err(());
        },
    };
    let prev_node = match json_get(v, "prevNode") {
        Option::None => None,
        Option::Some(jp) => {
            if json_is_null(jp) {
                None
            } else {
                match decode_node(jp) {
                    Ok(p) => Some(p),
                    Err(_) => {
                        proof {
                            assert forall|info: KeyValueInfo| !kvinfo_decoded(j, info) by {
                                if kvinfo_decoded(j, info) {
                                    assert(node_decoded(json_rep(*jp), info.prev_node->0));
                                }
                            }
                        }
                        return Err(());
                    },
                }
            }
        },
    };
    Ok(KeyValueInfo { action, node, prev_node })
}

/// How a decoded structured error payload relates to the model of a
/// document: an object with a numeric `errorCode`, a `message`, and possibly
/// a `cause` and an `index`.
pub open spec fn api_error_decoded(j: Json, e: ApiError) -> bool {
    match j {
        Json::Obj(entries) => {
            &&& match obj_lookup(entries, "errorCode"@) {
                Option::Some(jc) => json_as_u64(jc) == Some(e.error_code),
                Option::None => false,
            }
            &&& req_str_field_ok(entries, "message"@, e.message)
            &&& str_field_ok(entries, "cause"@, e.cause)
            &&& u64_field_ok(entries, "index"@, e.index)
        },
        _ => false,
    }
}

/// Decodes a structured error payload from the model of a parsed document.
///
/// Returns the payload exactly described by [`api_error_decoded`], or fails
/// when no payload is.
pub fn decode_api_error(v: &serde_json::Value) -> (r: Result<ApiError, ()>)
    ensures
        match r {
            Ok(e) => api_error_decoded(json_rep(*v), e),
            Err(_) => forall|e: ApiError| !api_error_decoded(json_rep(*v), e),
        },
{
    let ghost j = json_rep(*v);
    if !json_is_object(v) {
        proof {
            assert forall|e: ApiError| !api_error_decoded(j, e) by {}
        }
        return Err(());
    }
    let error_code = match json_get(v, "errorCode") {
        Option::Some(jc) => match json_get_u64(jc) {
            Option::Some(n) => n,
            Option::None => {
                return Err(());
            },
        },
        Option::None => {
            return Err(());
        },
    };
    let message = match decode_req_str_field(v, "message") {
        Ok(m) => m,
        Err(_) => {
            proof {
                assert forall|e: ApiError| !api_error_decoded(j, e) by {
                    if api_error_decoded(j, e) {
                        assert(req_str_field_ok(j->Obj_0, "message"@, e.message));
                    }
                }
            }
            return Err(());
        },
    };
    let cause = match decode_str_field(v, "cause") {
        Ok(c) => c,
        Err(_) => {
            proof {
                assert forall|e: ApiError| !api_error_decoded(j, e) by {
                    if api_error_decoded(j, e) {
                        assert(str_field_ok(j->Obj_0, "cause"@, e.cause));
                    }
                }
            }
            return Err(());
        },
    };
    let index = match decode_u64_field(v, "index") {
        Ok(i) => i,
        Err(_) => {
            proof {
                assert forall|e: ApiError| !api_error_decoded(j, e) by {
                    if api_error_decoded(j, e) {
                        assert(u64_field_ok(j->Obj_0, "index"@, e.index));
                    }
                }
            }
            return Err(());
        },
    };
    Ok(ApiError { error_code, message, cause, index })
}

/// Whether two optional strings hold the same characters.
pub open spec fn opt_str_eqv(a: Option<String>, b: Option<String>) -> bool {
    match (a, b) {
        (Option::Some(x), Option::Some(y)) => x@ == y@,
        (Option::None, Option::None) => true,
        _ => false,
    }
}

/// Whether two nodes hold the same content: field for field the same
/// presence and the same characters, child for child.
pub open spec fn node_eqv(a: Node, b: Node) -> bool
    decreases a,
{
    &&& a.created_index == b.created_index
    &&& a.dir == b.dir
    &&& opt_str_eqv(a.expiration, b.expiration)
    &&& opt_str_eqv(a.key, b.key)
    &&& a.modified_index == b.modified_index
    &&& a.ttl == b.ttl
    &&& opt_str_eqv(a.value, b.value)
    &&& match (a.nodes, b.nodes) {
        (Option::Some(ca), Option::Some(cb)) => {
            proof {
                assert forall|i: int| 0 <= i < ca@.len() implies decreases_to!(a => ca@[i]) by {
                    assert(decreases_to!(a => a.nodes));
                    assert(decreases_to!(a.nodes => ca));
                    assert(decreases_to!(ca => ca@));
                    assert(decreases_to!(ca@ => ca@[i]));
                }
            }
            ca@.len() == cb@.len() && (forall|i: int|
                0 <= i < ca@.len() ==> node_eqv(#[trigger] ca@[i], cb@[i]))
        },
        (Option::None, Option::None) => true,
        _ => false,
    }
}

/// Decoding is unambiguous: any two nodes that [`node_decoded`] relates to
/// the same document hold the same content. Together with `decode_node`'s
/// contract, this pins what the decoder returns.
pub proof fn lemma_node_decode_unique(j: Json, a: Node, b: Node)
    requires
        node_decoded(j, a),
        node_decoded(j, b),
    ensures
        node_eqv(a, b),
    decreases a,
{
    let entries = j->Obj_0;
    match (a.nodes, b.nodes) {
        (Option::Some(ca), Option::Some(cb)) => {
            match obj_lookup(entries, "nodes"@) {
                Option::Some(jn) => match jn {
                    Json::Arr(elems) => {
                        assert forall|i: int| 0 <= i < ca@.len() implies node_eqv(
                            #[trigger] ca@[i],
                            cb@[i],
                        ) by {
                            assert(decreases_to!(a => a.nodes));
                            assert(decreases_to!(a.nodes => ca));
                            assert(decreases_to!(ca => ca@));
                            assert(decreases_to!(ca@ => ca@[i]));
                            lemma_node_decode_unique(elems[i], ca@[i], cb@[i]);
                        }
                    },
                    _ => {},
                },
                Option::None => {},
            }
        },
        _ => {},
    }
}

/// Decoding an operation result is unambiguous as well: same action, same
/// node content, same previous-node content.
pub proof fn lemma_kvinfo_decode_unique(j: Json, a: KeyValueInfo, b: KeyValueInfo)
    requires
        kvinfo_decoded(j, a),
        kvinfo_decoded(j, b),
    ensures
        a.action == b.action,
        node_eqv(a.node, b.node),
        match (a.prev_node, b.prev_node) {
            (Option::Some(pa), Option::Some(pb)) => node_eqv(pa, pb),
            (Option::None, Option::None) => true,
            _ => false,
        },
{
    let entries = j->Obj_0;
    match obj_lookup(entries, "node"@) {
        Option::Some(jn) => {
            lemma_node_decode_unique(jn, a.node, b.node);
        },
        Option::None => {},
    }
    match (a.prev_node, b.prev_node) {
        (Option::Some(pa), Option::Some(pb)) => {
            match obj_lookup(entries, "prevNode"@) {
                Option::Some(jp) => {
                    lemma_node_decode_unique(jp, pa, pb);
                },
                Option::None => {},
            }
        },
        _ => {},
    }
}

} // verus!
