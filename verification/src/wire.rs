//! The shapes that cross the transport boundary, and URL construction.
//!
//! The library never opens a connection itself: it builds a request plan
//! (verb, URL, optional form body), hands it to a transport supplied by the
//! caller, and classifies what comes back. The URL and the form body are
//! encoded by the `url` crate behind the trusted wrappers at the bottom of
//! this file.

use vstd::prelude::*;
use vstd::string::StringExecFns;

verus! {

/// The HTTP verb of a request plan.
#[derive(Clone, Copy, Debug, PartialEq, Eq, Structural)]
pub enum Method {
    /// DELETE.
    Delete,
    /// GET.
    Get,
    /// POST.
    Post,
    /// PUT.
    Put,
}

/// One request, ready for a transport to carry out.
#[derive(Clone, Debug, PartialEq, Eq)]
pub struct HttpRequest {
    /// The verb.
    pub method: Method,
    /// The full URL, query included.
    pub url: String,
    /// A form-encoded body, for the verbs that carry one.
    pub body: Option<String>,
}

/// The response headers the library reads: the cluster metadata.
#[derive(Clone, Debug, PartialEq, Eq, Default)]
pub struct ResponseHeaders {
    /// The value of the cluster-id header, if present.
    pub cluster_id: Option<String>,
    /// The value of the store-index header, if present.
    pub etcd_index: Option<String>,
    /// The value of the raft-index header, if present.
    pub raft_index: Option<String>,
    /// The value of the raft-term header, if present.
    pub raft_term: Option<String>,
}

/// What a transport hands back for one request.
#[derive(Clone, Debug, PartialEq, Eq)]
pub struct HttpResponse {
    /// The HTTP status code.
    pub status: u16,
    /// The headers the library reads.
    pub headers: ResponseHeaders,
    /// The raw body bytes.
    pub body: Vec<u8>,
}

/// The views of a list of key-value string pairs.
pub open spec fn pairs_view(s: Seq<(String, String)>) -> Seq<(Seq<char>, Seq<char>)> {
    s.map_values(|p: (String, String)| (p.0@, p.1@))
}

/// What the `url` crate produces for a base URL and query pairs: the full
/// URL with the pairs appended form-encoded as its query, if the base
/// parses.
pub uninterp spec fn url_with_query_of(base: Seq<char>, pairs: Seq<(Seq<char>, Seq<char>)>) -> Option<
    Seq<char>,
>;

/// Relies on url::Url::parse_with_params: parses the base URL and appends
/// each pair, form-encoded, to its query.
#[verifier::external_body]
pub fn url_with_params(base: &str, pairs: &Vec<(String, String)>) -> (r: Option<String>)
    ensures
        match r {
            Some(s) => url_with_query_of(base@, pairs_view(pairs@)) == Some(s@),
            None => url_with_query_of(base@, pairs_view(pairs@)) is None,
        },
{
    match url::Url::parse_with_params(base, pairs.iter()) {
        Ok(u) => Some(u.into()),
        Err(_) => None,
    }
}

/// What the `url` crate produces when the pairs are form-encoded on their
/// own, as a request body.
pub uninterp spec fn form_encoded_of(pairs: Seq<(Seq<char>, Seq<char>)>) -> Seq<char>;

/// Relies on url::form_urlencoded::Serializer: percent-encodes the pairs as
/// an application/x-www-form-urlencoded string.
#[verifier::external_body]
pub fn form_encode(pairs: &Vec<(String, String)>) -> (r: String)
    ensures
        r@ == form_encoded_of(pairs_view(pairs@)),
{
    let mut serializer = url::form_urlencoded::Serializer::new(String::new());
    serializer.extend_pairs(pairs.iter());
    serializer.finish()
}

/// Joins an endpoint's base URL and a path.
pub fn join_url(endpoint: &str, path: &str) -> (r: String)
    ensures
        r@ == endpoint@ + path@,
{
    let mut s = String::new();
    s.append(endpoint);
    s.append(path);
    proof {
        assert(s@ =~= endpoint@ + path@);
    }
    s
}

/// The full URL for a key-value API call, before the query is attached.
pub fn build_keys_url(endpoint: &str, key: &str) -> (r: String)
    ensures
        r@ == endpoint@ + "v2/keys"@ + key@,
{
    let mut s = String::new();
    s.append(endpoint);
    s.append("v2/keys");
    s.append(key);
    proof {
        assert(s@ =~= endpoint@ + "v2/keys"@ + key@);
    }
    s
}

} // verus!
